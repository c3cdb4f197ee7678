//! Credential extraction from request headers.

use vstd::prelude::*;
use crate::error::AuthError;

verus! {

/// A byte that a header value may hold as text: visible ASCII or tab.
pub open spec fn is_text_byte(b: u8) -> bool {
    (32 <= b && b < 127) || b == 9
}

/// Whether a header value can be read as text.
pub open spec fn is_header_text(b: Seq<u8>) -> bool {
    forall|i: int| 0 <= i < b.len() ==> is_text_byte(#[trigger] b[i])
}

/// The characters of ASCII bytes.
pub open spec fn ascii_chars(b: Seq<u8>) -> Seq<char> {
    b.map_values(|x: u8| x as char)
}

/// The bytes of `Bearer `.
pub open spec fn bearer_prefix() -> Seq<u8> {
    seq![66u8, 101u8, 97u8, 114u8, 101u8, 114u8, 32u8]
}

/// Whether `b` starts with `Bearer ` (case-sensitive).
pub open spec fn has_bearer_prefix(b: Seq<u8>) -> bool {
    b.len() >= 7 && b.subrange(0, 7) == bearer_prefix()
}

/// Outcome of reading a bearer token out of the `Authorization` header
/// value `h` (`None` when the header is absent).
pub open spec fn bearer_outcome(h: Option<Seq<u8>>) -> Result<Seq<char>, ()> {
    match h {
        None => Err(()),
        Some(b) => if is_header_text(b) && has_bearer_prefix(b) {
            Ok(ascii_chars(b.subrange(7, b.len() as int)))
        } else {
            Err(())
        },
    }
}

/// Whether all bytes are ASCII.
pub open spec fn is_ascii_bytes(b: Seq<u8>) -> bool {
    forall|i: int| 0 <= i < b.len() ==> #[trigger] b[i] < 128
}

/// Relies on `std::str::from_utf8`: ASCII bytes are valid UTF-8 and each
/// byte is one character.
#[verifier::external_body]
fn ascii_to_string(b: &[u8]) -> (r: Option<String>)
    ensures
        is_ascii_bytes(b@) ==> r is Some,
        is_ascii_bytes(b@) && r is Some ==> r.unwrap()@ == ascii_chars(b@),
{
    std::str::from_utf8(b).ok().map(|s| s.to_string())
}

/// Checks that a header value is text.
fn header_text(b: &[u8]) -> (r: bool)
    ensures
        r == is_header_text(b@),
{
    let mut i: usize = 0;
    while i < b.len()
        invariant
            0 <= i <= b@.len(),
            forall|j: int| 0 <= j < i ==> is_text_byte(#[trigger] b@[j]),
        decreases b@.len() - i,
    {
        let c = b[i];
        if !((32 <= c && c < 127) || c == 9) {
            return false;
        }
        i += 1;
    }
    true
}

/// Checks for the `Bearer ` prefix.
fn bearer_prefixed(b: &[u8]) -> (r: bool)
    ensures
        r == has_bearer_prefix(b@),
{
    if b.len() < 7 {
        return false;
    }
    let r = b[0] == 66 && b[1] == 101 && b[2] == 97 && b[3] == 114 && b[4] == 101 && b[5]
        == 114 && b[6] == 32;
    assert(r == (b@.subrange(0, 7) =~= bearer_prefix()));
    r
}

/// Name of the header that carries bearer tokens.
pub open spec fn authorization_name() -> Seq<char> {
    "authorization"@
}

/// Reads the token of an `Authorization: Bearer <token>` header, given the
/// header's raw value (`None` when absent).
pub fn bearer_credential(header: Option<&[u8]>) -> (r: Result<String, AuthError>)
    ensures
        header is None ==> (r matches Err(AuthError::MissingCredential(n)) && n@
            == authorization_name()),
        header matches Some(b) ==> match bearer_outcome(Some(b@)) {
            Ok(t) => r matches Ok(s) && s@ == t,
            Err(_) => r == Err::<String, AuthError>(AuthError::MalformedCredential),
        },
{
    match header {
        None => Err(AuthError::MissingCredential(String::from_str("authorization"))),
        Some(b) => {
            if !header_text(b) || !bearer_prefixed(b) {
                return Err(AuthError::MalformedCredential);
            }
            assert forall|i: int| 0 <= i < b@.len() implies #[trigger] b@[i] < 128 by {
                assert(is_text_byte(b@[i]));
            }
            match ascii_to_string(b) {
                Some(text) => {
                    let n = text.as_str().unicode_len();
                    let token = text.as_str().substring_char(7, n);
                    let t = String::from_str(token);
                    assert(t@ =~= ascii_chars(b@.subrange(7, b@.len() as int)));
                    Ok(t)
                },
                None => Err(AuthError::MalformedCredential),
            }
        },
    }
}

/// Reads an API key from the header `name`, given that header's raw value
/// (`None` when absent). A value that is not readable text counts as
/// absent; any other value is passed on as it stands.
pub fn api_key_credential(name: &str, value: Option<&[u8]>) -> (r: Result<String, AuthError>)
    ensures
        match value {
            Some(b) if is_header_text(b@) => r is Ok && r->Ok_0@ == ascii_chars(b@),
            _ => r is Err && r->Err_0 is MissingCredential && r->Err_0->MissingCredential_0@
                == name@,
        },
{
    match value {
        None => Err(AuthError::MissingCredential(String::from_str(name))),
        Some(b) => {
            if !header_text(b) {
                return Err(AuthError::MissingCredential(String::from_str(name)));
            }
            assert forall|i: int| 0 <= i < b@.len() implies #[trigger] b@[i] < 128 by {
                assert(is_text_byte(b@[i]));
            }
            match ascii_to_string(b) {
                Some(text) => Ok(text),
                None => Err(AuthError::MissingCredential(String::from_str(name))),
            }
        },
    }
}

} // verus!
