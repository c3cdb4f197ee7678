//! Token claims and their normalization.

use vstd::prelude::*;
use crate::oauth::opt_view;

verus! {

/// Standard OAuth 2.1 claims of a validated token.
#[derive(Clone, Debug)]
pub struct OAuthClaims {
    /// The subject; empty when the token names none.
    pub sub: String,
    /// The issuer.
    pub iss: Option<String>,
    /// The audience, always as a list.
    pub aud: Option<Vec<String>>,
    /// Granted scopes, in token order.
    pub scope: Vec<String>,
    /// Expiration time, in seconds since the epoch.
    pub exp: Option<u64>,
}

/// The audience as a token states it: one string or a list.
#[derive(Clone, Debug)]
pub enum Audience {
    Single(String),
    Multiple(Vec<String>),
}

/// Claims as they appear in a token's payload.
#[derive(Clone, Debug)]
pub struct RawClaims {
    pub sub: Option<String>,
    pub iss: Option<String>,
    pub aud: Option<Audience>,
    /// Space-delimited scopes.
    pub scope: Option<String>,
    pub exp: Option<u64>,
}

/// The audience as a list: a single string becomes a list of one; a list
/// is kept as the token gives it, so an empty list stays empty.
pub open spec fn audience_list(a: Audience) -> Seq<Seq<char>> {
    match a {
        Audience::Single(s) => seq![s@],
        Audience::Multiple(v) => v.deep_view(),
    }
}

impl Audience {
    /// The audience as a list: a single string becomes a list of one.
    pub fn into_vec(self) -> (r: Vec<String>)
        ensures
            r.deep_view() == audience_list(self),
    {
        match self {
            Audience::Single(s) => {
                let mut v: Vec<String> = Vec::new();
                v.push(s);
                assert(v.deep_view() =~= seq![s@]);
                v
            },
            Audience::Multiple(v) => v,
        }
    }
}

/// The Unicode `White_Space` property of a character: tab to carriage
/// return, space, next line, no-break space, ogham space mark, the spaces
/// from en quad to hair space, line and paragraph separators, narrow
/// no-break space, medium mathematical space and ideographic space.
pub open spec fn unicode_whitespace(c: char) -> bool {
    ('\u{9}' <= c && c <= '\u{d}') || c == ' ' || c == '\u{85}' || c == '\u{a0}' || c == '\u{1680}'
        || ('\u{2000}' <= c && c <= '\u{200a}') || c == '\u{2028}' || c == '\u{2029}' || c
        == '\u{202f}' || c == '\u{205f}' || c == '\u{3000}'
}

/// Whether `c` has the Unicode `White_Space` property, as
/// `char::is_whitespace` decides it.
pub fn is_whitespace(c: char) -> (r: bool)
    ensures
        r == unicode_whitespace(c),
{
    ('\u{9}' <= c && c <= '\u{d}') || c == ' ' || c == '\u{85}' || c == '\u{a0}' || c == '\u{1680}'
        || ('\u{2000}' <= c && c <= '\u{200a}') || c == '\u{2028}' || c == '\u{2029}' || c
        == '\u{202f}' || c == '\u{205f}' || c == '\u{3000}'
}

/// The run of non-whitespace characters that ends `s`.
pub open spec fn trailing_word(s: Seq<char>) -> Seq<char>
    decreases s.len(),
{
    if s.len() == 0 || unicode_whitespace(s.last()) {
        Seq::empty()
    } else {
        trailing_word(s.drop_last()).push(s.last())
    }
}

/// The words of `s` that whitespace has closed.
pub open spec fn closed_words(s: Seq<char>) -> Seq<Seq<char>>
    decreases s.len(),
{
    if s.len() == 0 {
        Seq::empty()
    } else if unicode_whitespace(s.last()) && trailing_word(s.drop_last()).len() > 0 {
        closed_words(s.drop_last()).push(trailing_word(s.drop_last()))
    } else {
        closed_words(s.drop_last())
    }
}

/// The maximal runs of non-whitespace characters of `s`, in order.
pub open spec fn words(s: Seq<char>) -> Seq<Seq<char>> {
    if trailing_word(s).len() > 0 {
        closed_words(s).push(trailing_word(s))
    } else {
        closed_words(s)
    }
}

/// Splits `s` at whitespace into its non-empty words, in order.
pub fn split_whitespace(s: &str) -> (r: Vec<String>)
    ensures
        r.deep_view() == words(s@),
{
    let n = s.unicode_len();
    let mut out: Vec<String> = Vec::new();
    let mut start: usize = 0;
    let mut i: usize = 0;
    while i < n
        invariant
            n == s@.len(),
            start <= i <= n,
            out.deep_view() == closed_words(s@.subrange(0, i as int)),
            trailing_word(s@.subrange(0, i as int)) == s@.subrange(start as int, i as int),
        decreases n - i,
    {
        let c = s.get_char(i);
        let ghost pre = s@.subrange(0, i as int);
        let ghost next = s@.subrange(0, i + 1);
        assert(next.drop_last() =~= pre);
        assert(next.last() == c);
        if is_whitespace(c) {
            if start < i {
                let w = String::from_str(s.substring_char(start, i));
                out.push(w);
                assert(out.deep_view() =~= closed_words(pre).push(trailing_word(pre)));
            }
            start = i + 1;
            assert(trailing_word(next) =~= s@.subrange(start as int, i + 1));
        } else {
            assert(trailing_word(next) =~= s@.subrange(start as int, i + 1));
        }
        i += 1;
    }
    assert(s@.subrange(0, n as int) =~= s@);
    if start < n {
        let w = String::from_str(s.substring_char(start, n));
        out.push(w);
        assert(out.deep_view() =~= words(s@));
    }
    out
}

/// Scopes of a space-delimited scope claim; none when absent.
pub open spec fn scope_list(scope: Option<String>) -> Seq<Seq<char>> {
    match scope {
        Some(s) => words(s@),
        None => Seq::empty(),
    }
}

/// The subject, empty when absent.
pub open spec fn subject_of(sub: Option<String>) -> Seq<char> {
    match sub {
        Some(s) => s@,
        None => Seq::empty(),
    }
}

/// The audience as a list, when present.
pub open spec fn audience_of(aud: Option<Audience>) -> Option<Seq<Seq<char>>> {
    match aud {
        Some(a) => Some(audience_list(a)),
        None => None,
    }
}

/// The view of an optional list of strings.
pub open spec fn opt_list_view(v: Option<Vec<String>>) -> Option<Seq<Seq<char>>> {
    match v {
        Some(l) => Some(l.deep_view()),
        None => None,
    }
}

/// `c` holds the claims of `raw`, normalized.
pub open spec fn normalizes(raw: RawClaims, c: OAuthClaims) -> bool {
    &&& c.sub@ == subject_of(raw.sub)
    &&& opt_view(c.iss) == opt_view(raw.iss)
    &&& opt_list_view(c.aud) == audience_of(raw.aud)
    &&& c.scope.deep_view() == scope_list(raw.scope)
    &&& c.exp == raw.exp
}

/// Normalizes the claims of a token: the subject defaults to empty, the
/// audience becomes a list, the scope string is split at whitespace.
pub fn normalize_claims(raw: RawClaims) -> (r: OAuthClaims)
    ensures
        normalizes(raw, r),
{
    let sub = match raw.sub {
        Some(s) => s,
        None => String::new(),
    };
    let aud = match raw.aud {
        Some(a) => Some(a.into_vec()),
        None => None,
    };
    let scope = match &raw.scope {
        Some(s) => split_whitespace(s.as_str()),
        None => Vec::new(),
    };
    proof {
        if raw.scope is None {
            assert(scope.deep_view() =~= Seq::<Seq<char>>::empty());
        }
        if raw.sub is None {
            assert(sub@ =~= Seq::<char>::empty());
        }
    }
    OAuthClaims { sub, iss: raw.iss, aud, scope, exp: raw.exp }
}

/// Scope `"a b c"` normalizes to the scopes `a`, `b`, `c`, in order; an
/// absent scope normalizes to none.
pub proof fn lemma_scope_normalization(raw: RawClaims, c: OAuthClaims)
    requires
        normalizes(raw, c),
    ensures
        raw.scope matches Some(s) && s@ == seq!['a', ' ', 'b', ' ', 'c'] ==> c.scope.deep_view()
            == seq![seq!['a'], seq!['b'], seq!['c']],
        raw.scope is None ==> c.scope.deep_view() == Seq::<Seq<char>>::empty(),
{
    let s5 = seq!['a', ' ', 'b', ' ', 'c'];
    let s4 = seq!['a', ' ', 'b', ' '];
    let s3 = seq!['a', ' ', 'b'];
    let s2 = seq!['a', ' '];
    let s1 = seq!['a'];
    let s0 = Seq::<char>::empty();
    assert(s5.drop_last() =~= s4);
    assert(s4.drop_last() =~= s3);
    assert(s3.drop_last() =~= s2);
    assert(s2.drop_last() =~= s1);
    assert(s1.drop_last() =~= s0);
    assert(trailing_word(s0) == s0);
    assert(trailing_word(s1) =~= seq!['a']);
    assert(trailing_word(s2) == s0);
    assert(trailing_word(s3) =~= seq!['b']);
    assert(trailing_word(s4) == s0);
    assert(trailing_word(s5) =~= seq!['c']);
    assert(closed_words(s1) == closed_words(s0));
    assert(closed_words(s2) =~= seq![seq!['a']]);
    assert(closed_words(s3) == closed_words(s2));
    assert(closed_words(s4) =~= seq![seq!['a'], seq!['b']]);
    assert(closed_words(s5) == closed_words(s4));
    assert(words(s5) =~= seq![seq!['a'], seq!['b'], seq!['c']]);
}

} // verus!
