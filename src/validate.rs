//! Path validation for a filesystem server confined to allowed directories.
//!
//! Resolving a path consults the disk; what holds of every outcome is stated
//! below, and the decision that follows is verified for each.

use vstd::prelude::*;

verus! {

/// Why a path was refused.
#[derive(Clone, Debug, PartialEq, Eq)]
pub enum ValidateError {
    /// The resolved path (given here) lies outside every allowed directory.
    NotAllowed(String),
    /// The path contains a null byte.
    NullByte,
    /// Resolving the path failed (the cause is given here).
    Io(String),
}

impl ValidateError {
    /// The human-readable description of the error.
    pub open spec fn describe(self) -> Seq<char> {
        match self {
            ValidateError::NotAllowed(p) => "path not allowed: "@ + p@,
            ValidateError::NullByte => "path contains null byte"@,
            ValidateError::Io(m) => "io error: "@ + m@,
        }
    }

    /// The human-readable description of the error.
    pub fn message(&self) -> (r: String)
        ensures
            r@ == self.describe(),
    {
        match self {
            ValidateError::NotAllowed(p) => String::from_str("path not allowed: ").concat(p.as_str()),
            ValidateError::NullByte => String::from_str("path contains null byte"),
            ValidateError::Io(m) => String::from_str("io error: ").concat(m.as_str()),
        }
    }
}

/// The parent of a path, lexically: `None` for a root or an empty path.
pub uninterp spec fn path_parent(p: Seq<char>) -> Option<Seq<char>>;

/// The final component of a path, lexically: `None` when it ends in `..`.
pub uninterp spec fn path_file_name(p: Seq<char>) -> Option<Seq<char>>;

/// `name` joined onto `base`.
pub uninterp spec fn path_join(base: Seq<char>, name: Seq<char>) -> Seq<char>;

/// Whether `base` is a prefix of `p`, component by component.
pub uninterp spec fn path_starts_with(p: Seq<char>, base: Seq<char>) -> bool;

/// Relies on `Path::exists`: whether the path names something on disk.
#[verifier::external_body]
fn path_exists(p: &str) -> (r: bool) {
    std::path::Path::new(p).exists()
}

/// Relies on `Path::canonicalize`: the absolute form of an existing path,
/// with symbolic links, `.` and `..` resolved; the error's description
/// otherwise.
#[verifier::external_body]
fn canonical_path(p: &str) -> (r: Result<String, String>) {
    std::path::Path::new(p).canonicalize().map(|c| c.to_string_lossy().into_owned()).map_err(
        |e| e.to_string(),
    )
}

/// Relies on `Path::parent`.
#[verifier::external_body]
fn parent_of(p: &str) -> (r: Option<String>)
    ensures
        match r {
            Some(s) => path_parent(p@) == Some(s@),
            None => path_parent(p@) is None,
        },
{
    std::path::Path::new(p).parent().map(|q| q.to_string_lossy().into_owned())
}

/// Relies on `Path::file_name`.
#[verifier::external_body]
fn file_name_of(p: &str) -> (r: Option<String>)
    ensures
        match r {
            Some(s) => path_file_name(p@) == Some(s@),
            None => path_file_name(p@) is None,
        },
{
    std::path::Path::new(p).file_name().map(|q| q.to_string_lossy().into_owned())
}

/// Relies on `Path::join`.
#[verifier::external_body]
fn join_path(base: &str, name: &str) -> (r: String)
    ensures
        r@ == path_join(base@, name@),
{
    std::path::Path::new(base).join(name).to_string_lossy().into_owned()
}

/// Relies on `Path::starts_with`.
#[verifier::external_body]
fn starts_with_path(p: &str, base: &str) -> (r: bool)
    ensures
        r == path_starts_with(p@, base@),
{
    std::path::Path::new(p).starts_with(base)
}

/// Whether some directory of `dirs` is a prefix of `p`.
pub open spec fn within_some(p: Seq<char>, dirs: Seq<String>) -> bool {
    exists|i: int| 0 <= i < dirs.len() && path_starts_with(p, #[trigger] dirs[i]@)
}

/// Checks whether `path` lies in one of `allowed_dirs`.
pub fn is_within(path: &str, allowed_dirs: &[String]) -> (r: bool)
    ensures
        r == within_some(path@, allowed_dirs@),
{
    let mut i: usize = 0;
    while i < allowed_dirs.len()
        invariant
            0 <= i <= allowed_dirs@.len(),
            forall|j: int| 0 <= j < i ==> !path_starts_with(path@, #[trigger] allowed_dirs@[j]@),
        decreases allowed_dirs@.len() - i,
    {
        if starts_with_path(path, allowed_dirs[i].as_str()) {
            return true;
        }
        i += 1;
    }
    false
}

/// Checks for a null character.
fn has_null(s: &str) -> (r: bool)
    ensures
        r == s@.contains('\0'),
{
    let n = s.unicode_len();
    let mut i: usize = 0;
    while i < n
        invariant
            n == s@.len(),
            0 <= i <= n,
            forall|j: int| 0 <= j < i ==> s@[j] != '\0',
        decreases n - i,
    {
        if s.get_char(i) == '\0' {
            return true;
        }
        i += 1;
    }
    false
}

/// Resolves `path` and checks that it lies in one of `allowed_dirs`.
///
/// A path with a null character is refused. An existing path is
/// canonicalized; a path that does not exist yet is resolved through its
/// canonicalized parent. The resolved path is returned when some allowed
/// directory is a prefix of it.
pub fn validate_path(path: &str, allowed_dirs: &[String]) -> (r: Result<String, ValidateError>)
    ensures
        path@.contains('\0') <==> r == Err::<String, ValidateError>(ValidateError::NullByte),
        r matches Ok(c) ==> within_some(c@, allowed_dirs@),
        r matches Err(ValidateError::NotAllowed(c)) ==> !within_some(c@, allowed_dirs@),
{
    if has_null(path) {
        return Err(ValidateError::NullByte);
    }
    let canonical = if path_exists(path) {
        match canonical_path(path) {
            Ok(c) => c,
            Err(e) => return Err(ValidateError::Io(e)),
        }
    } else {
        let parent = match parent_of(path) {
            Some(p) => p,
            None => return Err(ValidateError::Io(String::from_str("parent directory not found"))),
        };
        let canon_parent = match canonical_path(parent.as_str()) {
            Ok(c) => c,
            Err(e) => return Err(ValidateError::Io(e)),
        };
        let file_name = match file_name_of(path) {
            Some(f) => f,
            None => return Err(ValidateError::Io(String::from_str("no file name"))),
        };
        join_path(canon_parent.as_str(), file_name.as_str())
    };
    check_resolved(canonical, allowed_dirs)
}

/// Decides on a resolved path: accepted when some allowed directory is a
/// prefix of it, refused as not allowed otherwise.
pub fn check_resolved(canonical: String, allowed_dirs: &[String]) -> (r: Result<String, ValidateError>)
    ensures
        within_some(canonical@, allowed_dirs@) ==> r == Ok::<String, ValidateError>(canonical),
        !within_some(canonical@, allowed_dirs@) ==> r == Err::<String, ValidateError>(
            ValidateError::NotAllowed(canonical),
        ),
{
    if !is_within(canonical.as_str(), allowed_dirs) {
        return Err(ValidateError::NotAllowed(canonical));
    }
    Ok(canonical)
}

/// The successful results of `s`, in order.
pub open spec fn resolved(s: Seq<Result<String, String>>) -> Seq<String>
    decreases s.len(),
{
    if s.len() == 0 {
        Seq::empty()
    } else {
        match s.last() {
            Ok(v) => resolved(s.drop_last()).push(v),
            Err(_) => resolved(s.drop_last()),
        }
    }
}

/// Keeps the directories that could be resolved, in order.
pub fn keep_resolved(results: Vec<Result<String, String>>) -> (r: Vec<String>)
    ensures
        r@ == resolved(results@),
{
    let mut out: Vec<String> = Vec::new();
    let mut i: usize = 0;
    while i < results.len()
        invariant
            0 <= i <= results@.len(),
            out@ == resolved(results@.subrange(0, i as int)),
        decreases results@.len() - i,
    {
        assert(results@.subrange(0, i + 1).drop_last() =~= results@.subrange(0, i as int));
        match &results[i] {
            Ok(c) => out.push(c.clone()),
            Err(_) => {},
        }
        i += 1;
    }
    assert(results@.subrange(0, results@.len() as int) =~= results@);
    out
}

/// Canonicalizes directories, leaving out those that cannot be resolved;
/// the others keep their order.
pub fn canonicalize_dirs(dirs: Vec<String>) -> (r: Vec<String>)
    ensures
        exists|results: Seq<Result<String, String>>| results.len() == dirs@.len() && r@ == resolved(results),
{
    let mut results: Vec<Result<String, String>> = Vec::new();
    let mut i: usize = 0;
    while i < dirs.len()
        invariant
            0 <= i <= dirs@.len(),
            results@.len() == i,
        decreases dirs@.len() - i,
    {
        results.push(canonical_path(dirs[i].as_str()));
        i += 1;
    }
    let ghost rs = results@;
    keep_resolved(results)
}

} // verus!
