use rmcp_axum::tools::{apply_edits, build_diff, EditOperation};
use rmcp_axum::validate::{canonicalize_dirs, check_resolved, keep_resolved, validate_path, ValidateError};

#[test]
fn rejects_path_outside_dir() {
    let allowed = canonicalize_dirs(vec!["/tmp/wmcp_nonexistent_dir_xyz".into()]);
    let result = validate_path("/etc/passwd", &allowed);
    assert!(result.is_err());
}

#[test]
fn null_byte_is_refused() {
    let allowed = canonicalize_dirs(vec!["/".into()]);
    assert_eq!(validate_path("/tmp/foo\0bar", &allowed), Err(ValidateError::NullByte));
}

#[test]
fn root_allows_existing_path() {
    let allowed = canonicalize_dirs(vec!["/".into()]);
    assert_eq!(allowed, vec!["/".to_string()]);
    assert_eq!(validate_path("/", &allowed), Ok("/".to_string()));
}

#[test]
fn outside_path_is_named_in_error() {
    let allowed = canonicalize_dirs(vec!["/proc/self".into()]);
    match validate_path("/", &allowed) {
        Err(ValidateError::NotAllowed(p)) => assert_eq!(p, "/"),
        other => panic!("unexpected {other:?}"),
    }
}

#[test]
fn unresolvable_dirs_are_left_out() {
    let r = keep_resolved(vec![Ok("/a".to_string()), Err("gone".to_string()), Ok("/b".to_string())]);
    assert_eq!(r, vec!["/a".to_string(), "/b".to_string()]);
}

#[test]
fn validate_error_messages() {
    assert_eq!(ValidateError::NullByte.message(), "path contains null byte");
    assert_eq!(ValidateError::NotAllowed("/x".to_string()).message(), "path not allowed: /x");
    assert_eq!(ValidateError::Io("boom".to_string()).message(), "io error: boom");
}

#[test]
fn diff_marks_changed_lines() {
    assert_eq!(build_diff("a\nb\nc\n", "a\nB\nc\nd\n"), " a\n-b\n+B\n c\n+d\n");
}

#[test]
fn diff_of_removed_lines_and_crlf() {
    assert_eq!(build_diff("x\r\ny\r\nz", "x\n"), " x\n-y\n-z\n");
    assert_eq!(build_diff("", ""), "");
}

#[test]
fn nonexistent_file_resolves_through_parent() {
    let allowed = canonicalize_dirs(vec!["/".into()]);
    assert_eq!(
        validate_path("/wmcp_nonexistent_file_test.txt", &allowed),
        Ok("/wmcp_nonexistent_file_test.txt".to_string())
    );
}

#[test]
fn missing_parent_is_io_error() {
    let allowed = canonicalize_dirs(vec!["/".into()]);
    assert!(matches!(
        validate_path("/wmcp_nonexistent_dir_xyz/file.txt", &allowed),
        Err(ValidateError::Io(_))
    ));
}

fn edit(old: &str, new: &str) -> EditOperation {
    EditOperation { old_text: old.to_string(), new_text: new.to_string() }
}

#[test]
fn edits_replace_first_occurrence_in_order() {
    assert_eq!(apply_edits("hello world", &vec![edit("world", "there")]), Ok("hello there".to_string()));
    assert_eq!(apply_edits("a", &vec![edit("a", "b"), edit("b", "c")]), Ok("c".to_string()));
    assert_eq!(apply_edits("aa", &vec![edit("a", "x")]), Ok("xa".to_string()));
    assert_eq!(apply_edits("h\u{e9}llo", &vec![edit("\u{e9}", "e")]), Ok("hello".to_string()));
}

#[test]
fn empty_old_text_inserts_at_start() {
    assert_eq!(apply_edits("abc", &vec![edit("", "X")]), Ok("Xabc".to_string()));
}

#[test]
fn missing_old_text_is_reported() {
    assert_eq!(
        apply_edits("abc", &vec![edit("a", "z"), edit("q\"r", "y")]),
        Err("Text not found in file: \"q\\\"r\"".to_string())
    );
}

#[test]
fn resolved_path_is_decided_by_prefix() {
    let dirs = vec!["/srv/data".to_string()];
    assert_eq!(check_resolved("/srv/data/a.txt".to_string(), &dirs), Ok("/srv/data/a.txt".to_string()));
    assert_eq!(
        check_resolved("/srv/database".to_string(), &dirs),
        Err(ValidateError::NotAllowed("/srv/database".to_string()))
    );
}
