use rmcp_axum::client::Target;
use rmcp_axum::cmd::{parse_args, split_key_value, Command, CommandAction};
use serde_json::Value;

fn strings(v: &[&str]) -> Vec<String> {
    v.iter().map(|s| s.to_string()).collect()
}

#[test]
fn https_target_is_remote() {
    match Target::parse(strings(&["https://example.com/mcp", "ignored"]), Some("tok".to_string())) {
        Target::Remote { url, auth } => {
            assert_eq!(url, "https://example.com/mcp");
            assert_eq!(auth.as_deref(), Some("tok"));
        }
        Target::Stdio { .. } => panic!("expected remote"),
    }
}

#[test]
fn http_target_is_remote() {
    assert!(matches!(Target::parse(strings(&["http://localhost:8080"]), None), Target::Remote { .. }));
}

#[test]
fn command_target_is_stdio() {
    match Target::parse(strings(&["npx", "-y", "server"]), Some("tok".to_string())) {
        Target::Stdio { program, args } => {
            assert_eq!(program, "npx");
            assert_eq!(args, strings(&["-y", "server"]));
        }
        Target::Remote { .. } => panic!("expected stdio"),
    }
    assert!(matches!(Target::parse(strings(&["httpx://a"]), None), Target::Stdio { .. }));
}

#[test]
fn key_value_splits_at_first_equals() {
    assert_eq!(split_key_value("a=b=c"), Some(("a".to_string(), "b=c".to_string())));
    assert_eq!(split_key_value("novalue"), None);
}

#[test]
fn args_parse_json_or_string() {
    let parsed = parse_args(&strings(&["n=3", "s=hello", "o={\"k\":true}"])).unwrap().unwrap();
    assert_eq!(parsed.len(), 3);
    assert_eq!(parsed[0].0, "n");
    assert_eq!(parsed[0].1, Value::from(3));
    assert_eq!(parsed[1].1, Value::String("hello".to_string()));
    assert!(parsed[2].1.is_object());
}

#[test]
fn no_args_is_none_and_bad_arg_is_error() {
    assert!(parse_args(&[]).unwrap().is_none());
    assert_eq!(parse_args(&strings(&["a=1", "oops"])).unwrap_err(), "oops");
}

#[test]
fn subcommand_splits_target_and_action() {
    let (target, action) = Command::Call {
        name: "get_time".to_string(),
        args: strings(&["tz=UTC"]),
        target: strings(&["./server"]),
    }
    .into_action();
    assert_eq!(target, strings(&["./server"]));
    match action {
        CommandAction::Call { name, args } => {
            assert_eq!(name, "get_time");
            assert_eq!(args, strings(&["tz=UTC"]));
        }
        _ => panic!("expected call"),
    }
    let (target, action) = Command::Meta { target: strings(&["https://x"]) }.into_action();
    assert_eq!(target, strings(&["https://x"]));
    assert!(matches!(action, CommandAction::Meta));
}
