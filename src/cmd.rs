//! Command line of the inspection tool with subcommands, and the reading of
//! `key=value` tool arguments.

use vstd::prelude::*;
use serde_json::Value;

verus! {

/// Arguments of the inspection tool.
#[derive(Clone, Debug)]
pub struct App {
    /// Bearer token for remote servers.
    pub auth: Option<String>,
    /// The subcommand.
    pub command: Command,
}

/// A subcommand, with its target server (a URL or a command).
#[derive(Clone, Debug)]
pub enum Command {
    /// List the server's tools.
    Tool { target: Vec<String> },
    /// List the server's prompts.
    Prompt { target: Vec<String> },
    /// List the server's resources.
    Resource { target: Vec<String> },
    /// Generate registry metadata from the live server.
    Meta { target: Vec<String> },
    /// Call tool `name` with `key=value` arguments.
    Call { name: String, args: Vec<String>, target: Vec<String> },
}

/// What to do once connected.
#[derive(Clone, Debug)]
pub enum CommandAction {
    Tool,
    Prompt,
    Resource,
    Meta,
    Call { name: String, args: Vec<String> },
}

/// The target of a subcommand.
pub open spec fn target_of(c: Command) -> Seq<String> {
    match c {
        Command::Tool { target } => target@,
        Command::Prompt { target } => target@,
        Command::Resource { target } => target@,
        Command::Meta { target } => target@,
        Command::Call { target, .. } => target@,
    }
}

impl Command {
    /// Separates the target server from what is to be done there.
    pub fn into_action(self) -> (r: (Vec<String>, CommandAction))
        ensures
            r.0@ == target_of(self),
            self is Tool ==> r.1 is Tool,
            self is Prompt ==> r.1 is Prompt,
            self is Resource ==> r.1 is Resource,
            self is Meta ==> r.1 is Meta,
            self matches Command::Call { name, args, .. } ==> r.1 == (CommandAction::Call { name, args }),
    {
        match self {
            Command::Tool { target } => (target, CommandAction::Tool),
            Command::Prompt { target } => (target, CommandAction::Prompt),
            Command::Resource { target } => (target, CommandAction::Resource),
            Command::Meta { target } => (target, CommandAction::Meta),
            Command::Call { name, args, target } => (target, CommandAction::Call { name, args }),
        }
    }
}

#[verifier::external_type_specification]
#[verifier::external_body]
pub struct ExValue(Value);


/// Splits `key=value` at its first `=`.
pub fn split_key_value(arg: &str) -> (r: Option<(String, String)>)
    ensures
        r is None <==> !arg@.contains('='),
        r matches Some((k, v)) ==> {
            let i = k@.len() as int;
            &&& i < arg@.len()
            &&& arg@[i] == '='
            &&& forall|j: int| 0 <= j < i ==> arg@[j] != '='
            &&& k@ == arg@.subrange(0, i)
            &&& v@ == arg@.subrange(i + 1, arg@.len() as int)
        },
{
    let n = arg.unicode_len();
    let mut i: usize = 0;
    while i < n
        invariant
            n == arg@.len(),
            0 <= i <= n,
            forall|j: int| 0 <= j < i ==> arg@[j] != '=',
        decreases n - i,
    {
        if arg.get_char(i) == '=' {
            let k = String::from_str(arg.substring_char(0, i));
            let v = String::from_str(arg.substring_char(i + 1, n));
            return Some((k, v));
        }
        i += 1;
    }
    None
}

/// Relies on `serde_json::from_str`: the JSON value that `s` denotes, if
/// it is JSON.
#[verifier::external_body]
fn parse_json(s: &str) -> (r: Option<Value>) {
    serde_json::from_str::<Value>(s).ok()
}

/// Relies on `serde_json::Value::String`: a JSON string.
#[verifier::external_body]
fn json_string(s: String) -> (r: Value) {
    Value::String(s)
}

/// Reads tool arguments given as `key=value`: each value is parsed as JSON,
/// and taken as a plain string where it is not JSON. No arguments give
/// `None`; an argument without `=` is returned as the error.
pub fn parse_args(args: &[String]) -> (r: Result<Option<Vec<(String, Value)>>, String>)
    ensures
        args@.len() == 0 ==> r == Ok::<Option<Vec<(String, Value)>>, String>(None),
        (exists|i: int| 0 <= i < args@.len() && !(#[trigger] args@[i])@.contains('='))
            <==> r is Err,
        r matches Err(a) ==> exists|i: int| 0 <= i < args@.len() && (#[trigger] args@[i]) == a,
        r matches Ok(Some(pairs)) ==> pairs@.len() == args@.len() && forall|i: int|
            0 <= i < args@.len() ==> {
                let k = (#[trigger] pairs@[i]).0@;
                &&& args@[i]@.len() > k.len()
                &&& args@[i]@[k.len() as int] == '='
                &&& !k.contains('=')
                &&& k == args@[i]@.subrange(0, k.len() as int)
            },
{
    if args.len() == 0 {
        return Ok(None);
    }
    let mut pairs: Vec<(String, Value)> = Vec::new();
    let mut i: usize = 0;
    while i < args.len()
        invariant
            0 <= i <= args@.len(),
            args@.len() > 0,
            pairs@.len() == i,
            forall|j: int| 0 <= j < i ==> (#[trigger] args@[j])@.contains('='),
            forall|j: int|
                0 <= j < i ==> {
                    let k = (#[trigger] pairs@[j]).0@;
                    &&& args@[j]@.len() > k.len()
                    &&& args@[j]@[k.len() as int] == '='
                    &&& !k.contains('=')
                    &&& k == args@[j]@.subrange(0, k.len() as int)
                },
        decreases args@.len() - i,
    {
        match split_key_value(args[i].as_str()) {
            Some((key, raw)) => {
                let value = match parse_json(raw.as_str()) {
                    Some(v) => v,
                    None => json_string(raw),
                };
                pairs.push((key, value));
            },
            None => {
                return Err(args[i].clone());
            },
        }
        i += 1;
    }
    Ok(Some(pairs))
}

} // verus!
