//! Where an inspection client connects: a remote URL or a local command.

use vstd::prelude::*;

verus! {

/// Target MCP server of an inspection.
#[derive(Clone, Debug)]
pub enum Target {
    /// Remote server at `url`, with an optional bearer token.
    Remote { url: String, auth: Option<String> },
    /// Server launched as `program` with `args`, spoken to over stdio.
    Stdio { program: String, args: Vec<String> },
}

/// Whether `s` starts with `http://` or `https://`.
pub open spec fn is_http_url(s: Seq<char>) -> bool {
    (s.len() >= 7 && s.subrange(0, 7) == "http://"@) || (s.len() >= 8 && s.subrange(0, 8)
        == "https://"@)
}

/// Checks for an `http://` or `https://` prefix.
fn http_url(s: &str) -> (r: bool)
    ensures
        r == is_http_url(s@),
{
    proof {
        reveal_strlit("http://");
        reveal_strlit("https://");
    }
    let n = s.unicode_len();
    if n < 7 {
        return false;
    }
    let head = s.get_char(0) == 'h' && s.get_char(1) == 't' && s.get_char(2) == 't'
        && s.get_char(3) == 'p';
    if !head {
        assert(s@.subrange(0, 7)[0] != "http://"@[0] || s@.subrange(0, 7)[1] != "http://"@[1]
            || s@.subrange(0, 7)[2] != "http://"@[2] || s@.subrange(0, 7)[3] != "http://"@[3]);
        assert(n < 8 || s@.subrange(0, 8)[0] != "https://"@[0] || s@.subrange(0, 8)[1]
            != "https://"@[1] || s@.subrange(0, 8)[2] != "https://"@[2] || s@.subrange(0, 8)[3]
            != "https://"@[3]);
        return false;
    }
    let plain = s.get_char(4) == ':' && s.get_char(5) == '/' && s.get_char(6) == '/';
    if plain {
        assert(s@.subrange(0, 7) =~= "http://"@);
        return true;
    }
    assert(s@.subrange(0, 7)[4] != "http://"@[4] || s@.subrange(0, 7)[5] != "http://"@[5]
        || s@.subrange(0, 7)[6] != "http://"@[6]);
    if n < 8 {
        return false;
    }
    let secure = s.get_char(4) == 's' && s.get_char(5) == ':' && s.get_char(6) == '/'
        && s.get_char(7) == '/';
    if secure {
        assert(s@.subrange(0, 8) =~= "https://"@);
    } else {
        assert(s@.subrange(0, 8)[4] != "https://"@[4] || s@.subrange(0, 8)[5] != "https://"@[5]
            || s@.subrange(0, 8)[6] != "https://"@[6] || s@.subrange(0, 8)[7]
            != "https://"@[7]);
    }
    secure
}

impl Target {
    /// Reads command-line target arguments: a first argument that starts
    /// with `http://` or `https://` is a remote URL (the rest is ignored);
    /// otherwise the arguments are a command and its arguments.
    pub fn parse(target: Vec<String>, auth: Option<String>) -> (r: Self)
        requires
            target@.len() >= 1,
        ensures
            is_http_url(target@[0]@) ==> r == (Target::Remote { url: target@[0], auth }),
            !is_http_url(target@[0]@) ==> (r matches Target::Stdio { program, args } && program
                == target@[0] && args@ == target@.drop_first()),
    {
        let first = target[0].clone();
        if http_url(first.as_str()) {
            Target::Remote { url: first, auth }
        } else {
            let mut args: Vec<String> = Vec::new();
            let mut i: usize = 1;
            while i < target.len()
                invariant
                    1 <= i <= target@.len(),
                    args@ == target@.subrange(1, i as int),
                decreases target@.len() - i,
            {
                args.push(target[i].clone());
                assert(args@ =~= target@.subrange(1, i + 1));
                i += 1;
            }
            assert(args@ =~= target@.drop_first());
            Target::Stdio { program: first, args }
        }
    }
}

} // verus!
