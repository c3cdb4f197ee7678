//! Parameters of the filesystem server's tools, and the line diff that its
//! edit tool reports.

use vstd::prelude::*;

verus! {

/// Parameters for reading a single file.
#[derive(Clone, Debug)]
pub struct ReadFileParams {
    /// Path to the file to read.
    pub path: String,
}

/// Parameters for reading multiple files.
#[derive(Clone, Debug)]
pub struct ReadMultipleFilesParams {
    /// Paths to the files to read.
    pub paths: Vec<String>,
}

/// Parameters for writing a file.
#[derive(Clone, Debug)]
pub struct WriteFileParams {
    /// Path to the file to write.
    pub path: String,
    /// Content to write to the file.
    pub content: String,
}

/// A single text edit.
#[derive(Clone, Debug)]
pub struct EditOperation {
    /// The text to search for.
    pub old_text: String,
    /// The replacement text.
    pub new_text: String,
}

/// Parameters for editing a file.
#[derive(Clone, Debug)]
pub struct EditFileParams {
    /// Path to the file to edit.
    pub path: String,
    /// Edits, applied in order.
    pub edits: Vec<EditOperation>,
    /// When true, report the diff without writing.
    pub dry_run: Option<bool>,
}

/// Parameters for creating a directory.
#[derive(Clone, Debug)]
pub struct CreateDirectoryParams {
    /// Path of the directory to create.
    pub path: String,
}

/// Parameters for listing a directory.
#[derive(Clone, Debug)]
pub struct ListDirectoryParams {
    /// Path to the directory to list.
    pub path: String,
}

/// Parameters for a directory tree.
#[derive(Clone, Debug)]
pub struct DirectoryTreeParams {
    /// Path to the root directory of the tree.
    pub path: String,
}

/// Parameters for moving a file or directory.
#[derive(Clone, Debug)]
pub struct MoveFileParams {
    /// Source path.
    pub source: String,
    /// Destination path.
    pub destination: String,
}

/// Parameters for searching files.
#[derive(Clone, Debug)]
pub struct SearchFilesParams {
    /// Base directory to search in.
    pub path: String,
    /// Glob pattern to match (e.g. `**/*.rs`).
    pub pattern: String,
    /// Glob patterns to exclude from results.
    pub exclude_patterns: Option<Vec<String>>,
}

/// Parameters for getting file metadata.
#[derive(Clone, Debug)]
pub struct GetFileInfoParams {
    /// Path to the file or directory.
    pub path: String,
}

/// Index of the first line feed of `s`, or its length when it has none.
pub open spec fn line_end(s: Seq<char>) -> nat
    decreases s.len(),
{
    if s.len() == 0 || s[0] == '\n' {
        0
    } else {
        1 + line_end(s.drop_first())
    }
}

proof fn lemma_line_end_bound(s: Seq<char>)
    ensures
        line_end(s) <= s.len(),
    decreases s.len(),
{
    if s.len() > 0 && s[0] != '\n' {
        lemma_line_end_bound(s.drop_first());
    }
}

/// A line without the carriage return that ends it, if any.
pub open spec fn strip_cr(l: Seq<char>) -> Seq<char> {
    if l.len() > 0 && l.last() == '\r' {
        l.drop_last()
    } else {
        l
    }
}

/// The lines of `s`: split at `\n` or `\r\n`; a final line ending adds no
/// empty line.
pub open spec fn text_lines(s: Seq<char>) -> Seq<Seq<char>>
    decreases s.len(),
    via text_lines_decreases
{
    if s.len() == 0 {
        Seq::empty()
    } else if line_end(s) >= s.len() {
        seq![s]
    } else {
        seq![strip_cr(s.subrange(0, line_end(s) as int))] + text_lines(
            s.subrange(line_end(s) as int + 1, s.len() as int),
        )
    }
}

#[via_fn]
proof fn text_lines_decreases(s: Seq<char>) {
    lemma_line_end_bound(s);
}

proof fn lemma_line_end_at(t: Seq<char>, k: int)
    requires
        0 <= k <= t.len(),
        forall|j: int| 0 <= j < k ==> t[j] != '\n',
        k < t.len() ==> t[k] == '\n',
    ensures
        line_end(t) == k,
    decreases k,
{
    if k > 0 {
        assert forall|j: int| 0 <= j < k - 1 implies t.drop_first()[j] != '\n' by {
            assert(t.drop_first()[j] == t[j + 1]);
        }
        lemma_line_end_at(t.drop_first(), k - 1);
    }
}

/// Splits `s` into lines at `\n` or `\r\n`, as `str::lines` does.
fn lines_of(s: &str) -> (r: Vec<String>)
    ensures
        r.deep_view() == text_lines(s@),
{
    let cs = chars_of(s);
    let n = cs.len();
    let mut out: Vec<String> = Vec::new();
    let mut start: usize = 0;
    let mut i: usize = 0;
    assert(cs@.subrange(0, n as int) =~= cs@);
    assert(out.deep_view() + text_lines(cs@) =~= text_lines(cs@));
    while i < n
        invariant
            n == cs@.len(),
            cs@ == s@,
            start <= i <= n,
            forall|j: int| start <= j < i ==> cs@[j] != '\n',
            out.deep_view() + text_lines(cs@.subrange(start as int, n as int)) == text_lines(cs@),
        decreases n - i,
    {
        if cs[i] == '\n' {
            let end = if i > start && cs[i - 1] == '\r' {
                i - 1
            } else {
                i
            };
            let line = string_of(&cs.as_slice()[start..end]);
            proof {
                let t = cs@.subrange(start as int, n as int);
                let k = i - start;
                assert forall|j: int| 0 <= j < k implies t[j] != '\n' by {
                    assert(t[j] == cs@[start + j]);
                }
                lemma_line_end_at(t, k);
                assert(t.subrange(0, k) =~= cs@.subrange(start as int, i as int));
                assert(line@ =~= strip_cr(cs@.subrange(start as int, i as int)));
                assert(t.subrange(k + 1, t.len() as int) =~= cs@.subrange(i + 1, n as int));
                assert(text_lines(t) == seq![strip_cr(t.subrange(0, k))] + text_lines(
                    t.subrange(k + 1, t.len() as int),
                ));
            }
            let ghost before = out.deep_view();
            out.push(line);
            assert(out.deep_view() =~= before.push(line@));
            assert(out.deep_view() + text_lines(cs@.subrange(i + 1, n as int)) =~= before + (
            seq![line@] + text_lines(cs@.subrange(i + 1, n as int))));
            start = i + 1;
        }
        i += 1;
    }
    if start < n {
        let line = string_of(&cs.as_slice()[start..n]);
        proof {
            let t = cs@.subrange(start as int, n as int);
            assert forall|j: int| 0 <= j < t.len() implies t[j] != '\n' by {
                assert(t[j] == cs@[start + j]);
            }
            lemma_line_end_at(t, t.len() as int);
            assert(text_lines(t) == seq![t]);
        }
        let ghost before = out.deep_view();
        out.push(line);
        assert(out.deep_view() =~= before + seq![line@]);
    } else {
        assert(cs@.subrange(start as int, n as int) =~= Seq::<char>::empty());
        assert(out.deep_view() + Seq::<Seq<char>>::empty() =~= out.deep_view());
    }
    out
}

/// The diff entry for one line position.
pub open spec fn diff_line(o: Option<Seq<char>>, m: Option<Seq<char>>) -> Seq<char> {
    match (o, m) {
        (Some(a), Some(b)) => if a != b {
            "-"@ + a + "\n"@ + "+"@ + b + "\n"@
        } else {
            " "@ + a + "\n"@
        },
        (Some(a), None) => "-"@ + a + "\n"@,
        (None, Some(b)) => "+"@ + b + "\n"@,
        (None, None) => Seq::empty(),
    }
}

/// The `i`-th line, if there is one.
pub open spec fn line_at(l: Seq<Seq<char>>, i: int) -> Option<Seq<char>> {
    if 0 <= i < l.len() {
        Some(l[i])
    } else {
        None
    }
}

/// The diff entries of the first `n` line positions.
pub open spec fn diff_upto(o: Seq<Seq<char>>, m: Seq<Seq<char>>, n: nat) -> Seq<char>
    decreases n,
{
    if n == 0 {
        Seq::empty()
    } else {
        diff_upto(o, m, (n - 1) as nat) + diff_line(line_at(o, n - 1), line_at(m, n - 1))
    }
}

/// A line-by-line diff: lines that differ at the same position appear as
/// `-old` and `+new`, equal lines with a leading space, and lines beyond
/// the end of the other text as removed or added.
pub open spec fn line_diff(original: Seq<char>, modified: Seq<char>) -> Seq<char> {
    let o = text_lines(original);
    let m = text_lines(modified);
    diff_upto(o, m, if o.len() >= m.len() { o.len() } else { m.len() })
}

/// Builds a simple line-by-line diff between two texts.
pub fn build_diff(original: &str, modified: &str) -> (r: String)
    ensures
        r@ == line_diff(original@, modified@),
{
    let orig_lines = lines_of(original);
    let mod_lines = lines_of(modified);
    let ghost o = orig_lines.deep_view();
    let ghost m = mod_lines.deep_view();
    let max_len = if orig_lines.len() >= mod_lines.len() {
        orig_lines.len()
    } else {
        mod_lines.len()
    };
    let mut diff = String::new();
    let mut i: usize = 0;
    while i < max_len
        invariant
            o == orig_lines.deep_view(),
            m == mod_lines.deep_view(),
            max_len == (if o.len() >= m.len() { o.len() } else { m.len() }),
            0 <= i <= max_len,
            diff@ == diff_upto(o, m, i as nat),
        decreases max_len - i,
    {
        let has_o = i < orig_lines.len();
        let has_m = i < mod_lines.len();
        if has_o && has_m {
            let a = orig_lines[i].as_str();
            let b = mod_lines[i].as_str();
            assert(a@ == o[i as int] && b@ == m[i as int]);
            if orig_lines[i] != mod_lines[i] {
                diff.append("-");
                diff.append(a);
                diff.append("\n");
                diff.append("+");
                diff.append(b);
                diff.append("\n");
            } else {
                diff.append(" ");
                diff.append(a);
                diff.append("\n");
            }
        } else if has_o {
            let a = orig_lines[i].as_str();
            assert(a@ == o[i as int]);
            diff.append("-");
            diff.append(a);
            diff.append("\n");
        } else if has_m {
            let b = mod_lines[i].as_str();
            assert(b@ == m[i as int]);
            diff.append("+");
            diff.append(b);
            diff.append("\n");
        }
        assert(diff@ =~= diff_upto(o, m, (i + 1) as nat));
        i += 1;
    }
    diff
}


/// The first position at or after `i` where `pat` occurs in `s`.
pub open spec fn find_from(s: Seq<char>, pat: Seq<char>, i: int) -> Option<int>
    decreases s.len() + 1 - i,
{
    if i < 0 || i + pat.len() > s.len() {
        None
    } else if s.subrange(i, i + pat.len()) == pat {
        Some(i)
    } else {
        find_from(s, pat, i + 1)
    }
}

/// `s` with the first occurrence of `pat` replaced by `new`; `None` when
/// `pat` does not occur.
pub open spec fn replace_first(s: Seq<char>, pat: Seq<char>, new: Seq<char>) -> Option<Seq<char>> {
    match find_from(s, pat, 0) {
        Some(i) => Some(s.subrange(0, i) + new + s.subrange(i + pat.len(), s.len() as int)),
        None => None,
    }
}

/// The text after applying the first `n` edits in order, or the index of
/// the first edit whose text is not found.
pub open spec fn edits_upto(content: Seq<char>, edits: Seq<EditOperation>, n: nat) -> Result<Seq<char>, nat>
    decreases n,
{
    if n == 0 {
        Ok(content)
    } else {
        match edits_upto(content, edits, (n - 1) as nat) {
            Ok(c) => match replace_first(c, edits[n - 1].old_text@, edits[n - 1].new_text@) {
                Some(r) => Ok(r),
                None => Err((n - 1) as nat),
            },
            Err(i) => Err(i),
        }
    }
}

/// The Debug rendering of a string: quoted, with escapes.
pub uninterp spec fn debug_text(s: Seq<char>) -> Seq<char>;

/// Relies on `str`'s `Debug` formatting.
#[verifier::external_body]
fn quoted(s: &str) -> (r: String)
    ensures
        r@ == debug_text(s@),
{
    format!("{:?}", s)
}

/// The characters of `s`.
fn chars_of(s: &str) -> (r: Vec<char>)
    ensures
        r@ == s@,
{
    let mut v: Vec<char> = Vec::new();
    for c in it: s.chars()
        invariant
            it.seq() == s@,
            v@ == s@.take(it.index() as int),
    {
        v.push(c);
        assert(v@ =~= s@.take(it.index() + 1));
    }
    assert(v@ =~= s@);
    v
}

/// Relies on collecting characters into a `String`.
#[verifier::external_body]
fn string_of(c: &[char]) -> (r: String)
    ensures
        r@ == c@,
{
    c.iter().collect()
}

/// Finds the first occurrence of `pat` in `s`.
fn find_first(s: &Vec<char>, pat: &Vec<char>) -> (r: Option<usize>)
    ensures
        match r {
            Some(i) => find_from(s@, pat@, 0) == Some(i as int) && i + pat@.len() <= s@.len(),
            None => find_from(s@, pat@, 0) is None,
        },
{
    if pat.len() > s.len() {
        return None;
    }
    let slen = s.len();
    let last = slen - pat.len();
    let mut i: usize = 0;
    loop
        invariant
            slen == s@.len(),
            last == s@.len() - pat@.len(),
            0 <= i <= last,
            find_from(s@, pat@, 0) == find_from(s@, pat@, i as int),
        decreases last - i,
    {
        let mut j: usize = 0;
        let mut same = true;
        while j < pat.len()
            invariant
                slen == s@.len(),
                i <= last,
                last == s@.len() - pat@.len(),
                0 <= j <= pat@.len(),
                same == (forall|k: int| 0 <= k < j ==> s@[i + k] == pat@[k]),
            decreases pat@.len() - j,
        {
            if s[i + j] != pat[j] {
                same = false;
            }
            j += 1;
        }
        if same {
            assert(s@.subrange(i as int, i + pat@.len()) =~= pat@);
            return Some(i);
        }
        assert(s@.subrange(i as int, i + pat@.len()) != pat@) by {
            let k = choose|k: int| 0 <= k < pat@.len() && s@[i + k] != pat@[k];
            assert(s@.subrange(i as int, i + pat@.len())[k] != pat@[k]);
        }
        if i == last {
            assert(find_from(s@, pat@, i + 1) is None);
            return None;
        }
        i += 1;
    }
}

/// Applies edits in order, each replacing the first occurrence of its old
/// text; fails on the first edit whose old text is not found, naming that
/// text.
pub fn apply_edits(content: &str, edits: &Vec<EditOperation>) -> (r: Result<String, String>)
    ensures
        match edits_upto(content@, edits@, edits@.len() as nat) {
            Ok(c) => r is Ok && r->Ok_0@ == c,
            Err(i) => r is Err && r->Err_0@ == "Text not found in file: "@ + debug_text(
                edits@[i as int].old_text@,
            ),
        },
{
    let mut text = chars_of(content);
    let mut n: usize = 0;
    while n < edits.len()
        invariant
            0 <= n <= edits@.len(),
            edits_upto(content@, edits@, n as nat) == Ok::<Seq<char>, nat>(text@),
        decreases edits@.len() - n,
    {
        let pat = chars_of(edits[n].old_text.as_str());
        let new = chars_of(edits[n].new_text.as_str());
        match find_first(&text, &pat) {
            Some(i) => {
                let tlen = text.len();
                let mut next: Vec<char> = Vec::new();
                let mut k: usize = 0;
                while k < i
                    invariant
                        0 <= k <= i,
                        i + pat@.len() <= text@.len(),
                        next@ == text@.subrange(0, k as int),
                    decreases i - k,
                {
                    next.push(text[k]);
                    assert(next@ =~= text@.subrange(0, k + 1));
                    k += 1;
                }
                let mut k: usize = 0;
                while k < new.len()
                    invariant
                        0 <= k <= new@.len(),
                        i + pat@.len() <= text@.len(),
                        next@ == text@.subrange(0, i as int) + new@.subrange(0, k as int),
                    decreases new@.len() - k,
                {
                    next.push(new[k]);
                    assert(next@ =~= text@.subrange(0, i as int) + new@.subrange(0, k + 1));
                    k += 1;
                }
                assert(new@.subrange(0, new@.len() as int) =~= new@);
                let mut k: usize = i + pat.len();
                while k < tlen
                    invariant
                        tlen == text@.len(),
                        i + pat@.len() <= k <= text@.len(),
                        next@ == text@.subrange(0, i as int) + new@ + text@.subrange(
                            i + pat@.len(),
                            k as int,
                        ),
                    decreases text@.len() - k,
                {
                    next.push(text[k]);
                    assert(next@ =~= text@.subrange(0, i as int) + new@ + text@.subrange(
                        i + pat@.len(),
                        k + 1,
                    ));
                    k += 1;
                }
                text = next;
            },
            None => {
                let mut msg = String::from_str("Text not found in file: ");
                let q = quoted(edits[n].old_text.as_str());
                msg.append(q.as_str());
                proof {
                    assert(edits_upto(content@, edits@, (n + 1) as nat) == Err::<Seq<char>, nat>(n as nat));
                    lemma_edits_err_stays(content@, edits@, (n + 1) as nat, edits@.len() as nat);
                }
                return Err(msg);
            },
        }
        n += 1;
    }
    Ok(string_of(text.as_slice()))
}

proof fn lemma_edits_err_stays(content: Seq<char>, edits: Seq<EditOperation>, m: nat, n: nat)
    requires
        m <= n,
        edits_upto(content, edits, m) is Err,
    ensures
        edits_upto(content, edits, n) == edits_upto(content, edits, m),
    decreases n - m,
{
    if m < n {
        lemma_edits_err_stays(content, edits, m, (n - 1) as nat);
    }
}

} // verus!
