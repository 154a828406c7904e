use crate::text::{
    chars_of, decimal_text, i64_to_decimal, join, join_chars, lines, lines_of, trim, trim_chars,
    trim_end, trim_end_chars, append_chars, string_from_chars, copy_chars, debug_str, debug_text,
};
use crate::tool::install_failure::InstallFailure;
use vstd::prelude::*;

verus! {

/// At most this many lines of a failed command's output are reported.
pub const OUTPUT_TAIL_LINES: usize = 10;

/// A command of a tool installation that exited with an error.
#[derive(Debug)]
pub struct ToolCommandError {
    pub command: Vec<String>,
    pub exit_code: i32,
    pub stdout: String,
    pub stderr: String,
    pub failure: Option<InstallFailure>,
}

/// The `Debug` texts of each of `items`.
pub open spec fn debug_texts(items: Seq<Seq<char>>) -> Seq<Seq<char>> {
    Seq::new(items.len(), |i: int| debug_text(items[i]))
}

/// The text that `Debug` gives for a list of strings: each quoted and
/// escaped, separated by `, `, in brackets.
pub open spec fn debug_string_list(items: Seq<Seq<char>>) -> Seq<char> {
    "["@ + join(debug_texts(items), ", "@) + "]"@
}

/// `items` as `{:?}` formats a list of strings.
fn debug_list(items: &Vec<String>) -> (r: String)
    ensures
        r@ == debug_string_list(items@.map_values(|s: String| s@)),
{
    let ghost v = items@.map_values(|s: String| s@);
    let mut parts: Vec<Vec<char>> = Vec::new();
    let mut i: usize = 0;
    while i < items.len()
        invariant
            i <= items@.len(),
            v == items@.map_values(|s: String| s@),
            parts@.len() == i,
            forall|k: int| 0 <= k < i ==> #[trigger] parts@[k]@ == debug_text(v[k]),
        decreases items@.len() - i,
    {
        let d = debug_str(items[i].as_str());
        parts.push(chars_of(d.as_str()));
        i = i + 1;
    }
    let sep = chars_of(", ");
    let joined = join_chars(parts.as_slice(), sep.as_slice());
    proof {
        reveal_strlit(", ");
        reveal_strlit("[");
        reveal_strlit("]");
        assert(parts@.map_values(|p: Vec<char>| p@) =~= debug_texts(v));
    }
    let mut out = chars_of("[");
    append_chars(&mut out, joined.as_slice());
    let close = chars_of("]");
    append_chars(&mut out, close.as_slice());
    string_from_chars(out.as_slice())
}

/// The lines of `s` without trailing white space, empty ones left out.
pub open spec fn nonblank_lines(s: Seq<Seq<char>>) -> Seq<Seq<char>>
    decreases s.len(),
{
    if s.len() == 0 {
        seq![]
    } else {
        let rest = nonblank_lines(s.drop_last());
        let l = trim_end(s.last());
        if l.len() == 0 {
            rest
        } else {
            rest.push(l)
        }
    }
}

/// The output a failed command is summed up by: its standard error, or its
/// standard output when the error stream is blank.
pub open spec fn tail_source(stdout: Seq<char>, stderr: Seq<char>) -> Seq<char> {
    if trim(stderr).len() == 0 {
        stdout
    } else {
        stderr
    }
}

/// The last non-blank lines (at most [`OUTPUT_TAIL_LINES`]) of the output,
/// trailing white space removed, joined by newlines.
pub open spec fn output_tail_text(stdout: Seq<char>, stderr: Seq<char>) -> Seq<char> {
    let kept = nonblank_lines(lines(tail_source(stdout, stderr)));
    let from = if kept.len() > OUTPUT_TAIL_LINES {
        kept.len() - OUTPUT_TAIL_LINES
    } else {
        0
    };
    join(kept.skip(from), "\n"@)
}

/// The message of a command error: the command and its exit code.
pub open spec fn command_error_text(command: Seq<Seq<char>>, exit_code: i32) -> Seq<char> {
    "Command "@ + debug_string_list(command) + " exited with code "@ + decimal_text(
        exit_code as int,
    )
}

impl ToolCommandError {
    /// The command and its exit code, as the error is displayed.
    pub fn message(&self) -> (m: String)
        ensures
            m@ == command_error_text(self.command@.map_values(|s: String| s@), self.exit_code),
    {
        let list = debug_list(&self.command);
        let mut out = chars_of("Command ");
        let l = chars_of(list.as_str());
        append_chars(&mut out, l.as_slice());
        let mid = chars_of(" exited with code ");
        append_chars(&mut out, mid.as_slice());
        let code = i64_to_decimal(self.exit_code as i64);
        append_chars(&mut out, code.as_slice());
        string_from_chars(out.as_slice())
    }

    /// The last lines of what the command printed, for the user.
    pub fn output_tail(&self) -> (tail: String)
        ensures
            tail@ == output_tail_text(self.stdout@, self.stderr@),
    {
        let err = chars_of(self.stderr.as_str());
        let trimmed = trim_chars(err.as_slice());
        let source = if trimmed.len() == 0 {
            chars_of(self.stdout.as_str())
        } else {
            err
        };
        let ls = lines_of(source.as_slice());
        let ghost all = lines(source@);
        let mut kept: Vec<Vec<char>> = Vec::new();
        let mut i: usize = 0;
        while i < ls.len()
            invariant
                i <= ls@.len(),
                ls@.len() == all.len(),
                forall|k: int| 0 <= k < ls@.len() ==> #[trigger] ls@[k]@ == all[k],
                kept@.map_values(|v: Vec<char>| v@) == nonblank_lines(all.take(i as int)),
            decreases ls@.len() - i,
        {
            let t = trim_end_chars(ls[i].as_slice());
            assert(all.take(i + 1).drop_last() == all.take(i as int));
            if t.len() > 0 {
                kept.push(t);
            }
            i = i + 1;
        }
        assert(all.take(ls@.len() as int) == all);
        let from = if kept.len() > OUTPUT_TAIL_LINES {
            kept.len() - OUTPUT_TAIL_LINES
        } else {
            0
        };
        let ghost km = kept@.map_values(|v: Vec<char>| v@);
        let mut last: Vec<Vec<char>> = Vec::new();
        let mut j: usize = from;
        while j < kept.len()
            invariant
                from <= j <= kept@.len(),
                km == kept@.map_values(|v: Vec<char>| v@),
                last@.map_values(|v: Vec<char>| v@) == km.subrange(from as int, j as int),
            decreases kept@.len() - j,
        {
            let c = copy_chars(kept[j].as_slice());
            let ghost before = last@;
            last.push(c);
            assert(last@.map_values(|v: Vec<char>| v@) =~= before.map_values(|v: Vec<char>| v@).push(km[j as int]));
            assert(km.subrange(from as int, j + 1) =~= km.subrange(from as int, j as int).push(km[j as int]));
            j = j + 1;
        }
        assert(km.subrange(from as int, kept@.len() as int) == km.skip(from as int));
        let sep = chars_of("\n");
        let joined = join_chars(last.as_slice(), sep.as_slice());
        string_from_chars(joined.as_slice())
    }
}

} // verus!
