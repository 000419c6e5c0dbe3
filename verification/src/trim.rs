//! Stripping trailing line terminators from a line of text.
//!
//! Input values arrive as raw lines read from a file, still carrying their
//! `\n` or `\r\n` ending.  The document must hold the bare value, so every
//! trailing line terminator is removed; nothing else in the line is touched.

use vstd::prelude::*;

verus! {

/// A character that terminates a text line.
pub open spec fn is_line_terminator(c: char) -> bool {
    c == '\n' || c == '\r'
}

/// `s` with every trailing line terminator removed.
pub open spec fn trimmed(s: Seq<char>) -> Seq<char>
    decreases s.len(),
{
    if s.len() > 0 && is_line_terminator(s[s.len() - 1]) {
        trimmed(s.drop_last())
    } else {
        s
    }
}

/// Appending a line terminator never changes the trimmed value, so a line
/// with and without its ending denote the same value.
pub proof fn lemma_trimmed_push_terminator(s: Seq<char>, c: char)
    requires
        is_line_terminator(c),
    ensures
        trimmed(s.push(c)) == trimmed(s),
{
    assert(s.push(c).drop_last() =~= s);
}

/// The trimmed value never ends in a line terminator.
pub proof fn lemma_trimmed_no_terminator(s: Seq<char>)
    ensures
        trimmed(s).len() > 0 ==> !is_line_terminator(trimmed(s)[trimmed(s).len() - 1]),
    decreases s.len(),
{
    if s.len() > 0 && is_line_terminator(s[s.len() - 1]) {
        lemma_trimmed_no_terminator(s.drop_last());
    }
}

/// Returns `line` with every trailing `\n` and `\r` removed.
pub fn trim_line(line: &str) -> (r: String)
    ensures
        r@ == trimmed(line@),
{
    let mut end: usize = line.unicode_len();
    proof {
        assert(line@.take(end as int) =~= line@);
    }
    loop
        invariant
            end <= line@.len(),
            trimmed(line@) == trimmed(line@.take(end as int)),
        ensures
            end <= line@.len(),
            trimmed(line@) == line@.take(end as int),
        decreases end,
    {
        if end == 0 {
            break;
        }
        let c = line.get_char(end - 1);
        if c != '\n' && c != '\r' {
            break;
        }
        proof {
            assert(line@.take(end as int).drop_last() =~= line@.take(end - 1));
        }
        end = end - 1;
    }
    String::from_str(line.substring_char(0, end))
}

} // verus!
