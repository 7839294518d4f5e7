//! Text as sequences of characters: upper-casing, lines, and indentation.

use vstd::prelude::*;
use vstd::string::*;

verus! {

/// The upper-case form of `text`, as `str::to_uppercase` of the standard
/// library computes it from the Unicode tables.
pub uninterp spec fn uppercased(text: Seq<char>) -> Seq<char>;

/// `str::to_uppercase` of the standard library: returns the upper-case
/// equivalent of the string as a new `String`. Believed, not proved: the
/// result depends on the characters of `text` alone, and is what
/// [`uppercased`] names.
pub assume_specification[ str::to_uppercase ](text: &str) -> (upper: String)
    ensures
        upper@ == uppercased(text@),
;

/// `String::push` of the standard library: appends the given character to the
/// end of the string. Believed, not proved.
pub assume_specification[ String::push ](text: &mut String, ch: char)
    ensures
        final(text)@ == old(text)@.push(ch),
;

/// What goes before each line of an indented block: a line break and two
/// spaces.
pub open spec fn indent() -> Seq<char> {
    seq!['\n', ' ', ' ']
}

/// The position of the first line feed of `text` at or after `from`, or the
/// length of `text` when there is none.
pub open spec fn line_end(text: Seq<char>, from: int) -> int
    decreases text.len() - from,
{
    if from >= text.len() {
        text.len() as int
    } else if text[from] == '\n' {
        from
    } else {
        line_end(text, from + 1)
    }
}

/// The line of `text` that begins at `from` and breaks at `end`: the
/// characters between the two, without the carriage return that stands
/// directly before a line feed.
pub open spec fn line_between(text: Seq<char>, from: int, end: int) -> Seq<char> {
    if end < text.len() && from < end && text[end - 1] == '\r' {
        text.subrange(from, end - 1)
    } else {
        text.subrange(from, end)
    }
}

/// The lines of `text` from position `from` on.
pub open spec fn lines_from(text: Seq<char>, from: int) -> Seq<Seq<char>>
    decreases text.len() - from,
    via lines_from_decreases
{
    if from >= text.len() {
        Seq::empty()
    } else {
        let end = line_end(text, from);
        if end < text.len() {
            seq![line_between(text, from, end)] + lines_from(text, end + 1)
        } else {
            seq![line_between(text, from, end)]
        }
    }
}

#[via_fn]
proof fn lines_from_decreases(text: Seq<char>, from: int) {
    lemma_line_end_is_ahead(text, from);
}

/// A line never ends before it begins.
pub proof fn lemma_line_end_is_ahead(text: Seq<char>, from: int)
    ensures
        from <= text.len() ==> from <= line_end(text, from) <= text.len(),
        from >= text.len() ==> line_end(text, from) == text.len(),
    decreases text.len() - from,
{
    if from < text.len() && text[from] != '\n' {
        lemma_line_end_is_ahead(text, from + 1);
    }
}

/// The lines of `text`. A line ends at a line feed, or at a carriage return
/// directly followed by a line feed; neither belongs to the line. The last
/// line needs no line ending, and text that ends with one has no empty line
/// after it.
pub open spec fn lines(text: Seq<char>) -> Seq<Seq<char>> {
    lines_from(text, 0)
}

/// The given lines as an indented block: each of them after a line break and
/// two spaces.
pub open spec fn indented(lines: Seq<Seq<char>>) -> Seq<char>
    decreases lines.len(),
{
    if lines.len() == 0 {
        Seq::empty()
    } else {
        indent() + lines[0] + indented(lines.drop_first())
    }
}

/// The characters of `text`, one by one.
fn chars_of(text: &str) -> (chars: Vec<char>)
    ensures
        chars@ == text@,
{
    let mut chars: Vec<char> = Vec::new();
    for c in it: text.chars()
        invariant
            it.seq() == text@,
            chars@ == text@.take(it.index()),
    {
        chars.push(c);
    }
    chars
}

/// Appends the lines of `text` to `out` as an indented block.
pub fn push_indented(out: &mut String, text: &str)
    ensures
        final(out)@ == old(out)@ + indented(lines(text@)),
{
    let chars = chars_of(text);
    let n: usize = chars.len();
    let mut from: usize = 0;
    while from < n
        invariant
            n == chars@.len(),
            chars@ == text@,
            from <= n,
            out@ + indented(lines_from(chars@, from as int)) == old(out)@ + indented(lines(text@)),
        decreases n - from,
    {
        let mut end: usize = from;
        while end < n && chars[end] != '\n'
            invariant
                n == chars@.len(),
                from <= end <= n,
                line_end(chars@, end as int) == line_end(chars@, from as int),
            decreases n - end,
        {
            end = end + 1;
        }
        let stop: usize = if end < n && from < end && chars[end - 1] == '\r' {
            end - 1
        } else {
            end
        };
        let ghost before = out@;
        let ghost line = line_between(chars@, from as int, end as int);
        let ghost rest = if end < n {
            lines_from(chars@, end + 1)
        } else {
            Seq::empty()
        };
        out.push('\n');
        out.push(' ');
        out.push(' ');
        let mut at: usize = from;
        while at < stop
            invariant
                n == chars@.len(),
                from <= at <= stop <= n,
                out@ == before + indent() + chars@.subrange(from as int, at as int),
            decreases stop - at,
        {
            out.push(chars[at]);
            at = at + 1;
        }
        proof {
            let all = seq![line] + rest;
            assert(all.drop_first() =~= rest);
            assert(indented(all) == indent() + line + indented(rest));
            assert(out@ + indented(rest) =~= before + indented(all));
            assert(lines_from(chars@, from as int) =~= all);
        }
        from = if end < n {
            end + 1
        } else {
            n
        };
    }
}

} // verus!
