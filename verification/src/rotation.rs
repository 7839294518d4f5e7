//! Keeping the debug log bounded: when a file is rotated, and what a rotation keeps.
//!
//! A log file is a sequence of bytes. Once it has grown above [`ROTATE_ABOVE`]
//! it is cut down to its newest lines: at most the last [`KEEP_BYTES`] bytes,
//! starting just after the first line feed found in them, so that what is
//! kept never begins in the middle of a line.

use vstd::prelude::*;
use vstd::slice::*;

verus! {

/// Size above which the log file is rotated: 5 MiB.
pub const ROTATE_ABOVE: u64 = 5242880;

/// How many of the newest bytes a rotation looks at: 1 MiB.
pub const KEEP_BYTES: usize = 1048576;

/// The byte that ends a line.
pub const LINE_FEED: u8 = 10;

/// Whether a log file of `size` bytes has outgrown the ceiling.
pub open spec fn oversized(size: nat) -> bool {
    size > ROTATE_ABOVE
}

/// Where the newest [`KEEP_BYTES`] bytes of a file of `len` bytes begin.
pub open spec fn keep_from(len: int) -> int {
    if len > KEEP_BYTES {
        len - KEEP_BYTES
    } else {
        0
    }
}

/// The position of the first line feed of `content` at or after `from`,
/// or the length of `content` when there is none.
pub open spec fn next_line_feed(content: Seq<u8>, from: int) -> int
    decreases content.len() - from,
{
    if from >= content.len() {
        content.len() as int
    } else if content[from] == LINE_FEED {
        from
    } else {
        next_line_feed(content, from + 1)
    }
}

/// Where the part that a rotation keeps begins: just after the first line
/// feed among the newest [`KEEP_BYTES`] bytes, or at the end of the content
/// when they hold no line feed.
pub open spec fn retained_start(content: Seq<u8>) -> int {
    let feed = next_line_feed(content, keep_from(content.len() as int));
    if feed < content.len() {
        feed + 1
    } else {
        content.len() as int
    }
}

/// What a rotation keeps of `content`.
pub open spec fn retained(content: Seq<u8>) -> Seq<u8> {
    content.subrange(retained_start(content), content.len() as int)
}

/// What becomes of a file's content when the size check runs on it:
/// rotated when oversized, untouched otherwise.
pub open spec fn rotated(content: Seq<u8>) -> Seq<u8> {
    if oversized(content.len()) {
        retained(content)
    } else {
        content
    }
}

/// Decides, from the size that the file has after an append, whether it must
/// be rotated.
pub fn needs_rotation(size: u64) -> (rotate: bool)
    ensures
        rotate == oversized(size as nat),
{
    size > ROTATE_ABOVE
}

/// Scans `content` from `from` for the next line feed.
fn find_line_feed(content: &[u8], from: usize) -> (at: usize)
    requires
        from <= content@.len(),
    ensures
        at == next_line_feed(content@, from as int),
        from <= at <= content@.len(),
{
    let mut at: usize = from;
    while at < content.len() && content[at] != LINE_FEED
        invariant
            from <= at <= content@.len(),
            next_line_feed(content@, at as int) == next_line_feed(content@, from as int),
        decreases content@.len() - at,
    {
        at = at + 1;
    }
    at
}

/// Computes what a rotation keeps of `content`: its newest whole lines.
pub fn retain_recent(content: &[u8]) -> (kept: Vec<u8>)
    ensures
        kept@ == retained(content@),
{
    let len: usize = content.len();
    let from: usize = if len > KEEP_BYTES {
        len - KEEP_BYTES
    } else {
        0
    };
    let feed: usize = find_line_feed(content, from);
    let start: usize = if feed < len {
        feed + 1
    } else {
        len
    };
    slice_to_vec(slice_subrange(content, start, len))
}

/// The first line feed at or after `from` lies between `from` and the end of
/// the content, and no byte between `from` and it is a line feed.
pub proof fn lemma_next_line_feed(content: Seq<u8>, from: int)
    requires
        0 <= from <= content.len(),
    ensures
        from <= next_line_feed(content, from) <= content.len(),
        next_line_feed(content, from) < content.len() ==> content[next_line_feed(content, from)]
            == LINE_FEED,
        forall|i: int| from <= i < next_line_feed(content, from) ==> content[i] != LINE_FEED,
    decreases content.len() - from,
{
    if from < content.len() && content[from] != LINE_FEED {
        lemma_next_line_feed(content, from + 1);
    }
}

/// What a rotation keeps is a suffix of the content, shorter than
/// [`KEEP_BYTES`], that begins just after a line feed; it is empty exactly
/// when the newest [`KEEP_BYTES`] bytes hold no line feed before their last
/// byte.
pub proof fn lemma_retained_is_recent_lines(content: Seq<u8>)
    ensures
        0 <= retained_start(content) <= content.len(),
        retained(content) == content.skip(retained_start(content)),
        retained(content).len() < KEEP_BYTES,
        retained(content).len() > 0 ==> retained_start(content) > 0 && content[retained_start(
            content,
        ) - 1] == LINE_FEED,
        retained(content).len() == 0 <==> forall|i: int|
            keep_from(content.len() as int) <= i < content.len() - 1 ==> content[i] != LINE_FEED,
{
    let from = keep_from(content.len() as int);
    lemma_next_line_feed(content, from);
    let feed = next_line_feed(content, from);
    if feed < content.len() - 1 {
        assert(content[feed] == LINE_FEED);
    }
}

/// Whatever its size was, a file is no larger than the ceiling once the size
/// check has run on it.
pub proof fn lemma_rotated_is_bounded(content: Seq<u8>)
    ensures
        rotated(content).len() <= ROTATE_ABOVE,
        !oversized(rotated(content).len()),
{
    lemma_retained_is_recent_lines(content);
}

} // verus!
