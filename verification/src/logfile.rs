//! What the operations of the bridge make of the log file.
//!
//! The file is modelled by its content, a sequence of bytes, and the host by
//! one that carries out every request faithfully and never fails. Running
//! the steps of the bridge against that host gives the file after an
//! operation; the laws below say what holds of it.

use vstd::prelude::*;
use vstd::utf8::*;
use crate::bridge::{
    clear_step, log_path, log_step, next_step, ReportView, RequestView, StepView,
};
use crate::event::{rendered, LogEventView};
use crate::failure::FailureView;
use crate::rotation::{
    keep_from, lemma_next_line_feed, lemma_retained_is_recent_lines, lemma_rotated_is_bounded,
    oversized, retained_start, rotated, KEEP_BYTES, LINE_FEED, ROTATE_ABOVE,
};

verus! {

/// The file after `entry` has been appended to it and the size check has
/// run.
pub open spec fn appended(file: Seq<u8>, entry: Seq<u8>) -> Seq<u8> {
    rotated(file + entry)
}

/// The file after each of `entries` has been appended to it in turn.
pub open spec fn replayed(file: Seq<u8>, entries: Seq<Seq<u8>>) -> Seq<u8>
    decreases entries.len(),
{
    if entries.len() == 0 {
        file
    } else {
        appended(replayed(file, entries.drop_last()), entries.last())
    }
}

/// What carrying out `request` makes of the file, and what a host that
/// never fails reports of it.
pub open spec fn carried_out(file: Seq<u8>, request: RequestView) -> (Seq<u8>, ReportView) {
    match request {
        RequestView::Append { path, entry } => (
            file + encode_utf8(entry),
            ReportView::Appended { path },
        ),
        RequestView::Measure { path } => (
            file,
            ReportView::Measured { path, size: file.len() as u64 },
        ),
        RequestView::Load { path } => (file, ReportView::Loaded { path, content: file }),
        RequestView::Overwrite { path, content } => (content, ReportView::Overwritten),
    }
}

/// The file and the step that an operation has reached once a host that
/// never fails has carried out up to `rounds` of its requests.
pub open spec fn settled(file: Seq<u8>, step: StepView, rounds: nat) -> (Seq<u8>, StepView)
    decreases rounds,
{
    match step {
        StepView::Ask(request) if rounds > 0 => {
            let (next_file, report) = carried_out(file, request);
            settled(next_file, next_step(report), (rounds - 1) as nat)
        },
        _ => (file, step),
    }
}

/// Appending an entry takes at most four requests. It leaves the file with
/// the bytes of the entry added, and the whole cut down to its newest lines
/// where that made it outgrow the ceiling.
pub proof fn law_append_settles(file: Seq<u8>, path: Seq<char>, entry: Seq<char>)
    requires
        file.len() + encode_utf8(entry).len() <= u64::MAX,
    ensures
        settled(file, StepView::Ask(RequestView::Append { path, entry }), 4) == (
            appended(file, encode_utf8(entry)),
            StepView::Done,
        ),
{
    reveal_with_fuel(settled, 5);
}

/// Logging an event that can be read, with the home directory known, takes
/// at most four requests. It leaves the file with the rendered event
/// appended, and cut down to its newest lines where that made it outgrow the
/// ceiling.
pub proof fn law_log_appends_entry(file: Seq<u8>, home: Seq<char>, event: LogEventView)
    requires
        file.len() + encode_utf8(rendered(event)).len() <= u64::MAX,
    ensures
        settled(file, log_step(Ok(home), Ok(event)), 4) == (
            appended(file, encode_utf8(rendered(event))),
            StepView::Done,
        ),
{
    law_append_settles(file, log_path(home), rendered(event));
}

/// Logging a payload that cannot be read fails as the reading did, and asks
/// nothing of the host: the file stays as it was, byte for byte. Without a
/// home directory the failure is that of the environment instead, and the
/// file stays as it was all the same.
pub proof fn law_refused_payload_leaves_file(
    file: Seq<u8>,
    home: Result<Seq<char>, Seq<char>>,
    refusal: FailureView,
    rounds: nat,
)
    ensures
        settled(file, log_step(home, Err(refusal)), rounds).0 == file,
        settled(file, log_step(home, Err(refusal)), rounds).1 is Fail,
        home is Ok ==> settled(file, log_step(home, Err(refusal)), rounds).1 == StepView::Fail(
            refusal,
        ),
{
}

/// An operation that has failed asks nothing more: the file stays as it was.
pub proof fn law_failure_leaves_file(file: Seq<u8>, step: StepView, rounds: nat)
    requires
        step is Fail,
    ensures
        settled(file, step, rounds) == (file, step),
{
}

/// Clearing takes one request and leaves the file empty, whatever it held;
/// clearing it once more changes nothing.
pub proof fn law_clear_empties(file: Seq<u8>, home: Seq<char>)
    ensures
        settled(file, clear_step(Ok(home)), 1) == (Seq::<u8>::empty(), StepView::Done),
        settled(settled(file, clear_step(Ok(home)), 1).0, clear_step(Ok(home)), 1) == settled(
            file,
            clear_step(Ok(home)),
            1,
        ),
        settled(file, clear_step(Ok(home)), 1).0.len() == 0,
{
    reveal_with_fuel(settled, 2);
}

/// After an append the file is never above the ceiling.
pub proof fn law_append_keeps_bound(file: Seq<u8>, entry: Seq<u8>)
    ensures
        appended(file, entry).len() <= ROTATE_ABOVE,
{
    lemma_rotated_is_bounded(file + entry);
}

/// However many entries are appended, and whatever their sizes, the file is
/// never above the ceiling after any of the appends.
pub proof fn law_appends_keep_bound(file: Seq<u8>, entries: Seq<Seq<u8>>)
    ensures
        forall|n: int|
            0 < n <= entries.len() ==> (#[trigger] replayed(file, entries.take(n))).len()
                <= ROTATE_ABOVE,
{
    assert forall|n: int| 0 < n <= entries.len() implies (#[trigger] replayed(
        file,
        entries.take(n),
    )).len() <= ROTATE_ABOVE by {
        let upto = entries.take(n);
        law_append_keeps_bound(replayed(file, upto.drop_last()), upto.last());
    }
}

/// An append that pushes the file above the ceiling leaves a suffix of what
/// the file held with the entry: one shorter than [`KEEP_BYTES`] that begins
/// just after a line feed, so that no line is cut in two. It is empty only
/// where the newest [`KEEP_BYTES`] bytes hold no line feed before their last
/// byte.
pub proof fn law_rotation_keeps_whole_lines(file: Seq<u8>, entry: Seq<u8>)
    requires
        oversized(file.len() + entry.len()),
    ensures
        ({
            let whole = file + entry;
            let kept = appended(file, entry);
            let cut = whole.len() - kept.len();
            &&& 0 < cut <= whole.len()
            &&& kept == whole.skip(cut)
            &&& kept.len() < KEEP_BYTES
            &&& whole[cut - 1] == LINE_FEED || kept.len() == 0
            &&& kept.len() == 0 <==> forall|i: int|
                whole.len() - KEEP_BYTES <= i < whole.len() - 1 ==> whole[i] != LINE_FEED
        }),
{
    lemma_retained_is_recent_lines(file + entry);
}

/// After an append the file ends with the entry exactly when the size check
/// left it alone, or the rotation began to keep at or before the entry.
pub proof fn law_entry_ends_file(file: Seq<u8>, entry: Seq<u8>)
    requires
        entry.len() > 0,
    ensures
        entry.is_suffix_of(appended(file, entry)) <==> !oversized(file.len() + entry.len())
            || retained_start(file + entry) <= file.len(),
{
    let whole = file + entry;
    lemma_retained_is_recent_lines(whole);
    if !oversized(whole.len()) || retained_start(whole) <= file.len() {
        let after = appended(file, entry);
        assert(after.subrange(after.len() - entry.len(), after.len() as int) =~= entry);
    }
}

/// An entry shorter than [`KEEP_BYTES`] that is appended to a file of whole
/// lines is at the end of the file afterwards, rotated or not.
pub proof fn law_short_entry_ends_file(file: Seq<u8>, entry: Seq<u8>)
    requires
        file.len() == 0 || file.last() == LINE_FEED,
        0 < entry.len() < KEEP_BYTES,
    ensures
        entry.is_suffix_of(appended(file, entry)),
{
    let whole = file + entry;
    if oversized(whole.len()) {
        let from = keep_from(whole.len() as int);
        lemma_next_line_feed(whole, from);
        assert(whole[file.len() - 1] == LINE_FEED);
    }
    law_entry_ends_file(file, entry);
}

/// The encoding of a text that ends with a line feed ends with the byte
/// [`LINE_FEED`].
pub proof fn lemma_encoded_line_feed(text: Seq<char>)
    ensures
        encode_utf8(text + seq!['\n']).len() > 0,
        encode_utf8(text + seq!['\n']).last() == LINE_FEED,
    decreases text.len(),
{
    let all = text + seq!['\n'];
    if text.len() == 0 {
        assert(all =~= seq!['\n']);
        assert(is_ascii_chars(all));
        is_ascii_chars_encode_utf8(all);
        assert(encode_utf8(all)[0] == all[0] as u8);
    } else {
        assert(all.drop_first() =~= text.drop_first() + seq!['\n']);
        lemma_encoded_line_feed(text.drop_first());
    }
}

/// Every entry ends with a line feed, in the file as in the text.
pub proof fn law_entry_ends_with_line_feed(event: LogEventView)
    ensures
        rendered(event).len() > 0,
        rendered(event).last() == '\n',
        encode_utf8(rendered(event)).len() > 0,
        encode_utf8(rendered(event)).last() == LINE_FEED,
{
    reveal_strlit("\n");
    let entry = rendered(event);
    let body = entry.drop_last();
    assert("\n"@ =~= seq!['\n']);
    assert(entry =~= body + seq!['\n']);
    lemma_encoded_line_feed(body);
}

/// A file of whole lines stays one when an entry is appended to it: it is
/// empty or ends with a line feed.
pub proof fn law_file_stays_whole_lines(file: Seq<u8>, entry: Seq<u8>)
    requires
        entry.len() > 0,
        entry.last() == LINE_FEED,
    ensures
        appended(file, entry).len() == 0 || appended(file, entry).last() == LINE_FEED,
{
    lemma_retained_is_recent_lines(file + entry);
}

} // verus!
