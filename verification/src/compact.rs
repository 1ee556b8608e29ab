//! History-compaction arithmetic and its laws: how many of the oldest
//! messages a compaction removes, when the soft check fires, and the shape of
//! a compacted history.

use vstd::prelude::*;

use crate::message::{Message, UserItem};

verus! {

/// Fraction removed by a soft compaction, in hundredths.
pub const SOFT_COMPACTION_HUNDREDTHS: u64 = 50;

/// Fraction removed by a forced compaction, in hundredths.
pub const FORCED_COMPACTION_HUNDREDTHS: u64 = 75;

/// Histories of at most this many messages are never compacted.
pub const COMPACTION_MIN_LENGTH: usize = 4;

/// Whether estimated usage has reached the soft-compaction threshold of
/// 0.70: `estimated / window >= 0.70`, stated over integers. A window of 0
/// counts as exhausted.
pub open spec fn soft_compaction_fires(estimated: int, window: int) -> bool {
    10 * estimated >= 7 * window
}

/// `total * (hundredths / 100)`, rounded half-up.
pub open spec fn rounded_share(total: int, hundredths: int) -> int {
    (total * hundredths + 50) / 100
}

/// How many of the oldest messages a compaction with fraction
/// `hundredths / 100` removes from a history of length `total`:
/// `clamp(round(total * fraction), 1, total - 2)`.
pub open spec fn remove_count_spec(total: int, hundredths: int) -> int {
    let share = rounded_share(total, hundredths);
    if share < 1 {
        1
    } else if share > total - 2 {
        total - 2
    } else {
        share
    }
}

/// Every compaction of a history longer than the no-op bound removes at
/// least one message and keeps at least the two most recent, whatever the
/// fraction.
pub proof fn lemma_remove_count_clamped(total: int, hundredths: int)
    requires
        3 <= total,
        0 <= hundredths,
    ensures
        1 <= remove_count_spec(total, hundredths) <= total - 2,
{
}

/// The removal count, executable. `checked` arithmetic is not needed: the
/// product is computed at 128 bits.
pub fn remove_count(total: usize, hundredths: u64) -> (rc: usize)
    requires
        3 <= total,
        hundredths <= 100,
    ensures
        rc as int == remove_count_spec(total as int, hundredths as int),
        1 <= rc <= total - 2,
{
    proof {
        assert((total as int) * (hundredths as int) <= (usize::MAX as int) * 100)
            by (nonlinear_arith)
            requires
                total <= usize::MAX,
                hundredths <= 100,
        ;
    }
    let share: u128 = ((total as u128) * (hundredths as u128) + 50) / 100;
    let hi: u128 = (total as u128) - 2;
    let rc: u128 = if share < 1 {
        1
    } else if share > hi {
        hi
    } else {
        share
    };
    rc as usize
}

/// Usage as a whole percentage, rounded half-up and saturated at the
/// counter's width, computed before removal. A window of 0 reports 0.
pub open spec fn usage_percent_spec(estimated: int, window: int) -> int {
    if window == 0 {
        0
    } else {
        let raw = (200 * estimated + window) / (2 * window);
        if raw > u64::MAX {
            u64::MAX as int
        } else {
            raw
        }
    }
}

/// The usage percentage, executable.
pub fn usage_percent(estimated: u64, window: u64) -> (p: u64)
    ensures
        p as int == usage_percent_spec(estimated as int, window as int),
{
    if window == 0 {
        0
    } else {
        let raw: u128 = (200 * (estimated as u128) + (window as u128)) / (2 * (window as u128));
        if raw > u64::MAX as u128 {
            u64::MAX
        } else {
            raw as u64
        }
    }
}

/// Whether estimated usage has reached the soft threshold, executable.
pub fn soft_threshold_reached(estimated: u64, window: u64) -> (b: bool)
    ensures
        b == soft_compaction_fires(estimated as int, window as int),
{
    10 * (estimated as u128) >= 7 * (window as u128)
}

/// A compaction marker: a synthetic `User` message holding exactly one text
/// item, inserted at position 0 of the shortened history.
pub open spec fn is_compaction_marker(m: Message) -> bool {
    m matches Message::User(items) && items@.len() == 1 && items@[0] is Text
}

/// The shape of a compacted history: with `rc` the removal count for the
/// given fraction, the oldest `rc` messages are gone, the remainder keeps
/// its order, and one marker stands at position 0.
pub open spec fn compacted_rel(old_h: Seq<Message>, new_h: Seq<Message>, hundredths: int) -> bool {
    let rc = remove_count_spec(old_h.len() as int, hundredths);
    &&& new_h.len() == old_h.len() - rc + 1
    &&& new_h.subrange(1, new_h.len() as int) == old_h.subrange(rc, old_h.len() as int)
    &&& is_compaction_marker(new_h[0])
}

/// No compaction ever removes the two most-recently-appended messages: after
/// any compaction of a history longer than the no-op bound, the last two
/// messages of the new history are the last two of the old, in order.
pub proof fn lemma_compaction_keeps_recent(old_h: Seq<Message>, new_h: Seq<Message>, hundredths: int)
    requires
        5 <= old_h.len(),
        0 <= hundredths,
        compacted_rel(old_h, new_h, hundredths),
    ensures
        3 <= new_h.len(),
        new_h[new_h.len() - 1] == old_h[old_h.len() - 1],
        new_h[new_h.len() - 2] == old_h[old_h.len() - 2],
{
    let rc = remove_count_spec(old_h.len() as int, hundredths);
    lemma_remove_count_clamped(old_h.len() as int, hundredths);
    let tail = old_h.subrange(rc, old_h.len() as int);
    assert(new_h[new_h.len() - 1] == new_h.subrange(1, new_h.len() as int)[new_h.len() - 2]);
    assert(new_h[new_h.len() - 2] == new_h.subrange(1, new_h.len() as int)[new_h.len() - 3]);
    assert(tail[tail.len() as int - 1] == old_h[old_h.len() - 1]);
    assert(tail[tail.len() as int - 2] == old_h[old_h.len() - 2]);
}

/// The observability record of one compaction: how many messages were
/// removed, how many remain (marker included), the usage percentage before
/// removal, and the recap placed in the marker.
pub struct CompactionReport {
    /// Messages removed from the head of the history.
    pub removed: usize,
    /// Messages remaining after the marker was inserted.
    pub remaining: usize,
    /// Usage percentage computed before removal.
    pub usage_percent: u64,
    /// The recap text handed to the marker renderer.
    pub recap: String,
}

/// What one compaction call did to the history.
pub enum CompactionOutcome {
    /// Nothing happened: the history was at or under the no-op bound, or a
    /// soft check found usage under the threshold.
    NotNeeded,
    /// The history was compacted; the report describes the change.
    Compacted(CompactionReport),
}

} // verus!
