//! The historical log collection: 32 fixed 16-word slots decoded in
//! address order, sentinel slots discarded, the remainder ordered
//! ascending by run-hour counter.

use vstd::prelude::*;
use vstd::seq_lib::to_multiset_build;
use vstd::seq_lib::to_multiset_insert;

use crate::loggedresponseday::LoggedResponseDay;
use crate::loggedresponseday::spec_day;
use crate::loggedresponseday::spec_is_sentinel;

verus! {

/// Number of log slots in the device's historical log region.
pub const LOG_SLOT_COUNT: usize = 32;

/// Number of 16-bit words in one log slot.
pub const LOG_SLOT_WORDS: usize = 16;

/// Slot `i` of a raw log buffer: its `i`-th run of 16 words.
pub open spec fn spec_slot(raw: Seq<u16>, i: int) -> Seq<u16> {
    raw.subrange(16 * i, 16 * i + 16)
}

/// The records of the first `n` slots that are not sentinels, decoded in
/// slot order.
pub open spec fn spec_log_days(raw: Seq<u16>, n: int) -> Seq<LoggedResponseDay>
    decreases n,
{
    if n <= 0 {
        Seq::empty()
    } else {
        let prefix = spec_log_days(raw, n - 1);
        let day = spec_day(spec_slot(raw, n - 1));
        if spec_is_sentinel(day) {
            prefix
        } else {
            prefix.push(day)
        }
    }
}

/// Every valid (non-sentinel) record of a raw log buffer, in slot order.
pub open spec fn spec_log_collection(raw: Seq<u16>) -> Seq<LoggedResponseDay> {
    spec_log_days(raw, 32)
}

/// Records in ascending run-hour order.
pub open spec fn spec_sorted_by_hourmeter(s: Seq<LoggedResponseDay>) -> bool {
    forall|i: int, j: int| 0 <= i < j < s.len() ==> s[i].hourmeter <= s[j].hourmeter
}

/// The decoded log history: every valid day record, sorted ascending by
/// the run-hour counter.
#[derive(Clone, Debug)]
pub struct LoggedResponse {
    /// The valid day records, ascending by `hourmeter`.
    pub days: Vec<LoggedResponseDay>,
}

/// Inserts a record into a sorted vector, keeping it sorted: the record
/// goes after every record with an hourmeter less than or equal to its
/// own, so equal keys keep their arrival order.
fn insert_sorted(days: &mut Vec<LoggedResponseDay>, day: LoggedResponseDay)
    requires
        spec_sorted_by_hourmeter(old(days)@),
        old(days)@.len() < usize::MAX,
    ensures
        spec_sorted_by_hourmeter(final(days)@),
        exists|pos: int|
            0 <= pos <= old(days)@.len() && final(days)@ == old(days)@.insert(pos, day),
        final(days)@.len() == old(days)@.len() + 1,
        final(days)@.to_multiset() == old(days)@.to_multiset().insert(day),
        forall|k: int|
            0 <= k < final(days)@.len() ==> old(days)@.contains(#[trigger] final(days)@[k])
                || final(days)@[k] == day,
{
    let mut idx: usize = 0;
    while idx < days.len()
        invariant_except_break
            idx <= days@.len(),
            forall|k: int| 0 <= k < idx ==> days@[k].hourmeter <= day.hourmeter,
            *days == *old(days),
        ensures
            idx <= days@.len(),
            forall|k: int| 0 <= k < idx ==> days@[k].hourmeter <= day.hourmeter,
            idx < days@.len() ==> days@[idx as int].hourmeter > day.hourmeter,
            *days == *old(days),
        decreases days@.len() - idx,
    {
        if days[idx].hourmeter > day.hourmeter {
            break ;
        }
        idx = idx + 1;
    }
    let ghost before = days@;
    let ghost pos = idx as int;
    days.insert(idx, day);
    proof {
        broadcast use to_multiset_insert;

        before.insert_ensures(pos, day);
        assert forall|i: int, j: int|
            0 <= i < j < days@.len() implies days@[i].hourmeter <= days@[j].hourmeter by {
            if j < pos {
            } else if i < pos && j == pos {
            } else if i == pos {
                assert(days@[j] == before[j - 1]);
                assert(before[pos] == days@[pos + 1]);
            } else {
            }
        }
        assert forall|k: int|
            0 <= k < days@.len() implies before.contains(#[trigger] days@[k]) || days@[k]
            == day by {
            if k < pos {
                assert(days@[k] == before[k]);
            } else if k > pos {
                assert(days@[k] == before[k - 1]);
            }
        }
    }
}

impl LoggedResponse {
    /// Builds the log collection from the raw 512-word log buffer: the 32
    /// slots are decoded in address order, sentinel (unused) slots are
    /// discarded, and the valid records are sorted ascending by their
    /// run-hour counter with a stable insertion. Never fails: malformed
    /// non-sentinel slots decode to whatever the device reported.
    pub fn from_raw_bits(raw_data: [u16; 512]) -> (r: LoggedResponse)
        ensures
            spec_sorted_by_hourmeter(r.days@),
            r.days@.to_multiset() == spec_log_collection(raw_data@).to_multiset(),
            r.days@.len() == spec_log_collection(raw_data@).len(),
            forall|k: int| 0 <= k < r.days@.len() ==> !spec_is_sentinel(#[trigger] r.days@[k]),
    {
        let words = raw_data.as_slice();
        let mut days: Vec<LoggedResponseDay> = Vec::new();
        let mut i: usize = 0;
        while i < LOG_SLOT_COUNT
            invariant
                i <= 32,
                words@ == raw_data@,
                raw_data@.len() == 512,
                spec_sorted_by_hourmeter(days@),
                days@.len() <= i,
                days@.to_multiset() == spec_log_days(raw_data@, i as int).to_multiset(),
                days@.len() == spec_log_days(raw_data@, i as int).len(),
                forall|k: int| 0 <= k < days@.len() ==> !spec_is_sentinel(#[trigger] days@[k]),
            decreases 32 - i,
        {
            let slot = &words[16 * i..16 * i + 16];
            let day = LoggedResponseDay::from_slot(slot);
            let ghost prefix = spec_log_days(raw_data@, i as int);
            proof {
                assert(slot@ == spec_slot(raw_data@, i as int));
                assert(spec_log_days(raw_data@, i + 1) == if spec_is_sentinel(day) {
                    prefix
                } else {
                    prefix.push(day)
                });
            }
            if !day.is_sentinel() {
                let ghost before = days@;
                insert_sorted(&mut days, day);
                proof {
                    broadcast use to_multiset_build;

                    assert(prefix.push(day).to_multiset() =~= prefix.to_multiset().insert(day));
                    assert(days@.to_multiset() == before.to_multiset().insert(day));
                    assert forall|k: int|
                        0 <= k < days@.len() implies !spec_is_sentinel(
                        #[trigger] days@[k],
                    ) by {
                        if days@[k] != day {
                            assert(before.contains(days@[k]));
                            let j = choose|j: int|
                                0 <= j < before.len() && before[j] == days@[k];
                            assert(!spec_is_sentinel(before[j]));
                        }
                    }
                }
            }
            i = i + 1;
        }
        LoggedResponse { days }
    }
}

/// Sentinel exclusion: the log collection of a raw buffer holds no
/// sentinel record, and holds the record of every slot that is not a
/// sentinel — exactly the unused slots are excluded.
pub proof fn lemma_log_collection_excludes_sentinels(raw: Seq<u16>)
    ensures
        forall|k: int|
            0 <= k < spec_log_collection(raw).len() ==> !spec_is_sentinel(
                #[trigger] spec_log_collection(raw)[k],
            ),
        forall|i: int|
            0 <= i < 32 && !spec_is_sentinel(spec_day(spec_slot(raw, i)))
                ==> spec_log_collection(raw).contains(spec_day(spec_slot(raw, i))),
{
    lemma_log_days_membership(raw, 32);
}

/// Each record of `spec_log_days(raw, n)` comes from a non-sentinel slot
/// below `n`, and every non-sentinel slot below `n` contributes its
/// record.
proof fn lemma_log_days_membership(raw: Seq<u16>, n: int)
    requires
        0 <= n,
    ensures
        forall|k: int|
            0 <= k < spec_log_days(raw, n).len() ==> !spec_is_sentinel(
                #[trigger] spec_log_days(raw, n)[k],
            ),
        forall|i: int|
            0 <= i < n && !spec_is_sentinel(spec_day(spec_slot(raw, i))) ==> spec_log_days(
                raw,
                n,
            ).contains(spec_day(spec_slot(raw, i))),
    decreases n,
{
    if n > 0 {
        lemma_log_days_membership(raw, n - 1);
        let prefix = spec_log_days(raw, n - 1);
        let day = spec_day(spec_slot(raw, n - 1));
        assert forall|i: int|
            0 <= i < n && !spec_is_sentinel(spec_day(spec_slot(raw, i))) implies spec_log_days(
            raw,
            n,
        ).contains(spec_day(spec_slot(raw, i))) by {
            if i < n - 1 {
                let d = spec_day(spec_slot(raw, i));
                assert(prefix.contains(d));
                let j = choose|j: int| 0 <= j < prefix.len() && prefix[j] == d;
                if spec_is_sentinel(day) {
                    assert(spec_log_days(raw, n)[j] == d);
                } else {
                    assert(prefix.push(day)[j] == d);
                }
            } else {
                assert(!spec_is_sentinel(day));
                assert(prefix.push(day)[prefix.len() as int] == day);
            }
        }
    }
}

} // verus!
