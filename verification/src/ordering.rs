//! Ordering of fetched events.  The native store does not guarantee any
//! order, so a date-range fetch sorts what came back by start timestamp
//! before returning it.

use vstd::prelude::*;
use vstd::multiset::Multiset;
use vstd::seq_lib::group_to_multiset_ensures;
use crate::types::EventItem;

verus! {

/// Non-decreasing by start timestamp.
pub open spec fn sorted_by_start(s: Seq<EventItem>) -> bool {
    forall|i: int, j: int| 0 <= i < j < s.len() ==> s[i].start_date <= s[j].start_date
}

/// Sorts events by start timestamp, non-decreasing.  The result holds
/// exactly the given events, whatever order the store returned them in.
pub fn sort_events_by_start(events: Vec<EventItem>) -> (r: Vec<EventItem>)
    ensures
        sorted_by_start(r@),
        r@.to_multiset() == events@.to_multiset(),
{
    broadcast use group_to_multiset_ensures;

    let mut rest = events;
    let mut r: Vec<EventItem> = Vec::new();
    proof {
        assert(r@.to_multiset().add(rest@.to_multiset()) =~= events@.to_multiset());
    }
    while rest.len() > 0
        invariant
            r@.to_multiset().add(rest@.to_multiset()) == events@.to_multiset(),
            sorted_by_start(r@),
            forall|i: int, j: int|
                0 <= i < r@.len() && 0 <= j < rest@.len() ==> r@[i].start_date
                    <= rest@[j].start_date,
        decreases rest@.len(),
    {
        let ghost rest0 = rest@;
        let ghost r0 = r@;
        let mut m: usize = 0;
        let mut k: usize = 1;
        while k < rest.len()
            invariant
                rest@.len() > 0,
                m < k <= rest@.len(),
                forall|j: int| 0 <= j < k ==> rest@[m as int].start_date <= rest@[j].start_date,
                rest@ == rest0,
            decreases rest@.len() - k,
        {
            if rest[k].start_date < rest[m].start_date {
                m = k;
            }
            k += 1;
        }
        let item = rest.remove(m);
        proof {
            broadcast use group_to_multiset_ensures;

            assert(rest0[m as int] == item);
            assert(rest0.contains(item));
            assert(rest@.to_multiset() =~= rest0.to_multiset().remove(item));
            assert(forall|j: int|
                0 <= j < rest@.len() ==> rest0.contains(#[trigger] rest@[j]) && item.start_date
                    <= rest@[j].start_date);
        }
        r.push(item);
        proof {
            broadcast use group_to_multiset_ensures;

            assert(r@.to_multiset() =~= r0.to_multiset().insert(item));
            assert(r@.to_multiset().add(rest@.to_multiset()) =~= r0.to_multiset().add(
                rest0.to_multiset(),
            ));
        }
    }
    proof {
        assert(rest@.to_multiset() =~= Multiset::empty());
        assert(r@.to_multiset() =~= events@.to_multiset());
    }
    r
}

} // verus!
