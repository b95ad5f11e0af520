//! Resolving calendar-title filters.  Operations that accept calendar titles
//! resolve each one by exact match against the store's full calendar list;
//! a filter that matches nothing fails with `CalendarNotFound`, naming every
//! requested title joined by ", ".

use vstd::prelude::*;
use vstd::string::StringExecFns;
use crate::errors::EventKitError;
use crate::types::CalendarInfo;

verus! {

/// Whether `t` appears among the requested titles.
pub open spec fn spec_string_in(t: Seq<char>, titles: Seq<String>) -> bool {
    exists|i: int| 0 <= i < titles.len() && titles[i]@ == t
}

/// The calendars whose title appears among the requested titles, in their
/// original order.
pub open spec fn spec_selected(all: Seq<CalendarInfo>, titles: Seq<String>) -> Seq<CalendarInfo>
    decreases all.len(),
{
    if all.len() == 0 {
        Seq::empty()
    } else {
        let rest = spec_selected(all.drop_last(), titles);
        if spec_string_in(all.last().title@, titles) {
            rest.push(all.last())
        } else {
            rest
        }
    }
}

/// The requested titles joined by ", ".
pub open spec fn spec_joined(titles: Seq<String>) -> Seq<char>
    decreases titles.len(),
{
    if titles.len() == 0 {
        Seq::empty()
    } else if titles.len() == 1 {
        titles[0]@
    } else {
        spec_joined(titles.drop_last()) + ", "@ + titles.last()@
    }
}

/// Whether `title` equals any of the requested titles.
pub fn string_in(title: &String, titles: &Vec<String>) -> (b: bool)
    ensures
        b == spec_string_in(title@, titles@),
{
    let mut k: usize = 0;
    while k < titles.len()
        invariant
            k <= titles@.len(),
            forall|j: int| 0 <= j < k ==> titles@[j]@ != title@,
        decreases titles@.len() - k,
    {
        if titles[k] == *title {
            assert(titles@[k as int]@ == title@);
            return true;
        }
        k += 1;
    }
    false
}

/// Joins the requested titles with ", ", as error messages name them.
pub fn join_titles(titles: &Vec<String>) -> (r: String)
    ensures
        r@ == spec_joined(titles@),
{
    let mut r = String::new();
    let mut i: usize = 0;
    while i < titles.len()
        invariant
            i <= titles@.len(),
            r@ == spec_joined(titles@.subrange(0, i as int)),
        decreases titles@.len() - i,
    {
        if i > 0 {
            r.append(", ");
        }
        r.append(titles[i].as_str());
        proof {
            let pre = titles@.subrange(0, i as int);
            let post = titles@.subrange(0, i + 1 as int);
            assert(post.drop_last() =~= pre);
            assert(post.last() == titles@[i as int]);
        }
        i += 1;
    }
    proof {
        assert(titles@.subrange(0, titles@.len() as int) =~= titles@);
    }
    r
}

/// Resolves a calendar-title filter against the store's full calendar list.
/// The selection keeps every calendar whose title was requested; if the
/// filter matches no calendar at all, the operation fails with
/// `CalendarNotFound` naming all requested titles.
pub fn select_calendars(all: &Vec<CalendarInfo>, titles: &Vec<String>) -> (r: Result<
    Vec<CalendarInfo>,
    EventKitError,
>)
    ensures
        spec_selected(all@, titles@).len() > 0 ==> (r matches Ok(sel)
            && sel@ == spec_selected(all@, titles@)),
        spec_selected(all@, titles@).len() == 0 ==> (r matches Err(e)
            && e matches EventKitError::CalendarNotFound(m) && m@ == spec_joined(titles@)),
{
    let mut sel: Vec<CalendarInfo> = Vec::new();
    let mut i: usize = 0;
    while i < all.len()
        invariant
            i <= all@.len(),
            sel@ == spec_selected(all@.subrange(0, i as int), titles@),
        decreases all@.len() - i,
    {
        if string_in(&all[i].title, titles) {
            sel.push(all[i].clone());
        }
        proof {
            let post = all@.subrange(0, i + 1 as int);
            assert(post.drop_last() =~= all@.subrange(0, i as int));
            assert(post.last() == all@[i as int]);
        }
        i += 1;
    }
    proof {
        assert(all@.subrange(0, all@.len() as int) =~= all@);
    }
    if sel.len() == 0 {
        Err(EventKitError::CalendarNotFound(join_titles(titles)))
    } else {
        Ok(sel)
    }
}

/// The identifiers of the given calendars, in order.
pub fn calendar_identifiers(cals: &Vec<CalendarInfo>) -> (ids: Vec<String>)
    ensures
        ids@.len() == cals@.len(),
        forall|i: int| 0 <= i < cals@.len() ==> ids@[i]@ == cals@[i].identifier@,
{
    let mut ids: Vec<String> = Vec::new();
    let mut i: usize = 0;
    while i < cals.len()
        invariant
            i <= cals@.len(),
            ids@.len() == i,
            forall|j: int| 0 <= j < i ==> ids@[j]@ == cals@[j].identifier@,
        decreases cals@.len() - i,
    {
        ids.push(cals[i].identifier.clone());
        i += 1;
    }
    ids
}

/// Resolves a single calendar title to the first calendar bearing it.
pub fn find_calendar_by_title(all: &Vec<CalendarInfo>, title: &String) -> (r: Result<
    CalendarInfo,
    EventKitError,
>)
    ensures
        (exists|i: int| 0 <= i < all@.len() && all@[i].title@ == title@) <==> r is Ok,
        r matches Ok(c) ==> (exists|i: int|
            0 <= i < all@.len() && all@[i] == c && all@[i].title@ == title@ && (forall|j: int|
                0 <= j < i ==> all@[j].title@ != title@)),
        r matches Err(e) ==> (e matches EventKitError::CalendarNotFound(m) && m@ == title@),
{
    let mut i: usize = 0;
    while i < all.len()
        invariant
            i <= all@.len(),
            forall|j: int| 0 <= j < i ==> all@[j].title@ != title@,
        decreases all@.len() - i,
    {
        if all[i].title == *title {
            assert(all@[i as int].title@ == title@);
            return Ok(all[i].clone());
        }
        i += 1;
    }
    Err(EventKitError::CalendarNotFound(title.clone()))
}

/// No calendar is selected when none of the requested titles matches any
/// calendar in the store: a filter that matches nothing cannot produce a
/// selection.
pub proof fn lemma_no_match_selects_nothing(all: Seq<CalendarInfo>, titles: Seq<String>)
    requires
        forall|i: int| 0 <= i < all.len() ==> !spec_string_in(all[i].title@, titles),
    ensures
        spec_selected(all, titles).len() == 0,
    decreases all.len(),
{
    if all.len() > 0 {
        assert(all.last() == all[all.len() - 1]);
        lemma_no_match_selects_nothing(all.drop_last(), titles);
    }
}

/// Every selected calendar comes from the store's list and bears a requested
/// title, and every listed calendar bearing a requested title is selected.
pub proof fn lemma_selected_characterized(all: Seq<CalendarInfo>, titles: Seq<String>)
    ensures
        forall|k: int|
            0 <= k < spec_selected(all, titles).len() ==> all.contains(
                #[trigger] spec_selected(all, titles)[k],
            ) && spec_string_in(spec_selected(all, titles)[k].title@, titles),
        forall|i: int|
            0 <= i < all.len() && spec_string_in(#[trigger] all[i].title@, titles)
                ==> spec_selected(all, titles).contains(all[i]),
    decreases all.len(),
{
    if all.len() > 0 {
        lemma_selected_characterized(all.drop_last(), titles);
        let rest = spec_selected(all.drop_last(), titles);
        let sel = spec_selected(all, titles);
        assert forall|k: int| 0 <= k < sel.len() implies all.contains(#[trigger] sel[k])
            && spec_string_in(sel[k].title@, titles) by {
            if k < rest.len() {
                assert(all.drop_last().contains(rest[k]));
                let w = choose|j: int| 0 <= j < all.drop_last().len() && all.drop_last()[j]
                    == rest[k];
                assert(all[w] == rest[k]);
            } else {
                assert(sel[k] == all.last());
                assert(all[all.len() - 1] == all.last());
            }
        }
        assert forall|i: int|
            0 <= i < all.len() && spec_string_in(#[trigger] all[i].title@, titles) implies
            sel.contains(all[i]) by {
            if i < all.len() - 1 {
                assert(all.drop_last()[i] == all[i]);
                assert(rest.contains(all[i]));
                let w = choose|j: int| 0 <= j < rest.len() && rest[j] == all[i];
                if spec_string_in(all.last().title@, titles) {
                    assert(sel[w] == all[i]);
                } else {
                    assert(sel[w] == all[i]);
                }
            } else {
                assert(all[i] == all.last());
                assert(spec_string_in(all.last().title@, titles));
                assert(sel.last() == all.last());
            }
        }
    }
}

} // verus!
