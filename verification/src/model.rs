//! An in-memory store.  It answers the same queries as the native store, so
//! a whole session can be driven against it: authorization state, calendars
//! with a default, and the two item collections, with identifiers issued
//! from a counter.  It stands in for the native service wherever the real
//! one is unavailable or unwanted, tests above all.

use vstd::prelude::*;
use crate::calendars::{spec_joined, spec_selected, spec_string_in, string_in};
use crate::errors::EventKitError;
use crate::ids::{lemma_decimal_injective, spec_decimal, u64_to_string};
use crate::session::{
    start, Directive, EntityKind, OpRequest, Outcome, StoreQuery, StoreReply,
};
use crate::auth::{spec_authorization_gate, AuthDecision};
use crate::types::{AuthorizationStatus, CalendarInfo, EventItem, ReminderItem};
use crate::ordering::sorted_by_start;
use crate::updates::{
    opt_chars, opt_int, opt_ts, spec_event_update, spec_reminder_update, EventDraft,
    ReminderDraft,
};

verus! {

/// A reminder as the store keeps it: the record, and the identifier of the
/// list it lives in.
#[derive(Debug, PartialEq, Eq)]
pub struct StoredReminder {
    /// The record itself.
    pub item: ReminderItem,
    /// Identifier of the owning list.
    pub calendar_identifier: String,
}

/// An event as the store keeps it: the record, and the identifier of the
/// calendar it lives in.
#[derive(Debug, PartialEq, Eq)]
pub struct StoredEvent {
    /// The record itself.
    pub item: EventItem,
    /// Identifier of the owning calendar.
    pub calendar_identifier: String,
}

/// Whether an identifier was issued from the counter before it reached
/// `bound`.
pub open spec fn spec_issued(id: Seq<char>, bound: u64) -> bool {
    exists|k: nat| k < bound && id == spec_decimal(k)
}

/// The characters of each string, in order.
pub open spec fn spec_id_views(ids: Seq<String>) -> Seq<Seq<char>> {
    Seq::new(ids.len(), |i: int| ids[i]@)
}

/// The characters of each string of an optional filter.
pub open spec fn spec_opt_id_views(ids: Option<Vec<String>>) -> Option<Seq<Seq<char>>> {
    match ids {
        None => None,
        Some(v) => Some(spec_id_views(v@)),
    }
}

/// The identifier characters of each calendar, in order.
pub open spec fn spec_identifier_views(cals: Seq<CalendarInfo>) -> Seq<Seq<char>> {
    Seq::new(cals.len(), |i: int| cals[i].identifier@)
}

/// Whether an identifier appears in a filter.
pub open spec fn spec_id_among(id: Seq<char>, ids: Seq<Seq<char>>) -> bool {
    exists|i: int| 0 <= i < ids.len() && ids[i] == id
}

/// Whether a stored reminder passes a calendar filter.
pub open spec fn spec_reminder_matches(sr: StoredReminder, ids: Option<Seq<Seq<char>>>) -> bool {
    match ids {
        None => true,
        Some(v) => spec_id_among(sr.calendar_identifier@, v),
    }
}

/// The reminders that pass a calendar filter, in stored order.
pub open spec fn spec_matching_reminders(
    rs: Seq<StoredReminder>,
    ids: Option<Seq<Seq<char>>>,
) -> Seq<ReminderItem>
    decreases rs.len(),
{
    if rs.len() == 0 {
        Seq::empty()
    } else {
        let rest = spec_matching_reminders(rs.drop_last(), ids);
        if spec_reminder_matches(rs.last(), ids) {
            rest.push(rs.last().item)
        } else {
            rest
        }
    }
}

/// The incomplete reminders, in stored order.
pub open spec fn spec_incomplete_reminders(rs: Seq<StoredReminder>) -> Seq<ReminderItem>
    decreases rs.len(),
{
    if rs.len() == 0 {
        Seq::empty()
    } else {
        let rest = spec_incomplete_reminders(rs.drop_last());
        if !rs.last().item.completed {
            rest.push(rs.last().item)
        } else {
            rest
        }
    }
}

/// Whether a stored event overlaps the range and passes a calendar filter.
pub open spec fn spec_event_matches(
    se: StoredEvent,
    start_date: i64,
    end_date: i64,
    ids: Option<Seq<Seq<char>>>,
) -> bool {
    &&& se.item.start_date <= end_date
    &&& se.item.end_date >= start_date
    &&& (match ids {
        None => true,
        Some(v) => spec_id_among(se.calendar_identifier@, v),
    })
}

/// The events that overlap the range and pass a calendar filter, in stored
/// order.
pub open spec fn spec_matching_events(
    es: Seq<StoredEvent>,
    start_date: i64,
    end_date: i64,
    ids: Option<Seq<Seq<char>>>,
) -> Seq<EventItem>
    decreases es.len(),
{
    if es.len() == 0 {
        Seq::empty()
    } else {
        let rest = spec_matching_events(es.drop_last(), start_date, end_date, ids);
        if spec_event_matches(es.last(), start_date, end_date, ids) {
            rest.push(es.last().item)
        } else {
            rest
        }
    }
}

/// The first stored reminder bearing the identifier, if any.
pub open spec fn spec_find_reminder(rs: Seq<StoredReminder>, id: Seq<char>) -> Option<ReminderItem>
    decreases rs.len(),
{
    if rs.len() == 0 {
        None
    } else if rs[0].item.identifier@ == id {
        Some(rs[0].item)
    } else {
        spec_find_reminder(rs.drop_first(), id)
    }
}

/// The first stored event bearing the identifier, if any.
pub open spec fn spec_find_event(es: Seq<StoredEvent>, id: Seq<char>) -> Option<EventItem>
    decreases es.len(),
{
    if es.len() == 0 {
        None
    } else if es[0].item.identifier@ == id {
        Some(es[0].item)
    } else {
        spec_find_event(es.drop_first(), id)
    }
}

/// The title of the first calendar bearing the identifier, if any.
pub open spec fn spec_calendar_title_for(cals: Seq<CalendarInfo>, id: Seq<char>) -> Option<
    Seq<char>,
>
    decreases cals.len(),
{
    if cals.len() == 0 {
        None
    } else if cals[0].identifier@ == id {
        Some(cals[0].title@)
    } else {
        spec_calendar_title_for(cals.drop_first(), id)
    }
}

/// The in-memory store.
#[derive(Debug, PartialEq, Eq)]
pub struct ModelStore {
    /// Authorization state of the reminders domain.
    pub reminders_auth: AuthorizationStatus,
    /// Authorization state of the events domain.
    pub events_auth: AuthorizationStatus,
    /// What the user answers an access request with.
    pub grant_on_request: bool,
    /// The reminder lists.
    pub reminder_calendars: Vec<CalendarInfo>,
    /// The event calendars.
    pub event_calendars: Vec<CalendarInfo>,
    /// Index of the default reminder list, if one is configured.
    pub default_reminder_calendar: Option<usize>,
    /// Index of the default event calendar, if one is configured.
    pub default_event_calendar: Option<usize>,
    /// The stored reminders.
    pub reminders: Vec<StoredReminder>,
    /// The stored events.
    pub events: Vec<StoredEvent>,
    /// The next identifier to issue, in decimal.
    pub next_id: u64,
}

/// Every field equal but the two authorization states.
pub open spec fn spec_frame_auth(pre: ModelStore, post: ModelStore) -> bool {
    &&& post.grant_on_request == pre.grant_on_request
    &&& post.reminder_calendars == pre.reminder_calendars
    &&& post.event_calendars == pre.event_calendars
    &&& post.default_reminder_calendar == pre.default_reminder_calendar
    &&& post.default_event_calendar == pre.default_event_calendar
    &&& post.reminders == pre.reminders
    &&& post.events == pre.events
    &&& post.next_id == pre.next_id
}

/// Every field equal but the reminders and the counter.
pub open spec fn spec_frame_reminders(pre: ModelStore, post: ModelStore) -> bool {
    &&& post.reminders_auth == pre.reminders_auth
    &&& post.events_auth == pre.events_auth
    &&& post.grant_on_request == pre.grant_on_request
    &&& post.reminder_calendars == pre.reminder_calendars
    &&& post.event_calendars == pre.event_calendars
    &&& post.default_reminder_calendar == pre.default_reminder_calendar
    &&& post.default_event_calendar == pre.default_event_calendar
    &&& post.events == pre.events
}

/// Every field equal but the events and the counter.
pub open spec fn spec_frame_events(pre: ModelStore, post: ModelStore) -> bool {
    &&& post.reminders_auth == pre.reminders_auth
    &&& post.events_auth == pre.events_auth
    &&& post.grant_on_request == pre.grant_on_request
    &&& post.reminder_calendars == pre.reminder_calendars
    &&& post.event_calendars == pre.event_calendars
    &&& post.default_reminder_calendar == pre.default_reminder_calendar
    &&& post.default_event_calendar == pre.default_event_calendar
    &&& post.reminders == pre.reminders
}

/// The authorization state of one entity domain.
pub open spec fn spec_auth_of(s: ModelStore, k: EntityKind) -> AuthorizationStatus {
    match k {
        EntityKind::Reminders => s.reminders_auth,
        EntityKind::Events => s.events_auth,
    }
}

/// The calendars of one entity domain.
pub open spec fn spec_calendars_of(s: ModelStore, k: EntityKind) -> Seq<CalendarInfo> {
    match k {
        EntityKind::Reminders => s.reminder_calendars@,
        EntityKind::Events => s.event_calendars@,
    }
}

/// The default-calendar index of one entity domain.
pub open spec fn spec_default_of(s: ModelStore, k: EntityKind) -> Option<usize> {
    match k {
        EntityKind::Reminders => s.default_reminder_calendar,
        EntityKind::Events => s.default_event_calendar,
    }
}

/// What creating a reminder from a draft does.  It succeeds exactly when the
/// draft's calendar identifier is known and the counter can still issue an
/// identifier; the new record carries the draft's title, notes and priority
/// (0 when none was supplied), is incomplete, and is appended with a fresh
/// identifier.
pub open spec fn spec_save_reminder(
    pre: ModelStore,
    draft: ReminderDraft,
    post: ModelStore,
    reply: StoreReply,
) -> bool {
    match spec_calendar_title_for(pre.reminder_calendars@, draft.calendar_identifier@) {
        None => post == pre && (
            {
                &&& reply matches StoreReply::ReminderSaved(res)
                &&& res matches Err(m)
                &&& m@ == "no calendar with the given identifier"@
            }),
        Some(ct) => if pre.next_id == u64::MAX {
            post == pre && (
            {
                &&& reply matches StoreReply::ReminderSaved(res)
                &&& res matches Err(m)
                &&& m@ == "the store ran out of identifiers"@
            })
        } else {
            &&& reply matches StoreReply::ReminderSaved(res)
            &&& res matches Ok(item)
            &&& item.identifier@ == spec_decimal(pre.next_id as nat)
            &&& item.title@ == draft.title@
            &&& opt_chars(item.notes) == opt_chars(draft.notes)
            &&& item.completed == false
            &&& item.priority as int == (match draft.priority {
                Some(p) => p as int,
                None => 0,
            })
            &&& (item.calendar_title matches Some(t) && t@ == ct)
            &&& spec_frame_reminders(pre, post)
            &&& post.next_id == pre.next_id + 1
            &&& post.reminders@.len() == pre.reminders@.len() + 1
            &&& post.reminders@.drop_last() == pre.reminders@
            &&& post.reminders@.last().item == item
            &&& post.reminders@.last().calendar_identifier@ == draft.calendar_identifier@
        },
    }
}

/// What overwriting a stored reminder does.  It succeeds exactly when the
/// identifier resolves; the stored record is replaced in place, keeping its
/// owning list, and the reply reports the new record.
pub open spec fn spec_save_reminder_item(
    pre: ModelStore,
    item: ReminderItem,
    post: ModelStore,
    reply: StoreReply,
) -> bool {
    if spec_find_reminder(pre.reminders@, item.identifier@) is Some {
        &&& reply == StoreReply::ReminderSaved(Ok::<ReminderItem, String>(item))
        &&& spec_frame_reminders(pre, post)
        &&& post.next_id == pre.next_id
        &&& (exists|i: int|
            0 <= i < pre.reminders@.len() && pre.reminders@[i].item.identifier@
                == item.identifier@ && post.reminders@ == pre.reminders@.update(
                i,
                (StoredReminder {
                    item: item,
                    calendar_identifier: pre.reminders@[i].calendar_identifier,
                }),
            ))
    } else {
        post == pre && (
        {
            &&& reply matches StoreReply::ReminderSaved(res)
            &&& res matches Err(m)
            &&& m@ == "no item with the given identifier"@
        })
    }
}

/// What creating an event from a draft does, exactly as for reminders.
pub open spec fn spec_save_event(
    pre: ModelStore,
    draft: EventDraft,
    post: ModelStore,
    reply: StoreReply,
) -> bool {
    match spec_calendar_title_for(pre.event_calendars@, draft.calendar_identifier@) {
        None => post == pre && (
            {
                &&& reply matches StoreReply::EventSaved(res)
                &&& res matches Err(m)
                &&& m@ == "no calendar with the given identifier"@
            }),
        Some(ct) => if pre.next_id == u64::MAX {
            post == pre && (
            {
                &&& reply matches StoreReply::EventSaved(res)
                &&& res matches Err(m)
                &&& m@ == "the store ran out of identifiers"@
            })
        } else {
            &&& reply matches StoreReply::EventSaved(res)
            &&& res matches Ok(item)
            &&& item.identifier@ == spec_decimal(pre.next_id as nat)
            &&& item.title@ == draft.title@
            &&& item.start_date == draft.start_date
            &&& item.end_date == draft.end_date
            &&& item.all_day == draft.all_day
            &&& opt_chars(item.notes) == opt_chars(draft.notes)
            &&& opt_chars(item.location) == opt_chars(draft.location)
            &&& (item.calendar_title matches Some(t) && t@ == ct)
            &&& spec_frame_events(pre, post)
            &&& post.next_id == pre.next_id + 1
            &&& post.events@.len() == pre.events@.len() + 1
            &&& post.events@.drop_last() == pre.events@
            &&& post.events@.last().item == item
            &&& post.events@.last().calendar_identifier@ == draft.calendar_identifier@
        },
    }
}

/// What overwriting a stored event does, exactly as for reminders.
pub open spec fn spec_save_event_item(
    pre: ModelStore,
    item: EventItem,
    post: ModelStore,
    reply: StoreReply,
) -> bool {
    if spec_find_event(pre.events@, item.identifier@) is Some {
        &&& reply == StoreReply::EventSaved(Ok::<EventItem, String>(item))
        &&& spec_frame_events(pre, post)
        &&& post.next_id == pre.next_id
        &&& (exists|i: int|
            0 <= i < pre.events@.len() && pre.events@[i].item.identifier@ == item.identifier@
                && post.events@ == pre.events@.update(
                i,
                (StoredEvent { item: item, calendar_identifier: pre.events@[i].calendar_identifier }),
            ))
    } else {
        post == pre && (
        {
            &&& reply matches StoreReply::EventSaved(res)
            &&& res matches Err(m)
            &&& m@ == "no item with the given identifier"@
        })
    }
}

/// What removing a reminder does: the first record bearing the identifier
/// leaves the store, or the removal fails because none does.
pub open spec fn spec_remove_reminder(
    pre: ModelStore,
    id: Seq<char>,
    post: ModelStore,
    reply: StoreReply,
) -> bool {
    if spec_find_reminder(pre.reminders@, id) is Some {
        &&& reply == StoreReply::Removed(None)
        &&& spec_frame_reminders(pre, post)
        &&& post.next_id == pre.next_id
        &&& (exists|i: int|
            0 <= i < pre.reminders@.len() && pre.reminders@[i].item.identifier@ == id
                && post.reminders@ == pre.reminders@.remove(i))
    } else {
        post == pre && (
        {
            &&& reply matches StoreReply::Removed(res)
            &&& res matches Some(m)
            &&& m@ == "no item with the given identifier"@
        })
    }
}

/// What removing an event does, exactly as for reminders.
pub open spec fn spec_remove_event(
    pre: ModelStore,
    id: Seq<char>,
    post: ModelStore,
    reply: StoreReply,
) -> bool {
    if spec_find_event(pre.events@, id) is Some {
        &&& reply == StoreReply::Removed(None)
        &&& spec_frame_events(pre, post)
        &&& post.next_id == pre.next_id
        &&& (exists|i: int|
            0 <= i < pre.events@.len() && pre.events@[i].item.identifier@ == id
                && post.events@ == pre.events@.remove(i))
    } else {
        post == pre && (
        {
            &&& reply matches StoreReply::Removed(res)
            &&& res matches Some(m)
            &&& m@ == "no item with the given identifier"@
        })
    }
}

/// What the store answers each query with, and how the answer changes it.
pub open spec fn spec_answer(
    pre: ModelStore,
    q: StoreQuery,
    post: ModelStore,
    reply: StoreReply,
) -> bool {
    match q {
        StoreQuery::AuthStatus(k) => post == pre && reply == StoreReply::Status(
            spec_auth_of(pre, k),
        ),
        StoreQuery::RequestAccess(k) => {
            let granted = if pre.grant_on_request {
                AuthorizationStatus::FullAccess
            } else {
                AuthorizationStatus::Denied
            };
            &&& reply == (StoreReply::Access { granted: pre.grant_on_request, error: None })
            &&& spec_frame_auth(pre, post)
            &&& spec_auth_of(post, k) == granted
            &&& (k is Reminders ==> post.events_auth == pre.events_auth)
            &&& (k is Events ==> post.reminders_auth == pre.reminders_auth)
        },
        StoreQuery::Calendars(k) => post == pre && (reply matches StoreReply::Calendars(cs)
            && cs@ == spec_calendars_of(pre, k)),
        StoreQuery::DefaultCalendar(k) => post == pre && (match spec_default_of(pre, k) {
            Some(i) => reply matches StoreReply::DefaultCalendar(Some(c)) && c == spec_calendars_of(
                pre,
                k,
            )[i as int],
            None => reply == StoreReply::DefaultCalendar(None),
        }),
        StoreQuery::RemindersMatching { calendar_identifiers } => post == pre && (reply matches
            StoreReply::RemindersSlot(Some(items)) && items@ == spec_matching_reminders(
            pre.reminders@,
            spec_opt_id_views(calendar_identifiers),
        )),
        StoreQuery::IncompleteReminders => post == pre && (reply matches StoreReply::RemindersSlot(
            Some(items),
        ) && items@ == spec_incomplete_reminders(pre.reminders@)),
        StoreQuery::EventsBetween { start_date, end_date, calendar_identifiers } => post == pre
            && (reply matches StoreReply::Events(items) && items@ == spec_matching_events(
            pre.events@,
            start_date,
            end_date,
            spec_opt_id_views(calendar_identifiers),
        )),
        StoreQuery::ReminderById { identifier } => post == pre && reply
            == StoreReply::ReminderLookup(spec_find_reminder(pre.reminders@, identifier@)),
        StoreQuery::EventById { identifier } => post == pre && reply == StoreReply::EventLookup(
            spec_find_event(pre.events@, identifier@),
        ),
        StoreQuery::SaveReminder { draft } => spec_save_reminder(pre, draft, post, reply),
        StoreQuery::SaveReminderItem { item } => spec_save_reminder_item(pre, item, post, reply),
        StoreQuery::SaveEvent { draft } => spec_save_event(pre, draft, post, reply),
        StoreQuery::SaveEventItem { item } => spec_save_event_item(pre, item, post, reply),
        StoreQuery::RemoveReminder { identifier } => spec_remove_reminder(
            pre,
            identifier@,
            post,
            reply,
        ),
        StoreQuery::RemoveEvent { identifier } => spec_remove_event(pre, identifier@, post, reply),
    }
}

/// Copies a calendar list.
fn clone_calendars(cals: &Vec<CalendarInfo>) -> (r: Vec<CalendarInfo>)
    ensures
        r@ == cals@,
{
    let mut r: Vec<CalendarInfo> = Vec::new();
    let mut i: usize = 0;
    while i < cals.len()
        invariant
            i <= cals@.len(),
            r@ == cals@.subrange(0, i as int),
        decreases cals@.len() - i,
    {
        r.push(cals[i].clone());
        proof {
            assert(cals@.subrange(0, i + 1 as int) =~= cals@.subrange(0, i as int).push(
                cals@[i as int],
            ));
        }
        i += 1;
    }
    proof {
        assert(cals@.subrange(0, cals@.len() as int) =~= cals@);
    }
    r
}

/// Membership among the requested strings is the same question asked of
/// their characters.
proof fn lemma_string_in_views(t: Seq<char>, v: Seq<String>)
    ensures
        spec_string_in(t, v) == spec_id_among(t, spec_id_views(v)),
{
    if spec_string_in(t, v) {
        let w = choose|i: int| 0 <= i < v.len() && v[i]@ == t;
        assert(spec_id_views(v)[w] == t);
    }
    if spec_id_among(t, spec_id_views(v)) {
        let w = choose|i: int| 0 <= i < spec_id_views(v).len() && spec_id_views(v)[i] == t;
        assert(v[w]@ == t);
    }
}

/// Whether a stored reminder passes a calendar filter.
fn reminder_matches(sr: &StoredReminder, ids: &Option<Vec<String>>) -> (b: bool)
    ensures
        b == spec_reminder_matches(*sr, spec_opt_id_views(*ids)),
{
    match ids {
        None => true,
        Some(v) => {
            proof {
                lemma_string_in_views(sr.calendar_identifier@, v@);
            }
            string_in(&sr.calendar_identifier, v)
        },
    }
}

/// The reminders that pass a calendar filter.
fn matching_reminders(rs: &Vec<StoredReminder>, ids: &Option<Vec<String>>) -> (items: Vec<
    ReminderItem,
>)
    ensures
        items@ == spec_matching_reminders(rs@, spec_opt_id_views(*ids)),
{
    let mut items: Vec<ReminderItem> = Vec::new();
    let mut i: usize = 0;
    while i < rs.len()
        invariant
            i <= rs@.len(),
            items@ == spec_matching_reminders(rs@.subrange(0, i as int), spec_opt_id_views(*ids)),
        decreases rs@.len() - i,
    {
        if reminder_matches(&rs[i], ids) {
            items.push(rs[i].item.clone());
        }
        proof {
            let post = rs@.subrange(0, i + 1 as int);
            assert(post.drop_last() =~= rs@.subrange(0, i as int));
            assert(post.last() == rs@[i as int]);
        }
        i += 1;
    }
    proof {
        assert(rs@.subrange(0, rs@.len() as int) =~= rs@);
    }
    items
}

/// The incomplete reminders.
fn incomplete_reminders(rs: &Vec<StoredReminder>) -> (items: Vec<ReminderItem>)
    ensures
        items@ == spec_incomplete_reminders(rs@),
{
    let mut items: Vec<ReminderItem> = Vec::new();
    let mut i: usize = 0;
    while i < rs.len()
        invariant
            i <= rs@.len(),
            items@ == spec_incomplete_reminders(rs@.subrange(0, i as int)),
        decreases rs@.len() - i,
    {
        if !rs[i].item.completed {
            items.push(rs[i].item.clone());
        }
        proof {
            let post = rs@.subrange(0, i + 1 as int);
            assert(post.drop_last() =~= rs@.subrange(0, i as int));
            assert(post.last() == rs@[i as int]);
        }
        i += 1;
    }
    proof {
        assert(rs@.subrange(0, rs@.len() as int) =~= rs@);
    }
    items
}

/// The events that overlap the range and pass a calendar filter.
fn matching_events(
    es: &Vec<StoredEvent>,
    start_date: i64,
    end_date: i64,
    ids: &Option<Vec<String>>,
) -> (items: Vec<EventItem>)
    ensures
        items@ == spec_matching_events(es@, start_date, end_date, spec_opt_id_views(*ids)),
{
    let mut items: Vec<EventItem> = Vec::new();
    let mut i: usize = 0;
    while i < es.len()
        invariant
            i <= es@.len(),
            items@ == spec_matching_events(
                es@.subrange(0, i as int),
                start_date,
                end_date,
                spec_opt_id_views(*ids),
            ),
        decreases es@.len() - i,
    {
        let within = es[i].item.start_date <= end_date && es[i].item.end_date >= start_date;
        let chosen = if within {
            match ids {
                None => true,
                Some(v) => {
                    proof {
                        lemma_string_in_views(es@[i as int].calendar_identifier@, v@);
                    }
                    string_in(&es[i].calendar_identifier, v)
                },
            }
        } else {
            false
        };
        if chosen {
            items.push(es[i].item.clone());
        }
        proof {
            let post = es@.subrange(0, i + 1 as int);
            assert(post.drop_last() =~= es@.subrange(0, i as int));
            assert(post.last() == es@[i as int]);
        }
        i += 1;
    }
    proof {
        assert(es@.subrange(0, es@.len() as int) =~= es@);
    }
    items
}

/// Looks the first reminder with the identifier up.
fn find_reminder(rs: &Vec<StoredReminder>, id: &String) -> (r: Option<ReminderItem>)
    ensures
        r == spec_find_reminder(rs@, id@),
{
    proof {
        assert(rs@.skip(0) =~= rs@);
    }
    let mut i: usize = 0;
    while i < rs.len()
        invariant
            i <= rs@.len(),
            spec_find_reminder(rs@, id@) == spec_find_reminder(rs@.skip(i as int), id@),
        decreases rs@.len() - i,
    {
        if rs[i].item.identifier == *id {
            proof {
                assert(rs@.skip(i as int)[0] == rs@[i as int]);
            }
            return Some(rs[i].item.clone());
        }
        proof {
            assert(rs@.skip(i as int)[0] == rs@[i as int]);
            assert(rs@.skip(i as int).drop_first() =~= rs@.skip(i + 1 as int));
        }
        i += 1;
    }
    None
}

/// Looks the first event with the identifier up.
fn find_event(es: &Vec<StoredEvent>, id: &String) -> (r: Option<EventItem>)
    ensures
        r == spec_find_event(es@, id@),
{
    proof {
        assert(es@.skip(0) =~= es@);
    }
    let mut i: usize = 0;
    while i < es.len()
        invariant
            i <= es@.len(),
            spec_find_event(es@, id@) == spec_find_event(es@.skip(i as int), id@),
        decreases es@.len() - i,
    {
        if es[i].item.identifier == *id {
            proof {
                assert(es@.skip(i as int)[0] == es@[i as int]);
            }
            return Some(es[i].item.clone());
        }
        proof {
            assert(es@.skip(i as int)[0] == es@[i as int]);
            assert(es@.skip(i as int).drop_first() =~= es@.skip(i + 1 as int));
        }
        i += 1;
    }
    None
}

/// The index of the first reminder with the identifier.
fn reminder_index(rs: &Vec<StoredReminder>, id: &String) -> (r: Option<usize>)
    ensures
        r matches Some(i) ==> i < rs@.len() && rs@[i as int].item.identifier@ == id@,
        r is Some <==> spec_find_reminder(rs@, id@) is Some,
{
    proof {
        assert(rs@.skip(0) =~= rs@);
    }
    let mut i: usize = 0;
    while i < rs.len()
        invariant
            i <= rs@.len(),
            spec_find_reminder(rs@, id@) == spec_find_reminder(rs@.skip(i as int), id@),
        decreases rs@.len() - i,
    {
        if rs[i].item.identifier == *id {
            proof {
                assert(rs@.skip(i as int)[0] == rs@[i as int]);
            }
            return Some(i);
        }
        proof {
            assert(rs@.skip(i as int)[0] == rs@[i as int]);
            assert(rs@.skip(i as int).drop_first() =~= rs@.skip(i + 1 as int));
        }
        i += 1;
    }
    None
}

/// The index of the first event with the identifier.
fn event_index(es: &Vec<StoredEvent>, id: &String) -> (r: Option<usize>)
    ensures
        r matches Some(i) ==> i < es@.len() && es@[i as int].item.identifier@ == id@,
        r is Some <==> spec_find_event(es@, id@) is Some,
{
    proof {
        assert(es@.skip(0) =~= es@);
    }
    let mut i: usize = 0;
    while i < es.len()
        invariant
            i <= es@.len(),
            spec_find_event(es@, id@) == spec_find_event(es@.skip(i as int), id@),
        decreases es@.len() - i,
    {
        if es[i].item.identifier == *id {
            proof {
                assert(es@.skip(i as int)[0] == es@[i as int]);
            }
            return Some(i);
        }
        proof {
            assert(es@.skip(i as int)[0] == es@[i as int]);
            assert(es@.skip(i as int).drop_first() =~= es@.skip(i + 1 as int));
        }
        i += 1;
    }
    None
}

/// The title of the first calendar with the identifier.
fn calendar_title_for(cals: &Vec<CalendarInfo>, id: &String) -> (r: Option<String>)
    ensures
        r matches Some(t) ==> spec_calendar_title_for(cals@, id@) == Some(t@),
        r is Some <==> spec_calendar_title_for(cals@, id@) is Some,
{
    proof {
        assert(cals@.skip(0) =~= cals@);
    }
    let mut i: usize = 0;
    while i < cals.len()
        invariant
            i <= cals@.len(),
            spec_calendar_title_for(cals@, id@) == spec_calendar_title_for(
                cals@.skip(i as int),
                id@,
            ),
        decreases cals@.len() - i,
    {
        if cals[i].identifier == *id {
            proof {
                assert(cals@.skip(i as int)[0] == cals@[i as int]);
            }
            return Some(cals[i].title.clone());
        }
        proof {
            assert(cals@.skip(i as int)[0] == cals@[i as int]);
            assert(cals@.skip(i as int).drop_first() =~= cals@.skip(i + 1 as int));
        }
        i += 1;
    }
    None
}

/// An identifier issued below the counter differs from the one the counter
/// would issue next.
proof fn lemma_issued_is_fresh(id: Seq<char>, bound: u64)
    requires
        spec_issued(id, bound),
    ensures
        id != spec_decimal(bound as nat),
{
    if id == spec_decimal(bound as nat) {
        let k = choose|k: nat| k < bound && id == spec_decimal(k);
        lemma_decimal_injective(k, bound as nat);
    }
}

impl ModelStore {
    /// Every default-calendar index is in range, and every stored identifier
    /// was issued from the counter, each one once.
    pub open spec fn wf(self) -> bool {
        &&& (self.default_reminder_calendar matches Some(i) ==> i
            < self.reminder_calendars@.len())
        &&& (self.default_event_calendar matches Some(i) ==> i < self.event_calendars@.len())
        &&& (forall|i: int|
            0 <= i < self.reminders@.len() ==> spec_issued(
                #[trigger] self.reminders@[i].item.identifier@,
                self.next_id,
            ))
        &&& (forall|i: int|
            0 <= i < self.events@.len() ==> spec_issued(
                #[trigger] self.events@[i].item.identifier@,
                self.next_id,
            ))
        &&& (forall|i: int, j: int|
            0 <= i < j < self.reminders@.len() ==> self.reminders@[i].item.identifier@
                != self.reminders@[j].item.identifier@)
        &&& (forall|i: int, j: int|
            0 <= i < j < self.events@.len() ==> self.events@[i].item.identifier@
                != self.events@[j].item.identifier@)
    }

    /// An empty store: no calendars, no items, both domains undetermined,
    /// and access requests answered with a grant.
    pub fn new() -> (s: ModelStore)
        ensures
            s.wf(),
            s.reminders_auth == AuthorizationStatus::NotDetermined,
            s.events_auth == AuthorizationStatus::NotDetermined,
            s.grant_on_request == true,
            s.reminder_calendars@.len() == 0,
            s.event_calendars@.len() == 0,
            s.default_reminder_calendar is None,
            s.default_event_calendar is None,
            s.reminders@.len() == 0,
            s.events@.len() == 0,
    {
        ModelStore {
            reminders_auth: AuthorizationStatus::NotDetermined,
            events_auth: AuthorizationStatus::NotDetermined,
            grant_on_request: true,
            reminder_calendars: Vec::new(),
            event_calendars: Vec::new(),
            default_reminder_calendar: None,
            default_event_calendar: None,
            reminders: Vec::new(),
            events: Vec::new(),
            next_id: 1,
        }
    }

    /// Answers one query as the native store would, updating the store's
    /// state accordingly.
    pub fn answer(&mut self, q: StoreQuery) -> (reply: StoreReply)
        requires
            old(self).wf(),
        ensures
            final(self).wf(),
            spec_answer(*old(self), q, *final(self), reply),
    {
        match q {
            StoreQuery::AuthStatus(k) => {
                let st = match k {
                    EntityKind::Reminders => self.reminders_auth,
                    EntityKind::Events => self.events_auth,
                };
                StoreReply::Status(st)
            },
            StoreQuery::RequestAccess(k) => {
                let granted = self.grant_on_request;
                let st = if granted {
                    AuthorizationStatus::FullAccess
                } else {
                    AuthorizationStatus::Denied
                };
                match k {
                    EntityKind::Reminders => {
                        self.reminders_auth = st;
                    },
                    EntityKind::Events => {
                        self.events_auth = st;
                    },
                }
                StoreReply::Access { granted, error: None }
            },
            StoreQuery::Calendars(k) => {
                let cs = match k {
                    EntityKind::Reminders => clone_calendars(&self.reminder_calendars),
                    EntityKind::Events => clone_calendars(&self.event_calendars),
                };
                StoreReply::Calendars(cs)
            },
            StoreQuery::DefaultCalendar(k) => {
                let cal = match k {
                    EntityKind::Reminders => match self.default_reminder_calendar {
                        Some(i) => Some(self.reminder_calendars[i].clone()),
                        None => None,
                    },
                    EntityKind::Events => match self.default_event_calendar {
                        Some(i) => Some(self.event_calendars[i].clone()),
                        None => None,
                    },
                };
                StoreReply::DefaultCalendar(cal)
            },
            StoreQuery::RemindersMatching { calendar_identifiers } => {
                StoreReply::RemindersSlot(
                    Some(matching_reminders(&self.reminders, &calendar_identifiers)),
                )
            },
            StoreQuery::IncompleteReminders => {
                StoreReply::RemindersSlot(Some(incomplete_reminders(&self.reminders)))
            },
            StoreQuery::EventsBetween { start_date, end_date, calendar_identifiers } => {
                StoreReply::Events(
                    matching_events(&self.events, start_date, end_date, &calendar_identifiers),
                )
            },
            StoreQuery::ReminderById { identifier } => {
                StoreReply::ReminderLookup(find_reminder(&self.reminders, &identifier))
            },
            StoreQuery::EventById { identifier } => {
                StoreReply::EventLookup(find_event(&self.events, &identifier))
            },
            StoreQuery::SaveReminder { draft } => self.save_reminder(draft),
            StoreQuery::SaveReminderItem { item } => self.save_reminder_item(item),
            StoreQuery::SaveEvent { draft } => self.save_event(draft),
            StoreQuery::SaveEventItem { item } => self.save_event_item(item),
            StoreQuery::RemoveReminder { identifier } => self.remove_reminder(&identifier),
            StoreQuery::RemoveEvent { identifier } => self.remove_event(&identifier),
        }
    }

    fn save_reminder(&mut self, draft: ReminderDraft) -> (reply: StoreReply)
        requires
            old(self).wf(),
        ensures
            final(self).wf(),
            spec_save_reminder(*old(self), draft, *final(self), reply),
    {
        let ct = calendar_title_for(&self.reminder_calendars, &draft.calendar_identifier);
        match ct {
            None => StoreReply::ReminderSaved(
                Err("no calendar with the given identifier".to_owned()),
            ),
            Some(title) => {
                if self.next_id == u64::MAX {
                    StoreReply::ReminderSaved(Err("the store ran out of identifiers".to_owned()))
                } else {
                    let id = u64_to_string(self.next_id);
                    let item = ReminderItem {
                        identifier: id,
                        title: draft.title,
                        notes: draft.notes,
                        completed: false,
                        priority: match draft.priority {
                            Some(p) => p,
                            None => 0,
                        },
                        calendar_title: Some(title),
                    };
                    let sr = StoredReminder {
                        item: item.clone(),
                        calendar_identifier: draft.calendar_identifier,
                    };
                    self.reminders.push(sr);
                    self.next_id = self.next_id + 1;
                    proof {
                        assert(self.reminders@.drop_last() =~= old(self).reminders@);
                        assert forall|i: int| 0 <= i < self.reminders@.len() implies spec_issued(
                            #[trigger] self.reminders@[i].item.identifier@,
                            self.next_id,
                        ) by {
                            if i < old(self).reminders@.len() {
                                let k = choose|k: nat|
                                    k < old(self).next_id && old(
                                        self,
                                    ).reminders@[i].item.identifier@ == spec_decimal(k);
                                assert(k < self.next_id);
                            } else {
                                assert(self.reminders@[i].item.identifier@ == spec_decimal(
                                    old(self).next_id as nat,
                                ));
                            }
                        }
                        assert forall|i: int, j: int|
                            0 <= i < j < self.reminders@.len() implies
                            self.reminders@[i].item.identifier@
                                != self.reminders@[j].item.identifier@ by {
                            if j == self.reminders@.len() - 1 {
                                lemma_issued_is_fresh(
                                    self.reminders@[i].item.identifier@,
                                    old(self).next_id,
                                );
                            }
                        }
                    }
                    StoreReply::ReminderSaved(Ok(item))
                }
            },
        }
    }

    fn save_reminder_item(&mut self, item: ReminderItem) -> (reply: StoreReply)
        requires
            old(self).wf(),
        ensures
            final(self).wf(),
            spec_save_reminder_item(*old(self), item, *final(self), reply),
    {
        match reminder_index(&self.reminders, &item.identifier) {
            None => StoreReply::ReminderSaved(Err("no item with the given identifier".to_owned())),
            Some(i) => {
                let old_sr = self.reminders.remove(i);
                let sr = StoredReminder {
                    item: item.clone(),
                    calendar_identifier: old_sr.calendar_identifier,
                };
                self.reminders.insert(i, sr);
                proof {
                    assert(self.reminders@ =~= old(self).reminders@.update(
                        i as int,
                        (StoredReminder {
                            item: item,
                            calendar_identifier: old(self).reminders@[i as int].calendar_identifier,
                        }),
                    ));
                }
                StoreReply::ReminderSaved(Ok(item))
            },
        }
    }

    fn save_event(&mut self, draft: EventDraft) -> (reply: StoreReply)
        requires
            old(self).wf(),
        ensures
            final(self).wf(),
            spec_save_event(*old(self), draft, *final(self), reply),
    {
        let ct = calendar_title_for(&self.event_calendars, &draft.calendar_identifier);
        match ct {
            None => StoreReply::EventSaved(Err("no calendar with the given identifier".to_owned())),
            Some(title) => {
                if self.next_id == u64::MAX {
                    StoreReply::EventSaved(Err("the store ran out of identifiers".to_owned()))
                } else {
                    let id = u64_to_string(self.next_id);
                    let item = EventItem {
                        identifier: id,
                        title: draft.title,
                        notes: draft.notes,
                        location: draft.location,
                        start_date: draft.start_date,
                        end_date: draft.end_date,
                        all_day: draft.all_day,
                        calendar_title: Some(title),
                    };
                    let se = StoredEvent {
                        item: item.clone(),
                        calendar_identifier: draft.calendar_identifier,
                    };
                    self.events.push(se);
                    self.next_id = self.next_id + 1;
                    proof {
                        assert(self.events@.drop_last() =~= old(self).events@);
                        assert forall|i: int| 0 <= i < self.events@.len() implies spec_issued(
                            #[trigger] self.events@[i].item.identifier@,
                            self.next_id,
                        ) by {
                            if i < old(self).events@.len() {
                                let k = choose|k: nat|
                                    k < old(self).next_id && old(self).events@[i].item.identifier@
                                        == spec_decimal(k);
                                assert(k < self.next_id);
                            } else {
                                assert(self.events@[i].item.identifier@ == spec_decimal(
                                    old(self).next_id as nat,
                                ));
                            }
                        }
                        assert forall|i: int, j: int|
                            0 <= i < j < self.events@.len() implies
                            self.events@[i].item.identifier@
                                != self.events@[j].item.identifier@ by {
                            if j == self.events@.len() - 1 {
                                lemma_issued_is_fresh(
                                    self.events@[i].item.identifier@,
                                    old(self).next_id,
                                );
                            }
                        }
                    }
                    StoreReply::EventSaved(Ok(item))
                }
            },
        }
    }

    fn save_event_item(&mut self, item: EventItem) -> (reply: StoreReply)
        requires
            old(self).wf(),
        ensures
            final(self).wf(),
            spec_save_event_item(*old(self), item, *final(self), reply),
    {
        match event_index(&self.events, &item.identifier) {
            None => StoreReply::EventSaved(Err("no item with the given identifier".to_owned())),
            Some(i) => {
                let old_se = self.events.remove(i);
                let se = StoredEvent {
                    item: item.clone(),
                    calendar_identifier: old_se.calendar_identifier,
                };
                self.events.insert(i, se);
                proof {
                    assert(self.events@ =~= old(self).events@.update(
                        i as int,
                        (StoredEvent {
                            item: item,
                            calendar_identifier: old(self).events@[i as int].calendar_identifier,
                        }),
                    ));
                }
                StoreReply::EventSaved(Ok(item))
            },
        }
    }

    fn remove_reminder(&mut self, identifier: &String) -> (reply: StoreReply)
        requires
            old(self).wf(),
        ensures
            final(self).wf(),
            spec_remove_reminder(*old(self), identifier@, *final(self), reply),
    {
        match reminder_index(&self.reminders, identifier) {
            None => StoreReply::Removed(Some("no item with the given identifier".to_owned())),
            Some(i) => {
                self.reminders.remove(i);
                StoreReply::Removed(None)
            },
        }
    }

    fn remove_event(&mut self, identifier: &String) -> (reply: StoreReply)
        requires
            old(self).wf(),
        ensures
            final(self).wf(),
            spec_remove_event(*old(self), identifier@, *final(self), reply),
    {
        match event_index(&self.events, identifier) {
            None => StoreReply::Removed(Some("no item with the given identifier".to_owned())),
            Some(i) => {
                self.events.remove(i);
                StoreReply::Removed(None)
            },
        }
    }
}

/// A run that failed because no calendar matched, naming the requested
/// titles.
pub open spec fn spec_calendar_not_found(
    r: Result<Outcome, EventKitError>,
    names: Seq<char>,
) -> bool {
    &&& r matches Err(e)
    &&& e matches EventKitError::CalendarNotFound(m)
    &&& m@ == names
}

/// A run that failed because an identifier did not resolve, naming it.
pub open spec fn spec_item_absent(r: Result<Outcome, EventKitError>, id: Seq<char>) -> bool {
    &&& r matches Err(e)
    &&& e matches EventKitError::ItemNotFound(m)
    &&& m@ == id
}

/// A run that produced exactly these events, sorted by start timestamp.
pub open spec fn spec_sorted_events_outcome(
    r: Result<Outcome, EventKitError>,
    items: Seq<EventItem>,
) -> bool {
    &&& r matches Ok(o)
    &&& o matches Outcome::Events(v)
    &&& sorted_by_start(v@)
    &&& v@.to_multiset() == items.to_multiset()
}

/// A run that created a reminder with these fields in the calendar with
/// this identifier: unless the counter is exhausted, the outcome is the
/// record the store now holds, appended with a fresh identifier.
pub open spec fn spec_created_reminder(
    pre: ModelStore,
    post: ModelStore,
    r: Result<Outcome, EventKitError>,
    title: Seq<char>,
    notes: Option<Seq<char>>,
    priority: Option<usize>,
    cal_id: Seq<char>,
) -> bool {
    if pre.next_id == u64::MAX {
        post == pre && (
        {
            &&& r matches Err(e)
            &&& e matches EventKitError::SaveFailed(m)
            &&& m@ == "the store ran out of identifiers"@
        })
    } else {
        &&& r matches Ok(o)
        &&& o matches Outcome::Reminder(item)
        &&& (exists|draft: ReminderDraft|
            {
                &&& draft.title@ == title
                &&& opt_chars(draft.notes) == notes
                &&& draft.priority == priority
                &&& draft.calendar_identifier@ == cal_id
                &&& spec_save_reminder(
                    pre,
                    draft,
                    post,
                    StoreReply::ReminderSaved(Ok::<ReminderItem, String>(item)),
                )
            })
    }
}

/// A run that created an event with these fields in the calendar with this
/// identifier, exactly as for reminders.
pub open spec fn spec_created_event(
    pre: ModelStore,
    post: ModelStore,
    r: Result<Outcome, EventKitError>,
    title: Seq<char>,
    start_date: i64,
    end_date: i64,
    notes: Option<Seq<char>>,
    location: Option<Seq<char>>,
    all_day: bool,
    cal_id: Seq<char>,
) -> bool {
    if pre.next_id == u64::MAX {
        post == pre && (
        {
            &&& r matches Err(e)
            &&& e matches EventKitError::SaveFailed(m)
            &&& m@ == "the store ran out of identifiers"@
        })
    } else {
        &&& r matches Ok(o)
        &&& o matches Outcome::Event(item)
        &&& (exists|draft: EventDraft|
            {
                &&& draft.title@ == title
                &&& draft.start_date == start_date
                &&& draft.end_date == end_date
                &&& opt_chars(draft.notes) == notes
                &&& opt_chars(draft.location) == location
                &&& draft.all_day == all_day
                &&& draft.calendar_identifier@ == cal_id
                &&& spec_save_event(
                    pre,
                    draft,
                    post,
                    StoreReply::EventSaved(Ok::<EventItem, String>(item)),
                )
            })
    }
}

/// Whatever identifier a reminder lookup finds a record for, the record
/// bears that identifier.
pub proof fn lemma_found_reminder_bears_id(rs: Seq<StoredReminder>)
    ensures
        forall|id: Seq<char>|
            (#[trigger] spec_find_reminder(rs, id)) is Some ==> (spec_find_reminder(
                rs,
                id,
            )->0).identifier@ == id,
    decreases rs.len(),
{
    if rs.len() > 0 {
        lemma_found_reminder_bears_id(rs.drop_first());
        assert forall|id: Seq<char>| (#[trigger] spec_find_reminder(rs, id)) is Some implies (
        spec_find_reminder(rs, id)->0).identifier@ == id by {
            if rs[0].item.identifier@ != id {
                assert(spec_find_reminder(rs, id) == spec_find_reminder(rs.drop_first(), id));
            }
        }
    }
}

/// Whatever identifier an event lookup finds a record for, the record bears
/// that identifier.
pub proof fn lemma_found_event_bears_id(es: Seq<StoredEvent>)
    ensures
        forall|id: Seq<char>|
            (#[trigger] spec_find_event(es, id)) is Some ==> (spec_find_event(
                es,
                id,
            )->0).identifier@ == id,
    decreases es.len(),
{
    if es.len() > 0 {
        lemma_found_event_bears_id(es.drop_first());
        assert forall|id: Seq<char>| (#[trigger] spec_find_event(es, id)) is Some implies (
        spec_find_event(es, id)->0).identifier@ == id by {
            if es[0].item.identifier@ != id {
                assert(spec_find_event(es, id) == spec_find_event(es.drop_first(), id));
            }
        }
    }
}

/// A calendar identifier that appears in the list resolves to a title.
pub proof fn lemma_known_identifier_has_title(cals: Seq<CalendarInfo>)
    ensures
        forall|id: Seq<char>|
            (exists|i: int| 0 <= i < cals.len() && cals[i].identifier@ == id) ==> (
            #[trigger] spec_calendar_title_for(cals, id)) is Some,
    decreases cals.len(),
{
    if cals.len() > 0 {
        lemma_known_identifier_has_title(cals.drop_first());
        assert forall|id: Seq<char>|
            (exists|i: int| 0 <= i < cals.len() && cals[i].identifier@ == id) implies (
        #[trigger] spec_calendar_title_for(cals, id)) is Some by {
            if cals[0].identifier@ != id {
                let w = choose|i: int| 0 <= i < cals.len() && cals[i].identifier@ == id;
                assert(cals.drop_first()[w - 1] == cals[w]);
                assert(exists|i: int|
                    0 <= i < cals.drop_first().len() && cals.drop_first()[i].identifier@ == id);
                assert(spec_calendar_title_for(cals.drop_first(), id) is Some);
            }
        }
    }
}

/// What each operation yields against the store once its entity domain
/// stands authorized: which records come back, which records the store
/// holds afterwards, and on which inputs each error comes instead.
pub open spec fn spec_run_outcome(
    pre: ModelStore,
    op: OpRequest,
    post: ModelStore,
    r: Result<Outcome, EventKitError>,
) -> bool {
    match op {
        OpRequest::CheckStatus(_) => true,
        OpRequest::RequestAccess(_) => true,
        OpRequest::ListCalendars(k) => post == pre && (
        {
            &&& r matches Ok(o)
            &&& o matches Outcome::Calendars(cs)
            &&& cs@ == spec_calendars_of(pre, k)
        }),
        OpRequest::DefaultCalendar(k) => post == pre && (match spec_default_of(pre, k) {
            Some(i) => {
                &&& r matches Ok(o)
                &&& o matches Outcome::Calendar(c)
                &&& c == spec_calendars_of(pre, k)[i as int]
            },
            None => r == Err::<Outcome, EventKitError>(EventKitError::NoDefaultCalendar),
        }),
        OpRequest::FetchReminders { calendar_titles } => match calendar_titles {
            None => post == pre && (
            {
                &&& r matches Ok(o)
                &&& o matches Outcome::Reminders(v)
                &&& v@ == spec_matching_reminders(pre.reminders@, None)
            }),
            Some(titles) => {
                let sel = spec_selected(pre.reminder_calendars@, titles@);
                if sel.len() == 0 {
                    post == pre && spec_calendar_not_found(r, spec_joined(titles@))
                } else {
                    post == pre && (
                    {
                        &&& r matches Ok(o)
                        &&& o matches Outcome::Reminders(v)
                        &&& v@ == spec_matching_reminders(
                            pre.reminders@,
                            Some(spec_identifier_views(sel)),
                        )
                    })
                }
            },
        },
        OpRequest::FetchIncompleteReminders => post == pre && (
        {
            &&& r matches Ok(o)
            &&& o matches Outcome::Reminders(v)
            &&& v@ == spec_incomplete_reminders(pre.reminders@)
        }),
        OpRequest::CreateReminder { title, notes, calendar_title, priority } => match
            calendar_title {
            None => match spec_default_of(pre, EntityKind::Reminders) {
                None => post == pre && r == Err::<Outcome, EventKitError>(
                    EventKitError::NoDefaultCalendar,
                ),
                Some(di) => spec_created_reminder(
                    pre,
                    post,
                    r,
                    title@,
                    opt_chars(notes),
                    priority,
                    pre.reminder_calendars@[di as int].identifier@,
                ),
            },
            Some(ct) => if exists|i: int|
                0 <= i < pre.reminder_calendars@.len() && pre.reminder_calendars@[i].title@
                    == ct@ {
                exists|i: int|
                    {
                        &&& 0 <= i < pre.reminder_calendars@.len()
                        &&& pre.reminder_calendars@[i].title@ == ct@
                        &&& (forall|j: int|
                            0 <= j < i ==> pre.reminder_calendars@[j].title@ != ct@)
                        &&& spec_created_reminder(
                            pre,
                            post,
                            r,
                            title@,
                            opt_chars(notes),
                            priority,
                            pre.reminder_calendars@[i].identifier@,
                        )
                    }
            } else {
                post == pre && spec_calendar_not_found(r, ct@)
            },
        },
        OpRequest::UpdateReminder { identifier, title, notes, completed, priority } => match
            spec_find_reminder(pre.reminders@, identifier@) {
            None => post == pre && spec_item_absent(r, identifier@),
            Some(item) => {
                &&& r matches Ok(o)
                &&& o matches Outcome::Reminder(u)
                &&& u@ == spec_reminder_update(
                    item@,
                    opt_chars(title),
                    opt_chars(notes),
                    completed,
                    opt_int(priority),
                )
                &&& spec_save_reminder_item(
                    pre,
                    u,
                    post,
                    StoreReply::ReminderSaved(Ok::<ReminderItem, String>(u)),
                )
            },
        },
        OpRequest::DeleteReminder { identifier } => match spec_find_reminder(
            pre.reminders@,
            identifier@,
        ) {
            None => post == pre && spec_item_absent(r, identifier@),
            Some(_) => r == Ok::<Outcome, EventKitError>(Outcome::Deleted) && spec_remove_reminder(
                pre,
                identifier@,
                post,
                StoreReply::Removed(None),
            ),
        },
        OpRequest::GetReminder { identifier } => post == pre && (match spec_find_reminder(
            pre.reminders@,
            identifier@,
        ) {
            None => spec_item_absent(r, identifier@),
            Some(item) => r == Ok::<Outcome, EventKitError>(Outcome::Reminder(item)),
        }),
        OpRequest::FetchEvents { start_date, end_date, calendar_titles } => match
            calendar_titles {
            None => post == pre && spec_sorted_events_outcome(
                r,
                spec_matching_events(pre.events@, start_date, end_date, None),
            ),
            Some(titles) => {
                let sel = spec_selected(pre.event_calendars@, titles@);
                if sel.len() == 0 {
                    post == pre && spec_calendar_not_found(r, spec_joined(titles@))
                } else {
                    post == pre && spec_sorted_events_outcome(
                        r,
                        spec_matching_events(
                            pre.events@,
                            start_date,
                            end_date,
                            Some(spec_identifier_views(sel)),
                        ),
                    )
                }
            },
        },
        OpRequest::CreateEvent {
            title,
            start_date,
            end_date,
            notes,
            location,
            calendar_title,
            all_day,
        } => match calendar_title {
            None => match spec_default_of(pre, EntityKind::Events) {
                None => post == pre && r == Err::<Outcome, EventKitError>(
                    EventKitError::NoDefaultCalendar,
                ),
                Some(di) => spec_created_event(
                    pre,
                    post,
                    r,
                    title@,
                    start_date,
                    end_date,
                    opt_chars(notes),
                    opt_chars(location),
                    all_day,
                    pre.event_calendars@[di as int].identifier@,
                ),
            },
            Some(ct) => if exists|i: int|
                0 <= i < pre.event_calendars@.len() && pre.event_calendars@[i].title@ == ct@ {
                exists|i: int|
                    {
                        &&& 0 <= i < pre.event_calendars@.len()
                        &&& pre.event_calendars@[i].title@ == ct@
                        &&& (forall|j: int| 0 <= j < i ==> pre.event_calendars@[j].title@ != ct@)
                        &&& spec_created_event(
                            pre,
                            post,
                            r,
                            title@,
                            start_date,
                            end_date,
                            opt_chars(notes),
                            opt_chars(location),
                            all_day,
                            pre.event_calendars@[i].identifier@,
                        )
                    }
            } else {
                post == pre && spec_calendar_not_found(r, ct@)
            },
        },
        OpRequest::UpdateEvent { identifier, title, notes, location, start_date, end_date } =>
            match spec_find_event(pre.events@, identifier@) {
            None => post == pre && spec_item_absent(r, identifier@),
            Some(item) => {
                &&& r matches Ok(o)
                &&& o matches Outcome::Event(u)
                &&& u@ == spec_event_update(
                    item@,
                    opt_chars(title),
                    opt_chars(notes),
                    opt_chars(location),
                    opt_ts(start_date),
                    opt_ts(end_date),
                )
                &&& spec_save_event_item(
                    pre,
                    u,
                    post,
                    StoreReply::EventSaved(Ok::<EventItem, String>(u)),
                )
            },
        },
        OpRequest::DeleteEvent { identifier } => match spec_find_event(
            pre.events@,
            identifier@,
        ) {
            None => post == pre && spec_item_absent(r, identifier@),
            Some(_) => r == Ok::<Outcome, EventKitError>(Outcome::Deleted) && spec_remove_event(
                pre,
                identifier@,
                post,
                StoreReply::Removed(None),
            ),
        },
        OpRequest::GetEvent { identifier } => post == pre && (match spec_find_event(
            pre.events@,
            identifier@,
        ) {
            None => spec_item_absent(r, identifier@),
            Some(item) => r == Ok::<Outcome, EventKitError>(Outcome::Event(item)),
        }),
    }
}

/// Runs one whole operation against the store: starts the session, performs
/// each query it asks for, and hands the reply back until it finishes.  A
/// session's phase rank falls with every step, so four queries always reach
/// the end.  The contract pins the whole run: an invalid date range fails
/// with the store untouched; a denied or restricted domain fails with that
/// verdict, the store untouched; a status check reports the domain's state;
/// an access request reports the user's answer and records it; and every
/// other operation, once its domain stands authorized, yields against the
/// store exactly what [`spec_run_outcome`] says.
#[verifier::rlimit(100)]
pub fn run(store: &mut ModelStore, op: OpRequest) -> (r: Result<Outcome, EventKitError>)
    requires
        old(store).wf(),
    ensures
        final(store).wf(),
        ({
            let invalid = op matches OpRequest::FetchEvents { start_date, end_date, .. }
                && start_date >= end_date;
            invalid ==> r == Err::<Outcome, EventKitError>(EventKitError::InvalidDateRange)
                && *final(store) == *old(store)
        }),
        ({
            let invalid = op matches OpRequest::FetchEvents { start_date, end_date, .. }
                && start_date >= end_date;
            let gate = spec_authorization_gate(spec_auth_of(*old(store), op.spec_entity()));
            !invalid && !(op is CheckStatus) && !(op is RequestAccess) ==> (match gate {
                AuthDecision::Fail(e) => r == Err::<Outcome, EventKitError>(e) && *final(store)
                    == *old(store),
                _ => true,
            })
        }),
        op matches OpRequest::CheckStatus(k) ==> r == Ok::<Outcome, EventKitError>(
            Outcome::Status(spec_auth_of(*old(store), k)),
        ) && *final(store) == *old(store),
        op matches OpRequest::RequestAccess(k) ==> r == Ok::<Outcome, EventKitError>(
            Outcome::Granted(old(store).grant_on_request),
        ) && spec_frame_auth(*old(store), *final(store)) && spec_auth_of(*final(store), k) == (
        if old(store).grant_on_request {
            AuthorizationStatus::FullAccess
        } else {
            AuthorizationStatus::Denied
        }),
        ({
            let invalid = op matches OpRequest::FetchEvents { start_date, end_date, .. }
                && start_date >= end_date;
            let gate = spec_authorization_gate(spec_auth_of(*old(store), op.spec_entity()));
            !invalid && gate is Proceed ==> spec_run_outcome(*old(store), op, *final(store), r)
        }),
{
    proof {
        lemma_found_reminder_bears_id(old(store).reminders@);
        lemma_found_event_bears_id(old(store).events@);
        lemma_known_identifier_has_title(old(store).reminder_calendars@);
        lemma_known_identifier_has_title(old(store).event_calendars@);
    }
    let ghost op0 = op;
    let (mut sess, d0) = start(op);
    let q1 = match d0 {
        Directive::Finish(rr) => {
            return rr;
        },
        Directive::Query(q) => q,
    };
    let reply1 = store.answer(q1);
    let d1 = sess.step(reply1);
    let q2 = match d1 {
        Directive::Finish(rr) => {
            return rr;
        },
        Directive::Query(q) => q,
    };
    let reply2 = store.answer(q2);
    let d2 = sess.step(reply2);
    let q3 = match d2 {
        Directive::Finish(rr) => {
            return rr;
        },
        Directive::Query(q) => q,
    };
    let ghost q3g = q3;
    proof {
        // A filtered fetch queries with the identifiers of the selected
        // calendars: their characters are the selection's identifiers.
        match op0 {
            OpRequest::FetchReminders { calendar_titles: Some(titles) } => {
                match q3g {
                    StoreQuery::RemindersMatching { calendar_identifiers: Some(ids) } => {
                        assert(spec_id_views(ids@) =~= spec_identifier_views(
                            spec_selected(old(store).reminder_calendars@, titles@),
                        ));
                    },
                    _ => {},
                }
            },
            OpRequest::FetchEvents { calendar_titles: Some(titles), .. } => {
                match q3g {
                    StoreQuery::EventsBetween { calendar_identifiers: Some(ids), .. } => {
                        assert(spec_id_views(ids@) =~= spec_identifier_views(
                            spec_selected(old(store).event_calendars@, titles@),
                        ));
                    },
                    _ => {},
                }
            },
            _ => {},
        }
    }
    let reply3 = store.answer(q3);
    let d3 = sess.step(reply3);
    let q4 = match d3 {
        Directive::Finish(rr) => {
            return rr;
        },
        Directive::Query(q) => q,
    };
    let reply4 = store.answer(q4);
    let d4 = sess.step(reply4);
    match d4 {
        Directive::Finish(rr) => rr,
        Directive::Query(_) => {
            proof {
                assert(false);
            }
            Err(EventKitError::EventKitError("unexpected store reply".to_owned()))
        },
    }
}
/// A record appended with an identifier no stored record bears is what a
/// lookup of that identifier finds.
pub proof fn lemma_find_appended(rs: Seq<StoredReminder>, sr: StoredReminder)
    requires
        forall|i: int| 0 <= i < rs.len() ==> rs[i].item.identifier@ != sr.item.identifier@,
    ensures
        spec_find_reminder(rs.push(sr), sr.item.identifier@) == Some(sr.item),
    decreases rs.len(),
{
    if rs.len() == 0 {
        assert(rs.push(sr)[0] == sr);
    } else {
        assert(rs.push(sr)[0] == rs[0]);
        assert(rs.push(sr).drop_first() =~= rs.drop_first().push(sr));
        lemma_find_appended(rs.drop_first(), sr);
    }
}

/// A lookup of an identifier some stored record bears finds one.
pub proof fn lemma_find_present(rs: Seq<StoredReminder>, id: Seq<char>)
    requires
        exists|i: int| 0 <= i < rs.len() && rs[i].item.identifier@ == id,
    ensures
        spec_find_reminder(rs, id) is Some,
    decreases rs.len(),
{
    if rs.len() > 0 && rs[0].item.identifier@ != id {
        let w = choose|i: int| 0 <= i < rs.len() && rs[i].item.identifier@ == id;
        assert(rs.drop_first()[w - 1] == rs[w]);
        lemma_find_present(rs.drop_first(), id);
    }
}

/// Round trip: creating a reminder and looking the returned identifier up
/// yields the created record itself, with the draft's title, notes and
/// priority, field for field.
pub proof fn lemma_create_round_trip(
    pre: ModelStore,
    draft: ReminderDraft,
    post: ModelStore,
    item: ReminderItem,
)
    requires
        pre.wf(),
        spec_save_reminder(pre, draft, post, StoreReply::ReminderSaved(Ok(item))),
    ensures
        spec_find_reminder(post.reminders@, item.identifier@) == Some(item),
        item.title@ == draft.title@,
        opt_chars(item.notes) == opt_chars(draft.notes),
        item.priority as int == (match draft.priority {
            Some(p) => p as int,
            None => 0,
        }),
{
    let last = post.reminders@.last();
    assert(post.reminders@ =~= pre.reminders@.push(last));
    assert forall|i: int| 0 <= i < pre.reminders@.len() implies
        pre.reminders@[i].item.identifier@ != last.item.identifier@ by {
        lemma_issued_is_fresh(pre.reminders@[i].item.identifier@, pre.next_id);
    }
    lemma_find_appended(pre.reminders@, last);
}

/// Marking an already completed reminder complete again succeeds and leaves
/// the content of every stored reminder as it was: the merged record equals
/// the stored one, so the overwrite changes nothing.
pub proof fn lemma_complete_again_unchanged(rs: Seq<StoredReminder>, i: int, merged: ReminderItem)
    requires
        0 <= i < rs.len(),
        rs[i].item.completed,
        merged@ == crate::updates::spec_reminder_update(
            rs[i].item@,
            None,
            None,
            Some(true),
            None,
        ),
    ensures
        merged@ == rs[i].item@,
        spec_find_reminder(rs, merged.identifier@) is Some,
        forall|j: int|
            0 <= j < rs.len() ==> rs.update(
                i,
                (StoredReminder { item: merged, calendar_identifier: rs[i].calendar_identifier }),
            )[j].item@ == rs[j].item@,
{
    crate::updates::lemma_complete_idempotent(rs[i].item@);
    assert(rs[i].item.identifier@ == merged.identifier@);
    lemma_find_present(rs, merged.identifier@);
}

/// The priority never decides a creation: whenever the draft's calendar is
/// known and the store can still issue an identifier, the creation succeeds,
/// whatever the priority, and the new record carries exactly that priority
/// (0 when none was supplied).
pub proof fn lemma_any_priority_accepted(
    pre: ModelStore,
    draft: ReminderDraft,
    post: ModelStore,
    reply: StoreReply,
)
    requires
        spec_save_reminder(pre, draft, post, reply),
        spec_calendar_title_for(pre.reminder_calendars@, draft.calendar_identifier@) is Some,
        pre.next_id < u64::MAX,
    ensures
        reply matches StoreReply::ReminderSaved(res) && res matches Ok(item) && item.priority
            as int == (match draft.priority {
            Some(p) => p as int,
            None => 0,
        }),
{
}

/// The priority never decides an update either: overwriting a stored
/// reminder succeeds whenever the identifier resolves, whatever the merged
/// record's priority.
pub proof fn lemma_any_priority_update_accepted(
    pre: ModelStore,
    item: ReminderItem,
    post: ModelStore,
    reply: StoreReply,
)
    requires
        spec_save_reminder_item(pre, item, post, reply),
        spec_find_reminder(pre.reminders@, item.identifier@) is Some,
    ensures
        reply == StoreReply::ReminderSaved(Ok::<ReminderItem, String>(item)),
{
}

} // verus!
