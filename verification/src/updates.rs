//! Partial updates and creation drafts.  An update mutates only the fields
//! explicitly supplied and leaves every omitted field untouched; a draft
//! carries the fields of an item to be created, bound to the calendar the
//! operation resolved.

use vstd::prelude::*;
use crate::types::{EventItem, EventView, ReminderItem, ReminderView};

verus! {

/// The characters of an optional string.
pub open spec fn opt_chars(o: Option<String>) -> Option<Seq<char>> {
    match o {
        Some(s) => Some(s@),
        None => None,
    }
}

/// An optional priority as a mathematical integer.
pub open spec fn opt_int(o: Option<usize>) -> Option<int> {
    match o {
        Some(p) => Some(p as int),
        None => None,
    }
}

/// An optional timestamp as a mathematical integer.
pub open spec fn opt_ts(o: Option<i64>) -> Option<int> {
    match o {
        Some(t) => Some(t as int),
        None => None,
    }
}

/// The merge of a reminder with a partial update: each supplied field
/// replaces the stored one, each omitted field keeps it; the identifier and
/// the owning list never change.
pub open spec fn spec_reminder_update(
    v: ReminderView,
    title: Option<Seq<char>>,
    notes: Option<Seq<char>>,
    completed: Option<bool>,
    priority: Option<int>,
) -> ReminderView {
    ReminderView {
        identifier: v.identifier,
        title: match title {
            Some(t) => t,
            None => v.title,
        },
        notes: match notes {
            Some(n) => Some(n),
            None => v.notes,
        },
        completed: match completed {
            Some(c) => c,
            None => v.completed,
        },
        priority: match priority {
            Some(p) => p,
            None => v.priority,
        },
        calendar_title: v.calendar_title,
    }
}

/// The merge of an event with a partial update: each supplied field replaces
/// the stored one, each omitted field keeps it; the identifier, the all-day
/// flag and the owning calendar never change.
pub open spec fn spec_event_update(
    v: EventView,
    title: Option<Seq<char>>,
    notes: Option<Seq<char>>,
    location: Option<Seq<char>>,
    start_date: Option<int>,
    end_date: Option<int>,
) -> EventView {
    EventView {
        identifier: v.identifier,
        title: match title {
            Some(t) => t,
            None => v.title,
        },
        notes: match notes {
            Some(n) => Some(n),
            None => v.notes,
        },
        location: match location {
            Some(l) => Some(l),
            None => v.location,
        },
        start_date: match start_date {
            Some(s) => s,
            None => v.start_date,
        },
        end_date: match end_date {
            Some(e) => e,
            None => v.end_date,
        },
        all_day: v.all_day,
        calendar_title: v.calendar_title,
    }
}

/// Applies a partial update to a reminder.
pub fn apply_reminder_update(
    item: &ReminderItem,
    title: &Option<String>,
    notes: &Option<String>,
    completed: Option<bool>,
    priority: Option<usize>,
) -> (r: ReminderItem)
    ensures
        r@ == spec_reminder_update(
            item@,
            opt_chars(*title),
            opt_chars(*notes),
            completed,
            opt_int(priority),
        ),
{
    let r = ReminderItem {
        identifier: item.identifier.clone(),
        title: match title {
            Some(t) => t.clone(),
            None => item.title.clone(),
        },
        notes: match notes {
            Some(n) => Some(n.clone()),
            None => match &item.notes {
                Some(n) => Some(n.clone()),
                None => None,
            },
        },
        completed: match completed {
            Some(c) => c,
            None => item.completed,
        },
        priority: match priority {
            Some(p) => p,
            None => item.priority,
        },
        calendar_title: match &item.calendar_title {
            Some(c) => Some(c.clone()),
            None => None,
        },
    };
    proof {
        assert(r@ =~= spec_reminder_update(
            item@,
            opt_chars(*title),
            opt_chars(*notes),
            completed,
            opt_int(priority),
        ));
    }
    r
}

/// Applies a partial update to an event.
pub fn apply_event_update(
    item: &EventItem,
    title: &Option<String>,
    notes: &Option<String>,
    location: &Option<String>,
    start_date: Option<i64>,
    end_date: Option<i64>,
) -> (r: EventItem)
    ensures
        r@ == spec_event_update(
            item@,
            opt_chars(*title),
            opt_chars(*notes),
            opt_chars(*location),
            opt_ts(start_date),
            opt_ts(end_date),
        ),
{
    let r = EventItem {
        identifier: item.identifier.clone(),
        title: match title {
            Some(t) => t.clone(),
            None => item.title.clone(),
        },
        notes: match notes {
            Some(n) => Some(n.clone()),
            None => match &item.notes {
                Some(n) => Some(n.clone()),
                None => None,
            },
        },
        location: match location {
            Some(l) => Some(l.clone()),
            None => match &item.location {
                Some(l) => Some(l.clone()),
                None => None,
            },
        },
        start_date: match start_date {
            Some(s) => s,
            None => item.start_date,
        },
        end_date: match end_date {
            Some(e) => e,
            None => item.end_date,
        },
        all_day: item.all_day,
        calendar_title: match &item.calendar_title {
            Some(c) => Some(c.clone()),
            None => None,
        },
    };
    proof {
        assert(r@ =~= spec_event_update(
            item@,
            opt_chars(*title),
            opt_chars(*notes),
            opt_chars(*location),
            opt_ts(start_date),
            opt_ts(end_date),
        ));
    }
    r
}

/// Marking an already completed reminder complete again changes nothing:
/// merging a completion flag that already holds is the identity.
pub proof fn lemma_complete_idempotent(v: ReminderView)
    requires
        v.completed,
    ensures
        spec_reminder_update(v, None, None, Some(true), None) == v,
{
    assert(spec_reminder_update(v, None, None, Some(true), None) =~= v);
}

/// Applying the same partial update twice gives what applying it once gives:
/// a repeated update neither errors nor changes the item further.
pub proof fn lemma_update_idempotent(
    v: ReminderView,
    title: Option<Seq<char>>,
    notes: Option<Seq<char>>,
    completed: Option<bool>,
    priority: Option<int>,
)
    ensures
        spec_reminder_update(
            spec_reminder_update(v, title, notes, completed, priority),
            title,
            notes,
            completed,
            priority,
        ) == spec_reminder_update(v, title, notes, completed, priority),
{
    assert(spec_reminder_update(
        spec_reminder_update(v, title, notes, completed, priority),
        title,
        notes,
        completed,
        priority,
    ) =~= spec_reminder_update(v, title, notes, completed, priority));
}

/// The fields of a reminder to be created, bound to the calendar the
/// operation resolved.  A missing priority is stored as 0 (none).
#[derive(Debug, PartialEq, Eq)]
pub struct ReminderDraft {
    /// Title of the new reminder.
    pub title: String,
    /// Optional notes.
    pub notes: Option<String>,
    /// Optional priority; the store keeps 0 when none is supplied.
    pub priority: Option<usize>,
    /// Identifier of the list the reminder is created in.
    pub calendar_identifier: String,
}

/// The fields of an event to be created, bound to the calendar the operation
/// resolved.  Timestamps are seconds since the Unix epoch.
#[derive(Debug, PartialEq, Eq)]
pub struct EventDraft {
    /// Title of the new event.
    pub title: String,
    /// Start of the event.
    pub start_date: i64,
    /// End of the event.
    pub end_date: i64,
    /// Optional notes.
    pub notes: Option<String>,
    /// Optional location.
    pub location: Option<String>,
    /// Whether the event covers whole days.
    pub all_day: bool,
    /// Identifier of the calendar the event is created in.
    pub calendar_identifier: String,
}

} // verus!
