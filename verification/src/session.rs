//! The session state machine.  Every store operation runs as a session:
//! check authorization, resolve targets, perform the native operation,
//! translate the result.  The machine never touches the store itself; it
//! hands the driver a [`StoreQuery`] to perform, takes the [`StoreReply`]
//! back, and decides the next step, so the whole sequencing — in particular
//! that no store query is issued once authorization is denied or restricted,
//! and that an invalid date range fails before any query at all — is checked
//! here, whatever driver runs the queries.

use vstd::prelude::*;
use crate::auth::{authorization_gate, grant_gate, spec_authorization_gate, AuthDecision};
use crate::calendars::{
    calendar_identifiers, find_calendar_by_title, select_calendars, spec_joined, spec_selected,
};
use crate::errors::EventKitError;
use crate::ordering::{sort_events_by_start, sorted_by_start};
use crate::types::{AuthorizationStatus, CalendarInfo, EventItem, ReminderItem};
use crate::updates::{
    apply_event_update, apply_reminder_update, opt_chars, opt_int, opt_ts, spec_event_update,
    spec_reminder_update, EventDraft, ReminderDraft,
};

verus! {

/// The two entity domains of the store.  Each has its own calendars and its
/// own authorization state.
#[derive(Clone, Copy, Debug, PartialEq, Eq, Structural)]
pub enum EntityKind {
    /// Calendar events.
    Events,
    /// Reminders.
    Reminders,
}

/// One store operation, as a caller requests it.
#[derive(Debug, PartialEq, Eq)]
pub enum OpRequest {
    /// Report the current authorization status of one entity domain.
    CheckStatus(EntityKind),
    /// Request access to one entity domain and report the grant.
    RequestAccess(EntityKind),
    /// List the calendars of one entity domain.
    ListCalendars(EntityKind),
    /// Report the default calendar of one entity domain.
    DefaultCalendar(EntityKind),
    /// Fetch reminders, optionally restricted to the named lists.
    FetchReminders { calendar_titles: Option<Vec<String>> },
    /// Fetch the incomplete reminders of every list.
    FetchIncompleteReminders,
    /// Create a reminder, in the named list or in the default one.
    CreateReminder {
        title: String,
        notes: Option<String>,
        calendar_title: Option<String>,
        priority: Option<usize>,
    },
    /// Partially update the reminder with this identifier.
    UpdateReminder {
        identifier: String,
        title: Option<String>,
        notes: Option<String>,
        completed: Option<bool>,
        priority: Option<usize>,
    },
    /// Delete the reminder with this identifier.
    DeleteReminder { identifier: String },
    /// Fetch the reminder with this identifier.
    GetReminder { identifier: String },
    /// Fetch the events of a date range, optionally restricted to the named
    /// calendars.  Timestamps are seconds since the Unix epoch.
    FetchEvents { start_date: i64, end_date: i64, calendar_titles: Option<Vec<String>> },
    /// Create an event, in the named calendar or in the default one.
    CreateEvent {
        title: String,
        start_date: i64,
        end_date: i64,
        notes: Option<String>,
        location: Option<String>,
        calendar_title: Option<String>,
        all_day: bool,
    },
    /// Partially update the event with this identifier.
    UpdateEvent {
        identifier: String,
        title: Option<String>,
        notes: Option<String>,
        location: Option<String>,
        start_date: Option<i64>,
        end_date: Option<i64>,
    },
    /// Delete the event with this identifier.
    DeleteEvent { identifier: String },
    /// Fetch the event with this identifier.
    GetEvent { identifier: String },
}

impl OpRequest {
    /// The entity domain an operation belongs to.
    pub open spec fn spec_entity(self) -> EntityKind {
        match self {
            OpRequest::CheckStatus(k) => k,
            OpRequest::RequestAccess(k) => k,
            OpRequest::ListCalendars(k) => k,
            OpRequest::DefaultCalendar(k) => k,
            OpRequest::FetchReminders { .. } => EntityKind::Reminders,
            OpRequest::FetchIncompleteReminders => EntityKind::Reminders,
            OpRequest::CreateReminder { .. } => EntityKind::Reminders,
            OpRequest::UpdateReminder { .. } => EntityKind::Reminders,
            OpRequest::DeleteReminder { .. } => EntityKind::Reminders,
            OpRequest::GetReminder { .. } => EntityKind::Reminders,
            OpRequest::FetchEvents { .. } => EntityKind::Events,
            OpRequest::CreateEvent { .. } => EntityKind::Events,
            OpRequest::UpdateEvent { .. } => EntityKind::Events,
            OpRequest::DeleteEvent { .. } => EntityKind::Events,
            OpRequest::GetEvent { .. } => EntityKind::Events,
        }
    }

    /// Reports the entity domain an operation belongs to.
    pub fn entity(&self) -> (k: EntityKind)
        ensures
            k == self.spec_entity(),
    {
        match self {
            OpRequest::CheckStatus(k) => *k,
            OpRequest::RequestAccess(k) => *k,
            OpRequest::ListCalendars(k) => *k,
            OpRequest::DefaultCalendar(k) => *k,
            OpRequest::FetchReminders { .. } => EntityKind::Reminders,
            OpRequest::FetchIncompleteReminders => EntityKind::Reminders,
            OpRequest::CreateReminder { .. } => EntityKind::Reminders,
            OpRequest::UpdateReminder { .. } => EntityKind::Reminders,
            OpRequest::DeleteReminder { .. } => EntityKind::Reminders,
            OpRequest::GetReminder { .. } => EntityKind::Reminders,
            OpRequest::FetchEvents { .. } => EntityKind::Events,
            OpRequest::CreateEvent { .. } => EntityKind::Events,
            OpRequest::UpdateEvent { .. } => EntityKind::Events,
            OpRequest::DeleteEvent { .. } => EntityKind::Events,
            OpRequest::GetEvent { .. } => EntityKind::Events,
        }
    }
}

/// One query the driver must perform against the native store.
#[derive(Debug, PartialEq, Eq)]
pub enum StoreQuery {
    /// Ask the current authorization status of one entity domain.
    AuthStatus(EntityKind),
    /// Request access to one entity domain and wait for the completion.
    RequestAccess(EntityKind),
    /// List the calendars of one entity domain.
    Calendars(EntityKind),
    /// Ask the default calendar of one entity domain.
    DefaultCalendar(EntityKind),
    /// Fetch reminders, restricted to the given calendars if any.
    RemindersMatching { calendar_identifiers: Option<Vec<String>> },
    /// Fetch the incomplete reminders of every list.
    IncompleteReminders,
    /// Fetch the events between the timestamps, restricted to the given
    /// calendars if any.
    EventsBetween { start_date: i64, end_date: i64, calendar_identifiers: Option<Vec<String>> },
    /// Look the reminder with this identifier up.
    ReminderById { identifier: String },
    /// Look the event with this identifier up.
    EventById { identifier: String },
    /// Create a reminder from the draft and commit it.
    SaveReminder { draft: ReminderDraft },
    /// Overwrite the stored reminder with these values and commit.
    SaveReminderItem { item: ReminderItem },
    /// Create an event from the draft and commit it.
    SaveEvent { draft: EventDraft },
    /// Overwrite the stored event with these values and commit.
    SaveEventItem { item: EventItem },
    /// Remove the reminder with this identifier and commit.
    RemoveReminder { identifier: String },
    /// Remove the event with this identifier and commit.
    RemoveEvent { identifier: String },
}

/// The driver's answer to one [`StoreQuery`].
#[derive(Debug, PartialEq, Eq)]
pub enum StoreReply {
    /// The current authorization status.
    Status(AuthorizationStatus),
    /// The completion of an access request: the grant flag, and any error
    /// the store reported.
    Access { granted: bool, error: Option<String> },
    /// The calendars of the queried entity domain.
    Calendars(Vec<CalendarInfo>),
    /// The default calendar, if one is configured.
    DefaultCalendar(Option<CalendarInfo>),
    /// The slot the reminder-fetch completion filled, if it fired.
    RemindersSlot(Option<Vec<ReminderItem>>),
    /// The events the store returned, in whatever order.
    Events(Vec<EventItem>),
    /// The reminder the identifier resolved to, if it resolved to one.
    ReminderLookup(Option<ReminderItem>),
    /// The event the identifier resolved to, if it resolved to one.
    EventLookup(Option<EventItem>),
    /// The committed reminder as the store now reports it, or the store's
    /// error message.
    ReminderSaved(Result<ReminderItem, String>),
    /// The committed event as the store now reports it, or the store's
    /// error message.
    EventSaved(Result<EventItem, String>),
    /// The store's error message if the removal failed.
    Removed(Option<String>),
}

/// What a finished operation produced.
#[derive(Debug, PartialEq, Eq)]
pub enum Outcome {
    /// The current authorization status.
    Status(AuthorizationStatus),
    /// Whether an access request was granted.
    Granted(bool),
    /// The calendars of an entity domain.
    Calendars(Vec<CalendarInfo>),
    /// A single calendar.
    Calendar(CalendarInfo),
    /// Fetched reminders.
    Reminders(Vec<ReminderItem>),
    /// A single reminder, as created, updated or fetched.
    Reminder(ReminderItem),
    /// Fetched events, in non-decreasing start-timestamp order.
    Events(Vec<EventItem>),
    /// A single event, as created, updated or fetched.
    Event(EventItem),
    /// A removal went through.
    Deleted,
}

/// What the driver must do next: perform a query, or stop with the result.
#[derive(Debug, PartialEq, Eq)]
pub enum Directive {
    /// Perform this query and hand the reply back.
    Query(StoreQuery),
    /// The session is over with this result.
    Finish(Result<Outcome, EventKitError>),
}

/// Where a session stands: which reply it is waiting for.
#[derive(Clone, Copy, Debug, PartialEq, Eq, Structural)]
pub enum Phase {
    /// Waiting for the authorization status.
    AwaitStatus,
    /// Waiting for the completion of an access request.
    AwaitAccess,
    /// Waiting for the calendar list, to resolve titles against.
    AwaitCalendars,
    /// Waiting for the default calendar.
    AwaitDefaultCalendar,
    /// Waiting for fetched reminders.
    AwaitReminders,
    /// Waiting for fetched events.
    AwaitEvents,
    /// Waiting for a reminder lookup by identifier.
    AwaitReminderLookup,
    /// Waiting for an event lookup by identifier.
    AwaitEventLookup,
    /// Waiting for a reminder save to commit.
    AwaitReminderCommit,
    /// Waiting for an event save to commit.
    AwaitEventCommit,
    /// Waiting for a removal to commit.
    AwaitRemoval,
    /// The session is over.
    Done,
}

/// How many more steps a session in this phase can take.  Every step strictly
/// lowers the rank, so every session ends.
pub open spec fn phase_rank(p: Phase) -> nat {
    match p {
        Phase::AwaitStatus => 6,
        Phase::AwaitAccess => 5,
        Phase::AwaitCalendars => 4,
        Phase::AwaitDefaultCalendar => 4,
        Phase::AwaitReminderLookup => 4,
        Phase::AwaitEventLookup => 4,
        Phase::AwaitReminders => 3,
        Phase::AwaitEvents => 3,
        Phase::AwaitReminderCommit => 3,
        Phase::AwaitEventCommit => 3,
        Phase::AwaitRemoval => 3,
        Phase::Done => 0,
    }
}

/// One running operation: the request and where it stands.
#[derive(Debug, PartialEq, Eq)]
pub struct Session {
    /// The operation this session performs.
    pub op: OpRequest,
    /// Which reply the session is waiting for.
    pub phase: Phase,
}

/// A reply arrived that the current phase cannot take: the session stops
/// with a catch-all error and no further query.
pub open spec fn spec_unexpected_reply(d: Directive) -> bool {
    &&& d matches Directive::Finish(r)
    &&& r matches Err(e)
    &&& e matches EventKitError::EventKitError(m)
    &&& m@ == "unexpected store reply"@
}

/// What beginning an operation issues, once authorization is settled:
/// the resolve query for operations with targets to resolve, else the
/// operation's own query.
pub open spec fn spec_begin(op: OpRequest, post: Phase, d: Directive) -> bool {
    match op {
        OpRequest::CheckStatus(_) => spec_unexpected_reply(d) && post is Done,
        OpRequest::RequestAccess(_) => spec_unexpected_reply(d) && post is Done,
        OpRequest::ListCalendars(k) => d == Directive::Query(StoreQuery::Calendars(k)) && post
            is AwaitCalendars,
        OpRequest::DefaultCalendar(k) => d == Directive::Query(StoreQuery::DefaultCalendar(k))
            && post is AwaitDefaultCalendar,
        OpRequest::FetchReminders { calendar_titles } => match calendar_titles {
            None => d == (Directive::Query(
                StoreQuery::RemindersMatching { calendar_identifiers: None },
            )) && post is AwaitReminders,
            Some(_) => d == Directive::Query(StoreQuery::Calendars(EntityKind::Reminders))
                && post is AwaitCalendars,
        },
        OpRequest::FetchIncompleteReminders => d == Directive::Query(
            StoreQuery::IncompleteReminders,
        ) && post is AwaitReminders,
        OpRequest::CreateReminder { calendar_title, .. } => match calendar_title {
            Some(_) => d == Directive::Query(StoreQuery::Calendars(EntityKind::Reminders))
                && post is AwaitCalendars,
            None => d == Directive::Query(StoreQuery::DefaultCalendar(EntityKind::Reminders))
                && post is AwaitDefaultCalendar,
        },
        OpRequest::UpdateReminder { identifier, .. } => {
            &&& d matches Directive::Query(q)
            &&& q matches StoreQuery::ReminderById { identifier: id }
            &&& id@ == identifier@
            &&& post is AwaitReminderLookup
        },
        OpRequest::DeleteReminder { identifier } => {
            &&& d matches Directive::Query(q)
            &&& q matches StoreQuery::ReminderById { identifier: id }
            &&& id@ == identifier@
            &&& post is AwaitReminderLookup
        },
        OpRequest::GetReminder { identifier } => {
            &&& d matches Directive::Query(q)
            &&& q matches StoreQuery::ReminderById { identifier: id }
            &&& id@ == identifier@
            &&& post is AwaitReminderLookup
        },
        OpRequest::FetchEvents { start_date, end_date, calendar_titles } => match
            calendar_titles {
            None => {
                &&& d matches Directive::Query(q)
                &&& q matches StoreQuery::EventsBetween {
                    start_date: s,
                    end_date: e,
                    calendar_identifiers: ids,
                }
                &&& s == start_date
                &&& e == end_date
                &&& ids is None
                &&& post is AwaitEvents
            },
            Some(_) => d == Directive::Query(StoreQuery::Calendars(EntityKind::Events)) && post
                is AwaitCalendars,
        },
        OpRequest::CreateEvent { calendar_title, .. } => match calendar_title {
            Some(_) => d == Directive::Query(StoreQuery::Calendars(EntityKind::Events)) && post
                is AwaitCalendars,
            None => d == Directive::Query(StoreQuery::DefaultCalendar(EntityKind::Events))
                && post is AwaitDefaultCalendar,
        },
        OpRequest::UpdateEvent { identifier, .. } => {
            &&& d matches Directive::Query(q)
            &&& q matches StoreQuery::EventById { identifier: id }
            &&& id@ == identifier@
            &&& post is AwaitEventLookup
        },
        OpRequest::DeleteEvent { identifier } => {
            &&& d matches Directive::Query(q)
            &&& q matches StoreQuery::EventById { identifier: id }
            &&& id@ == identifier@
            &&& post is AwaitEventLookup
        },
        OpRequest::GetEvent { identifier } => {
            &&& d matches Directive::Query(q)
            &&& q matches StoreQuery::EventById { identifier: id }
            &&& id@ == identifier@
            &&& post is AwaitEventLookup
        },
    }
}

/// What starting a session issues.  An access request goes straight to the
/// store; a fetch over an invalid date range fails before any query at all;
/// everything else first asks the authorization status of its entity domain.
pub open spec fn spec_start(op: OpRequest, post: Phase, d: Directive) -> bool {
    match op {
        OpRequest::RequestAccess(k) => d == Directive::Query(StoreQuery::RequestAccess(k))
            && post is AwaitAccess,
        OpRequest::FetchEvents { start_date, end_date, .. } => if start_date >= end_date {
            d == (Directive::Finish(
                Err::<Outcome, EventKitError>(EventKitError::InvalidDateRange),
            )) && post is Done
        } else {
            d == Directive::Query(StoreQuery::AuthStatus(EntityKind::Events)) && post
                is AwaitStatus
        },
        _ => d == Directive::Query(StoreQuery::AuthStatus(op.spec_entity())) && post
            is AwaitStatus,
    }
}

/// What the authorization-status reply decides.  A status check just reports
/// it; otherwise full and write-only access proceed to the operation, an
/// undetermined status asks for access, and a denied or restricted status
/// ends the session with the matching error and no store query.
pub open spec fn spec_status_step(
    op: OpRequest,
    st: AuthorizationStatus,
    post: Phase,
    d: Directive,
) -> bool {
    if op matches OpRequest::CheckStatus(_) {
        d == Directive::Finish(Ok::<Outcome, EventKitError>(Outcome::Status(st))) && post is Done
    } else {
        match spec_authorization_gate(st) {
            AuthDecision::Proceed => spec_begin(op, post, d),
            AuthDecision::Request => d == (Directive::Query(
                StoreQuery::RequestAccess(op.spec_entity()),
            )) && post is AwaitAccess,
            AuthDecision::Fail(e) => d == Directive::Finish(Err::<Outcome, EventKitError>(e))
                && post is Done,
        }
    }
}

/// What the access-request completion decides.  An explicit error fails the
/// session; a plain access request reports the grant flag; a gated operation
/// proceeds on a grant and fails with an authorization denial otherwise.
pub open spec fn spec_access_step(
    op: OpRequest,
    granted: bool,
    error: Option<String>,
    post: Phase,
    d: Directive,
) -> bool {
    match error {
        Some(m) => {
            &&& d matches Directive::Finish(r)
            &&& r matches Err(e)
            &&& e matches EventKitError::AuthorizationRequestFailed(x)
            &&& x@ == m@
            &&& post is Done
        },
        None => if op matches OpRequest::RequestAccess(_) {
            d == Directive::Finish(Ok::<Outcome, EventKitError>(Outcome::Granted(granted)))
                && post is Done
        } else if granted {
            spec_begin(op, post, d)
        } else {
            d == (Directive::Finish(
                Err::<Outcome, EventKitError>(EventKitError::AuthorizationDenied),
            )) && post is Done
        },
    }
}

/// What the calendar list decides.  Listing reports it; a title filter
/// selects the matching calendars or fails naming every requested title; a
/// creation resolves its single title to the first match or fails naming it.
pub open spec fn spec_calendars_step(
    op: OpRequest,
    cals: Vec<CalendarInfo>,
    post: Phase,
    d: Directive,
) -> bool {
    match op {
        OpRequest::ListCalendars(_) => {
            &&& d matches Directive::Finish(r)
            &&& r matches Ok(o)
            &&& o matches Outcome::Calendars(cs)
            &&& cs@ == cals@
            &&& post is Done
        },
        OpRequest::FetchReminders { calendar_titles: Some(titles) } => {
            if spec_selected(cals@, titles@).len() == 0 {
                &&& d matches Directive::Finish(r)
                &&& r matches Err(e)
                &&& e matches EventKitError::CalendarNotFound(m)
                &&& m@ == spec_joined(titles@)
                &&& post is Done
            } else {
                &&& d matches Directive::Query(q)
                &&& q matches StoreQuery::RemindersMatching { calendar_identifiers: Some(ids) }
                &&& ids@.len() == spec_selected(cals@, titles@).len()
                &&& (forall|i: int|
                    0 <= i < ids@.len() ==> ids@[i]@ == spec_selected(
                        cals@,
                        titles@,
                    )[i].identifier@)
                &&& post is AwaitReminders
            }
        },
        OpRequest::FetchEvents { start_date, end_date, calendar_titles: Some(titles) } => {
            if spec_selected(cals@, titles@).len() == 0 {
                &&& d matches Directive::Finish(r)
                &&& r matches Err(e)
                &&& e matches EventKitError::CalendarNotFound(m)
                &&& m@ == spec_joined(titles@)
                &&& post is Done
            } else {
                &&& d matches Directive::Query(q)
                &&& q matches StoreQuery::EventsBetween {
                    start_date: s,
                    end_date: e,
                    calendar_identifiers: Some(ids),
                }
                &&& s == start_date
                &&& e == end_date
                &&& ids@.len() == spec_selected(cals@, titles@).len()
                &&& (forall|i: int|
                    0 <= i < ids@.len() ==> ids@[i]@ == spec_selected(
                        cals@,
                        titles@,
                    )[i].identifier@)
                &&& post is AwaitEvents
            }
        },
        OpRequest::CreateReminder { title, notes, calendar_title: Some(ct), priority } => {
            if exists|i: int| 0 <= i < cals@.len() && cals@[i].title@ == ct@ {
                &&& d matches Directive::Query(q)
                &&& q matches StoreQuery::SaveReminder { draft }
                &&& draft.title@ == title@
                &&& opt_chars(draft.notes) == opt_chars(notes)
                &&& draft.priority == priority
                &&& (exists|i: int|
                    0 <= i < cals@.len() && cals@[i].title@ == ct@
                        && draft.calendar_identifier@ == cals@[i].identifier@ && (forall|j: int|
                        0 <= j < i ==> cals@[j].title@ != ct@))
                &&& post is AwaitReminderCommit
            } else {
                &&& d matches Directive::Finish(r)
                &&& r matches Err(e)
                &&& e matches EventKitError::CalendarNotFound(m)
                &&& m@ == ct@
                &&& post is Done
            }
        },
        OpRequest::CreateEvent {
            title,
            start_date,
            end_date,
            notes,
            location,
            calendar_title: Some(ct),
            all_day,
        } => {
            if exists|i: int| 0 <= i < cals@.len() && cals@[i].title@ == ct@ {
                &&& d matches Directive::Query(q)
                &&& q matches StoreQuery::SaveEvent { draft }
                &&& draft.title@ == title@
                &&& draft.start_date == start_date
                &&& draft.end_date == end_date
                &&& opt_chars(draft.notes) == opt_chars(notes)
                &&& opt_chars(draft.location) == opt_chars(location)
                &&& draft.all_day == all_day
                &&& (exists|i: int|
                    0 <= i < cals@.len() && cals@[i].title@ == ct@
                        && draft.calendar_identifier@ == cals@[i].identifier@ && (forall|j: int|
                        0 <= j < i ==> cals@[j].title@ != ct@))
                &&& post is AwaitEventCommit
            } else {
                &&& d matches Directive::Finish(r)
                &&& r matches Err(e)
                &&& e matches EventKitError::CalendarNotFound(m)
                &&& m@ == ct@
                &&& post is Done
            }
        },
        _ => spec_unexpected_reply(d) && post is Done,
    }
}

/// What the default-calendar reply decides: report it or create in it, and
/// fail when the store has none configured.
pub open spec fn spec_default_calendar_step(
    op: OpRequest,
    dc: Option<CalendarInfo>,
    post: Phase,
    d: Directive,
) -> bool {
    match op {
        OpRequest::DefaultCalendar(_) => match dc {
            Some(c) => d == Directive::Finish(Ok::<Outcome, EventKitError>(Outcome::Calendar(c)))
                && post is Done,
            None => d == (Directive::Finish(
                Err::<Outcome, EventKitError>(EventKitError::NoDefaultCalendar),
            )) && post is Done,
        },
        OpRequest::CreateReminder { title, notes, calendar_title: None, priority } => match dc {
            Some(c) => {
                &&& d matches Directive::Query(q)
                &&& q matches StoreQuery::SaveReminder { draft }
                &&& draft.title@ == title@
                &&& opt_chars(draft.notes) == opt_chars(notes)
                &&& draft.priority == priority
                &&& draft.calendar_identifier@ == c.identifier@
                &&& post is AwaitReminderCommit
            },
            None => d == (Directive::Finish(
                Err::<Outcome, EventKitError>(EventKitError::NoDefaultCalendar),
            )) && post is Done,
        },
        OpRequest::CreateEvent {
            title,
            start_date,
            end_date,
            notes,
            location,
            calendar_title: None,
            all_day,
        } => match dc {
            Some(c) => {
                &&& d matches Directive::Query(q)
                &&& q matches StoreQuery::SaveEvent { draft }
                &&& draft.title@ == title@
                &&& draft.start_date == start_date
                &&& draft.end_date == end_date
                &&& opt_chars(draft.notes) == opt_chars(notes)
                &&& opt_chars(draft.location) == opt_chars(location)
                &&& draft.all_day == all_day
                &&& draft.calendar_identifier@ == c.identifier@
                &&& post is AwaitEventCommit
            },
            None => d == (Directive::Finish(
                Err::<Outcome, EventKitError>(EventKitError::NoDefaultCalendar),
            )) && post is Done,
        },
        _ => spec_unexpected_reply(d) && post is Done,
    }
}

/// What the reminder-fetch slot decides: a filled slot is the result, even
/// empty; an unfilled slot is an unknown fetch failure.
pub open spec fn spec_reminders_step(
    slot: Option<Vec<ReminderItem>>,
    post: Phase,
    d: Directive,
) -> bool {
    match slot {
        Some(items) => {
            &&& d matches Directive::Finish(r)
            &&& r matches Ok(o)
            &&& o matches Outcome::Reminders(v)
            &&& v@ == items@
            &&& post is Done
        },
        None => {
            &&& d matches Directive::Finish(r)
            &&& r matches Err(e)
            &&& e matches EventKitError::FetchFailed(m)
            &&& m@ == "Unknown error"@
            &&& post is Done
        },
    }
}

/// What fetched events decide: the session ends with exactly those events,
/// sorted by start timestamp, whatever order the store returned them in.
pub open spec fn spec_events_step(items: Vec<EventItem>, post: Phase, d: Directive) -> bool {
    &&& d matches Directive::Finish(r)
    &&& r matches Ok(o)
    &&& o matches Outcome::Events(v)
    &&& sorted_by_start(v@)
    &&& v@.to_multiset() == items@.to_multiset()
    &&& post is Done
}

/// What a reminder lookup decides.  An identifier that does not resolve to a
/// reminder fails with `ItemNotFound` naming it; otherwise a fetch reports
/// the reminder, a deletion issues the removal, and an update merges the
/// supplied fields and issues the save.
pub open spec fn spec_reminder_lookup_step(
    op: OpRequest,
    found: Option<ReminderItem>,
    post: Phase,
    d: Directive,
) -> bool {
    match op {
        OpRequest::GetReminder { identifier } => match found {
            Some(item) => {
                &&& d matches Directive::Finish(r)
                &&& r matches Ok(o)
                &&& o matches Outcome::Reminder(it)
                &&& it == item
                &&& post is Done
            },
            None => spec_item_not_found(identifier@, post, d),
        },
        OpRequest::DeleteReminder { identifier } => match found {
            Some(_) => {
                &&& d matches Directive::Query(q)
                &&& q matches StoreQuery::RemoveReminder { identifier: id }
                &&& id@ == identifier@
                &&& post is AwaitRemoval
            },
            None => spec_item_not_found(identifier@, post, d),
        },
        OpRequest::UpdateReminder { identifier, title, notes, completed, priority } => match
            found {
            Some(item) => {
                &&& d matches Directive::Query(q)
                &&& q matches StoreQuery::SaveReminderItem { item: u }
                &&& u@ == spec_reminder_update(
                    item@,
                    opt_chars(title),
                    opt_chars(notes),
                    completed,
                    opt_int(priority),
                )
                &&& post is AwaitReminderCommit
            },
            None => spec_item_not_found(identifier@, post, d),
        },
        _ => spec_unexpected_reply(d) && post is Done,
    }
}

/// What an event lookup decides, exactly as the reminder lookup.
pub open spec fn spec_event_lookup_step(
    op: OpRequest,
    found: Option<EventItem>,
    post: Phase,
    d: Directive,
) -> bool {
    match op {
        OpRequest::GetEvent { identifier } => match found {
            Some(item) => {
                &&& d matches Directive::Finish(r)
                &&& r matches Ok(o)
                &&& o matches Outcome::Event(it)
                &&& it == item
                &&& post is Done
            },
            None => spec_item_not_found(identifier@, post, d),
        },
        OpRequest::DeleteEvent { identifier } => match found {
            Some(_) => {
                &&& d matches Directive::Query(q)
                &&& q matches StoreQuery::RemoveEvent { identifier: id }
                &&& id@ == identifier@
                &&& post is AwaitRemoval
            },
            None => spec_item_not_found(identifier@, post, d),
        },
        OpRequest::UpdateEvent { identifier, title, notes, location, start_date, end_date } =>
            match found {
            Some(item) => {
                &&& d matches Directive::Query(q)
                &&& q matches StoreQuery::SaveEventItem { item: u }
                &&& u@ == spec_event_update(
                    item@,
                    opt_chars(title),
                    opt_chars(notes),
                    opt_chars(location),
                    opt_ts(start_date),
                    opt_ts(end_date),
                )
                &&& post is AwaitEventCommit
            },
            None => spec_item_not_found(identifier@, post, d),
        },
        _ => spec_unexpected_reply(d) && post is Done,
    }
}

/// A session that ends because an identifier did not resolve.
pub open spec fn spec_item_not_found(identifier: Seq<char>, post: Phase, d: Directive) -> bool {
    &&& d matches Directive::Finish(r)
    &&& r matches Err(e)
    &&& e matches EventKitError::ItemNotFound(m)
    &&& m@ == identifier
    &&& post is Done
}

/// What a reminder commit decides: the committed reminder as the store now
/// reports it, or `SaveFailed` with the store's message passed through.
pub open spec fn spec_reminder_commit_step(
    res: Result<ReminderItem, String>,
    post: Phase,
    d: Directive,
) -> bool {
    match res {
        Ok(item) => {
            &&& d matches Directive::Finish(r)
            &&& r matches Ok(o)
            &&& o matches Outcome::Reminder(it)
            &&& it == item
            &&& post is Done
        },
        Err(msg) => {
            &&& d matches Directive::Finish(r)
            &&& r matches Err(e)
            &&& e matches EventKitError::SaveFailed(m)
            &&& m@ == msg@
            &&& post is Done
        },
    }
}

/// What an event commit decides, exactly as the reminder commit.
pub open spec fn spec_event_commit_step(
    res: Result<EventItem, String>,
    post: Phase,
    d: Directive,
) -> bool {
    match res {
        Ok(item) => {
            &&& d matches Directive::Finish(r)
            &&& r matches Ok(o)
            &&& o matches Outcome::Event(it)
            &&& it == item
            &&& post is Done
        },
        Err(msg) => {
            &&& d matches Directive::Finish(r)
            &&& r matches Err(e)
            &&& e matches EventKitError::SaveFailed(m)
            &&& m@ == msg@
            &&& post is Done
        },
    }
}

/// What a removal commit decides: success, or `DeleteFailed` with the
/// store's message passed through.
pub open spec fn spec_removal_step(res: Option<String>, post: Phase, d: Directive) -> bool {
    match res {
        None => d == Directive::Finish(Ok::<Outcome, EventKitError>(Outcome::Deleted)) && post
            is Done,
        Some(msg) => {
            &&& d matches Directive::Finish(r)
            &&& r matches Err(e)
            &&& e matches EventKitError::DeleteFailed(m)
            &&& m@ == msg@
            &&& post is Done
        },
    }
}

/// The whole transition relation: what each phase does with each reply.
pub open spec fn spec_step(
    op: OpRequest,
    pre: Phase,
    reply: StoreReply,
    post: Phase,
    d: Directive,
) -> bool {
    match pre {
        Phase::AwaitStatus => match reply {
            StoreReply::Status(st) => spec_status_step(op, st, post, d),
            _ => spec_unexpected_reply(d) && post is Done,
        },
        Phase::AwaitAccess => match reply {
            StoreReply::Access { granted, error } => spec_access_step(
                op,
                granted,
                error,
                post,
                d,
            ),
            _ => spec_unexpected_reply(d) && post is Done,
        },
        Phase::AwaitCalendars => match reply {
            StoreReply::Calendars(cals) => spec_calendars_step(op, cals, post, d),
            _ => spec_unexpected_reply(d) && post is Done,
        },
        Phase::AwaitDefaultCalendar => match reply {
            StoreReply::DefaultCalendar(dc) => spec_default_calendar_step(op, dc, post, d),
            _ => spec_unexpected_reply(d) && post is Done,
        },
        Phase::AwaitReminders => match reply {
            StoreReply::RemindersSlot(slot) => spec_reminders_step(slot, post, d),
            _ => spec_unexpected_reply(d) && post is Done,
        },
        Phase::AwaitEvents => match reply {
            StoreReply::Events(items) => spec_events_step(items, post, d),
            _ => spec_unexpected_reply(d) && post is Done,
        },
        Phase::AwaitReminderLookup => match reply {
            StoreReply::ReminderLookup(found) => spec_reminder_lookup_step(op, found, post, d),
            _ => spec_unexpected_reply(d) && post is Done,
        },
        Phase::AwaitEventLookup => match reply {
            StoreReply::EventLookup(found) => spec_event_lookup_step(op, found, post, d),
            _ => spec_unexpected_reply(d) && post is Done,
        },
        Phase::AwaitReminderCommit => match reply {
            StoreReply::ReminderSaved(res) => spec_reminder_commit_step(res, post, d),
            _ => spec_unexpected_reply(d) && post is Done,
        },
        Phase::AwaitEventCommit => match reply {
            StoreReply::EventSaved(res) => spec_event_commit_step(res, post, d),
            _ => spec_unexpected_reply(d) && post is Done,
        },
        Phase::AwaitRemoval => match reply {
            StoreReply::Removed(res) => spec_removal_step(res, post, d),
            _ => spec_unexpected_reply(d) && post is Done,
        },
        Phase::Done => spec_unexpected_reply(d) && post is Done,
    }
}

/// Normalizes the access-request bridge slot into the reply a session
/// takes.  The completion handler fills the slot before the wait returns,
/// so an empty slot should be impossible; one is reported as an unknown
/// failure, never as a grant.
pub fn access_reply(slot: Option<(bool, Option<String>)>) -> (r: StoreReply)
    ensures
        slot matches Some(p) ==> r == (StoreReply::Access { granted: p.0, error: p.1 }),
        slot is None ==> {
            &&& r matches StoreReply::Access { granted, error }
            &&& granted == false
            &&& error matches Some(m)
            &&& m@ == "Unknown error"@
        },
{
    match slot {
        Some((granted, error)) => StoreReply::Access { granted, error },
        None => StoreReply::Access { granted: false, error: Some("Unknown error".to_owned()) },
    }
}

/// Starts a session for an operation.  A fetch over an invalid date range
/// (start at or after end) fails here, before any store query; an access
/// request queries the store directly; every other operation first asks the
/// authorization status of its entity domain.
pub fn start(op: OpRequest) -> (r: (Session, Directive))
    ensures
        r.0.op == op,
        spec_start(op, r.0.phase, r.1),
        r.1 is Query <==> !(r.0.phase is Done),
{
    match &op {
        OpRequest::RequestAccess(k) => {
            let kind = *k;
            (
                Session { op, phase: Phase::AwaitAccess },
                Directive::Query(StoreQuery::RequestAccess(kind)),
            )
        },
        OpRequest::FetchEvents { start_date, end_date, .. } => {
            if *start_date >= *end_date {
                (
                    Session { op, phase: Phase::Done },
                    Directive::Finish(Err(EventKitError::InvalidDateRange)),
                )
            } else {
                (
                    Session { op, phase: Phase::AwaitStatus },
                    Directive::Query(StoreQuery::AuthStatus(EntityKind::Events)),
                )
            }
        },
        _ => {
            let kind = op.entity();
            (
                Session { op, phase: Phase::AwaitStatus },
                Directive::Query(StoreQuery::AuthStatus(kind)),
            )
        },
    }
}

impl Session {
    /// Takes the driver's reply to the pending query and decides the next
    /// step.  Every step strictly lowers the phase rank, so every session
    /// reaches `Done` after finitely many queries.
    pub fn step(&mut self, reply: StoreReply) -> (d: Directive)
        ensures
            final(self).op == old(self).op,
            spec_step(old(self).op, old(self).phase, reply, final(self).phase, d),
            d is Finish <==> final(self).phase is Done,
            !(old(self).phase is Done) ==> phase_rank(final(self).phase) < phase_rank(
                old(self).phase,
            ),
    {
        match self.phase {
            Phase::AwaitStatus => match reply {
                StoreReply::Status(st) => self.step_status(st),
                _ => self.unexpected_reply(),
            },
            Phase::AwaitAccess => match reply {
                StoreReply::Access { granted, error } => self.step_access(granted, error),
                _ => self.unexpected_reply(),
            },
            Phase::AwaitCalendars => match reply {
                StoreReply::Calendars(cals) => self.step_calendars(cals),
                _ => self.unexpected_reply(),
            },
            Phase::AwaitDefaultCalendar => match reply {
                StoreReply::DefaultCalendar(dc) => self.step_default_calendar(dc),
                _ => self.unexpected_reply(),
            },
            Phase::AwaitReminders => match reply {
                StoreReply::RemindersSlot(slot) => self.step_reminders(slot),
                _ => self.unexpected_reply(),
            },
            Phase::AwaitEvents => match reply {
                StoreReply::Events(items) => self.step_events(items),
                _ => self.unexpected_reply(),
            },
            Phase::AwaitReminderLookup => match reply {
                StoreReply::ReminderLookup(found) => self.step_reminder_lookup(found),
                _ => self.unexpected_reply(),
            },
            Phase::AwaitEventLookup => match reply {
                StoreReply::EventLookup(found) => self.step_event_lookup(found),
                _ => self.unexpected_reply(),
            },
            Phase::AwaitReminderCommit => match reply {
                StoreReply::ReminderSaved(res) => self.step_reminder_commit(res),
                _ => self.unexpected_reply(),
            },
            Phase::AwaitEventCommit => match reply {
                StoreReply::EventSaved(res) => self.step_event_commit(res),
                _ => self.unexpected_reply(),
            },
            Phase::AwaitRemoval => match reply {
                StoreReply::Removed(res) => self.step_removal(res),
                _ => self.unexpected_reply(),
            },
            Phase::Done => self.unexpected_reply(),
        }
    }

    /// Ends the session on a reply the current phase cannot take.
    fn unexpected_reply(&mut self) -> (d: Directive)
        ensures
            final(self).op == old(self).op,
            final(self).phase is Done,
            spec_unexpected_reply(d),
            d is Finish,
    {
        self.phase = Phase::Done;
        Directive::Finish(Err(EventKitError::EventKitError("unexpected store reply".to_owned())))
    }

    fn step_status(&mut self, st: AuthorizationStatus) -> (d: Directive)
        requires
            old(self).phase is AwaitStatus,
        ensures
            final(self).op == old(self).op,
            spec_status_step(old(self).op, st, final(self).phase, d),
            d is Finish <==> final(self).phase is Done,
            phase_rank(final(self).phase) < phase_rank(old(self).phase),
    {
        if matches!(self.op, OpRequest::CheckStatus(_)) {
            self.phase = Phase::Done;
            return Directive::Finish(Ok(Outcome::Status(st)));
        }
        match authorization_gate(st) {
            AuthDecision::Proceed => self.begin_operation(),
            AuthDecision::Request => {
                let kind = self.op.entity();
                self.phase = Phase::AwaitAccess;
                Directive::Query(StoreQuery::RequestAccess(kind))
            },
            AuthDecision::Fail(e) => {
                self.phase = Phase::Done;
                Directive::Finish(Err(e))
            },
        }
    }

    fn step_access(&mut self, granted: bool, error: Option<String>) -> (d: Directive)
        requires
            old(self).phase is AwaitAccess,
        ensures
            final(self).op == old(self).op,
            spec_access_step(old(self).op, granted, error, final(self).phase, d),
            d is Finish <==> final(self).phase is Done,
            phase_rank(final(self).phase) < phase_rank(old(self).phase),
    {
        if matches!(self.op, OpRequest::RequestAccess(_)) {
            self.phase = Phase::Done;
            return match error {
                Some(m) => Directive::Finish(Err(EventKitError::AuthorizationRequestFailed(m))),
                None => Directive::Finish(Ok(Outcome::Granted(granted))),
            };
        }
        match grant_gate(granted, error) {
            Ok(_) => self.begin_operation(),
            Err(e) => {
                self.phase = Phase::Done;
                Directive::Finish(Err(e))
            },
        }
    }

    /// Issues the first query of the operation proper, once authorization is
    /// settled.
    fn begin_operation(&mut self) -> (d: Directive)
        ensures
            final(self).op == old(self).op,
            spec_begin(old(self).op, final(self).phase, d),
            d is Finish <==> final(self).phase is Done,
            phase_rank(final(self).phase) <= 4,
    {
        let p: Phase;
        let d: Directive;
        match &self.op {
            OpRequest::CheckStatus(_) => {
                p = Phase::Done;
                d = Directive::Finish(
                    Err(EventKitError::EventKitError("unexpected store reply".to_owned())),
                );
            },
            OpRequest::RequestAccess(_) => {
                p = Phase::Done;
                d = Directive::Finish(
                    Err(EventKitError::EventKitError("unexpected store reply".to_owned())),
                );
            },
            OpRequest::ListCalendars(k) => {
                p = Phase::AwaitCalendars;
                d = Directive::Query(StoreQuery::Calendars(*k));
            },
            OpRequest::DefaultCalendar(k) => {
                p = Phase::AwaitDefaultCalendar;
                d = Directive::Query(StoreQuery::DefaultCalendar(*k));
            },
            OpRequest::FetchReminders { calendar_titles: None } => {
                p = Phase::AwaitReminders;
                d = Directive::Query(StoreQuery::RemindersMatching { calendar_identifiers: None });
            },
            OpRequest::FetchReminders { calendar_titles: Some(_) } => {
                p = Phase::AwaitCalendars;
                d = Directive::Query(StoreQuery::Calendars(EntityKind::Reminders));
            },
            OpRequest::FetchIncompleteReminders => {
                p = Phase::AwaitReminders;
                d = Directive::Query(StoreQuery::IncompleteReminders);
            },
            OpRequest::CreateReminder { calendar_title: Some(_), .. } => {
                p = Phase::AwaitCalendars;
                d = Directive::Query(StoreQuery::Calendars(EntityKind::Reminders));
            },
            OpRequest::CreateReminder { calendar_title: None, .. } => {
                p = Phase::AwaitDefaultCalendar;
                d = Directive::Query(StoreQuery::DefaultCalendar(EntityKind::Reminders));
            },
            OpRequest::UpdateReminder { identifier, .. } => {
                p = Phase::AwaitReminderLookup;
                d = Directive::Query(StoreQuery::ReminderById { identifier: identifier.clone() });
            },
            OpRequest::DeleteReminder { identifier } => {
                p = Phase::AwaitReminderLookup;
                d = Directive::Query(StoreQuery::ReminderById { identifier: identifier.clone() });
            },
            OpRequest::GetReminder { identifier } => {
                p = Phase::AwaitReminderLookup;
                d = Directive::Query(StoreQuery::ReminderById { identifier: identifier.clone() });
            },
            OpRequest::FetchEvents { start_date, end_date, calendar_titles: None } => {
                p = Phase::AwaitEvents;
                d = Directive::Query(
                    StoreQuery::EventsBetween {
                        start_date: *start_date,
                        end_date: *end_date,
                        calendar_identifiers: None,
                    },
                );
            },
            OpRequest::FetchEvents { calendar_titles: Some(_), .. } => {
                p = Phase::AwaitCalendars;
                d = Directive::Query(StoreQuery::Calendars(EntityKind::Events));
            },
            OpRequest::CreateEvent { calendar_title: Some(_), .. } => {
                p = Phase::AwaitCalendars;
                d = Directive::Query(StoreQuery::Calendars(EntityKind::Events));
            },
            OpRequest::CreateEvent { calendar_title: None, .. } => {
                p = Phase::AwaitDefaultCalendar;
                d = Directive::Query(StoreQuery::DefaultCalendar(EntityKind::Events));
            },
            OpRequest::UpdateEvent { identifier, .. } => {
                p = Phase::AwaitEventLookup;
                d = Directive::Query(StoreQuery::EventById { identifier: identifier.clone() });
            },
            OpRequest::DeleteEvent { identifier } => {
                p = Phase::AwaitEventLookup;
                d = Directive::Query(StoreQuery::EventById { identifier: identifier.clone() });
            },
            OpRequest::GetEvent { identifier } => {
                p = Phase::AwaitEventLookup;
                d = Directive::Query(StoreQuery::EventById { identifier: identifier.clone() });
            },
        }
        self.phase = p;
        d
    }

    fn step_calendars(&mut self, cals: Vec<CalendarInfo>) -> (d: Directive)
        requires
            old(self).phase is AwaitCalendars,
        ensures
            final(self).op == old(self).op,
            spec_calendars_step(old(self).op, cals, final(self).phase, d),
            d is Finish <==> final(self).phase is Done,
            phase_rank(final(self).phase) < phase_rank(old(self).phase),
    {
        match &self.op {
            OpRequest::ListCalendars(_) => {
                self.phase = Phase::Done;
                Directive::Finish(Ok(Outcome::Calendars(cals)))
            },
            OpRequest::FetchReminders { calendar_titles: Some(titles) } => {
                match select_calendars(&cals, titles) {
                    Ok(sel) => {
                        let ids = calendar_identifiers(&sel);
                        self.phase = Phase::AwaitReminders;
                        Directive::Query(
                            StoreQuery::RemindersMatching { calendar_identifiers: Some(ids) },
                        )
                    },
                    Err(e) => {
                        self.phase = Phase::Done;
                        Directive::Finish(Err(e))
                    },
                }
            },
            OpRequest::FetchEvents { start_date, end_date, calendar_titles: Some(titles) } => {
                let s = *start_date;
                let e = *end_date;
                match select_calendars(&cals, titles) {
                    Ok(sel) => {
                        let ids = calendar_identifiers(&sel);
                        self.phase = Phase::AwaitEvents;
                        Directive::Query(
                            StoreQuery::EventsBetween {
                                start_date: s,
                                end_date: e,
                                calendar_identifiers: Some(ids),
                            },
                        )
                    },
                    Err(err) => {
                        self.phase = Phase::Done;
                        Directive::Finish(Err(err))
                    },
                }
            },
            OpRequest::CreateReminder { title, notes, calendar_title: Some(ct), priority } => {
                match find_calendar_by_title(&cals, ct) {
                    Ok(c) => {
                        let draft = ReminderDraft {
                            title: title.clone(),
                            notes: match notes {
                                Some(n) => Some(n.clone()),
                                None => None,
                            },
                            priority: *priority,
                            calendar_identifier: c.identifier,
                        };
                        self.phase = Phase::AwaitReminderCommit;
                        Directive::Query(StoreQuery::SaveReminder { draft })
                    },
                    Err(e) => {
                        self.phase = Phase::Done;
                        Directive::Finish(Err(e))
                    },
                }
            },
            OpRequest::CreateEvent {
                title,
                start_date,
                end_date,
                notes,
                location,
                calendar_title: Some(ct),
                all_day,
            } => {
                match find_calendar_by_title(&cals, ct) {
                    Ok(c) => {
                        let draft = EventDraft {
                            title: title.clone(),
                            start_date: *start_date,
                            end_date: *end_date,
                            notes: match notes {
                                Some(n) => Some(n.clone()),
                                None => None,
                            },
                            location: match location {
                                Some(l) => Some(l.clone()),
                                None => None,
                            },
                            all_day: *all_day,
                            calendar_identifier: c.identifier,
                        };
                        self.phase = Phase::AwaitEventCommit;
                        Directive::Query(StoreQuery::SaveEvent { draft })
                    },
                    Err(e) => {
                        self.phase = Phase::Done;
                        Directive::Finish(Err(e))
                    },
                }
            },
            _ => {
                self.phase = Phase::Done;
                Directive::Finish(
                    Err(EventKitError::EventKitError("unexpected store reply".to_owned())),
                )
            },
        }
    }

    fn step_default_calendar(&mut self, dc: Option<CalendarInfo>) -> (d: Directive)
        requires
            old(self).phase is AwaitDefaultCalendar,
        ensures
            final(self).op == old(self).op,
            spec_default_calendar_step(old(self).op, dc, final(self).phase, d),
            d is Finish <==> final(self).phase is Done,
            phase_rank(final(self).phase) < phase_rank(old(self).phase),
    {
        match &self.op {
            OpRequest::DefaultCalendar(_) => {
                self.phase = Phase::Done;
                match dc {
                    Some(c) => Directive::Finish(Ok(Outcome::Calendar(c))),
                    None => Directive::Finish(Err(EventKitError::NoDefaultCalendar)),
                }
            },
            OpRequest::CreateReminder { title, notes, calendar_title: None, priority } => {
                match dc {
                    Some(c) => {
                        let draft = ReminderDraft {
                            title: title.clone(),
                            notes: match notes {
                                Some(n) => Some(n.clone()),
                                None => None,
                            },
                            priority: *priority,
                            calendar_identifier: c.identifier,
                        };
                        self.phase = Phase::AwaitReminderCommit;
                        Directive::Query(StoreQuery::SaveReminder { draft })
                    },
                    None => {
                        self.phase = Phase::Done;
                        Directive::Finish(Err(EventKitError::NoDefaultCalendar))
                    },
                }
            },
            OpRequest::CreateEvent {
                title,
                start_date,
                end_date,
                notes,
                location,
                calendar_title: None,
                all_day,
            } => {
                match dc {
                    Some(c) => {
                        let draft = EventDraft {
                            title: title.clone(),
                            start_date: *start_date,
                            end_date: *end_date,
                            notes: match notes {
                                Some(n) => Some(n.clone()),
                                None => None,
                            },
                            location: match location {
                                Some(l) => Some(l.clone()),
                                None => None,
                            },
                            all_day: *all_day,
                            calendar_identifier: c.identifier,
                        };
                        self.phase = Phase::AwaitEventCommit;
                        Directive::Query(StoreQuery::SaveEvent { draft })
                    },
                    None => {
                        self.phase = Phase::Done;
                        Directive::Finish(Err(EventKitError::NoDefaultCalendar))
                    },
                }
            },
            _ => {
                self.phase = Phase::Done;
                Directive::Finish(
                    Err(EventKitError::EventKitError("unexpected store reply".to_owned())),
                )
            },
        }
    }

    fn step_reminders(&mut self, slot: Option<Vec<ReminderItem>>) -> (d: Directive)
        requires
            old(self).phase is AwaitReminders,
        ensures
            final(self).op == old(self).op,
            spec_reminders_step(slot, final(self).phase, d),
            d is Finish <==> final(self).phase is Done,
            phase_rank(final(self).phase) < phase_rank(old(self).phase),
    {
        self.phase = Phase::Done;
        match slot {
            Some(items) => Directive::Finish(Ok(Outcome::Reminders(items))),
            None => Directive::Finish(Err(EventKitError::FetchFailed("Unknown error".to_owned()))),
        }
    }

    fn step_events(&mut self, items: Vec<EventItem>) -> (d: Directive)
        requires
            old(self).phase is AwaitEvents,
        ensures
            final(self).op == old(self).op,
            spec_events_step(items, final(self).phase, d),
            d is Finish <==> final(self).phase is Done,
            phase_rank(final(self).phase) < phase_rank(old(self).phase),
    {
        let ghost items0 = items@;
        let sorted = sort_events_by_start(items);
        self.phase = Phase::Done;
        Directive::Finish(Ok(Outcome::Events(sorted)))
    }

    fn step_reminder_lookup(&mut self, found: Option<ReminderItem>) -> (d: Directive)
        requires
            old(self).phase is AwaitReminderLookup,
        ensures
            final(self).op == old(self).op,
            spec_reminder_lookup_step(old(self).op, found, final(self).phase, d),
            d is Finish <==> final(self).phase is Done,
            phase_rank(final(self).phase) < phase_rank(old(self).phase),
    {
        match &self.op {
            OpRequest::GetReminder { identifier } => {
                match found {
                    Some(item) => {
                        self.phase = Phase::Done;
                        Directive::Finish(Ok(Outcome::Reminder(item)))
                    },
                    None => {
                        let id = identifier.clone();
                        self.phase = Phase::Done;
                        Directive::Finish(Err(EventKitError::ItemNotFound(id)))
                    },
                }
            },
            OpRequest::DeleteReminder { identifier } => {
                match found {
                    Some(_) => {
                        let id = identifier.clone();
                        self.phase = Phase::AwaitRemoval;
                        Directive::Query(StoreQuery::RemoveReminder { identifier: id })
                    },
                    None => {
                        let id = identifier.clone();
                        self.phase = Phase::Done;
                        Directive::Finish(Err(EventKitError::ItemNotFound(id)))
                    },
                }
            },
            OpRequest::UpdateReminder { identifier, title, notes, completed, priority } => {
                match found {
                    Some(item) => {
                        let merged = apply_reminder_update(
                            &item,
                            title,
                            notes,
                            *completed,
                            *priority,
                        );
                        self.phase = Phase::AwaitReminderCommit;
                        Directive::Query(StoreQuery::SaveReminderItem { item: merged })
                    },
                    None => {
                        let id = identifier.clone();
                        self.phase = Phase::Done;
                        Directive::Finish(Err(EventKitError::ItemNotFound(id)))
                    },
                }
            },
            _ => {
                self.phase = Phase::Done;
                Directive::Finish(
                    Err(EventKitError::EventKitError("unexpected store reply".to_owned())),
                )
            },
        }
    }

    fn step_event_lookup(&mut self, found: Option<EventItem>) -> (d: Directive)
        requires
            old(self).phase is AwaitEventLookup,
        ensures
            final(self).op == old(self).op,
            spec_event_lookup_step(old(self).op, found, final(self).phase, d),
            d is Finish <==> final(self).phase is Done,
            phase_rank(final(self).phase) < phase_rank(old(self).phase),
    {
        match &self.op {
            OpRequest::GetEvent { identifier } => {
                match found {
                    Some(item) => {
                        self.phase = Phase::Done;
                        Directive::Finish(Ok(Outcome::Event(item)))
                    },
                    None => {
                        let id = identifier.clone();
                        self.phase = Phase::Done;
                        Directive::Finish(Err(EventKitError::ItemNotFound(id)))
                    },
                }
            },
            OpRequest::DeleteEvent { identifier } => {
                match found {
                    Some(_) => {
                        let id = identifier.clone();
                        self.phase = Phase::AwaitRemoval;
                        Directive::Query(StoreQuery::RemoveEvent { identifier: id })
                    },
                    None => {
                        let id = identifier.clone();
                        self.phase = Phase::Done;
                        Directive::Finish(Err(EventKitError::ItemNotFound(id)))
                    },
                }
            },
            OpRequest::UpdateEvent { identifier, title, notes, location, start_date, end_date } => {
                match found {
                    Some(item) => {
                        let merged = apply_event_update(
                            &item,
                            title,
                            notes,
                            location,
                            *start_date,
                            *end_date,
                        );
                        self.phase = Phase::AwaitEventCommit;
                        Directive::Query(StoreQuery::SaveEventItem { item: merged })
                    },
                    None => {
                        let id = identifier.clone();
                        self.phase = Phase::Done;
                        Directive::Finish(Err(EventKitError::ItemNotFound(id)))
                    },
                }
            },
            _ => {
                self.phase = Phase::Done;
                Directive::Finish(
                    Err(EventKitError::EventKitError("unexpected store reply".to_owned())),
                )
            },
        }
    }

    fn step_reminder_commit(&mut self, res: Result<ReminderItem, String>) -> (d: Directive)
        requires
            old(self).phase is AwaitReminderCommit,
        ensures
            final(self).op == old(self).op,
            spec_reminder_commit_step(res, final(self).phase, d),
            d is Finish <==> final(self).phase is Done,
            phase_rank(final(self).phase) < phase_rank(old(self).phase),
    {
        self.phase = Phase::Done;
        match res {
            Ok(item) => Directive::Finish(Ok(Outcome::Reminder(item))),
            Err(msg) => Directive::Finish(Err(EventKitError::SaveFailed(msg))),
        }
    }

    fn step_event_commit(&mut self, res: Result<EventItem, String>) -> (d: Directive)
        requires
            old(self).phase is AwaitEventCommit,
        ensures
            final(self).op == old(self).op,
            spec_event_commit_step(res, final(self).phase, d),
            d is Finish <==> final(self).phase is Done,
            phase_rank(final(self).phase) < phase_rank(old(self).phase),
    {
        self.phase = Phase::Done;
        match res {
            Ok(item) => Directive::Finish(Ok(Outcome::Event(item))),
            Err(msg) => Directive::Finish(Err(EventKitError::SaveFailed(msg))),
        }
    }

    fn step_removal(&mut self, res: Option<String>) -> (d: Directive)
        requires
            old(self).phase is AwaitRemoval,
        ensures
            final(self).op == old(self).op,
            spec_removal_step(res, final(self).phase, d),
            d is Finish <==> final(self).phase is Done,
            phase_rank(final(self).phase) < phase_rank(old(self).phase),
    {
        self.phase = Phase::Done;
        match res {
            None => Directive::Finish(Ok(Outcome::Deleted)),
            Some(msg) => Directive::Finish(Err(EventKitError::DeleteFailed(msg))),
        }
    }
}

} // verus!
