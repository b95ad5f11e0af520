//! Plain value types for calendars, events, reminders and authorization
//! state.  Each record is an independent copy of what the store reported,
//! with no back-reference to any native object.

use vstd::prelude::*;

verus! {

/// Authorization status for access to one entity type (events or reminders).
#[derive(Clone, Copy, Debug, PartialEq, Eq, Structural)]
pub enum AuthorizationStatus {
    /// The user has not yet made a choice.
    NotDetermined,
    /// Access is restricted by system policy.
    Restricted,
    /// The user explicitly denied access.
    Denied,
    /// Full access was granted.
    FullAccess,
    /// Write-only access was granted.
    WriteOnly,
}

impl AuthorizationStatus {
    /// Translates the raw status code the native store reports.  Codes the
    /// store does not document fall back to `NotDetermined`.
    pub fn from_code(code: i64) -> (s: AuthorizationStatus)
        ensures
            s == AuthorizationStatus::spec_from_code(code),
    {
        if code == 1 {
            AuthorizationStatus::Restricted
        } else if code == 2 {
            AuthorizationStatus::Denied
        } else if code == 3 {
            AuthorizationStatus::FullAccess
        } else if code == 4 {
            AuthorizationStatus::WriteOnly
        } else {
            AuthorizationStatus::NotDetermined
        }
    }

    /// The meaning of each raw status code of the native store.
    pub open spec fn spec_from_code(code: i64) -> AuthorizationStatus {
        if code == 1 {
            AuthorizationStatus::Restricted
        } else if code == 2 {
            AuthorizationStatus::Denied
        } else if code == 3 {
            AuthorizationStatus::FullAccess
        } else if code == 4 {
            AuthorizationStatus::WriteOnly
        } else {
            AuthorizationStatus::NotDetermined
        }
    }

    /// The user-facing name of the status.
    pub fn display_string(&self) -> (s: String)
        ensures
            s@ == self.spec_display(),
    {
        match self {
            AuthorizationStatus::NotDetermined => "Not Determined".to_owned(),
            AuthorizationStatus::Restricted => "Restricted".to_owned(),
            AuthorizationStatus::Denied => "Denied".to_owned(),
            AuthorizationStatus::FullAccess => "Full Access".to_owned(),
            AuthorizationStatus::WriteOnly => "Write Only".to_owned(),
        }
    }

    /// The characters of the user-facing name of the status.
    pub open spec fn spec_display(self) -> Seq<char> {
        match self {
            AuthorizationStatus::NotDetermined => "Not Determined"@,
            AuthorizationStatus::Restricted => "Restricted"@,
            AuthorizationStatus::Denied => "Denied"@,
            AuthorizationStatus::FullAccess => "Full Access"@,
            AuthorizationStatus::WriteOnly => "Write Only"@,
        }
    }
}

/// A calendar (or reminder list) as reported by the store.
#[derive(Debug, PartialEq, Eq)]
pub struct CalendarInfo {
    /// Opaque stable identifier, only meaningful to the store that issued it.
    pub identifier: String,
    /// Title of the calendar.
    pub title: String,
    /// Source name (for example a sync account, or the local machine).
    pub source: Option<String>,
    /// Whether the calendar's content can be modified.
    pub allows_modifications: bool,
}

/// The mathematical content of a [`CalendarInfo`].
#[verifier::ext_equal]
pub ghost struct CalendarView {
    pub identifier: Seq<char>,
    pub title: Seq<char>,
    pub source: Option<Seq<char>>,
    pub allows_modifications: bool,
}

impl View for CalendarInfo {
    type V = CalendarView;

    open spec fn view(&self) -> CalendarView {
        CalendarView {
            identifier: self.identifier@,
            title: self.title@,
            source: match self.source {
                Some(s) => Some(s@),
                None => None,
            },
            allows_modifications: self.allows_modifications,
        }
    }
}

impl Clone for CalendarInfo {
    fn clone(&self) -> (r: Self)
        ensures
            r == *self,
    {
        CalendarInfo {
            identifier: self.identifier.clone(),
            title: self.title.clone(),
            source: match &self.source {
                Some(s) => Some(s.clone()),
                None => None,
            },
            allows_modifications: self.allows_modifications,
        }
    }
}

/// A reminder as reported by the store.
#[derive(Debug, PartialEq, Eq)]
pub struct ReminderItem {
    /// Opaque stable identifier, only meaningful to the store that issued it.
    pub identifier: String,
    /// Title of the reminder.
    pub title: String,
    /// Optional notes.
    pub notes: Option<String>,
    /// Whether the reminder is completed.
    pub completed: bool,
    /// Priority on the store's ordinal scale:
    /// 0 is none, 1 to 4 high, 5 medium, 6 to 9 low.
    pub priority: usize,
    /// Title of the list the reminder belongs to.
    pub calendar_title: Option<String>,
}

/// The mathematical content of a [`ReminderItem`].
#[verifier::ext_equal]
pub ghost struct ReminderView {
    pub identifier: Seq<char>,
    pub title: Seq<char>,
    pub notes: Option<Seq<char>>,
    pub completed: bool,
    pub priority: int,
    pub calendar_title: Option<Seq<char>>,
}

impl View for ReminderItem {
    type V = ReminderView;

    open spec fn view(&self) -> ReminderView {
        ReminderView {
            identifier: self.identifier@,
            title: self.title@,
            notes: match self.notes {
                Some(n) => Some(n@),
                None => None,
            },
            completed: self.completed,
            priority: self.priority as int,
            calendar_title: match self.calendar_title {
                Some(c) => Some(c@),
                None => None,
            },
        }
    }
}

impl Clone for ReminderItem {
    fn clone(&self) -> (r: Self)
        ensures
            r == *self,
    {
        ReminderItem {
            identifier: self.identifier.clone(),
            title: self.title.clone(),
            notes: match &self.notes {
                Some(n) => Some(n.clone()),
                None => None,
            },
            completed: self.completed,
            priority: self.priority,
            calendar_title: match &self.calendar_title {
                Some(c) => Some(c.clone()),
                None => None,
            },
        }
    }
}

/// A calendar event as reported by the store.  Timestamps are seconds since
/// the Unix epoch; the store owns all time-zone and recurrence semantics.
#[derive(Debug, PartialEq, Eq)]
pub struct EventItem {
    /// Opaque stable identifier, only meaningful to the store that issued it.
    pub identifier: String,
    /// Title of the event.
    pub title: String,
    /// Optional notes.
    pub notes: Option<String>,
    /// Optional location.
    pub location: Option<String>,
    /// Start of the event, in seconds since the Unix epoch.
    pub start_date: i64,
    /// End of the event, in seconds since the Unix epoch.
    pub end_date: i64,
    /// Whether this is an all-day event.
    pub all_day: bool,
    /// Title of the calendar the event belongs to.
    pub calendar_title: Option<String>,
}

/// The mathematical content of an [`EventItem`].
#[verifier::ext_equal]
pub ghost struct EventView {
    pub identifier: Seq<char>,
    pub title: Seq<char>,
    pub notes: Option<Seq<char>>,
    pub location: Option<Seq<char>>,
    pub start_date: int,
    pub end_date: int,
    pub all_day: bool,
    pub calendar_title: Option<Seq<char>>,
}

impl View for EventItem {
    type V = EventView;

    open spec fn view(&self) -> EventView {
        EventView {
            identifier: self.identifier@,
            title: self.title@,
            notes: match self.notes {
                Some(n) => Some(n@),
                None => None,
            },
            location: match self.location {
                Some(l) => Some(l@),
                None => None,
            },
            start_date: self.start_date as int,
            end_date: self.end_date as int,
            all_day: self.all_day,
            calendar_title: match self.calendar_title {
                Some(c) => Some(c@),
                None => None,
            },
        }
    }
}

impl Clone for EventItem {
    fn clone(&self) -> (r: Self)
        ensures
            r == *self,
    {
        EventItem {
            identifier: self.identifier.clone(),
            title: self.title.clone(),
            notes: match &self.notes {
                Some(n) => Some(n.clone()),
                None => None,
            },
            location: match &self.location {
                Some(l) => Some(l.clone()),
                None => None,
            },
            start_date: self.start_date,
            end_date: self.end_date,
            all_day: self.all_day,
            calendar_title: match &self.calendar_title {
                Some(c) => Some(c.clone()),
                None => None,
            },
        }
    }
}

} // verus!
