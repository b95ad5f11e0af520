//! The error taxonomy.  Every operation returns one of these typed failures
//! rather than aborting; callers print the message and stop, no retries.

use vstd::prelude::*;
use vstd::string::StringExecFns;

verus! {

/// Errors that can occur when working with the store.
#[derive(Debug, PartialEq, Eq)]
pub enum EventKitError {
    /// The user denied access.
    AuthorizationDenied,
    /// Access is restricted by system policy.
    AuthorizationRestricted,
    /// The user has not decided about access yet.
    AuthorizationNotDetermined,
    /// The access request itself failed; the detail is passed through.
    AuthorizationRequestFailed(String),
    /// Creation was requested without a calendar and the store has no
    /// default calendar configured.
    NoDefaultCalendar,
    /// No calendar matched the requested titles; the payload names them.
    CalendarNotFound(String),
    /// The identifier did not resolve, or resolved to another entity kind.
    ItemNotFound(String),
    /// The store reported a save error; the detail is passed through.
    SaveFailed(String),
    /// The store reported a delete error; the detail is passed through.
    DeleteFailed(String),
    /// The store reported a fetch error; the detail is passed through.
    FetchFailed(String),
    /// Catch-all for any other store-level error.
    EventKitError(String),
    /// A fetch range with start at or after end.
    InvalidDateRange,
}

/// The characters of the user-facing message of each error.
pub open spec fn spec_message(e: EventKitError) -> Seq<char> {
    match e {
        EventKitError::AuthorizationDenied => "Authorization denied"@,
        EventKitError::AuthorizationRestricted => "Authorization restricted by system policy"@,
        EventKitError::AuthorizationNotDetermined => "Authorization not determined"@,
        EventKitError::AuthorizationRequestFailed(d) => "Failed to request authorization: "@ + d@,
        EventKitError::NoDefaultCalendar => "No default calendar"@,
        EventKitError::CalendarNotFound(d) => "Calendar not found: "@ + d@,
        EventKitError::ItemNotFound(d) => "Item not found: "@ + d@,
        EventKitError::SaveFailed(d) => "Failed to save: "@ + d@,
        EventKitError::DeleteFailed(d) => "Failed to delete: "@ + d@,
        EventKitError::FetchFailed(d) => "Failed to fetch: "@ + d@,
        EventKitError::EventKitError(d) => "EventKit error: "@ + d@,
        EventKitError::InvalidDateRange => "Invalid date range"@,
    }
}

impl EventKitError {
    /// The user-facing message, with any native detail interpolated.
    pub fn message(&self) -> (s: String)
        ensures
            s@ == spec_message(*self),
    {
        match self {
            EventKitError::AuthorizationDenied => "Authorization denied".to_owned(),
            EventKitError::AuthorizationRestricted => {
                "Authorization restricted by system policy".to_owned()
            },
            EventKitError::AuthorizationNotDetermined => {
                "Authorization not determined".to_owned()
            },
            EventKitError::AuthorizationRequestFailed(d) => {
                "Failed to request authorization: ".to_owned().concat(d.as_str())
            },
            EventKitError::NoDefaultCalendar => "No default calendar".to_owned(),
            EventKitError::CalendarNotFound(d) => {
                "Calendar not found: ".to_owned().concat(d.as_str())
            },
            EventKitError::ItemNotFound(d) => "Item not found: ".to_owned().concat(d.as_str()),
            EventKitError::SaveFailed(d) => "Failed to save: ".to_owned().concat(d.as_str()),
            EventKitError::DeleteFailed(d) => "Failed to delete: ".to_owned().concat(d.as_str()),
            EventKitError::FetchFailed(d) => "Failed to fetch: ".to_owned().concat(d.as_str()),
            EventKitError::EventKitError(d) => "EventKit error: ".to_owned().concat(d.as_str()),
            EventKitError::InvalidDateRange => "Invalid date range".to_owned(),
        }
    }
}

} // verus!
