use eventkit::errors::EventKitError;
use eventkit::types::{AuthorizationStatus, CalendarInfo, EventItem, ReminderItem};

#[test]
fn test_authorization_status_display() {
    assert_eq!(AuthorizationStatus::NotDetermined.display_string(), "Not Determined");
    assert_eq!(AuthorizationStatus::FullAccess.display_string(), "Full Access");
}

#[test]
fn test_event_item_debug() {
    let event = EventItem {
        identifier: "test".to_string(),
        title: "Test Event".to_string(),
        notes: None,
        location: None,
        start_date: 1_700_000_000,
        end_date: 1_700_003_600,
        all_day: false,
        calendar_title: None,
    };
    assert!(format!("{:?}", event).contains("Test Event"));
}

#[test]
fn display_strings_cover_every_status() {
    assert_eq!(AuthorizationStatus::Restricted.display_string(), "Restricted");
    assert_eq!(AuthorizationStatus::Denied.display_string(), "Denied");
    assert_eq!(AuthorizationStatus::WriteOnly.display_string(), "Write Only");
}

#[test]
fn from_code_maps_every_documented_code() {
    assert_eq!(AuthorizationStatus::from_code(0), AuthorizationStatus::NotDetermined);
    assert_eq!(AuthorizationStatus::from_code(1), AuthorizationStatus::Restricted);
    assert_eq!(AuthorizationStatus::from_code(2), AuthorizationStatus::Denied);
    assert_eq!(AuthorizationStatus::from_code(3), AuthorizationStatus::FullAccess);
    assert_eq!(AuthorizationStatus::from_code(4), AuthorizationStatus::WriteOnly);
    assert_eq!(AuthorizationStatus::from_code(17), AuthorizationStatus::NotDetermined);
    assert_eq!(AuthorizationStatus::from_code(-1), AuthorizationStatus::NotDetermined);
}

#[test]
fn error_messages_interpolate_detail() {
    assert_eq!(EventKitError::AuthorizationDenied.message(), "Authorization denied");
    assert_eq!(
        EventKitError::AuthorizationRestricted.message(),
        "Authorization restricted by system policy"
    );
    assert_eq!(
        EventKitError::AuthorizationNotDetermined.message(),
        "Authorization not determined"
    );
    assert_eq!(
        EventKitError::AuthorizationRequestFailed("boom".to_string()).message(),
        "Failed to request authorization: boom"
    );
    assert_eq!(EventKitError::NoDefaultCalendar.message(), "No default calendar");
    assert_eq!(
        EventKitError::CalendarNotFound("Home, Errands".to_string()).message(),
        "Calendar not found: Home, Errands"
    );
    assert_eq!(
        EventKitError::ItemNotFound("abc".to_string()).message(),
        "Item not found: abc"
    );
    assert_eq!(EventKitError::SaveFailed("disk".to_string()).message(), "Failed to save: disk");
    assert_eq!(
        EventKitError::DeleteFailed("disk".to_string()).message(),
        "Failed to delete: disk"
    );
    assert_eq!(EventKitError::FetchFailed("net".to_string()).message(), "Failed to fetch: net");
    assert_eq!(
        EventKitError::EventKitError("odd".to_string()).message(),
        "EventKit error: odd"
    );
    assert_eq!(EventKitError::InvalidDateRange.message(), "Invalid date range");
}

#[test]
fn value_types_clone_field_for_field() {
    let cal = CalendarInfo {
        identifier: "c1".to_string(),
        title: "Personal".to_string(),
        source: Some("Local".to_string()),
        allows_modifications: true,
    };
    assert_eq!(cal.clone(), cal);
    let rem = ReminderItem {
        identifier: "r1".to_string(),
        title: "Buy milk".to_string(),
        notes: Some("two bottles".to_string()),
        completed: false,
        priority: 5,
        calendar_title: Some("Personal".to_string()),
    };
    assert_eq!(rem.clone(), rem);
}
