use eventkit::cli::{delete_plan, exit_code, no_events_message, validate_priority, DeletePlan};
use eventkit::errors::EventKitError;
use eventkit::model::{run, ModelStore, StoredEvent};
use eventkit::session::{OpRequest, Outcome};
use eventkit::types::{AuthorizationStatus, CalendarInfo, EventItem, ReminderItem};

fn store() -> ModelStore {
    ModelStore {
        reminders_auth: AuthorizationStatus::FullAccess,
        events_auth: AuthorizationStatus::FullAccess,
        grant_on_request: true,
        reminder_calendars: vec![
            CalendarInfo {
                identifier: "list-personal".to_string(),
                title: "Personal".to_string(),
                source: Some("Local".to_string()),
                allows_modifications: true,
            },
            CalendarInfo {
                identifier: "list-work".to_string(),
                title: "Work".to_string(),
                source: None,
                allows_modifications: true,
            },
        ],
        event_calendars: vec![CalendarInfo {
            identifier: "cal-home".to_string(),
            title: "Home".to_string(),
            source: Some("Local".to_string()),
            allows_modifications: true,
        }],
        default_reminder_calendar: Some(0),
        default_event_calendar: Some(0),
        reminders: vec![],
        events: vec![],
        next_id: 1,
    }
}

fn created_reminder(
    s: &mut ModelStore,
    title: &str,
    notes: Option<&str>,
    priority: Option<usize>,
) -> ReminderItem {
    let r = run(
        s,
        OpRequest::CreateReminder {
            title: title.to_string(),
            notes: notes.map(|n| n.to_string()),
            calendar_title: None,
            priority,
        },
    );
    match r {
        Ok(Outcome::Reminder(item)) => item,
        other => panic!("creation did not yield a reminder: {:?}", other),
    }
}

#[test]
fn events_list_today_with_zero_events_prints_nothing_found_and_exits_zero() {
    let mut s = store();
    let r = run(
        &mut s,
        OpRequest::FetchEvents { start_date: 0, end_date: 86_399, calendar_titles: None },
    );
    match r {
        Ok(Outcome::Events(v)) => assert!(v.is_empty()),
        other => panic!("unexpected outcome: {:?}", other),
    }
    assert_eq!(no_events_message(), "No events found.");
    assert_eq!(exit_code(true), 0);
}

#[test]
fn fetch_events_rejects_invalid_range_without_touching_the_store() {
    let mut s = store();
    let r = run(
        &mut s,
        OpRequest::FetchEvents { start_date: 100, end_date: 100, calendar_titles: None },
    );
    assert_eq!(r, Err(EventKitError::InvalidDateRange));
    assert_eq!(s, store());
    let r = run(
        &mut s,
        OpRequest::FetchEvents { start_date: 100, end_date: 50, calendar_titles: None },
    );
    assert_eq!(r, Err(EventKitError::InvalidDateRange));
    assert_eq!(exit_code(false), 1);
}

#[test]
fn calendar_filter_matching_nothing_names_every_requested_title() {
    let mut s = store();
    let r = run(
        &mut s,
        OpRequest::FetchReminders {
            calendar_titles: Some(vec!["Home".to_string(), "Errands".to_string()]),
        },
    );
    assert_eq!(r, Err(EventKitError::CalendarNotFound("Home, Errands".to_string())));
    let r = run(
        &mut s,
        OpRequest::FetchEvents {
            start_date: 0,
            end_date: 100,
            calendar_titles: Some(vec!["Nowhere".to_string()]),
        },
    );
    assert_eq!(r, Err(EventKitError::CalendarNotFound("Nowhere".to_string())));
}

#[test]
fn every_priority_up_to_nine_is_accepted() {
    let mut s = store();
    for p in 1..=9usize {
        assert!(validate_priority(Some(p)).is_ok());
        let item = created_reminder(&mut s, "task", None, Some(p));
        assert_eq!(item.priority, p);
    }
    assert_eq!(
        validate_priority(Some(10)),
        Err(EventKitError::SaveFailed("Invalid priority value".to_string()))
    );
    assert!(validate_priority(None).is_ok());
}

#[test]
fn create_then_fetch_by_identifier_round_trips() {
    let mut s = store();
    let item = created_reminder(&mut s, "Water plants", Some("the balcony ones"), Some(3));
    assert_eq!(item.title, "Water plants");
    assert_eq!(item.notes.as_deref(), Some("the balcony ones"));
    assert_eq!(item.priority, 3);
    assert!(!item.completed);
    assert_eq!(item.calendar_title.as_deref(), Some("Personal"));
    let fetched = run(&mut s, OpRequest::GetReminder { identifier: item.identifier.clone() });
    assert_eq!(fetched, Ok(Outcome::Reminder(item)));
}

#[test]
fn completing_a_completed_reminder_stays_completed_and_does_not_error() {
    let mut s = store();
    let item = created_reminder(&mut s, "Call back", None, None);
    let complete = |s: &mut ModelStore, id: String| {
        run(
            s,
            OpRequest::UpdateReminder {
                identifier: id,
                title: None,
                notes: None,
                completed: Some(true),
                priority: None,
            },
        )
    };
    let first = complete(&mut s, item.identifier.clone());
    let done = match first {
        Ok(Outcome::Reminder(r)) => r,
        other => panic!("completion failed: {:?}", other),
    };
    assert!(done.completed);
    let second = complete(&mut s, item.identifier.clone());
    assert_eq!(second, Ok(Outcome::Reminder(done)));
}

#[test]
fn partial_update_leaves_omitted_fields_untouched() {
    let mut s = store();
    let item = created_reminder(&mut s, "Draft report", Some("quarterly"), Some(2));
    let r = run(
        &mut s,
        OpRequest::UpdateReminder {
            identifier: item.identifier.clone(),
            title: Some("Draft annual report".to_string()),
            notes: None,
            completed: None,
            priority: None,
        },
    );
    match r {
        Ok(Outcome::Reminder(updated)) => {
            assert_eq!(updated.title, "Draft annual report");
            assert_eq!(updated.notes.as_deref(), Some("quarterly"));
            assert_eq!(updated.priority, 2);
            assert!(!updated.completed);
            assert_eq!(updated.identifier, item.identifier);
        },
        other => panic!("update failed: {:?}", other),
    }
}

#[test]
fn events_come_back_sorted_by_start_whatever_the_stored_order() {
    let mut s = store();
    let mk = |id: &str, start: i64, end: i64| StoredEvent {
        item: EventItem {
            identifier: id.to_string(),
            title: format!("event {}", id),
            notes: None,
            location: None,
            start_date: start,
            end_date: end,
            all_day: false,
            calendar_title: Some("Home".to_string()),
        },
        calendar_identifier: "cal-home".to_string(),
    };
    s.events = vec![mk("3", 5_000, 5_100), mk("1", 100, 200), mk("2", 2_000, 2_050)];
    s.next_id = 4;
    let r = run(
        &mut s,
        OpRequest::FetchEvents { start_date: 0, end_date: 10_000, calendar_titles: None },
    );
    match r {
        Ok(Outcome::Events(v)) => {
            assert_eq!(v.len(), 3);
            assert!(v.windows(2).all(|w| w[0].start_date <= w[1].start_date));
            assert_eq!(v[0].identifier, "1");
            assert_eq!(v[1].identifier, "2");
            assert_eq!(v[2].identifier, "3");
        },
        other => panic!("fetch failed: {:?}", other),
    }
}

#[test]
fn delete_without_force_prompts_and_deletes_nothing() {
    let mut s = store();
    let item = created_reminder(&mut s, "Old chore", None, None);
    // The command first resolves the item, then consults the plan.
    let looked_up = run(&mut s, OpRequest::GetReminder { identifier: item.identifier.clone() });
    assert!(looked_up.is_ok());
    assert_eq!(delete_plan(false), DeletePlan::Confirm);
    // Dry run: no deletion was issued, the reminder is still there.
    let still_there = run(&mut s, OpRequest::GetReminder { identifier: item.identifier.clone() });
    assert_eq!(still_there, Ok(Outcome::Reminder(item.clone())));
    // Forced: the deletion goes through and the identifier stops resolving.
    assert_eq!(delete_plan(true), DeletePlan::Delete);
    let deleted = run(&mut s, OpRequest::DeleteReminder { identifier: item.identifier.clone() });
    assert_eq!(deleted, Ok(Outcome::Deleted));
    let gone = run(&mut s, OpRequest::GetReminder { identifier: item.identifier.clone() });
    assert_eq!(gone, Err(EventKitError::ItemNotFound(item.identifier)));
}

#[test]
fn denied_authorization_fails_every_gated_operation_without_store_access() {
    let mut s = store();
    s.reminders_auth = AuthorizationStatus::Denied;
    s.events_auth = AuthorizationStatus::Restricted;
    let before = format!("{:?}", s);
    let r = run(&mut s, OpRequest::FetchReminders { calendar_titles: None });
    assert_eq!(r, Err(EventKitError::AuthorizationDenied));
    let r2 = run(
        &mut s,
        OpRequest::FetchEvents { start_date: 0, end_date: 100, calendar_titles: None },
    );
    assert_eq!(r2, Err(EventKitError::AuthorizationRestricted));
    let r3 = run(&mut s, OpRequest::DeleteReminder { identifier: "1".to_string() });
    assert_eq!(r3, Err(EventKitError::AuthorizationDenied));
    // The store was never touched.
    assert_eq!(format!("{:?}", s), before);
}

#[test]
fn undetermined_authorization_triggers_a_request_first() {
    let mut s = store();
    s.reminders_auth = AuthorizationStatus::NotDetermined;
    s.grant_on_request = true;
    let r = run(&mut s, OpRequest::FetchReminders { calendar_titles: None });
    assert_eq!(r, Ok(Outcome::Reminders(vec![])));
    assert_eq!(s.reminders_auth, AuthorizationStatus::FullAccess);

    let mut s2 = store();
    s2.reminders_auth = AuthorizationStatus::NotDetermined;
    s2.grant_on_request = false;
    let r2 = run(&mut s2, OpRequest::FetchReminders { calendar_titles: None });
    assert_eq!(r2, Err(EventKitError::AuthorizationDenied));
}

#[test]
fn creation_without_default_calendar_fails() {
    let mut s = store();
    s.default_reminder_calendar = None;
    let r = run(
        &mut s,
        OpRequest::CreateReminder {
            title: "orphan".to_string(),
            notes: None,
            calendar_title: None,
            priority: None,
        },
    );
    assert_eq!(r, Err(EventKitError::NoDefaultCalendar));
}

#[test]
fn lookups_do_not_cross_entity_kinds() {
    let mut s = store();
    let r = run(
        &mut s,
        OpRequest::CreateEvent {
            title: "Standup".to_string(),
            start_date: 1_000,
            end_date: 2_000,
            notes: None,
            location: None,
            calendar_title: None,
            all_day: false,
        },
    );
    let event = match r {
        Ok(Outcome::Event(e)) => e,
        other => panic!("event creation failed: {:?}", other),
    };
    // An event identifier does not resolve as a reminder.
    let cross = run(&mut s, OpRequest::GetReminder { identifier: event.identifier.clone() });
    assert_eq!(cross, Err(EventKitError::ItemNotFound(event.identifier)));
}

#[test]
fn listing_calendars_reports_them_with_sources() {
    let mut s = store();
    let r = run(&mut s, OpRequest::ListCalendars(eventkit::session::EntityKind::Reminders));
    match r {
        Ok(Outcome::Calendars(cs)) => {
            assert_eq!(cs.len(), 2);
            assert_eq!(cs[0].title, "Personal");
            assert_eq!(cs[0].source.as_deref(), Some("Local"));
            assert_eq!(cs[1].title, "Work");
        },
        other => panic!("listing failed: {:?}", other),
    }
}

#[test]
fn filtered_fetch_returns_only_the_named_lists() {
    let mut s = store();
    let personal = created_reminder(&mut s, "in personal", None, None);
    let r = run(
        &mut s,
        OpRequest::CreateReminder {
            title: "in work".to_string(),
            notes: None,
            calendar_title: Some("Work".to_string()),
            priority: None,
        },
    );
    assert!(r.is_ok());
    let filtered = run(
        &mut s,
        OpRequest::FetchReminders { calendar_titles: Some(vec!["Work".to_string()]) },
    );
    match filtered {
        Ok(Outcome::Reminders(items)) => {
            assert_eq!(items.len(), 1);
            assert_eq!(items[0].title, "in work");
        },
        other => panic!("filtered fetch failed: {:?}", other),
    }
    let _ = personal;
}

#[test]
fn incomplete_fetch_skips_completed_reminders() {
    let mut s = store();
    let done = created_reminder(&mut s, "done already", None, None);
    let open = created_reminder(&mut s, "still open", None, None);
    let r = run(
        &mut s,
        OpRequest::UpdateReminder {
            identifier: done.identifier.clone(),
            title: None,
            notes: None,
            completed: Some(true),
            priority: None,
        },
    );
    assert!(r.is_ok());
    let fetched = run(&mut s, OpRequest::FetchIncompleteReminders);
    match fetched {
        Ok(Outcome::Reminders(items)) => {
            assert_eq!(items.len(), 1);
            assert_eq!(items[0].identifier, open.identifier);
        },
        other => panic!("incomplete fetch failed: {:?}", other),
    }
}

#[test]
fn status_and_access_requests_report_the_store() {
    let mut s = store();
    s.events_auth = AuthorizationStatus::WriteOnly;
    let r = run(&mut s, OpRequest::CheckStatus(eventkit::session::EntityKind::Events));
    assert_eq!(r, Ok(Outcome::Status(AuthorizationStatus::WriteOnly)));
    let mut s2 = store();
    s2.grant_on_request = false;
    let r2 = run(&mut s2, OpRequest::RequestAccess(eventkit::session::EntityKind::Reminders));
    assert_eq!(r2, Ok(Outcome::Granted(false)));
    assert_eq!(s2.reminders_auth, AuthorizationStatus::Denied);
}

#[test]
fn unknown_identifier_is_item_not_found() {
    let mut s = store();
    let r = run(&mut s, OpRequest::GetReminder { identifier: "nope".to_string() });
    assert_eq!(r, Err(EventKitError::ItemNotFound("nope".to_string())));
    let r2 = run(&mut s, OpRequest::DeleteEvent { identifier: "nope".to_string() });
    assert_eq!(r2, Err(EventKitError::ItemNotFound("nope".to_string())));
}
