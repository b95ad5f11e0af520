use eventkit::auth::{authorization_gate, grant_gate, AuthDecision};
use eventkit::calendars::{find_calendar_by_title, join_titles, select_calendars};
use eventkit::cli::{delete_prompt, filter_reminders, priority_marker, priority_word, update_plan, UpdatePlan};
use eventkit::clock::{event_end, today_range, upcoming_range};
use eventkit::errors::EventKitError;
use eventkit::ids::u64_to_string;
use eventkit::ordering::sort_events_by_start;
use eventkit::session::{access_reply, start, Directive, EntityKind, OpRequest, Outcome, StoreQuery, StoreReply};
use eventkit::types::{AuthorizationStatus, CalendarInfo, EventItem, ReminderItem};
use eventkit::updates::apply_reminder_update;

fn cal(id: &str, title: &str) -> CalendarInfo {
    CalendarInfo {
        identifier: id.to_string(),
        title: title.to_string(),
        source: None,
        allows_modifications: true,
    }
}

fn reminder(id: &str, title: &str, completed: bool) -> ReminderItem {
    ReminderItem {
        identifier: id.to_string(),
        title: title.to_string(),
        notes: None,
        completed,
        priority: 0,
        calendar_title: None,
    }
}

fn event(id: &str, start: i64) -> EventItem {
    EventItem {
        identifier: id.to_string(),
        title: format!("e{}", id),
        notes: None,
        location: None,
        start_date: start,
        end_date: start + 60,
        all_day: false,
        calendar_title: None,
    }
}

#[test]
fn a_session_asks_for_authorization_before_anything_else() {
    let (_s, d) = start(OpRequest::FetchIncompleteReminders);
    assert_eq!(d, Directive::Query(StoreQuery::AuthStatus(EntityKind::Reminders)));
    let (_s, d) = start(OpRequest::ListCalendars(EntityKind::Events));
    assert_eq!(d, Directive::Query(StoreQuery::AuthStatus(EntityKind::Events)));
}

#[test]
fn an_invalid_range_finishes_before_any_query() {
    let (_s, d) = start(
        OpRequest::FetchEvents { start_date: 7, end_date: 7, calendar_titles: None },
    );
    assert_eq!(d, Directive::Finish(Err(EventKitError::InvalidDateRange)));
}

#[test]
fn a_denied_status_finishes_the_session_with_the_matching_error() {
    let (mut s, d) = start(OpRequest::FetchIncompleteReminders);
    assert!(matches!(d, Directive::Query(_)));
    let d = s.step(StoreReply::Status(AuthorizationStatus::Denied));
    assert_eq!(d, Directive::Finish(Err(EventKitError::AuthorizationDenied)));
    let (mut s, _) = start(OpRequest::FetchIncompleteReminders);
    let d = s.step(StoreReply::Status(AuthorizationStatus::Restricted));
    assert_eq!(d, Directive::Finish(Err(EventKitError::AuthorizationRestricted)));
}

#[test]
fn a_status_check_only_reports_the_status() {
    let (mut s, d) = start(OpRequest::CheckStatus(EntityKind::Events));
    assert_eq!(d, Directive::Query(StoreQuery::AuthStatus(EntityKind::Events)));
    let d = s.step(StoreReply::Status(AuthorizationStatus::Denied));
    assert_eq!(d, Directive::Finish(Ok(Outcome::Status(AuthorizationStatus::Denied))));
}

#[test]
fn an_unfilled_fetch_slot_is_an_unknown_fetch_failure() {
    let (mut s, _) = start(OpRequest::FetchIncompleteReminders);
    let d = s.step(StoreReply::Status(AuthorizationStatus::FullAccess));
    assert_eq!(d, Directive::Query(StoreQuery::IncompleteReminders));
    let d = s.step(StoreReply::RemindersSlot(None));
    assert_eq!(
        d,
        Directive::Finish(Err(EventKitError::FetchFailed("Unknown error".to_string())))
    );
}

#[test]
fn a_reply_the_phase_cannot_take_ends_the_session() {
    let (mut s, _) = start(OpRequest::FetchIncompleteReminders);
    let d = s.step(StoreReply::Removed(None));
    assert_eq!(
        d,
        Directive::Finish(Err(EventKitError::EventKitError("unexpected store reply".to_string())))
    );
}

#[test]
fn a_store_save_error_surfaces_as_save_failed() {
    let (mut s, _) = start(OpRequest::CreateReminder {
        title: "t".to_string(),
        notes: None,
        calendar_title: None,
        priority: None,
    });
    let d = s.step(StoreReply::Status(AuthorizationStatus::FullAccess));
    assert_eq!(d, Directive::Query(StoreQuery::DefaultCalendar(EntityKind::Reminders)));
    let d = s.step(StoreReply::DefaultCalendar(Some(cal("c", "Personal"))));
    assert!(matches!(d, Directive::Query(StoreQuery::SaveReminder { .. })));
    let d = s.step(StoreReply::ReminderSaved(Err("disk full".to_string())));
    assert_eq!(d, Directive::Finish(Err(EventKitError::SaveFailed("disk full".to_string()))));
}

#[test]
fn a_store_delete_error_surfaces_as_delete_failed() {
    let (mut s, _) = start(OpRequest::DeleteReminder { identifier: "r9".to_string() });
    let d = s.step(StoreReply::Status(AuthorizationStatus::FullAccess));
    assert_eq!(d, Directive::Query(StoreQuery::ReminderById { identifier: "r9".to_string() }));
    let d = s.step(StoreReply::ReminderLookup(Some(reminder("r9", "old", false))));
    assert_eq!(d, Directive::Query(StoreQuery::RemoveReminder { identifier: "r9".to_string() }));
    let d = s.step(StoreReply::Removed(Some("locked".to_string())));
    assert_eq!(d, Directive::Finish(Err(EventKitError::DeleteFailed("locked".to_string()))));
}

#[test]
fn an_access_error_outweighs_the_grant_flag() {
    let (mut s, d) = start(OpRequest::RequestAccess(EntityKind::Reminders));
    assert_eq!(d, Directive::Query(StoreQuery::RequestAccess(EntityKind::Reminders)));
    let d = s.step(StoreReply::Access { granted: true, error: Some("dialog crashed".to_string()) });
    assert_eq!(
        d,
        Directive::Finish(Err(EventKitError::AuthorizationRequestFailed(
            "dialog crashed".to_string()
        )))
    );
}

#[test]
fn the_gate_maps_each_status_to_its_verdict() {
    assert_eq!(authorization_gate(AuthorizationStatus::FullAccess), AuthDecision::Proceed);
    assert_eq!(authorization_gate(AuthorizationStatus::WriteOnly), AuthDecision::Proceed);
    assert_eq!(authorization_gate(AuthorizationStatus::NotDetermined), AuthDecision::Request);
    assert_eq!(
        authorization_gate(AuthorizationStatus::Denied),
        AuthDecision::Fail(EventKitError::AuthorizationDenied)
    );
    assert_eq!(
        authorization_gate(AuthorizationStatus::Restricted),
        AuthDecision::Fail(EventKitError::AuthorizationRestricted)
    );
    assert_eq!(grant_gate(true, None), Ok(()));
    assert_eq!(grant_gate(false, None), Err(EventKitError::AuthorizationDenied));
    assert_eq!(
        grant_gate(true, Some("crash".to_string())),
        Err(EventKitError::AuthorizationRequestFailed("crash".to_string()))
    );
}

#[test]
fn the_access_slot_decision_matches_the_bridge() {
    assert_eq!(
        access_reply(Some((true, None))),
        StoreReply::Access { granted: true, error: None }
    );
    assert_eq!(
        access_reply(Some((false, Some("x".to_string())))),
        StoreReply::Access { granted: false, error: Some("x".to_string()) }
    );
    assert_eq!(
        access_reply(None),
        StoreReply::Access { granted: false, error: Some("Unknown error".to_string()) }
    );
}

#[test]
fn an_update_without_fields_is_a_no_op_plan() {
    assert_eq!(update_plan(&None, &None, None), UpdatePlan::Nothing);
    assert_eq!(update_plan(&Some("t".to_string()), &None, None), UpdatePlan::Update);
    assert_eq!(update_plan(&None, &Some("n".to_string()), None), UpdatePlan::Update);
    assert_eq!(update_plan(&None, &None, Some(3)), UpdatePlan::Update);
}

#[test]
fn join_titles_uses_comma_and_space() {
    assert_eq!(join_titles(&vec![]), "");
    assert_eq!(join_titles(&vec!["Home".to_string()]), "Home");
    assert_eq!(
        join_titles(&vec!["Home".to_string(), "Errands".to_string(), "Work".to_string()]),
        "Home, Errands, Work"
    );
}

#[test]
fn select_calendars_keeps_matches_and_names_misses() {
    let all = vec![cal("1", "Home"), cal("2", "Work"), cal("3", "Home")];
    let sel = select_calendars(&all, &vec!["Home".to_string()]).unwrap();
    assert_eq!(sel.len(), 2);
    assert_eq!(sel[0].identifier, "1");
    assert_eq!(sel[1].identifier, "3");
    let err = select_calendars(&all, &vec!["A".to_string(), "B".to_string()]).unwrap_err();
    assert_eq!(err, EventKitError::CalendarNotFound("A, B".to_string()));
}

#[test]
fn find_calendar_by_title_takes_the_first_match() {
    let all = vec![cal("1", "Home"), cal("2", "Home")];
    let c = find_calendar_by_title(&all, &"Home".to_string()).unwrap();
    assert_eq!(c.identifier, "1");
    let e = find_calendar_by_title(&all, &"Gone".to_string()).unwrap_err();
    assert_eq!(e, EventKitError::CalendarNotFound("Gone".to_string()));
}

#[test]
fn sorting_orders_by_start_and_keeps_every_event() {
    let v = vec![event("a", 30), event("b", 10), event("c", 20), event("d", 10)];
    let sorted = sort_events_by_start(v);
    assert_eq!(sorted.len(), 4);
    assert!(sorted.windows(2).all(|w| w[0].start_date <= w[1].start_date));
    let mut ids: Vec<&str> = sorted.iter().map(|e| e.identifier.as_str()).collect();
    ids.sort();
    assert_eq!(ids, vec!["a", "b", "c", "d"]);
}

#[test]
fn apply_reminder_update_merges_only_supplied_fields() {
    let r = ReminderItem {
        identifier: "r".to_string(),
        title: "old".to_string(),
        notes: Some("keep".to_string()),
        completed: false,
        priority: 4,
        calendar_title: Some("Personal".to_string()),
    };
    let merged = apply_reminder_update(&r, &Some("new".to_string()), &None, None, Some(9));
    assert_eq!(merged.title, "new");
    assert_eq!(merged.notes.as_deref(), Some("keep"));
    assert_eq!(merged.priority, 9);
    assert!(!merged.completed);
    assert_eq!(merged.identifier, "r");
    assert_eq!(merged.calendar_title.as_deref(), Some("Personal"));
    let twice = apply_reminder_update(&merged, &Some("new".to_string()), &None, None, Some(9));
    assert_eq!(twice, merged);
}

#[test]
fn completion_merge_is_idempotent_on_a_completed_reminder() {
    let done = reminder("r", "task", true);
    let merged = apply_reminder_update(&done, &None, &None, Some(true), None);
    assert_eq!(merged, done);
}

#[test]
fn listing_filters_follow_the_flags() {
    let rs = vec![reminder("1", "open", false), reminder("2", "done", true)];
    let default_view = filter_reminders(rs.clone(), false, false, false);
    assert_eq!(default_view.len(), 1);
    assert_eq!(default_view[0].identifier, "1");
    let completed_view = filter_reminders(rs.clone(), false, true, false);
    assert_eq!(completed_view.len(), 1);
    assert_eq!(completed_view[0].identifier, "2");
    let all_view = filter_reminders(rs.clone(), false, false, true);
    assert_eq!(all_view.len(), 2);
    let incomplete_fetch = filter_reminders(rs, true, false, false);
    assert_eq!(incomplete_fetch.len(), 2);
}

#[test]
fn priority_bands_match_the_scale() {
    assert_eq!(priority_marker(0), "");
    assert_eq!(priority_marker(1), " !!!");
    assert_eq!(priority_marker(4), " !!!");
    assert_eq!(priority_marker(5), " !!");
    assert_eq!(priority_marker(6), " !");
    assert_eq!(priority_marker(9), " !");
    assert_eq!(priority_word(0), "None");
    assert_eq!(priority_word(3), "High");
    assert_eq!(priority_word(5), "Medium");
    assert_eq!(priority_word(7), "Low");
}

#[test]
fn the_delete_prompt_names_the_item() {
    assert_eq!(
        delete_prompt("reminder", &"Old chore".to_string()),
        "Delete reminder: \"Old chore\"?"
    );
    assert_eq!(delete_prompt("event", &"Standup".to_string()), "Delete event: \"Standup\"?");
}

#[test]
fn decimal_identifiers_print_in_base_ten() {
    assert_eq!(u64_to_string(0), "0");
    assert_eq!(u64_to_string(7), "7");
    assert_eq!(u64_to_string(10), "10");
    assert_eq!(u64_to_string(907), "907");
    assert_eq!(u64_to_string(18_446_744_073_709_551_615), "18446744073709551615");
}

#[test]
fn upcoming_ranges_count_whole_days() {
    assert_eq!(upcoming_range(0, 1), Ok((0, 86_400)));
    assert_eq!(upcoming_range(1_000, 7), Ok((1_000, 1_000 + 7 * 86_400)));
    assert_eq!(upcoming_range(500, -1), Ok((500, 500 - 86_400)));
    assert_eq!(upcoming_range(i64::MAX, 1), Err(EventKitError::InvalidDateRange));
}

#[test]
fn a_new_event_ends_at_the_explicit_end_or_after_its_duration() {
    assert_eq!(event_end(1_000, Some(9_999), 60, false), Ok(9_999));
    assert_eq!(event_end(1_000, None, 60, false), Ok(1_000 + 3_600));
    assert_eq!(event_end(1_000, None, 90, true), Ok(1_000 + 86_400));
    assert_eq!(event_end(i64::MAX, None, 1, false), Err(EventKitError::InvalidDateRange));
}

#[test]
fn the_local_day_resolves_on_this_machine() {
    let r = today_range().unwrap();
    assert!(r.0 < r.1);
}
