use agent0_tray::BackendAction;
use agent0_tray::client::{
    action_request, action_result, classify_http_outcome, task_diagnostic, AttemptOutcome,
    HttpCallOutcome, RequestKind,
};
use agent0_tray::dispatch::{dispatch, Directive, TrayEvent};
use agent0_tray::menu::tray_menu_items;

fn select(id: &str) -> TrayEvent {
    TrayEvent::MenuItemClick { id: String::from(id) }
}

#[test]
fn pause_selection_spawns_pause() {
    let d = dispatch(&select("pause"), false);
    assert_eq!(d, Directive::SpawnBackend { action: BackendAction::Pause });
}

#[test]
fn resume_selection_spawns_resume() {
    let d = dispatch(&select("resume"), true);
    assert_eq!(d, Directive::SpawnBackend { action: BackendAction::Resume });
}

#[test]
fn dashboard_selection_spawns_dashboard() {
    let d = dispatch(&select("dashboard"), false);
    assert_eq!(d, Directive::SpawnBackend { action: BackendAction::Dashboard });
}

#[test]
fn quit_selection_exits_with_code_zero() {
    let d = dispatch(&select("quit"), false);
    assert_eq!(d, Directive::Exit { code: 0 });
}

#[test]
fn quit_wins_regardless_of_window_state() {
    assert_eq!(dispatch(&select("quit"), true), Directive::Exit { code: 0 });
    assert_eq!(dispatch(&select("quit"), false), Directive::Exit { code: 0 });
}

#[test]
fn separator_selection_is_ignored() {
    assert_eq!(dispatch(&select("separator"), true), Directive::Ignore);
}

#[test]
fn unrecognized_selection_is_ignored() {
    assert_eq!(dispatch(&select("restart"), true), Directive::Ignore);
    assert_eq!(dispatch(&select(""), false), Directive::Ignore);
    assert_eq!(dispatch(&select("PAUSE"), false), Directive::Ignore);
}

#[test]
fn left_click_shows_window_when_one_exists() {
    assert_eq!(dispatch(&TrayEvent::LeftClick, true), Directive::ShowMainWindow);
}

#[test]
fn left_click_without_window_is_ignored() {
    assert_eq!(dispatch(&TrayEvent::LeftClick, false), Directive::Ignore);
}

#[test]
fn other_tray_events_are_ignored() {
    assert_eq!(dispatch(&TrayEvent::Other, true), Directive::Ignore);
    assert_eq!(dispatch(&TrayEvent::Other, false), Directive::Ignore);
}

#[test]
fn successive_selections_yield_independent_directives() {
    let first = dispatch(&select("pause"), false);
    let second = dispatch(&select("resume"), false);
    assert_eq!(first, Directive::SpawnBackend { action: BackendAction::Pause });
    assert_eq!(second, Directive::SpawnBackend { action: BackendAction::Resume });
}

#[test]
fn pause_targets_its_endpoint_with_a_post() {
    let r = action_request(BackendAction::Pause);
    assert_eq!(r.kind, RequestKind::HttpPost);
    assert_eq!(r.url, "http://localhost:8000/admin/pause");
}

#[test]
fn resume_targets_its_endpoint_with_a_post() {
    let r = action_request(BackendAction::Resume);
    assert_eq!(r.kind, RequestKind::HttpPost);
    assert_eq!(r.url, "http://localhost:8000/admin/resume");
}

#[test]
fn dashboard_opens_the_browser_at_monitor() {
    let r = action_request(BackendAction::Dashboard);
    assert_eq!(r.kind, RequestKind::BrowserOpen);
    assert_eq!(r.url, "http://localhost:8000/monitor");
}

#[test]
fn any_http_status_counts_as_completion() {
    for status in [200u16, 204, 301, 404, 500, 503] {
        let outcome = classify_http_outcome(HttpCallOutcome::Response { status });
        assert!(matches!(outcome, AttemptOutcome::Completed));
    }
}

#[test]
fn transport_error_is_a_failure_with_its_detail() {
    let outcome = classify_http_outcome(HttpCallOutcome::TransportError {
        detail: String::from("connection refused"),
    });
    match outcome {
        AttemptOutcome::Failed { detail } => assert_eq!(detail, "connection refused"),
        AttemptOutcome::Completed => panic!("a transport error must not count as completion"),
    }
}

#[test]
fn completed_pause_reports_the_fixed_confirmation() {
    let r = action_result(BackendAction::Pause, AttemptOutcome::Completed);
    assert_eq!(r, Ok(String::from("Service paused")));
}

#[test]
fn completed_resume_reports_the_fixed_confirmation() {
    let r = action_result(BackendAction::Resume, AttemptOutcome::Completed);
    assert_eq!(r, Ok(String::from("Service resumed")));
}

#[test]
fn completed_dashboard_reports_the_fixed_confirmation() {
    let r = action_result(BackendAction::Dashboard, AttemptOutcome::Completed);
    assert_eq!(r, Ok(String::from("Dashboard opened")));
}

#[test]
fn failed_pause_reports_an_error_embedding_the_detail() {
    let r = action_result(
        BackendAction::Pause,
        AttemptOutcome::Failed { detail: String::from("connection refused") },
    );
    assert_eq!(r, Err(String::from("Failed to pause service: connection refused")));
    let message = r.unwrap_err();
    assert!(message.contains("connection refused"));
}

#[test]
fn failed_resume_reports_an_error_embedding_the_detail() {
    let r = action_result(
        BackendAction::Resume,
        AttemptOutcome::Failed { detail: String::from("dns error") },
    );
    assert_eq!(r, Err(String::from("Failed to resume service: dns error")));
}

#[test]
fn failed_dashboard_reports_an_error_embedding_the_detail() {
    let r = action_result(
        BackendAction::Dashboard,
        AttemptOutcome::Failed { detail: String::from("no browser found") },
    );
    assert_eq!(r, Err(String::from("Failed to open dashboard: no browser found")));
}

#[test]
fn backend_unreachable_end_to_end_yields_failure_with_detail() {
    let outcome = classify_http_outcome(HttpCallOutcome::TransportError {
        detail: String::from("error sending request: connection refused"),
    });
    let r = action_result(BackendAction::Pause, outcome);
    let message = r.expect_err("a transport error must yield a failure report");
    assert!(message.contains("connection refused"));
    assert!(message.starts_with("Failed to pause service: "));
}

#[test]
fn only_failures_produce_a_diagnostic() {
    assert_eq!(task_diagnostic(Ok(String::from("Service paused"))), None);
    assert_eq!(
        task_diagnostic(Err(String::from("Failed to pause service: connection refused"))),
        Some(String::from("Failed to pause service: connection refused"))
    );
}

#[test]
fn menu_has_the_six_fixed_entries_in_order() {
    let items = tray_menu_items();
    let expected = [
        ("pause", "Pause Agent-0", true),
        ("resume", "Resume Agent-0", true),
        ("separator", "", false),
        ("dashboard", "Open Dashboard", true),
        ("separator", "", false),
        ("quit", "Quit", true),
    ];
    assert_eq!(items.len(), expected.len());
    for (item, (id, label, enabled)) in items.iter().zip(expected.iter()) {
        assert_eq!(item.id, *id);
        assert_eq!(item.label, *label);
        assert_eq!(item.enabled, *enabled);
    }
}

#[test]
fn every_interactive_entry_dispatches_and_separator_does_not() {
    let items = tray_menu_items();
    for item in items.iter() {
        let d = dispatch(&TrayEvent::MenuItemClick { id: item.id.clone() }, false);
        if item.enabled {
            assert_ne!(d, Directive::Ignore);
        } else {
            assert_eq!(d, Directive::Ignore);
        }
    }
}
