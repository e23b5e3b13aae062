use framesense::bounds::{clamp_to_displays, CaptureBounds};
use framesense::capture::{delivery_result, finish_capture, payload_of, CaptureResult, ClipboardPayload, GrabOutcome};
use framesense::error::{AppError, ErrorKind};
use framesense::orchestrator::{Action, CaptureOrchestrator, Event, Phase};
use framesense::permission::{
    privacy_settings_url, remediation_after_request, settings_launch_result, AppState, PermissionStatus,
    Remediation,
};

fn granted() -> PermissionStatus {
    PermissionStatus::new(true, true)
}

/// Feeds the events in order and returns the actions and the phase after each.
fn drive(events: Vec<Event>) -> (Vec<Action>, Vec<Phase>, AppState) {
    let mut orch = CaptureOrchestrator::new();
    let mut app = AppState::new();
    let mut actions = Vec::new();
    let mut phases = Vec::new();
    for e in events {
        actions.push(orch.handle(&mut app, e));
        phases.push(orch.phase());
    }
    (actions, phases, app)
}

fn count_captures(actions: &[Action]) -> usize {
    actions.iter().filter(|a| matches!(a, Action::Capture(_))).count()
}

fn count_returns_to_idle(phases: &[Phase]) -> usize {
    let mut prev = Phase::Idle;
    let mut n = 0;
    for p in phases {
        if *p == Phase::Idle && prev != Phase::Idle {
            n += 1;
        }
        prev = *p;
    }
    n
}

#[test]
fn granted_hotkey_captures_and_delivers() {
    let region = CaptureBounds::new(10, 10, 100, 100);
    let displays = vec![CaptureBounds::new(0, 0, 1920, 1080)];
    let mut orch = CaptureOrchestrator::new();
    let mut app = AppState::new();

    let a = orch.handle(&mut app, Event::HotkeyFired(region));
    assert!(matches!(a, Action::CheckPermissions));
    assert_eq!(orch.phase(), Phase::PermissionPending(region));

    let a = orch.handle(&mut app, Event::PermissionsChecked(granted()));
    assert!(app.permissions_granted);
    let asked = match a {
        Action::Capture(b) => b,
        _ => panic!("expected a capture"),
    };
    assert_eq!(asked, region);

    let actual = clamp_to_displays(asked, &displays).unwrap();
    let result = finish_capture(actual, GrabOutcome::Image("aW1hZ2U=".to_string()));
    let a = orch.handle(&mut app, Event::CaptureFinished(result));
    let published = match a {
        Action::Publish(c) => c,
        _ => panic!("expected a publish"),
    };
    assert_eq!(published.bounds, region);
    let clipboard = match payload_of(&published) {
        ClipboardPayload::Image(data) => data,
        ClipboardPayload::Text(_) => panic!("expected an image"),
    };
    assert_eq!(clipboard, "aW1hZ2U=");

    let a = orch.handle(&mut app, Event::DeliveryFinished(delivery_result(Ok(()))));
    match a {
        Action::NotifySuccess(b) => assert_eq!(b, region),
        _ => panic!("expected a success notice"),
    }
    assert_eq!(orch.phase(), Phase::Idle);
}

#[test]
fn denied_hotkey_prompts_and_returns_to_idle() {
    let region = CaptureBounds::new(10, 10, 100, 100);
    let denied = PermissionStatus::new(false, true);
    let mut orch = CaptureOrchestrator::new();
    let mut app = AppState::new();
    orch.handle(&mut app, Event::HotkeyFired(region));
    let a = orch.handle(&mut app, Event::PermissionsChecked(denied));
    assert!(matches!(a, Action::PromptForPermission(s) if s == denied));
    assert_eq!(orch.phase(), Phase::Denied);
    assert!(!app.permissions_granted);
    let a = orch.handle(&mut app, Event::Acknowledged);
    assert!(matches!(a, Action::Nothing));
    assert_eq!(orch.phase(), Phase::Idle);
}

#[test]
fn denied_readings_never_lead_to_capture() {
    let region = CaptureBounds::new(0, 0, 50, 50);
    for s in [PermissionStatus::new(false, false), PermissionStatus::new(true, false), PermissionStatus::new(false, true)] {
        let (actions, phases, _) = drive(vec![
            Event::HotkeyFired(region),
            Event::PermissionsChecked(s),
            Event::HotkeyFired(region),
            Event::Acknowledged,
            Event::HotkeyFired(region),
            Event::PermissionsChecked(s),
            Event::Acknowledged,
        ]);
        assert_eq!(count_captures(&actions), 0);
        assert_eq!(*phases.last().unwrap(), Phase::Idle);
    }
}

#[test]
fn second_hotkey_during_sequence_is_dropped() {
    let first = CaptureBounds::new(10, 10, 100, 100);
    let second = CaptureBounds::new(500, 500, 20, 20);
    let image = CaptureResult { image_data: "eA==".to_string(), bounds: first };
    let (actions, phases, _) = drive(vec![
        Event::HotkeyFired(first),
        Event::HotkeyFired(second),
        Event::PermissionsChecked(granted()),
        Event::HotkeyFired(second),
        Event::CaptureFinished(Ok(image)),
        Event::DeliveryFinished(Ok(())),
    ]);
    assert_eq!(count_captures(&actions), 1);
    assert!(matches!(actions[1], Action::Nothing));
    assert!(matches!(actions[2], Action::Capture(b) if b == first));
    assert!(matches!(actions[3], Action::Nothing));
    assert_eq!(count_returns_to_idle(&phases), 1);
    assert_eq!(*phases.last().unwrap(), Phase::Idle);
}

#[test]
fn capture_failure_reports_and_returns_to_idle() {
    let region = CaptureBounds::new(10, 10, 100, 100);
    let refused = finish_capture(region, GrabOutcome::Refused("revoked".to_string()));
    let (actions, phases, _) = drive(vec![
        Event::HotkeyFired(region),
        Event::PermissionsChecked(granted()),
        Event::CaptureFinished(refused),
        Event::Acknowledged,
    ]);
    match &actions[2] {
        Action::ReportFailure(e) => {
            assert_eq!(e.kind, ErrorKind::CaptureDenied);
            assert_eq!(e.detail, "revoked");
        }
        _ => panic!("expected a failure report"),
    }
    assert_eq!(phases[2], Phase::Failed(ErrorKind::CaptureDenied));
    assert_eq!(phases[3], Phase::Idle);
}

#[test]
fn clipboard_failure_reports_and_returns_to_idle() {
    let region = CaptureBounds::new(10, 10, 100, 100);
    let image = CaptureResult { image_data: "eA==".to_string(), bounds: region };
    let (actions, phases, _) = drive(vec![
        Event::HotkeyFired(region),
        Event::PermissionsChecked(granted()),
        Event::CaptureFinished(Ok(image)),
        Event::DeliveryFinished(delivery_result(Err("sandboxed".to_string()))),
        Event::Acknowledged,
    ]);
    assert!(matches!(&actions[3], Action::ReportFailure(e) if e.kind == ErrorKind::ClipboardUnavailable));
    assert_eq!(phases[3], Phase::Failed(ErrorKind::ClipboardUnavailable));
    assert_eq!(phases[4], Phase::Idle);
}

#[test]
fn stray_events_in_idle_are_dropped() {
    let (actions, phases, app) = drive(vec![
        Event::Acknowledged,
        Event::CaptureFinished(Err(AppError::new(ErrorKind::CaptureTimeout, String::new()))),
        Event::DeliveryFinished(Ok(())),
        Event::PermissionsChecked(granted()),
    ]);
    assert!(actions.iter().all(|a| matches!(a, Action::Nothing)));
    assert!(phases.iter().all(|p| *p == Phase::Idle));
    assert!(app.permissions_granted);
}

#[test]
fn grab_timeout_is_capture_timeout() {
    let region = CaptureBounds::new(1, 2, 3, 4);
    let e = finish_capture(region, GrabOutcome::TimedOut).unwrap_err();
    assert_eq!(e.kind, ErrorKind::CaptureTimeout);
}

#[test]
fn grabbed_image_is_kept_with_region() {
    let region = CaptureBounds::new(-5, 7, 30, 40);
    let c = finish_capture(region, GrabOutcome::Image("abc".to_string())).unwrap();
    assert_eq!(c.bounds, region);
    assert_eq!(c.image_data, "abc");
}

#[test]
fn permission_status_needs_both_flags() {
    assert!(PermissionStatus::new(true, true).all_granted());
    assert!(!PermissionStatus::new(true, false).all_granted());
    assert!(!PermissionStatus::new(false, true).all_granted());
    assert!(!PermissionStatus::new(false, false).all_granted());
}

#[test]
fn app_state_starts_ungranted_and_follows_readings() {
    let mut app = AppState::default();
    assert!(!app.permissions_granted);
    app.record(granted());
    assert!(app.permissions_granted);
    app.record(PermissionStatus::new(true, false));
    assert!(!app.permissions_granted);
}

#[test]
fn refused_request_falls_back_to_settings() {
    assert_eq!(remediation_after_request(false), Remediation::OpenSettings);
    assert_eq!(remediation_after_request(true), Remediation::Done);
}

#[test]
fn settings_launch_failure_is_external_launch() {
    assert!(settings_launch_result(Ok(())).is_ok());
    let e = settings_launch_result(Err("no handler".to_string())).unwrap_err();
    assert_eq!(e.kind, ErrorKind::ExternalLaunch);
    assert_eq!(e.detail, "could not open the privacy settings: no handler");
    assert_eq!(e.message(), "external_launch: could not open the privacy settings: no handler");
}

#[test]
fn settings_url_points_at_screen_capture() {
    assert_eq!(
        privacy_settings_url(),
        "x-apple.systempreferences:com.apple.preference.security?Privacy_ScreenCapture"
    );
}

#[test]
fn error_tags_are_distinct() {
    let kinds = [
        ErrorKind::Permission,
        ErrorKind::HotkeyConflict,
        ErrorKind::InvalidBounds,
        ErrorKind::CaptureDenied,
        ErrorKind::ClipboardUnavailable,
        ErrorKind::ExternalLaunch,
        ErrorKind::CaptureTimeout,
    ];
    for (i, a) in kinds.iter().enumerate() {
        for b in kinds.iter().skip(i + 1) {
            assert_ne!(a.tag(), b.tag());
        }
    }
    assert_eq!(ErrorKind::InvalidBounds.tag(), "invalid_bounds");
}
