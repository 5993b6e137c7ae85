use win_theme_switcher::apply::{theme_enum_step, EnumStep, SettingsCloser, CLOSER_POLL_MS, CLOSER_ROUNDS};
use win_theme_switcher::session::{
    first_run_step, log_needs_rotation, setup_after_prompt, wts_register_step, LocationStep,
    SetupStep, WtsStep, LOG_ROTATE_BYTES, WTS_ATTEMPTS,
};
use win_theme_switcher::session::{dispatch, EventAction, UiEvent};
use win_theme_switcher::tick::{tick_gate, TickGate, TickKind};

#[test]
fn wts_registration_retries_three_times() {
    assert_eq!(wts_register_step(1, true), WtsStep::Registered { log_recovered: false });
    assert_eq!(wts_register_step(2, true), WtsStep::Registered { log_recovered: true });
    assert_eq!(wts_register_step(1, false), WtsStep::Failed { wait_ms: 2000, retry: true });
    assert_eq!(wts_register_step(2, false), WtsStep::Failed { wait_ms: 2000, retry: true });
    assert_eq!(
        wts_register_step(WTS_ATTEMPTS, false),
        WtsStep::Failed { wait_ms: 2000, retry: false }
    );
    // Driving the steps as the wake listener does: three failures, then stop.
    let mut attempts = 0;
    let mut attempt = 1;
    loop {
        attempts += 1;
        match wts_register_step(attempt, false) {
            WtsStep::Failed { retry: true, .. } => attempt += 1,
            _ => break,
        }
    }
    assert_eq!(attempts, 3);
}

#[test]
fn theme_enumeration_steps() {
    let target = "Windows (light)".to_string();
    let other = "Windows (dark)".to_string();
    assert_eq!(theme_enum_step(Some(&target.clone()), &target), EnumStep::Apply);
    assert_eq!(theme_enum_step(Some(&other), &target), EnumStep::Next);
    assert_eq!(theme_enum_step(None, &target), EnumStep::SkipUnreadable);
    // First match wins, in the manager's order.
    let names = [None, Some(other.clone()), Some(target.clone()), Some(target.clone())];
    let picked = names
        .iter()
        .position(|n| theme_enum_step(n.as_ref(), &target) == EnumStep::Apply);
    assert_eq!(picked, Some(2));
}

#[test]
fn log_rotates_past_256_kib() {
    assert_eq!(LOG_ROTATE_BYTES, 256 * 1024);
    assert!(!log_needs_rotation(0));
    assert!(!log_needs_rotation(256 * 1024));
    assert!(log_needs_rotation(256 * 1024 + 1));
}

#[test]
fn first_run_location_flow() {
    assert_eq!(first_run_step(true), LocationStep::UseAndSave);
    assert_eq!(first_run_step(false), LocationStep::AskUser);
    assert_eq!(setup_after_prompt(true), SetupStep::OpenLocationSettings);
    assert_eq!(setup_after_prompt(false), SetupStep::ManualSetup);
}

#[test]
fn tick_without_location_is_skipped() {
    assert_eq!(tick_gate(false), TickGate::SkipNoLocation);
    assert_eq!(tick_gate(true), TickGate::Proceed);
}

#[test]
fn settings_closer_runs_fixed_rounds_and_logs_first_close() {
    let mut c = SettingsCloser::start();
    let mut rounds = 0;
    let mut logs = 0;
    while let Some(wait) = c.next_round_wait_ms() {
        assert_eq!(wait, CLOSER_POLL_MS);
        rounds += 1;
        // a window is found in rounds 3 and 5
        if rounds == 3 || rounds == 5 {
            if c.window_closed() {
                logs += 1;
            }
        }
        c.finish_round();
    }
    assert_eq!(rounds, CLOSER_ROUNDS);
    assert_eq!(logs, 1);
}

#[test]
fn only_start_deadline_and_wakes_tick() {
    assert_eq!(dispatch(UiEvent::Started), EventAction::Tick { kind: TickKind::Init, cause: "init" });
    assert_eq!(
        dispatch(UiEvent::DeadlineReached),
        EventAction::Tick { kind: TickKind::Scheduled, cause: "resume-time" }
    );
    assert_eq!(dispatch(UiEvent::Unlocked), EventAction::Tick { kind: TickKind::Wake, cause: "wake-unlock" });
    assert_eq!(dispatch(UiEvent::Resumed), EventAction::Tick { kind: TickKind::Wake, cause: "wake-power" });
    assert_eq!(dispatch(UiEvent::MenuToggle), EventAction::Toggle);
    assert_eq!(dispatch(UiEvent::MenuRefresh), EventAction::ReloadThenRefresh);
    assert_eq!(dispatch(UiEvent::MenuQuit), EventAction::Exit);
    assert_eq!(dispatch(UiEvent::MenuOpenConfig), EventAction::OpenConfig);
    assert_eq!(dispatch(UiEvent::Other), EventAction::Ignore);
}
