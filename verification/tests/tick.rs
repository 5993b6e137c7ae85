use chrono::{DateTime, Local, TimeZone, Utc};
use win_theme_switcher::theme::{toggle_target, Theme};
use win_theme_switcher::tick::{
    begin_tick, decide_tick, finish_tick, note_apply_failed, note_reconciled, retry_deadline,
    RetryNote, TickAction, TickKind, TickState, APPLY_RETRY_DELAY_MS, MAX_APPLY_RETRIES,
};

fn utc(y: i32, mo: u32, d: u32, h: u32, mi: u32, s: u32) -> DateTime<Utc> {
    Utc.with_ymd_and_hms(y, mo, d, h, mi, s).unwrap()
}

fn ms(t: DateTime<Utc>) -> i64 {
    t.timestamp_millis()
}

/// A reconciled state whose recorded next transition is at `next`.
fn reconciled_at(next: DateTime<Utc>) -> TickState {
    let mut s = TickState::new();
    note_reconciled(&mut s, ms(next));
    s
}

#[test]
fn refresh_forces_even_when_matching() {
    let s = reconciled_at(utc(2026, 7, 4, 15, 46, 5));
    let now = ms(utc(2026, 7, 4, 9, 0, 0));
    assert_eq!(
        decide_tick(TickKind::Refresh, Some(Theme::Light), Theme::Light, now, &s),
        TickAction::Apply
    );
}

#[test]
fn matching_current_skips_apply() {
    let sunset = utc(2026, 7, 4, 15, 46, 5);
    let now = ms(utc(2026, 7, 4, 9, 0, 0));
    let s = reconciled_at(sunset);
    for kind in [TickKind::Init, TickKind::Scheduled, TickKind::Wake] {
        assert_eq!(
            decide_tick(kind, Some(Theme::Light), Theme::Light, now, &s),
            TickAction::SkipInSync,
            "kind {kind:?}"
        );
    }
}

#[test]
fn scheduled_transition_applies_over_override() {
    let sunset = utc(2026, 7, 4, 15, 46, 5);
    let s = reconciled_at(sunset);
    assert_eq!(
        decide_tick(TickKind::Scheduled, Some(Theme::Light), Theme::Dark, ms(sunset), &s),
        TickAction::Apply
    );
}

#[test]
fn wake_before_next_transition_preserves_override() {
    let sunset = utc(2026, 7, 4, 15, 46, 5);
    let s = reconciled_at(sunset);
    let now = ms(utc(2026, 7, 4, 12, 0, 0));
    assert_eq!(
        decide_tick(TickKind::Wake, Some(Theme::Dark), Theme::Light, now, &s),
        TickAction::SkipOverride
    );
}

#[test]
fn wake_after_missed_transition_reconciles() {
    let sunset = utc(2026, 7, 4, 15, 46, 5);
    let s = reconciled_at(sunset);
    let now = ms(utc(2026, 7, 4, 20, 0, 0));
    assert_eq!(
        decide_tick(TickKind::Wake, Some(Theme::Light), Theme::Dark, now, &s),
        TickAction::Apply
    );
}

#[test]
fn wake_after_even_number_of_missed_transitions_reconciles() {
    let sunset = utc(2026, 7, 4, 15, 46, 5);
    let s = reconciled_at(sunset);
    let next_morning = ms(utc(2026, 7, 5, 4, 0, 0));
    assert_eq!(
        decide_tick(TickKind::Wake, Some(Theme::Dark), Theme::Light, next_morning, &s),
        TickAction::Apply
    );
}

#[test]
fn wake_without_baseline_reconciles() {
    let s = TickState::new();
    let now = ms(utc(2026, 7, 4, 12, 0, 0));
    assert_eq!(
        decide_tick(TickKind::Wake, Some(Theme::Dark), Theme::Light, now, &s),
        TickAction::Apply
    );
}

#[test]
fn wake_with_unreadable_current_skips_inside_window() {
    let sunset = utc(2026, 7, 4, 15, 46, 5);
    let s = reconciled_at(sunset);
    let now = ms(utc(2026, 7, 4, 12, 0, 0));
    assert_eq!(
        decide_tick(TickKind::Wake, None, Theme::Light, now, &s),
        TickAction::SkipOverride
    );
}

#[test]
fn theme_opposite_flips() {
    assert_eq!(Theme::Light.opposite(), Theme::Dark);
    assert_eq!(Theme::Dark.opposite(), Theme::Light);
}

#[test]
fn toggle_target_flips_current_and_defaults_dark() {
    assert_eq!(toggle_target(Some(Theme::Light)), Theme::Dark);
    assert_eq!(toggle_target(Some(Theme::Dark)), Theme::Light);
    assert_eq!(toggle_target(None), Theme::Dark);
}

#[test]
fn retry_deadline_is_soon_but_never_past_next_transition() {
    let now = utc(2026, 7, 4, 9, 0, 0).with_timezone(&Local);
    let far_next = utc(2026, 7, 4, 15, 0, 0).with_timezone(&Local);
    let near_next = utc(2026, 7, 4, 9, 0, 30).with_timezone(&Local);
    assert_eq!(
        retry_deadline(now.timestamp_millis(), far_next.timestamp_millis()),
        (now + chrono::Duration::seconds(60)).timestamp_millis()
    );
    assert_eq!(
        retry_deadline(now.timestamp_millis(), near_next.timestamp_millis()),
        near_next.timestamp_millis()
    );
}

#[test]
fn failed_apply_then_wake_must_reapply_not_preserve() {
    let sunset = utc(2026, 7, 4, 15, 46, 5);
    let mut s = reconciled_at(sunset);
    let resume_at = ms(utc(2026, 7, 4, 17, 0, 0));
    assert_eq!(
        decide_tick(TickKind::Wake, Some(Theme::Light), Theme::Dark, resume_at, &s),
        TickAction::Apply
    );
    assert!(note_apply_failed(&mut s, Some(Theme::Light), ms(utc(2026, 7, 5, 2, 35, 0))));
    let unlock_at = ms(utc(2026, 7, 4, 17, 0, 10));
    assert_eq!(
        decide_tick(TickKind::Wake, Some(Theme::Light), Theme::Dark, unlock_at, &s),
        TickAction::Apply,
        "wake after failed apply must re-apply, not preserve the failure"
    );
}

#[test]
fn user_intervention_during_retry_window_stands_down() {
    let sunset = utc(2026, 7, 4, 15, 46, 5);
    let mut s = reconciled_at(sunset);
    assert!(note_apply_failed(&mut s, Some(Theme::Light), ms(utc(2026, 7, 5, 2, 35, 0))));
    let retry_at = ms(utc(2026, 7, 4, 16, 47, 5));
    assert_eq!(
        decide_tick(TickKind::Scheduled, Some(Theme::Dark), Theme::Dark, retry_at, &s),
        TickAction::CancelRetry
    );
    note_reconciled(&mut s, ms(utc(2026, 7, 5, 2, 35, 0)));
    assert_eq!(s.retry_count, 0);
}

#[test]
fn unreadable_current_does_not_cancel_retry() {
    let sunset = utc(2026, 7, 4, 15, 46, 5);
    let mut s = reconciled_at(sunset);
    assert!(note_apply_failed(&mut s, Some(Theme::Light), ms(utc(2026, 7, 5, 2, 35, 0))));
    let retry_at = ms(utc(2026, 7, 4, 16, 47, 5));
    assert_eq!(
        decide_tick(TickKind::Scheduled, None, Theme::Dark, retry_at, &s),
        TickAction::Apply
    );
}

#[test]
fn retry_budget_is_bounded_and_resets_per_episode() {
    let mut s = TickState::new();
    let next = ms(utc(2026, 7, 5, 2, 35, 0));
    assert!(note_apply_failed(&mut s, Some(Theme::Light), next));
    assert!(note_apply_failed(&mut s, Some(Theme::Light), next));
    assert!(note_apply_failed(&mut s, Some(Theme::Light), next));
    assert!(!note_apply_failed(&mut s, Some(Theme::Light), next));
    assert_eq!(s.retry_count, 0);
    assert_eq!(s.retry_baseline, None);
    assert!(note_apply_failed(&mut s, Some(Theme::Light), next));
}

#[test]
fn reconcile_clears_retry_episode() {
    let next = ms(utc(2026, 7, 5, 2, 35, 0));
    let mut s = TickState::new();
    assert!(note_apply_failed(&mut s, Some(Theme::Light), next));
    note_reconciled(&mut s, next);
    assert_eq!(s.retry_count, 0);
    assert_eq!(s.retry_baseline, None);
    assert_eq!(s.reconciled_next, Some(next));
}

// --- further checks of the tick rules ---

#[test]
fn failed_apply_keeps_reconciled_next() {
    let sunset = ms(utc(2026, 7, 4, 15, 46, 5));
    let mut s = TickState::new();
    note_reconciled(&mut s, sunset);
    note_apply_failed(&mut s, Some(Theme::Light), ms(utc(2026, 7, 5, 2, 35, 0)));
    assert_eq!(s.reconciled_next, Some(sunset));
    assert_eq!(s.retry_count, 1);
    assert_eq!(s.retry_baseline, Some(Theme::Light));
    assert_eq!(s.episode_next, Some(ms(utc(2026, 7, 5, 2, 35, 0))));
}

#[test]
fn intervention_after_episode_window_reconciles_instead() {
    let mut s = TickState::new();
    let episode_next = ms(utc(2026, 7, 5, 2, 35, 0));
    note_apply_failed(&mut s, Some(Theme::Light), episode_next);
    // The screen moved off the failure snapshot, but the episode's own
    // transition has passed: the schedule wins.
    assert_eq!(
        decide_tick(TickKind::Wake, Some(Theme::Dark), Theme::Light, episode_next, &s),
        TickAction::Apply
    );
}

#[test]
fn refresh_starts_with_fresh_budget() {
    let mut s = TickState::new();
    let next = ms(utc(2026, 7, 5, 2, 35, 0));
    note_apply_failed(&mut s, Some(Theme::Light), next);
    note_apply_failed(&mut s, Some(Theme::Light), next);
    let action = begin_tick(TickKind::Refresh, Some(Theme::Light), Theme::Dark, 0, &mut s);
    assert_eq!(action, TickAction::Apply);
    assert_eq!(s.retry_count, 0);
    assert_eq!(s.retry_baseline, None);
    assert_eq!(s.episode_next, None);
}

#[test]
fn begin_tick_leaves_state_alone_when_not_refreshing() {
    let mut s = TickState::new();
    let next = ms(utc(2026, 7, 5, 2, 35, 0));
    note_apply_failed(&mut s, Some(Theme::Light), next);
    let before = s;
    let action = begin_tick(TickKind::Scheduled, Some(Theme::Light), Theme::Dark, 0, &mut s);
    assert_eq!(action, TickAction::Apply);
    assert_eq!(s, before);
}

#[test]
fn finish_tick_schedules_bounded_retries() {
    let mut s = TickState::new();
    let now = ms(utc(2026, 7, 4, 16, 0, 0));
    let next = ms(utc(2026, 7, 5, 2, 35, 0));
    for n in 1..=MAX_APPLY_RETRIES {
        let (note, deadline) = finish_tick(&mut s, true, Some(Theme::Light), next, now);
        assert_eq!(note, RetryNote::Scheduled(n));
        assert_eq!(deadline, now + APPLY_RETRY_DELAY_MS);
    }
    let (note, deadline) = finish_tick(&mut s, true, Some(Theme::Light), next, now);
    assert_eq!(note, RetryNote::Exhausted);
    assert_eq!(deadline, next);
    assert_eq!(s.retry_count, 0);
}

#[test]
fn finish_tick_after_success_reconciles() {
    let mut s = TickState::new();
    let next = ms(utc(2026, 7, 5, 2, 35, 0));
    let (note, deadline) = finish_tick(&mut s, false, Some(Theme::Light), next, 0);
    assert_eq!(note, RetryNote::Clear);
    assert_eq!(deadline, next);
    assert_eq!(s.reconciled_next, Some(next));
}

#[test]
fn retry_deadline_equal_to_next() {
    assert_eq!(retry_deadline(0, APPLY_RETRY_DELAY_MS), APPLY_RETRY_DELAY_MS);
    assert_eq!(retry_deadline(-5, 10), 10);
}
