//! When to (re)apply a theme: the per-tick decision, the bookkeeping that
//! follows an apply, and the bounded retry after a failed apply.
//!
//! Instants are milliseconds since the Unix epoch (UTC).

use vstd::prelude::*;
use crate::theme::Theme;

verus! {

/// How long after a failed apply the bounded retry fires, in milliseconds.
pub const APPLY_RETRY_DELAY_MS: i64 = 60_000;

/// Consecutive failures after which retrying stops until the next
/// scheduled transition.
pub const MAX_APPLY_RETRIES: u32 = 3;

/// Why a tick is running.
#[derive(Debug, Clone, Copy, PartialEq, Eq, Structural)]
pub enum TickKind {
    /// First tick after launch.
    Init,
    /// A scheduled sunrise/sunset was reached (or a retry deadline).
    Scheduled,
    /// Session unlock or resume from sleep.
    Wake,
    /// The user asked for a refresh.
    Refresh,
}

/// What a tick decided to do.
#[derive(Debug, Clone, Copy, PartialEq, Eq, Structural)]
pub enum TickAction {
    /// Apply the scheduled theme.
    Apply,
    /// The screen already shows the scheduled theme.
    SkipInSync,
    /// A wake tick found the screen diverging although no transition passed
    /// since the last reconciled tick: a manual override is kept.
    SkipOverride,
    /// The user changed the theme while a retry was pending: the retry
    /// episode is cancelled and their choice stands.
    CancelRetry,
}

/// Per-session tick bookkeeping.
#[derive(Debug, Clone, Copy, PartialEq, Eq, Structural)]
pub struct TickState {
    /// Next scheduled transition recorded by the last tick that ended in
    /// sync with the schedule. A failed apply leaves it untouched.
    pub reconciled_next: Option<i64>,
    /// Consecutive failed applies in the current failure episode.
    pub retry_count: u32,
    /// Theme observed on screen when the last apply failed.
    pub retry_baseline: Option<Theme>,
    /// Next transition as computed by the tick whose apply failed; the
    /// failure episode ends there.
    pub episode_next: Option<i64>,
}

/// The state every session starts from.
pub open spec fn initial_state() -> TickState {
    TickState { reconciled_next: None, retry_count: 0, retry_baseline: None, episode_next: None }
}

/// The state after a tick that ended in sync with the schedule, whose next
/// transition is `next`.
pub open spec fn reconciled_state(next: i64) -> TickState {
    TickState { reconciled_next: Some(next), retry_count: 0, retry_baseline: None, episode_next: None }
}

/// The retry budget is never over its bound.
pub open spec fn budget_ok(s: TickState) -> bool {
    s.retry_count <= MAX_APPLY_RETRIES
}

/// A retry is pending and the screen has visibly moved off the failure
/// snapshot before the episode's own transition.
pub open spec fn user_intervened(s: TickState, current: Option<Theme>, now: i64) -> bool {
    &&& s.retry_count > 0
    &&& s.retry_baseline is Some
    &&& current is Some
    &&& current != s.retry_baseline
    &&& match s.episode_next {
        Some(n) => now < n,
        None => false,
    }
}

/// At least one transition has passed since the last reconciled tick (or
/// there never was one).
pub open spec fn transition_passed(s: TickState, now: i64) -> bool {
    match s.reconciled_next {
        Some(n) => now >= n,
        None => true,
    }
}

/// The tick decision.
pub open spec fn tick_decision(
    kind: TickKind,
    current: Option<Theme>,
    target: Theme,
    now: i64,
    s: TickState,
) -> TickAction {
    if kind == TickKind::Refresh {
        TickAction::Apply
    } else if user_intervened(s, current, now) {
        TickAction::CancelRetry
    } else if current == Some(target) {
        TickAction::SkipInSync
    } else if kind == TickKind::Wake && !transition_passed(s, now) && s.retry_count == 0 {
        TickAction::SkipOverride
    } else {
        TickAction::Apply
    }
}

impl TickState {
    /// A fresh session: never reconciled, no retry pending.
    pub fn new() -> (s: TickState)
        ensures
            s == initial_state(),
    {
        TickState { reconciled_next: None, retry_count: 0, retry_baseline: None, episode_next: None }
    }
}

fn same_theme(a: Option<Theme>, b: Option<Theme>) -> (r: bool)
    ensures
        r == (a == b),
{
    match (a, b) {
        (Some(Theme::Light), Some(Theme::Light)) => true,
        (Some(Theme::Dark), Some(Theme::Dark)) => true,
        (None, None) => true,
        _ => false,
    }
}

/// Decide what a tick does, from the state before the tick.
///
/// Refresh always applies. Otherwise a pending retry is cancelled when the
/// screen visibly moved off the failure snapshot within the episode; a
/// screen that already matches is left alone; a wake tick with no
/// transition passed and no retry pending keeps a manual override; anything
/// else applies.
pub fn decide_tick(
    kind: TickKind,
    current: Option<Theme>,
    target: Theme,
    now: i64,
    state: &TickState,
) -> (r: TickAction)
    ensures
        r == tick_decision(kind, current, target, now, *state),
{
    if let TickKind::Refresh = kind {
        return TickAction::Apply;
    }
    let within_episode = match state.episode_next {
        Some(n) => now < n,
        None => false,
    };
    if state.retry_count > 0 && state.retry_baseline.is_some() && current.is_some()
        && !same_theme(current, state.retry_baseline) && within_episode {
        return TickAction::CancelRetry;
    }
    if same_theme(current, Some(target)) {
        return TickAction::SkipInSync;
    }
    let passed = match state.reconciled_next {
        Some(n) => now >= n,
        None => true,
    };
    if let TickKind::Wake = kind {
        if !passed && state.retry_count == 0 {
            return TickAction::SkipOverride;
        }
    }
    TickAction::Apply
}

/// Record a tick that ended in sync with the schedule.
pub fn note_reconciled(state: &mut TickState, next: i64)
    ensures
        *final(state) == reconciled_state(next),
{
    state.reconciled_next = Some(next);
    state.retry_count = 0;
    state.retry_baseline = None;
    state.episode_next = None;
}

/// The state after a failed apply observed `observed` on screen with `next`
/// as the scheduled transition: a retry is counted while the budget lasts,
/// else the episode resets. The last reconciled transition is kept.
pub open spec fn failed_state(s: TickState, observed: Option<Theme>, next: i64) -> TickState {
    if s.retry_count < MAX_APPLY_RETRIES {
        TickState {
            reconciled_next: s.reconciled_next,
            retry_count: (s.retry_count + 1) as u32,
            retry_baseline: observed,
            episode_next: Some(next),
        }
    } else {
        TickState {
            reconciled_next: s.reconciled_next,
            retry_count: 0,
            retry_baseline: None,
            episode_next: None,
        }
    }
}

/// Record a failed apply. Returns true when a quick retry should be
/// scheduled; false when the budget is used up, in which case the episode
/// is reset so the next transition window starts with a fresh budget.
/// `reconciled_next` is never touched.
pub fn note_apply_failed(state: &mut TickState, observed: Option<Theme>, next: i64) -> (retry: bool)
    requires
        old(state).retry_count < u32::MAX,
    ensures
        retry == (old(state).retry_count < MAX_APPLY_RETRIES),
        *final(state) == failed_state(*old(state), observed, next),
{
    state.retry_count = state.retry_count + 1;
    state.retry_baseline = observed;
    if state.retry_count > MAX_APPLY_RETRIES {
        state.retry_count = 0;
        state.retry_baseline = None;
        state.episode_next = None;
        false
    } else {
        state.episode_next = Some(next);
        true
    }
}

/// Deadline of the next tick after a failed apply: soon, but never past the
/// scheduled transition.
pub fn retry_deadline(now: i64, next: i64) -> (d: i64)
    requires
        now <= i64::MAX - APPLY_RETRY_DELAY_MS,
    ensures
        d == if next <= now + APPLY_RETRY_DELAY_MS { next as int } else { now + APPLY_RETRY_DELAY_MS },
{
    let soon = now + APPLY_RETRY_DELAY_MS;
    if next <= soon {
        next
    } else {
        soon
    }
}


/// The state with the retry episode cleared (a Refresh never inherits a
/// burned retry budget).
pub open spec fn cleared_episode(s: TickState) -> TickState {
    TickState { retry_count: 0, retry_baseline: None, episode_next: None, ..s }
}

/// Whether a tick goes on to the schedule.
#[derive(Debug, Clone, Copy, PartialEq, Eq, Structural)]
pub enum TickGate {
    /// No location is configured: log the skip and wait for an event,
    /// leaving the tick state as it is.
    SkipNoLocation,
    /// Compute the schedule and decide.
    Proceed,
}

/// The first step of every tick: without a location there is no schedule.
pub fn tick_gate(has_location: bool) -> (g: TickGate)
    ensures
        g == if has_location { TickGate::Proceed } else { TickGate::SkipNoLocation },
{
    if has_location { TickGate::Proceed } else { TickGate::SkipNoLocation }
}

/// How a tick's retry bookkeeping ended.
#[derive(Debug, Clone, Copy, PartialEq, Eq, Structural)]
pub enum RetryNote {
    /// The tick ended in sync with the schedule: no retry.
    Clear,
    /// The apply failed and retry number `n` is scheduled.
    Scheduled(u32),
    /// The apply failed and the retry budget is used up.
    Exhausted,
}

/// First half of a tick, before any apply: decide from the pre-tick state,
/// and when a Refresh is about to apply, start it with a fresh retry budget.
pub fn begin_tick(
    kind: TickKind,
    current: Option<Theme>,
    target: Theme,
    now: i64,
    state: &mut TickState,
) -> (r: TickAction)
    ensures
        r == tick_decision(kind, current, target, now, *old(state)),
        *final(state) == if r == TickAction::Apply && kind == TickKind::Refresh {
            cleared_episode(*old(state))
        } else {
            *old(state)
        },
{
    let action = decide_tick(kind, current, target, now, state);
    if let TickAction::Apply = action {
        if let TickKind::Refresh = kind {
            state.retry_count = 0;
            state.retry_baseline = None;
            state.episode_next = None;
        }
    }
    action
}

/// Second half of a tick, once the outcome is known. `apply_failed` is true
/// only when the tick applied and the apply returned an error; `current` is
/// the theme observed before the apply, `next` the scheduled transition and
/// `now` the time after the apply. Returns the retry note and the deadline
/// of the next tick.
pub fn finish_tick(
    state: &mut TickState,
    apply_failed: bool,
    current: Option<Theme>,
    next: i64,
    now: i64,
) -> (r: (RetryNote, i64))
    requires
        old(state).retry_count < u32::MAX,
        now <= i64::MAX - APPLY_RETRY_DELAY_MS,
    ensures
        !apply_failed ==> r == (RetryNote::Clear, next) && *final(state) == reconciled_state(next),
        apply_failed && old(state).retry_count < MAX_APPLY_RETRIES ==> {
            &&& r.0 == RetryNote::Scheduled((old(state).retry_count + 1) as u32)
            &&& r.1 == if next <= now + APPLY_RETRY_DELAY_MS { next as int } else { now + APPLY_RETRY_DELAY_MS }
            &&& *final(state) == (TickState {
                reconciled_next: old(state).reconciled_next,
                retry_count: (old(state).retry_count + 1) as u32,
                retry_baseline: current,
                episode_next: Some(next),
            })
        },
        apply_failed && old(state).retry_count >= MAX_APPLY_RETRIES ==> {
            &&& r == (RetryNote::Exhausted, next)
            &&& *final(state) == (TickState {
                reconciled_next: old(state).reconciled_next,
                retry_count: 0,
                retry_baseline: None,
                episode_next: None,
            })
        },
{
    if !apply_failed {
        note_reconciled(state, next);
        (RetryNote::Clear, next)
    } else if note_apply_failed(state, current, next) {
        (RetryNote::Scheduled(state.retry_count), retry_deadline(now, next))
    } else {
        (RetryNote::Exhausted, next)
    }
}

/// A Refresh always applies, whatever the screen and the state.
pub proof fn lemma_refresh_always_applies(current: Option<Theme>, target: Theme, now: i64, s: TickState)
    ensures
        tick_decision(TickKind::Refresh, current, target, now, s) == TickAction::Apply,
{
}

/// With no retry pending, a tick other than Refresh leaves a screen that
/// already shows the scheduled theme alone.
pub proof fn lemma_in_sync_is_skipped(kind: TickKind, target: Theme, now: i64, s: TickState)
    requires
        kind != TickKind::Refresh,
        s.retry_count == 0,
    ensures
        tick_decision(kind, Some(target), target, now, s) == TickAction::SkipInSync,
{
}

/// A manual override survives a wake: after a reconciled tick whose next
/// transition is `next`, a wake before `next` that finds the screen off the
/// schedule (or unreadable) keeps it.
pub proof fn lemma_override_kept_until_next_transition(
    next: i64,
    current: Option<Theme>,
    target: Theme,
    now: i64,
)
    requires
        now < next,
        current != Some(target),
    ensures
        tick_decision(TickKind::Wake, current, target, now, reconciled_state(next))
            == TickAction::SkipOverride,
{
}

/// A natural transition ends any override: once `now` reaches the recorded
/// next transition, a tick that finds the screen off the schedule applies,
/// however many transitions were missed meanwhile.
pub proof fn lemma_transition_ends_override(
    kind: TickKind,
    next: i64,
    current: Option<Theme>,
    target: Theme,
    now: i64,
)
    requires
        now >= next,
        current != Some(target),
    ensures
        tick_decision(kind, current, target, now, reconciled_state(next)) == TickAction::Apply,
{
}

/// A failed apply is never mistaken for an override: while a failure
/// episode is pending, no tick keeps the diverging screen as an override.
pub proof fn lemma_failure_never_preserved_as_override(
    kind: TickKind,
    current: Option<Theme>,
    target: Theme,
    now: i64,
    s: TickState,
)
    requires
        s.retry_count > 0,
    ensures
        tick_decision(kind, current, target, now, s) != TickAction::SkipOverride,
{
}

/// An unreadable screen proves nothing about the user: it never cancels a
/// pending retry.
pub proof fn lemma_unreadable_never_cancels(
    kind: TickKind,
    target: Theme,
    now: i64,
    s: TickState,
)
    ensures
        tick_decision(kind, None, target, now, s) != TickAction::CancelRetry,
{
}

/// A user who changes the theme during a retry window stands the retry
/// down: after a failed apply that observed `observed` and scheduled a
/// retry, a tick (other than Refresh) before the episode's transition that
/// sees a different theme cancels the retry.
pub proof fn lemma_intervention_cancels_retry(
    s: TickState,
    observed: Theme,
    seen: Theme,
    next: i64,
    kind: TickKind,
    target: Theme,
    now: i64,
)
    requires
        s.retry_count < MAX_APPLY_RETRIES,
        kind != TickKind::Refresh,
        seen != observed,
        now < next,
    ensures
        ({
            let after = TickState {
                reconciled_next: s.reconciled_next,
                retry_count: (s.retry_count + 1) as u32,
                retry_baseline: Some(observed),
                episode_next: Some(next),
            };
            tick_decision(kind, Some(seen), target, now, after) == TickAction::CancelRetry
        }),
{
}

/// The retry budget is bounded: whatever a tick does, a state within budget
/// stays within budget, and a failure schedules a retry exactly while the
/// budget lasts.
pub proof fn lemma_budget_preserved(s: TickState, observed: Option<Theme>, next: i64)
    requires
        budget_ok(s),
    ensures
        budget_ok(reconciled_state(next)),
        budget_ok(cleared_episode(s)),
        budget_ok(if s.retry_count < MAX_APPLY_RETRIES {
            TickState {
                retry_count: (s.retry_count + 1) as u32,
                retry_baseline: observed,
                episode_next: Some(next),
                ..s
            }
        } else {
            TickState { retry_count: 0, retry_baseline: None, episode_next: None, ..s }
        }),
{
}


/// On every state a session reaches (the budget never exceeds its bound), a
/// failed apply leaves the last reconciled transition stale and, while a
/// retry is scheduled, the next tick never keeps the diverging screen as an
/// override: a later wake re-applies instead of mistaking the failure for
/// the user's choice.
pub proof fn lemma_failed_apply_stays_unreconciled(
    s: TickState,
    observed: Option<Theme>,
    next: i64,
    kind: TickKind,
    current: Option<Theme>,
    target: Theme,
    now: i64,
)
    requires
        budget_ok(s),
    ensures
        failed_state(s, observed, next).reconciled_next == s.reconciled_next,
        budget_ok(failed_state(s, observed, next)),
        s.retry_count < MAX_APPLY_RETRIES ==> tick_decision(kind, current, target, now, failed_state(s, observed, next))
            != TickAction::SkipOverride,
{
}


/// Only a wake can keep a diverging screen as an override: every other
/// tick (launch, schedule, refresh) that finds the screen off the schedule
/// either applies or stands a retry down.
pub proof fn lemma_only_wake_keeps_override(
    kind: TickKind,
    current: Option<Theme>,
    target: Theme,
    now: i64,
    s: TickState,
)
    ensures
        tick_decision(kind, current, target, now, s) == TickAction::SkipOverride ==> kind == TickKind::Wake,
        kind != TickKind::Wake && current != Some(target) && !user_intervened(s, current, now)
            ==> tick_decision(kind, current, target, now, s) == TickAction::Apply,
{
}

/// The first tick after launch applies the schedule whenever the screen is
/// off it (or unreadable), whatever the time.
pub proof fn lemma_launch_applies_schedule(current: Option<Theme>, target: Theme, now: i64)
    requires
        current != Some(target),
    ensures
        tick_decision(TickKind::Init, current, target, now, initial_state()) == TickAction::Apply,
{
}

} // verus!
