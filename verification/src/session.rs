//! Session-level rules: which config a session runs on and whether it may
//! write it back, how long to sleep until a deadline, and whether this
//! process is the single instance.

use vstd::prelude::*;
use crate::config::{Config, is_default_config};
use crate::text::push_char;
use crate::tick::TickKind;

verus! {

/// The config a session runs on and what it may do with it.
#[derive(Debug, Clone)]
pub struct ConfigPlan {
    /// The settings in effect.
    pub config: Config,
    /// Whether `config.json` may be written back. False when the file is
    /// broken: it must stay as the user left it so they can repair it. (At
    /// startup a broken file also leaves the auto-start entry as it is; a
    /// refresh re-asserts it from the settings in effect either way.)
    pub writable: bool,
    /// An error to report to the user.
    pub error: Option<String>,
}

/// The config a session starts on, from the result of loading the file.
/// A broken file leaves the session on the defaults, read-only, with the
/// error to report.
pub fn startup_plan(loaded: Result<Config, String>) -> (p: ConfigPlan)
    ensures
        match loaded {
            Ok(c) => p.config == c && p.writable && p.error is None,
            Err(e) => is_default_config(p.config) && !p.writable && p.error == Some(e),
        },
{
    match loaded {
        Ok(c) => ConfigPlan { config: c, writable: true, error: None },
        Err(e) => ConfigPlan { config: Config::default(), writable: false, error: Some(e) },
    }
}

/// The config a session continues on after a refresh re-read the file. A
/// broken file keeps the last settings that loaded, read-only, with the
/// error to report.
pub fn refresh_plan(last_good: Config, loaded: Result<Config, String>) -> (p: ConfigPlan)
    ensures
        match loaded {
            Ok(c) => p.config == c && p.writable && p.error is None,
            Err(e) => p.config == last_good && !p.writable && p.error == Some(e),
        },
{
    match loaded {
        Ok(c) => ConfigPlan { config: c, writable: true, error: None },
        Err(e) => ConfigPlan { config: last_good, writable: false, error: Some(e) },
    }
}

/// How long to sleep from `now` until `deadline`, in milliseconds. A
/// deadline already past gives one second.
pub fn wait_ms(now: i64, deadline: i64) -> (ms: u64)
    ensures
        ms == if deadline >= now { deadline - now } else { 1000 },
{
    if deadline >= now {
        let d = (deadline as i128) - (now as i128);
        d as u64
    } else {
        1000
    }
}

/// What a process does after trying to claim the single-instance mutex.
#[derive(Debug, Clone, Copy, PartialEq, Eq, Structural)]
pub enum InstanceVerdict {
    /// This is the only instance.
    Run,
    /// The mutex could not be created: log it and run anyway.
    RunUnguarded,
    /// Another instance holds the mutex: tell the user and exit.
    Exit,
}

/// Decide from whether the mutex handle was obtained and whether it
/// already existed.
pub fn instance_verdict(got_handle: bool, already_exists: bool) -> (v: InstanceVerdict)
    ensures
        v == if got_handle && already_exists {
            InstanceVerdict::Exit
        } else if !got_handle {
            InstanceVerdict::RunUnguarded
        } else {
            InstanceVerdict::Run
        },
{
    if got_handle && already_exists {
        InstanceVerdict::Exit
    } else if !got_handle {
        InstanceVerdict::RunUnguarded
    } else {
        InstanceVerdict::Run
    }
}

/// The command line stored in the auto-start registry entry: the program's
/// path in double quotes.
pub fn autostart_command(exe_path: &str) -> (r: String)
    ensures
        r@ == seq!['"'] + exe_path@ + seq!['"'],
{
    let mut r = String::new();
    push_char(&mut r, '"');
    r.append(exe_path);
    push_char(&mut r, '"');
    assert(r@ =~= seq!['"'] + exe_path@ + seq!['"']);
    r
}


/// Attempts at registering for session (unlock) notifications. The session
/// service may not be up yet when the app starts at logon.
pub const WTS_ATTEMPTS: u32 = 3;

/// Pause after a failed registration attempt, in milliseconds.
pub const WTS_RETRY_MS: u64 = 2000;

/// What follows one attempt at registering for session notifications.
#[derive(Debug, Clone, Copy, PartialEq, Eq, Structural)]
pub enum WtsStep {
    /// Registered; log the recovery when an earlier attempt had failed.
    Registered { log_recovered: bool },
    /// Failed: log it, wait `wait_ms`, then try again if `retry`.
    Failed { wait_ms: u64, retry: bool },
}

/// Decide after attempt number `attempt` (from 1).
pub fn wts_register_step(attempt: u32, registered: bool) -> (s: WtsStep)
    requires
        1 <= attempt <= WTS_ATTEMPTS,
    ensures
        registered ==> s == (WtsStep::Registered { log_recovered: attempt > 1 }),
        !registered ==> s == (WtsStep::Failed { wait_ms: WTS_RETRY_MS, retry: attempt < WTS_ATTEMPTS }),
{
    if registered {
        WtsStep::Registered { log_recovered: attempt > 1 }
    } else {
        WtsStep::Failed { wait_ms: WTS_RETRY_MS, retry: attempt < WTS_ATTEMPTS }
    }
}

/// Size of the event log, in bytes, past which it is rotated.
pub const LOG_ROTATE_BYTES: u64 = 262_144;

/// Whether a log of `len` bytes is rotated before the next line.
pub fn log_needs_rotation(len: u64) -> (r: bool)
    ensures
        r == (len > LOG_ROTATE_BYTES),
{
    len > LOG_ROTATE_BYTES
}

/// First step when the config has no location.
#[derive(Debug, Clone, Copy, PartialEq, Eq, Structural)]
pub enum LocationStep {
    /// The system reported a location: use it and save it to the config.
    UseAndSave,
    /// No location: ask the user whether to enable location services.
    AskUser,
}

/// The first-run location flow starts from whether a location was found.
pub fn first_run_step(found: bool) -> (s: LocationStep)
    ensures
        s == if found { LocationStep::UseAndSave } else { LocationStep::AskUser },
{
    if found { LocationStep::UseAndSave } else { LocationStep::AskUser }
}

/// What follows the user's answer to "enable location services?".
#[derive(Debug, Clone, Copy, PartialEq, Eq, Structural)]
pub enum SetupStep {
    /// Yes: open the location privacy settings and say what to do next.
    OpenLocationSettings,
    /// No: ask for coordinates in the config and open it in an editor.
    ManualSetup,
}

/// Decide from the user's answer.
pub fn setup_after_prompt(enable: bool) -> (s: SetupStep)
    ensures
        s == if enable { SetupStep::OpenLocationSettings } else { SetupStep::ManualSetup },
{
    if enable { SetupStep::OpenLocationSettings } else { SetupStep::ManualSetup }
}


/// What the event loop received.
#[derive(Debug, Clone, Copy, PartialEq, Eq, Structural)]
pub enum UiEvent {
    /// The loop started.
    Started,
    /// The scheduled deadline was reached.
    DeadlineReached,
    /// The session was unlocked.
    Unlocked,
    /// The machine resumed from sleep.
    Resumed,
    /// Tray menu: Quit.
    MenuQuit,
    /// Tray menu: Open Config.
    MenuOpenConfig,
    /// Tray menu: Toggle Theme.
    MenuToggle,
    /// Tray menu: Refresh.
    MenuRefresh,
    /// Anything else (including theme-change broadcasts).
    Other,
}

/// What the event loop does with an event.
#[derive(Debug, Clone, Copy, PartialEq, Eq)]
pub enum EventAction {
    /// Run a tick of this kind, logged with this cause.
    Tick { kind: TickKind, cause: &'static str },
    /// Leave the event loop.
    Exit,
    /// Open the config file in an editor.
    OpenConfig,
    /// Apply the opposite of the theme on screen as a manual override. It
    /// is no tick: the tick state and the pending deadline stay as they
    /// are, so the override lasts until the next natural transition.
    Toggle,
    /// Re-read the config, re-assert auto-start, then run a Refresh tick.
    ReloadThenRefresh,
    /// Nothing.
    Ignore,
}

/// The event-to-action rule of the event loop. Only the start, a reached
/// deadline, an unlock or a resume tick; other events never do (a theme
/// change made in Settings must not be undone by a tick).
pub fn dispatch(event: UiEvent) -> (a: EventAction)
    ensures
        a == match event {
            UiEvent::Started => EventAction::Tick { kind: TickKind::Init, cause: "init" },
            UiEvent::DeadlineReached => EventAction::Tick { kind: TickKind::Scheduled, cause: "resume-time" },
            UiEvent::Unlocked => EventAction::Tick { kind: TickKind::Wake, cause: "wake-unlock" },
            UiEvent::Resumed => EventAction::Tick { kind: TickKind::Wake, cause: "wake-power" },
            UiEvent::MenuQuit => EventAction::Exit,
            UiEvent::MenuOpenConfig => EventAction::OpenConfig,
            UiEvent::MenuToggle => EventAction::Toggle,
            UiEvent::MenuRefresh => EventAction::ReloadThenRefresh,
            UiEvent::Other => EventAction::Ignore,
        },
{
    match event {
        UiEvent::Started => EventAction::Tick { kind: TickKind::Init, cause: "init" },
        UiEvent::DeadlineReached => EventAction::Tick { kind: TickKind::Scheduled, cause: "resume-time" },
        UiEvent::Unlocked => EventAction::Tick { kind: TickKind::Wake, cause: "wake-unlock" },
        UiEvent::Resumed => EventAction::Tick { kind: TickKind::Wake, cause: "wake-power" },
        UiEvent::MenuQuit => EventAction::Exit,
        UiEvent::MenuOpenConfig => EventAction::OpenConfig,
        UiEvent::MenuToggle => EventAction::Toggle,
        UiEvent::MenuRefresh => EventAction::ReloadThenRefresh,
        UiEvent::Other => EventAction::Ignore,
    }
}

} // verus!
