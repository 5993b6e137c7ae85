//! How a theme is applied: three methods tried best-first, and the watch
//! that confirms a file-based apply actually took effect.

use vstd::prelude::*;
use crate::theme::Theme;

verus! {

/// A way of applying a theme, best first.
#[derive(Debug, Clone, Copy, PartialEq, Eq, Structural)]
pub enum ApplyMethod {
    /// The shell's theme-manager COM interface (atomic, in-process).
    ThemeManager,
    /// Opening the `.theme` file through the shell, then watching for the
    /// change to show.
    ThemeFile,
    /// Writing the light/dark registry values directly (no wallpaper).
    Registry,
}

/// Rank of a method: lower is tried first.
pub open spec fn rank(m: ApplyMethod) -> int {
    match m {
        ApplyMethod::ThemeManager => 0,
        ApplyMethod::ThemeFile => 1,
        ApplyMethod::Registry => 2,
    }
}

/// The first method to try. Both file-based methods need the `.theme` file
/// to exist; without it only the registry is left.
pub fn first_method(file_exists: bool) -> (m: ApplyMethod)
    ensures
        m == if file_exists { ApplyMethod::ThemeManager } else { ApplyMethod::Registry },
{
    if file_exists { ApplyMethod::ThemeManager } else { ApplyMethod::Registry }
}

/// The method to try after `failed` did not work; `None` after the
/// registry write (the last resort) failed.
pub open spec fn next_method(failed: ApplyMethod, file_exists: bool) -> Option<ApplyMethod> {
    match failed {
        ApplyMethod::ThemeManager => Some(if file_exists { ApplyMethod::ThemeFile } else { ApplyMethod::Registry }),
        ApplyMethod::ThemeFile => Some(ApplyMethod::Registry),
        ApplyMethod::Registry => None,
    }
}

/// The method to try after `failed` did not work (`file_exists` tells
/// whether the `.theme` file is still there), or `None` when the registry
/// write itself failed and the apply is an error.
pub fn method_after_failure(failed: ApplyMethod, file_exists: bool) -> (m: Option<ApplyMethod>)
    ensures
        m == next_method(failed, file_exists),
        m matches Some(next) ==> rank(next) > rank(failed),
{
    match failed {
        ApplyMethod::ThemeManager => Some(if file_exists { ApplyMethod::ThemeFile } else { ApplyMethod::Registry }),
        ApplyMethod::ThemeFile => Some(ApplyMethod::Registry),
        ApplyMethod::Registry => None,
    }
}

impl ApplyMethod {
    /// The name logged for an apply done this way.
    pub fn log_name(self) -> (s: &'static str)
        ensures
            s@ == match self {
                ApplyMethod::ThemeManager => "theme-manager2"@,
                ApplyMethod::ThemeFile => "theme-file"@,
                ApplyMethod::Registry => "registry"@,
            },
    {
        match self {
            ApplyMethod::ThemeManager => "theme-manager2",
            ApplyMethod::ThemeFile => "theme-file",
            ApplyMethod::Registry => "registry",
        }
    }
}

/// The fallback chain is finite: whatever the first method and however
/// the file comes and goes, at most three methods are tried before an
/// apply either succeeds or fails for good.
pub proof fn lemma_fallback_chain_ends(first: ApplyMethod, e1: bool, e2: bool, e3: bool)
    ensures
        match next_method(first, e1) {
            None => true,
            Some(m2) => match next_method(m2, e2) {
                None => true,
                Some(m3) => next_method(m3, e3) is None,
            },
        },
{
}

/// Checks of the screen after a file-based apply before giving up on it.
pub const COMMIT_POLLS: u32 = 25;

/// Pause before each commit check, in milliseconds.
pub const COMMIT_POLL_MS: u64 = 200;

/// Checks of the screen after the registry fallback.
pub const CONFIRM_POLLS: u32 = 10;

/// Pause before each fallback check, in milliseconds.
pub const CONFIRM_POLL_MS: u64 = 100;

/// Where the watch of a file-based apply stands.
#[derive(Debug, Clone, Copy, PartialEq, Eq, Structural)]
pub enum CommitWatch {
    /// Waiting for the applied theme to show; `polls` checks done.
    AwaitingCommit { polls: u32 },
    /// The registry fallback was written; `polls` checks done.
    Confirming { polls: u32 },
}

/// What the watch does after a check.
#[derive(Debug, Clone, Copy, PartialEq, Eq, Structural)]
pub enum WatchStep {
    /// Wait, check again.
    Continue(CommitWatch),
    /// The theme showed: the apply committed.
    Committed,
    /// The theme never showed: fall back to writing the registry.
    TimedOut,
    /// After the fallback: whether the theme showed.
    FallbackDone(bool),
}

/// A watch is within its poll budget.
pub open spec fn watch_ok(w: CommitWatch) -> bool {
    match w {
        CommitWatch::AwaitingCommit { polls } => polls < COMMIT_POLLS,
        CommitWatch::Confirming { polls } => polls < CONFIRM_POLLS,
    }
}

/// The watch's next step after a check that saw `observed`.
pub open spec fn watch_step(w: CommitWatch, observed: Option<Theme>, target: Theme) -> WatchStep {
    match w {
        CommitWatch::AwaitingCommit { polls } => if observed == Some(target) {
            WatchStep::Committed
        } else if polls + 1 >= COMMIT_POLLS {
            WatchStep::TimedOut
        } else {
            WatchStep::Continue(CommitWatch::AwaitingCommit { polls: (polls + 1) as u32 })
        },
        CommitWatch::Confirming { polls } => if observed == Some(target) {
            WatchStep::FallbackDone(true)
        } else if polls + 1 >= CONFIRM_POLLS {
            WatchStep::FallbackDone(false)
        } else {
            WatchStep::Continue(CommitWatch::Confirming { polls: (polls + 1) as u32 })
        },
    }
}

/// Remaining checks a watch may still make (the measure that ends it).
pub open spec fn watch_remaining(w: CommitWatch) -> int {
    match w {
        CommitWatch::AwaitingCommit { polls } => COMMIT_POLLS - polls + CONFIRM_POLLS,
        CommitWatch::Confirming { polls } => CONFIRM_POLLS - polls,
    }
}

impl CommitWatch {
    /// A watch that has not checked yet.
    pub fn start() -> (w: CommitWatch)
        ensures
            w == (CommitWatch::AwaitingCommit { polls: 0 }),
            watch_ok(w),
    {
        CommitWatch::AwaitingCommit { polls: 0 }
    }

    /// The watch after the registry fallback was written.
    pub fn confirming() -> (w: CommitWatch)
        ensures
            w == (CommitWatch::Confirming { polls: 0 }),
            watch_ok(w),
    {
        CommitWatch::Confirming { polls: 0 }
    }

    /// How long to wait before the next check.
    pub fn poll_interval_ms(&self) -> (ms: u64)
        ensures
            ms == match *self {
                CommitWatch::AwaitingCommit { .. } => COMMIT_POLL_MS,
                CommitWatch::Confirming { .. } => CONFIRM_POLL_MS,
            },
    {
        match self {
            CommitWatch::AwaitingCommit { .. } => COMMIT_POLL_MS,
            CommitWatch::Confirming { .. } => CONFIRM_POLL_MS,
        }
    }

    /// Decide after a check that saw `observed` on screen.
    pub fn observe(&self, observed: Option<Theme>, target: Theme) -> (s: WatchStep)
        requires
            watch_ok(*self),
        ensures
            s == watch_step(*self, observed, target),
            s matches WatchStep::Continue(w) ==> watch_ok(w) && watch_remaining(w) < watch_remaining(*self),
    {
        let seen = match (observed, target) {
            (Some(Theme::Light), Theme::Light) => true,
            (Some(Theme::Dark), Theme::Dark) => true,
            _ => false,
        };
        match *self {
            CommitWatch::AwaitingCommit { polls } => if seen {
                WatchStep::Committed
            } else if polls + 1 >= COMMIT_POLLS {
                WatchStep::TimedOut
            } else {
                WatchStep::Continue(CommitWatch::AwaitingCommit { polls: polls + 1 })
            },
            CommitWatch::Confirming { polls } => if seen {
                WatchStep::FallbackDone(true)
            } else if polls + 1 >= CONFIRM_POLLS {
                WatchStep::FallbackDone(false)
            } else {
                WatchStep::Continue(CommitWatch::Confirming { polls: polls + 1 })
            },
        }
    }
}

/// The watch always ends: a watch within budget can keep going at most
/// `COMMIT_POLLS + CONFIRM_POLLS` checks, and every check that does not end
/// it uses one of them up.
pub proof fn lemma_watch_is_bounded(w: CommitWatch, observed: Option<Theme>, target: Theme)
    requires
        watch_ok(w),
    ensures
        0 < watch_remaining(w) <= COMMIT_POLLS + CONFIRM_POLLS,
        watch_step(w, observed, target) matches WatchStep::Continue(n) ==> watch_remaining(n) == watch_remaining(w) - 1,
{
}


/// What to do with one installed theme while looking for the one to apply.
#[derive(Debug, Clone, Copy, PartialEq, Eq, Structural)]
pub enum EnumStep {
    /// Its display name is the target's: apply it and stop looking.
    Apply,
    /// Another theme: look at the next one.
    Next,
    /// Its name could not be read: log it and look at the next one.
    SkipUnreadable,
}

/// Themes are looked at in the manager's order; the first whose display
/// name equals the `.theme` file's `DisplayName` is applied, unreadable
/// names are skipped, and running out of themes without a match is an
/// error.
pub fn theme_enum_step(name: Option<&String>, target: &String) -> (s: EnumStep)
    ensures
        s == match name {
            Some(n) => if n@ == target@ { EnumStep::Apply } else { EnumStep::Next },
            None => EnumStep::SkipUnreadable,
        },
{
    match name {
        Some(n) => if *n == *target { EnumStep::Apply } else { EnumStep::Next },
        None => EnumStep::SkipUnreadable,
    }
}

/// Index of the theme the enumeration applies: the least index whose name
/// was read and equals the target.
pub open spec fn picked_theme(names: Seq<Option<Seq<char>>>, target: Seq<char>) -> Option<int>
    decreases names.len(),
{
    if names.len() == 0 {
        None
    } else {
        match picked_theme(names.drop_last(), target) {
            Some(i) => Some(i),
            None => if names.last() == Some(target) { Some(names.len() - 1) } else { None },
        }
    }
}

/// Applying the step to each name in order stops at exactly the least
/// matching index: every earlier name is unreadable or different.
pub proof fn lemma_enumeration_picks_first_match(names: Seq<Option<Seq<char>>>, target: Seq<char>)
    ensures
        picked_theme(names, target) matches Some(i) ==> 0 <= i < names.len() && names[i] == Some(target)
            && forall|j: int| 0 <= j < i ==> #[trigger] names[j] != Some(target),
        picked_theme(names, target) is None ==> forall|j: int| 0 <= j < names.len() ==> #[trigger] names[j] != Some(target),
    decreases names.len(),
{
    if names.len() > 0 {
        let pre = names.drop_last();
        lemma_enumeration_picks_first_match(pre, target);
        assert forall|j: int| 0 <= j < pre.len() implies names[j] == pre[j] by {}
        assert(names.last() == names[names.len() - 1]);
    }
}

/// Rounds of looking for a Settings window to close after a file-based
/// apply.
pub const CLOSER_ROUNDS: u32 = 14;

/// Pause before each round, in milliseconds.
pub const CLOSER_POLL_MS: u64 = 150;

/// The Settings-window closer: it looks for the window every round for a
/// fixed number of rounds (a Settings window may open late or reopen),
/// closing what it finds, and logs only the first close.
#[derive(Debug, Clone, Copy, PartialEq, Eq, Structural)]
pub struct SettingsCloser {
    /// Rounds already done.
    pub rounds_done: u32,
    /// Whether a close was already logged.
    pub close_logged: bool,
}

impl SettingsCloser {
    /// A closer that has not looked yet.
    pub fn start() -> (c: SettingsCloser)
        ensures
            c == (SettingsCloser { rounds_done: 0, close_logged: false }),
    {
        SettingsCloser { rounds_done: 0, close_logged: false }
    }

    /// How long to wait before the next round, or `None` when all rounds
    /// are done.
    pub fn next_round_wait_ms(&self) -> (w: Option<u64>)
        ensures
            w == if self.rounds_done < CLOSER_ROUNDS { Some(CLOSER_POLL_MS) } else { None::<u64> },
    {
        if self.rounds_done < CLOSER_ROUNDS { Some(CLOSER_POLL_MS) } else { None }
    }

    /// Record that a Settings window was found and closed; returns whether
    /// to log it (only the first close is logged).
    pub fn window_closed(&mut self) -> (log: bool)
        ensures
            log == !old(self).close_logged,
            *final(self) == (SettingsCloser { close_logged: true, ..*old(self) }),
    {
        let log = !self.close_logged;
        self.close_logged = true;
        log
    }

    /// Record the end of a round.
    pub fn finish_round(&mut self)
        requires
            old(self).rounds_done < CLOSER_ROUNDS,
        ensures
            *final(self) == (SettingsCloser { rounds_done: (old(self).rounds_done + 1) as u32, ..*old(self) }),
    {
        self.rounds_done = self.rounds_done + 1;
    }
}


/// A check that sees the target on screen ends the watch, for either
/// theme: before the fallback it is a commit, after it a confirmed
/// fallback. A check that does not see it never claims either.
pub proof fn lemma_seen_target_ends_watch(polls: u32, observed: Option<Theme>, target: Theme)
    ensures
        observed == Some(target) ==> watch_step(CommitWatch::AwaitingCommit { polls }, observed, target)
            == WatchStep::Committed,
        observed == Some(target) ==> watch_step(CommitWatch::Confirming { polls }, observed, target)
            == WatchStep::FallbackDone(true),
        observed != Some(target) ==> watch_step(CommitWatch::AwaitingCommit { polls }, observed, target)
            != WatchStep::Committed,
        observed != Some(target) ==> watch_step(CommitWatch::Confirming { polls }, observed, target)
            != WatchStep::FallbackDone(true),
{
}

} // verus!
