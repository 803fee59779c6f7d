//! The decisions of the background monitor and of the early-boot guard.
use vstd::prelude::*;
use crate::clock::{format_hhmm, hhmm_text, parse_hhmm, parse_hhmm_spec, ClockTime, Instant, LocalDate, LocalDateTime};
use crate::config::{date_key, day_key, resolve_activation, resolve_spec, AppConfig, ScheduleField};
use crate::text::{concat2, owned, text_eq};

verus! {

/// How the desktop application starts: normally, or as the lock screen shown
/// before today's activation time (`activation` is that time as `HH:MM`).
#[derive(Clone, Debug)]
pub enum LaunchMode {
    Normal,
    Guard { activation: String },
}

/// Whether the command line asks for guard mode (an argument `--guard`).
pub fn has_guard_flag(args: &Vec<String>) -> (b: bool)
    ensures
        b == exists|i: int| 0 <= i < args@.len() && args@[i]@ == "--guard"@,
{
    let n: usize = args.len();
    let mut i: usize = 0;
    while i < n
        invariant
            n == args@.len(),
            i <= n,
            forall|k: int| 0 <= k < i ==> args@[k]@ != "--guard"@,
        decreases n - i,
    {
        if text_eq(args[i].as_str(), "--guard") {
            return true;
        }
        i = i + 1;
    }
    false
}

/// Where the current time stands against today's activation time.
#[derive(Clone, Copy, Debug, PartialEq, Eq, Structural)]
pub enum ActivationCheck {
    /// The schedule is disabled.
    Disabled,
    /// No activation time resolves for today.
    NoActivation,
    /// The activation time has been reached: the machine may be used.
    Reached { activation: ClockTime },
    /// It is still before the activation time: the machine is blocked.
    Blocked { activation: ClockTime },
}

/// Where `now` stands against the activation time of `today`.
pub open spec fn activation_check_spec(cfg: AppConfig, today: LocalDate, now: ClockTime) -> ActivationCheck {
    if !cfg.enabled {
        ActivationCheck::Disabled
    } else {
        match resolve_spec(cfg, date_key(today), ScheduleField::Activation) {
            None => ActivationCheck::NoActivation,
            Some(a) => if now.spec_seconds() >= a.spec_seconds() {
                ActivationCheck::Reached { activation: a }
            } else {
                ActivationCheck::Blocked { activation: a }
            },
        }
    }
}

/// Compares the current time of day with today's activation time.
pub fn check_activation(cfg: &AppConfig, today: &LocalDate, now: &ClockTime) -> (r: ActivationCheck)
    requires
        now.wf(),
    ensures
        r == activation_check_spec(*cfg, *today, *now),
        r matches ActivationCheck::Blocked { activation } ==> activation.wf(),
        r matches ActivationCheck::Reached { activation } ==> activation.wf(),
{
    if !cfg.enabled {
        return ActivationCheck::Disabled;
    }
    match resolve_activation(cfg, day_key(today)) {
        None => ActivationCheck::NoActivation,
        Some(a) => if now.is_at_or_after(&a) {
            ActivationCheck::Reached { activation: a }
        } else {
            ActivationCheck::Blocked { activation: a }
        },
    }
}

/// What the desktop application does when started with `--guard`.
#[derive(Clone, Debug)]
pub enum GuardModeDecision {
    /// Start in this mode.
    Launch(LaunchMode),
    /// Exit at once with status 0: nothing to guard.
    Exit,
}

/// The mode to start in with `--guard`: normal when the configuration could
/// not be loaded (`None`); the lock screen while today's activation time is
/// still ahead; otherwise exit (disabled, no activation time, or reached).
pub fn resolve_guard_mode(cfg: Option<&AppConfig>, today: &LocalDate, now: &ClockTime) -> (r: GuardModeDecision)
    requires
        now.wf(),
    ensures
        cfg is None ==> r matches GuardModeDecision::Launch(LaunchMode::Normal),
        cfg matches Some(c) ==> match activation_check_spec(*c, *today, *now) {
            ActivationCheck::Blocked { activation } => r matches GuardModeDecision::Launch(
                LaunchMode::Guard { activation: text },
            ) && text@ == hhmm_text(activation.hour as int, activation.minute as int),
            _ => r matches GuardModeDecision::Exit,
        },
{
    match cfg {
        None => GuardModeDecision::Launch(LaunchMode::Normal),
        Some(c) => match check_activation(c, today, now) {
            ActivationCheck::Blocked { activation } => GuardModeDecision::Launch(
                LaunchMode::Guard { activation: format_hhmm(&activation) },
            ),
            _ => GuardModeDecision::Exit,
        },
    }
}

/// Seconds the guard counts down before shutting the machine down.
pub const GUARD_COUNTDOWN_SECS: u32 = 30;

/// What the boot guard binary does.
#[derive(Clone, Debug)]
pub enum GuardOutcome {
    /// Print the messages (standard output, then standard error) and exit with `code`.
    Exit { code: i32, stdout: Option<String>, stderr: Option<String> },
    /// Show `message`, count down, then shut down at once (exiting 0 if that fails).
    Block { message: String },
}

/// The text view of an optional message.
pub open spec fn opt_text(o: Option<String>) -> Option<Seq<char>> {
    match o {
        Some(s) => Some(s@),
        None => None,
    }
}

/// Whether `r` is an exit with this code and these messages.
pub open spec fn is_exit(r: GuardOutcome, code: i32, stdout: Option<Seq<char>>, stderr: Option<Seq<char>>) -> bool {
    r matches GuardOutcome::Exit { code: c, stdout: o, stderr: e } && c == code && opt_text(o)
        == stdout && opt_text(e) == stderr
}

/// The boot guard's decision. It fails open: a configuration that cannot be
/// loaded (its error text in `config`), a disabled schedule, no activation
/// time or a reached one all exit with status 0; an unparsable `--now`
/// override exits with status 1. Otherwise the machine is blocked until the
/// activation time. `clock_now` is the time of day; `now_arg` the `--now`
/// override, which replaces it when given.
pub fn guard_plan(
    config: &Result<AppConfig, String>,
    now_arg: Option<&str>,
    clock_now: &ClockTime,
    today: &LocalDate,
) -> (r: GuardOutcome)
    requires
        clock_now.wf(),
    ensures
        match config {
            Err(e) => is_exit(r, 0, None, Some("sleepguard-guard: cannot load config ("@ + e@ + "); fail-open"@)),
            Ok(cfg) => if !cfg.enabled {
                is_exit(r, 0, Some("sleepguard-guard: disabled; exit 0"@), None)
            } else if now_arg is Some && parse_hhmm_spec(now_arg->0@) is None {
                is_exit(r, 1, None, Some("sleepguard-guard: invalid --now HH:MM"@))
            } else {
                let current = match now_arg {
                    Some(a) => parse_hhmm_spec(a@)->0,
                    None => *clock_now,
                };
                match activation_check_spec(*cfg, *today, current) {
                    ActivationCheck::NoActivation => is_exit(
                        r,
                        0,
                        Some("sleepguard-guard: no activation time; exit 0"@),
                        None,
                    ),
                    ActivationCheck::Reached { activation } => is_exit(
                        r,
                        0,
                        Some(
                            "sleepguard-guard: current "@ + hhmm_text(current.hour as int, current.minute as int)
                                + " >= activation "@ + hhmm_text(activation.hour as int, activation.minute as int)
                                + "; exit 0"@,
                        ),
                        None,
                    ),
                    ActivationCheck::Blocked { activation } => r matches GuardOutcome::Block { message }
                        && message@ == "Este equipo estará disponible a las "@ + hhmm_text(
                        activation.hour as int,
                        activation.minute as int,
                    ),
                    ActivationCheck::Disabled => false,
                }
            },
        },
{
    let cfg = match config {
        Err(e) => {
            let mut m = owned("sleepguard-guard: cannot load config (");
            m.append(e.as_str());
            m.append("); fail-open");
            return GuardOutcome::Exit { code: 0, stdout: None, stderr: Some(m) };
        },
        Ok(c) => c,
    };
    if !cfg.enabled {
        return GuardOutcome::Exit {
            code: 0,
            stdout: Some(owned("sleepguard-guard: disabled; exit 0")),
            stderr: None,
        };
    }
    let current = match now_arg {
        Some(a) => match parse_hhmm(a) {
            Some(t) => t,
            None => {
                return GuardOutcome::Exit {
                    code: 1,
                    stdout: None,
                    stderr: Some(owned("sleepguard-guard: invalid --now HH:MM")),
                };
            },
        },
        None => *clock_now,
    };
    match check_activation(cfg, today, &current) {
        ActivationCheck::Disabled => GuardOutcome::Exit { code: 0, stdout: None, stderr: None },
        ActivationCheck::NoActivation => GuardOutcome::Exit {
            code: 0,
            stdout: Some(owned("sleepguard-guard: no activation time; exit 0")),
            stderr: None,
        },
        ActivationCheck::Reached { activation } => {
            let mut m = owned("sleepguard-guard: current ");
            m.append(format_hhmm(&current).as_str());
            m.append(" >= activation ");
            m.append(format_hhmm(&activation).as_str());
            m.append("; exit 0");
            GuardOutcome::Exit { code: 0, stdout: Some(m), stderr: None }
        },
        ActivationCheck::Blocked { activation } => GuardOutcome::Block {
            message: concat2("Este equipo estará disponible a las ", format_hhmm(&activation).as_str()),
        },
    }
}


/// Title of the shutdown notice.
pub const NOTICE_TITLE: &'static str = "SleepGuard";

/// Event that asks the window to show the shutdown lock screen.
pub const LOCKSCREEN_EVENT: &'static str = "show-shutdown-lockscreen";

/// Seconds the shutdown lock screen counts down.
pub const LOCKSCREEN_COUNTDOWN_SECS: u32 = 30;

/// What the monitor remembers between checks: the shutdown it last gave
/// notice of and the shutdown it last showed the lock screen for.
#[derive(Clone, Copy, Debug)]
pub struct MonitorState {
    pub notified_for: Option<Instant>,
    pub fired_for: Option<Instant>,
}

impl MonitorState {
    /// The state at start: nothing noticed, nothing shown.
    pub fn new() -> (s: MonitorState)
        ensures
            s.notified_for is None,
            s.fired_for is None,
    {
        MonitorState { notified_for: None, fired_for: None }
    }
}

/// A shutdown that is due, with the next activation time to show on the lock screen.
#[derive(Clone, Copy, Debug)]
pub struct LockscreenTrigger {
    pub shutdown: Instant,
    pub next_activation: LocalDateTime,
}

/// What the lock screen is told.
#[derive(Clone, Debug)]
pub struct LockscreenPayload {
    pub activation_time: String,
    pub countdown_secs: u32,
}

/// What one check of the monitor does.
#[derive(Clone, Debug)]
pub struct MonitorActions {
    /// Body of a notice to show (titled `NOTICE_TITLE`), if any.
    pub notification: Option<String>,
    /// Harden the window and show the lock screen with this payload, if any.
    pub lockscreen: Option<LockscreenPayload>,
    /// Seconds to sleep before the next check.
    pub sleep_secs: u64,
}

/// Nanoseconds from `now` to `target`.
pub open spec fn remaining_nanos(now: Instant, target: Instant) -> int {
    target.spec_total_nanos() - now.spec_total_nanos()
}

/// The shutdown is ahead and at most fifteen minutes away.
pub open spec fn within_notice(now: Instant, target: Instant) -> bool {
    0 < remaining_nanos(now, target) <= 900_000_000_000
}

/// The shutdown is ahead and at most one minute away.
pub open spec fn within_last_minute(now: Instant, target: Instant) -> bool {
    0 < remaining_nanos(now, target) <= 60_000_000_000
}

/// A notice is due: the shutdown is near and no notice was given for it.
pub open spec fn should_notify(s: MonitorState, now: Instant, target: Option<LocalDateTime>) -> bool {
    target matches Some(t) && within_notice(now, t.instant) && s.notified_for != Some(t.instant)
}

/// The lock screen is due: there is a shutdown target, a pending trigger,
/// and the lock screen was not yet shown for that shutdown.
pub open spec fn should_lock(
    s: MonitorState,
    target: Option<LocalDateTime>,
    trigger: Option<LockscreenTrigger>,
) -> bool {
    &&& target is Some
    &&& trigger matches Some(g) && s.fired_for != Some(g.shutdown)
}

/// The state after a check.
pub open spec fn next_state(
    s: MonitorState,
    now: Instant,
    target: Option<LocalDateTime>,
    trigger: Option<LockscreenTrigger>,
) -> MonitorState {
    MonitorState {
        notified_for: if should_notify(s, now, target) {
            Some(target->0.instant)
        } else {
            s.notified_for
        },
        fired_for: if should_lock(s, target, trigger) {
            Some(trigger->0.shutdown)
        } else {
            s.fired_for
        },
    }
}

/// The pause after a check: one second in the last minute before a shutdown
/// with no pending trigger, else thirty.
pub open spec fn next_sleep(now: Instant, target: Option<LocalDateTime>, trigger: Option<LockscreenTrigger>) -> u64 {
    match target {
        Some(t) => if trigger is None && within_last_minute(now, t.instant) {
            1
        } else {
            30
        },
        None => 30,
    }
}

/// One check of the monitor at `now`. `target` is today's shutdown (`None`
/// when the configuration could not be loaded or no shutdown is scheduled
/// today); `trigger` the shutdown that is due, if any. A notice is given once
/// per shutdown when it is at most fifteen minutes away; the lock screen is
/// shown once per due shutdown.
pub fn monitor_step(
    state: &mut MonitorState,
    now: &Instant,
    target: Option<LocalDateTime>,
    trigger: Option<LockscreenTrigger>,
) -> (r: MonitorActions)
    requires
        target matches Some(t) ==> t.time.wf(),
        trigger matches Some(g) ==> g.next_activation.time.wf(),
    ensures
        *final(state) == next_state(*old(state), *now, target, trigger),
        r.sleep_secs == next_sleep(*now, target, trigger),
        r.notification is Some <==> should_notify(*old(state), *now, target),
        r.notification is Some <==> match target {
            Some(t) => 0 < t.instant.spec_total_nanos() - now.spec_total_nanos() <= 900_000_000_000
                && old(state).notified_for != Some(t.instant),
            None => false,
        },
        final(state).notified_for == (if r.notification is Some {
            Some(target->0.instant)
        } else {
            old(state).notified_for
        }),
        r.lockscreen is Some <==> target is Some && match trigger {
            Some(g) => old(state).fired_for != Some(g.shutdown),
            None => false,
        },
        final(state).fired_for == (if r.lockscreen is Some {
            Some(trigger->0.shutdown)
        } else {
            old(state).fired_for
        }),
        r.notification matches Some(body) ==> body@ == "SleepGuard: el equipo se apagará a las "@
            + hhmm_text(target->0.time.hour as int, target->0.time.minute as int),
        r.lockscreen is Some <==> should_lock(*old(state), target, trigger),
        r.lockscreen matches Some(p) ==> p.countdown_secs == LOCKSCREEN_COUNTDOWN_SECS
            && p.activation_time@ == hhmm_text(
            trigger->0.next_activation.time.hour as int,
            trigger->0.next_activation.time.minute as int,
        ),
{
    let t = match target {
        None => return MonitorActions { notification: None, lockscreen: None, sleep_secs: 30 },
        Some(t) => t,
    };
    let remaining: i128 = t.instant.nanos_since(now);
    let already_noticed = match state.notified_for {
        Some(n) => n == t.instant,
        None => false,
    };
    let mut notification: Option<String> = None;
    if remaining > 0 && remaining <= 900_000_000_000 && !already_noticed {
        notification = Some(
            concat2("SleepGuard: el equipo se apagará a las ", format_hhmm(&t.time).as_str()),
        );
        state.notified_for = Some(t.instant);
    }
    if let Some(g) = trigger {
        let already_shown = match state.fired_for {
            Some(f) => f == g.shutdown,
            None => false,
        };
        if already_shown {
            return MonitorActions { notification, lockscreen: None, sleep_secs: 30 };
        }
        let payload = LockscreenPayload {
            activation_time: format_hhmm(&g.next_activation.time),
            countdown_secs: LOCKSCREEN_COUNTDOWN_SECS,
        };
        state.fired_for = Some(g.shutdown);
        return MonitorActions { notification, lockscreen: Some(payload), sleep_secs: 30 };
    }
    let sleep_secs: u64 = if remaining > 0 && remaining <= 60_000_000_000 {
        1
    } else {
        30
    };
    MonitorActions { notification, lockscreen: None, sleep_secs }
}


/// A notice is given at most once per shutdown: once a check has given notice
/// of a shutdown, later checks with that same shutdown give none and keep
/// remembering it.
pub proof fn lemma_notice_once(
    s: MonitorState,
    now: Instant,
    later: Instant,
    target: LocalDateTime,
    trigger: Option<LockscreenTrigger>,
    later_trigger: Option<LockscreenTrigger>,
)
    requires
        should_notify(s, now, Some(target)),
    ensures
        ({
            let s1 = next_state(s, now, Some(target), trigger);
            &&& s1.notified_for == Some(target.instant)
            &&& !should_notify(s1, later, Some(target))
            &&& next_state(s1, later, Some(target), later_trigger).notified_for == Some(target.instant)
        }),
{
}

/// The lock screen is shown at most once per due shutdown: after it has been
/// shown for a shutdown, later checks with a trigger for that same shutdown
/// do not show it again and keep remembering it.
pub proof fn lemma_lockscreen_once(
    s: MonitorState,
    now: Instant,
    later: Instant,
    target: Option<LocalDateTime>,
    later_target: Option<LocalDateTime>,
    trigger: LockscreenTrigger,
    later_trigger: LockscreenTrigger,
)
    requires
        should_lock(s, target, Some(trigger)),
        later_trigger.shutdown == trigger.shutdown,
    ensures
        ({
            let s1 = next_state(s, now, target, Some(trigger));
            &&& s1.fired_for == Some(trigger.shutdown)
            &&& !should_lock(s1, later_target, Some(later_trigger))
            &&& next_state(s1, later, later_target, Some(later_trigger)).fired_for == Some(trigger.shutdown)
        }),
{
}

/// The monitor sleeps one second only in the last minute before a shutdown
/// with nothing else pending, and thirty seconds otherwise.
pub proof fn lemma_sleep_bounds(now: Instant, target: Option<LocalDateTime>, trigger: Option<LockscreenTrigger>)
    ensures
        next_sleep(now, target, trigger) == 1 || next_sleep(now, target, trigger) == 30,
        next_sleep(now, target, trigger) == 1 <==> (target matches Some(t) && trigger is None
            && within_last_minute(now, t.instant)),
{
}


/// The machine is blocked exactly when the schedule is enabled, today's
/// activation time resolves, and the current time is still before it.
pub proof fn lemma_blocked_iff_before_activation(cfg: AppConfig, today: LocalDate, now: ClockTime)
    ensures
        (activation_check_spec(cfg, today, now) is Blocked) <==> cfg.enabled && match resolve_spec(
            cfg,
            date_key(today),
            ScheduleField::Activation,
        ) {
            Some(a) => now.spec_seconds() < a.spec_seconds(),
            None => false,
        },
{
}


/// A notice is given only for a shutdown that is still ahead and at most
/// fifteen minutes away: a shutdown at or before now, or further than
/// fifteen minutes, never yields one.
pub proof fn lemma_notice_only_within_fifteen_minutes(s: MonitorState, now: Instant, target: LocalDateTime)
    ensures
        should_notify(s, now, Some(target)) ==> 0 < target.instant.spec_total_nanos() - now.spec_total_nanos()
            <= 900_000_000_000,
        target.instant.spec_total_nanos() <= now.spec_total_nanos() ==> !should_notify(s, now, Some(target)),
        target.instant.spec_total_nanos() - now.spec_total_nanos() > 900_000_000_000 ==> !should_notify(
            s,
            now,
            Some(target),
        ),
{
}

/// A notice is suppressed only for the very shutdown already noticed: any
/// other shutdown within fifteen minutes gets its notice, and after it that
/// shutdown is the one remembered.
pub proof fn lemma_notice_for_each_new_shutdown(
    s: MonitorState,
    now: Instant,
    target: LocalDateTime,
    trigger: Option<LockscreenTrigger>,
)
    requires
        0 < target.instant.spec_total_nanos() - now.spec_total_nanos() <= 900_000_000_000,
        s.notified_for != Some(target.instant),
    ensures
        should_notify(s, now, Some(target)),
        next_state(s, now, Some(target), trigger).notified_for == Some(target.instant),
{
}

/// With no shutdown target nothing is shown and nothing is remembered anew.
pub proof fn lemma_no_target_no_action(s: MonitorState, now: Instant, trigger: Option<LockscreenTrigger>)
    ensures
        !should_notify(s, now, None),
        !should_lock(s, None, trigger),
        next_state(s, now, None, trigger) == s,
        next_sleep(now, None, trigger) == 30,
{
}

} // verus!
