//! What a shutdown request does: the log lines to print and the command to spawn.
use vstd::prelude::*;
use crate::text::{concat3, owned, text_eq, texts};

verus! {

/// How soon the machine goes down.
#[derive(Clone, Copy, Debug, PartialEq, Eq, Structural)]
pub enum ShutdownMode {
    Delayed,
    Immediate,
}

/// The operating system the program runs on.
#[derive(Clone, Copy, Debug, PartialEq, Eq, Structural)]
pub enum TargetOs {
    Linux,
    Windows,
    Other,
}

/// A program to spawn with its arguments.
#[derive(Clone, Debug)]
pub struct ShellCommand {
    pub program: String,
    pub args: Vec<String>,
}

/// What executing a shutdown does: print `messages` in order, then spawn
/// `command` when there is one (a spawn failure is the request's error).
#[derive(Clone, Debug)]
pub struct ShutdownPlan {
    pub messages: Vec<String>,
    pub command: Option<ShellCommand>,
}

/// Whether the value of `SLEEPGUARD_DRY_RUN` asks for a dry run.
pub open spec fn is_dry_run_value(value: Option<Seq<char>>) -> bool {
    match value {
        Some(v) => v == "1"@ || v == "true"@ || v == "TRUE"@ || v == "yes"@ || v == "YES"@,
        None => false,
    }
}

/// Whether the value of `SLEEPGUARD_DRY_RUN` (`None` when unset or not
/// unicode) asks for a dry run: `1`, `true`, `TRUE`, `yes` or `YES`.
pub fn is_dry_run(value: Option<&str>) -> (b: bool)
    ensures
        b == is_dry_run_value(match value {
            Some(v) => Some(v@),
            None => None,
        }),
{
    match value {
        Some(v) => text_eq(v, "1") || text_eq(v, "true") || text_eq(v, "TRUE") || text_eq(v, "yes")
            || text_eq(v, "YES"),
        None => false,
    }
}

/// The word naming a mode in log lines.
pub open spec fn mode_label(mode: ShutdownMode) -> Seq<char> {
    match mode {
        ShutdownMode::Delayed => "delayed"@,
        ShutdownMode::Immediate => "immediate"@,
    }
}

fn mode_label_str(mode: ShutdownMode) -> (r: &'static str)
    ensures
        r@ == mode_label(mode),
{
    match mode {
        ShutdownMode::Delayed => "delayed",
        ShutdownMode::Immediate => "immediate",
    }
}

/// The arguments of the platform's `shutdown` command for a mode.
pub open spec fn shutdown_args(mode: ShutdownMode, target: TargetOs) -> Seq<Seq<char>> {
    match target {
        TargetOs::Windows => seq![
            "/s"@,
            "/t"@,
            match mode {
                ShutdownMode::Delayed => "60"@,
                ShutdownMode::Immediate => "0"@,
            },
        ],
        _ => seq![
            "-h"@,
            match mode {
                ShutdownMode::Delayed => "+1"@,
                ShutdownMode::Immediate => "now"@,
            },
        ],
    }
}

/// The plan of `execute_shutdown`, stated over texts.
pub open spec fn shutdown_plan_is(
    plan: ShutdownPlan,
    mode: ShutdownMode,
    dry_run: bool,
    target: TargetOs,
) -> bool {
    if dry_run {
        &&& texts(plan.messages@) == seq!["[DRY-RUN] shutdown ("@ + mode_label(mode) + ")"@]
        &&& plan.command is None
    } else {
        let announce = "Ejecutando shutdown ("@ + mode_label(mode) + ")..."@;
        match target {
            TargetOs::Other => {
                &&& texts(plan.messages@) == seq![announce, "Shutdown no soportado en este SO"@]
                &&& plan.command is None
            },
            _ => {
                &&& texts(plan.messages@) == seq![announce]
                &&& plan.command matches Some(c)
                &&& c.program@ == "shutdown"@
                &&& texts(c.args@) == shutdown_args(mode, target)
            },
        }
    }
}

/// What a shutdown request does: a dry run only logs; otherwise it announces
/// the shutdown and spawns the platform's `shutdown` command (Windows
/// `shutdown /s /t 60|0`, Linux `shutdown -h +1|now`), or, on another
/// platform, logs that shutdown is not supported.
pub fn execute_shutdown(mode: ShutdownMode, dry_run: bool, target: TargetOs) -> (plan: ShutdownPlan)
    ensures
        shutdown_plan_is(plan, mode, dry_run, target),
{
    let label = mode_label_str(mode);
    let mut messages: Vec<String> = Vec::new();
    if dry_run {
        messages.push(concat3("[DRY-RUN] shutdown (", label, ")"));
        assert(texts(messages@) =~= seq!["[DRY-RUN] shutdown ("@ + mode_label(mode) + ")"@]);
        return ShutdownPlan { messages, command: None };
    }
    messages.push(concat3("Ejecutando shutdown (", label, ")..."));
    let ghost announce = "Ejecutando shutdown ("@ + mode_label(mode) + ")..."@;
    match target {
        TargetOs::Windows => {
            let mut args: Vec<String> = Vec::new();
            args.push(owned("/s"));
            args.push(owned("/t"));
            match mode {
                ShutdownMode::Delayed => args.push(owned("60")),
                ShutdownMode::Immediate => args.push(owned("0")),
            }
            assert(texts(messages@) =~= seq![announce]);
            assert(texts(args@) =~= shutdown_args(mode, target));
            ShutdownPlan { messages, command: Some(ShellCommand { program: owned("shutdown"), args }) }
        },
        TargetOs::Linux => {
            let mut args: Vec<String> = Vec::new();
            args.push(owned("-h"));
            match mode {
                ShutdownMode::Delayed => args.push(owned("+1")),
                ShutdownMode::Immediate => args.push(owned("now")),
            }
            assert(texts(messages@) =~= seq![announce]);
            assert(texts(args@) =~= shutdown_args(mode, target));
            ShutdownPlan { messages, command: Some(ShellCommand { program: owned("shutdown"), args }) }
        },
        TargetOs::Other => {
            messages.push(owned("Shutdown no soportado en este SO"));
            assert(texts(messages@) =~= seq![announce, "Shutdown no soportado en este SO"@]);
            ShutdownPlan { messages, command: None }
        },
    }
}

/// A shutdown in one minute (Linux) or sixty seconds (Windows).
pub fn execute_shutdown_delayed(dry_run: bool, target: TargetOs) -> (plan: ShutdownPlan)
    ensures
        shutdown_plan_is(plan, ShutdownMode::Delayed, dry_run, target),
{
    execute_shutdown(ShutdownMode::Delayed, dry_run, target)
}

/// An immediate shutdown.
pub fn execute_shutdown_now(dry_run: bool, target: TargetOs) -> (plan: ShutdownPlan)
    ensures
        shutdown_plan_is(plan, ShutdownMode::Immediate, dry_run, target),
{
    execute_shutdown(ShutdownMode::Immediate, dry_run, target)
}


/// A dry run never spawns a command, whatever the mode and platform.
pub proof fn lemma_dry_run_spawns_nothing(plan: ShutdownPlan, mode: ShutdownMode, target: TargetOs)
    requires
        shutdown_plan_is(plan, mode, true, target),
    ensures
        plan.command is None,
{
}

} // verus!
