//! Registering the monitor to start with the user session: the systemd user
//! unit or scheduled task it needs, and the steps that install or remove it.
use vstd::prelude::*;
use crate::shutdown::TargetOs;
use crate::text::{concat3, contains_char, has_char, owned, replace_all, replace_seq, texts};

verus! {

/// The systemd user unit that runs the monitor.
pub const UNIT_NAME: &'static str = "sleepguard-monitor.service";

/// The scheduled task that runs the monitor on Windows.
pub const WINDOWS_TASK: &'static str = "SleepGuard-Monitor";

/// The unit file, with `@APP_BIN@` and `@CONFIG_PATH@` to fill in.
pub const MONITOR_UNIT_TEMPLATE: &'static str = r#"[Unit]
Description=SleepGuard monitor (user session)
After=graphical-session.target
PartOf=graphical-session.target

[Service]
Type=simple
ExecStart=@APP_BIN@
Restart=always
RestartSec=5
Environment=SLEEPGUARD_CONFIG=@CONFIG_PATH@

[Install]
WantedBy=default.target
"#;

/// The PowerShell script that registers the task, before the quoted program path.
pub const ENABLE_SCRIPT_HEAD: &'static str = r#"
$ErrorActionPreference = 'Stop'
Unregister-ScheduledTask -TaskName 'SleepGuard-Monitor' -Confirm:$false -ErrorAction SilentlyContinue
$action = New-ScheduledTaskAction -Execute '"#;

/// The PowerShell script that registers the task, after the quoted program path.
pub const ENABLE_SCRIPT_TAIL: &'static str = r#"'
$trigger = New-ScheduledTaskTrigger -AtLogOn
$settings = New-ScheduledTaskSettingsSet `
    -AllowStartIfOnBatteries `
    -DontStopIfGoingOnBatteries `
    -StartWhenAvailable `
    -RestartCount 3 `
    -RestartInterval (New-TimeSpan -Minutes 1) `
    -ExecutionTimeLimit (New-TimeSpan -Days 0)
$principal = New-ScheduledTaskPrincipal -UserId $env:USERNAME -LogonType Interactive
Register-ScheduledTask `
    -TaskName 'SleepGuard-Monitor' `
    -Action $action `
    -Trigger $trigger `
    -Settings $settings `
    -Principal $principal `
    -Description 'SleepGuard monitor at logon (Restart on failure)' | Out-Null
"#;

/// The PowerShell command that removes the task.
pub const DISABLE_SCRIPT: &'static str = "Unregister-ScheduledTask -TaskName 'SleepGuard-Monitor' -Confirm:$false -ErrorAction SilentlyContinue";

/// `value` as it stands in a unit file: wrapped in double quotes, with inner
/// double quotes escaped, when it holds a space or a double quote; else as is.
pub open spec fn shell_escape_spec(value: Seq<char>) -> Seq<char> {
    if has_char(value, ' ') || has_char(value, '"') {
        seq!['"'] + replace_seq(value, seq!['"'], seq!['\\', '"']) + seq!['"']
    } else {
        value
    }
}

/// Quotes a value for a unit file when it holds a space or a double quote.
pub fn shell_escape(value: &str) -> (r: String)
    ensures
        r@ == shell_escape_spec(value@),
{
    if contains_char(value, ' ') || contains_char(value, '"') {
        let quote = "\"";
        let escaped_quote = "\\\"";
        proof {
            reveal_strlit("\"");
            reveal_strlit("\\\"");
            assert(quote@ =~= seq!['"']);
            assert(escaped_quote@ =~= seq!['\\', '"']);
        }
        let inner = replace_all(value, quote, escaped_quote);
        concat3(quote, inner.as_str(), quote)
    } else {
        owned(value)
    }
}

/// The unit file for a program path and a configuration path.
pub open spec fn unit_body_spec(app_bin: Seq<char>, config_path: Seq<char>) -> Seq<char> {
    replace_seq(
        replace_seq(MONITOR_UNIT_TEMPLATE@, "@APP_BIN@"@, shell_escape_spec(app_bin)),
        "@CONFIG_PATH@"@,
        shell_escape_spec(config_path),
    )
}

/// The unit file that starts `app_bin` with `config_path` as its configuration.
pub fn monitor_unit_body(app_bin: &str, config_path: &str) -> (r: String)
    ensures
        r@ == unit_body_spec(app_bin@, config_path@),
{
    proof {
        reveal_strlit("@APP_BIN@");
        reveal_strlit("@CONFIG_PATH@");
    }
    let app = shell_escape(app_bin);
    let config = shell_escape(config_path);
    let first = replace_all(MONITOR_UNIT_TEMPLATE, "@APP_BIN@", app.as_str());
    replace_all(first.as_str(), "@CONFIG_PATH@", config.as_str())
}

/// `value` inside a single-quoted PowerShell string: each `'` doubled.
pub open spec fn powershell_quote_spec(value: Seq<char>) -> Seq<char> {
    replace_seq(value, seq!['\''], seq!['\'', '\''])
}

/// Doubles each single quote, for a single-quoted PowerShell string.
pub fn powershell_quote(value: &str) -> (r: String)
    ensures
        r@ == powershell_quote_spec(value@),
{
    proof {
        reveal_strlit("'");
        reveal_strlit("''");
        assert("'"@ =~= seq!['\'']);
        assert("''"@ =~= seq!['\'', '\'']);
    }
    replace_all(value, "'", "''")
}

/// The script that registers the monitor task for a program path.
pub open spec fn enable_script_spec(app_bin: Seq<char>) -> Seq<char> {
    ENABLE_SCRIPT_HEAD@ + powershell_quote_spec(app_bin) + ENABLE_SCRIPT_TAIL@
}

/// The script that registers the monitor task at logon, restarting on failure.
pub fn windows_enable_script(app_bin: &str) -> (r: String)
    ensures
        r@ == enable_script_spec(app_bin@),
{
    let quoted = powershell_quote(app_bin);
    concat3(ENABLE_SCRIPT_HEAD, quoted.as_str(), ENABLE_SCRIPT_TAIL)
}


/// One step of installing or removing the monitor's autostart entry. A step
/// with `must_succeed` ends the request with its error when it fails; the
/// others are attempted and their failures ignored.
#[derive(Clone, Debug)]
pub enum AutostartStep {
    /// Create `~/.config/systemd/user` and write the unit file there (failures end the request).
    WriteUserUnit { body: String },
    /// Remove the unit file (failures ignored).
    RemoveUserUnit,
    /// Run `systemctl` with these arguments.
    Systemctl { args: Vec<String>, must_succeed: bool },
    /// Run this PowerShell command non-interactively.
    PowerShell { script: String, must_succeed: bool },
}

/// A `systemctl` step with the given arguments.
pub open spec fn is_systemctl(step: AutostartStep, args: Seq<Seq<char>>, must_succeed: bool) -> bool {
    step matches AutostartStep::Systemctl { args: a, must_succeed: m } && texts(a@) == args && m
        == must_succeed
}

/// A PowerShell step with the given script.
pub open spec fn is_powershell(step: AutostartStep, script: Seq<char>, must_succeed: bool) -> bool {
    step matches AutostartStep::PowerShell { script: s, must_succeed: m } && s@ == script && m
        == must_succeed
}

/// The steps that enable the monitor's autostart.
pub open spec fn enable_steps_are(
    r: Result<Vec<AutostartStep>, String>,
    target: TargetOs,
    app_bin: Result<Seq<char>, Seq<char>>,
    config_path: Seq<char>,
) -> bool {
    match target {
        TargetOs::Other => r matches Err(e) && e@ == "Autostart del monitor no soportado en este SO"@,
        _ => match app_bin {
            Err(msg) => r matches Err(e) && e@ == msg,
            Ok(app) => r matches Ok(steps) && match target {
                TargetOs::Linux => {
                    &&& steps@.len() == 3
                    &&& steps@[0] matches AutostartStep::WriteUserUnit { body } && body@
                        == unit_body_spec(app, config_path)
                    &&& is_systemctl(steps@[1], seq!["--user"@, "daemon-reload"@], true)
                    &&& is_systemctl(steps@[2], seq!["--user"@, "enable"@, UNIT_NAME@], true)
                },
                _ => {
                    &&& steps@.len() == 1
                    &&& is_powershell(steps@[0], enable_script_spec(app), true)
                },
            },
        },
    }
}

/// The steps that disable the monitor's autostart.
pub open spec fn disable_steps_are(steps: Seq<AutostartStep>, target: TargetOs) -> bool {
    match target {
        TargetOs::Linux => {
            &&& steps.len() == 3
            &&& is_systemctl(steps[0], seq!["--user"@, "disable"@, "--now"@, UNIT_NAME@], false)
            &&& steps[1] matches AutostartStep::RemoveUserUnit
            &&& is_systemctl(steps[2], seq!["--user"@, "daemon-reload"@], false)
        },
        TargetOs::Windows => {
            &&& steps.len() == 1
            &&& is_powershell(steps[0], DISABLE_SCRIPT@, false)
        },
        TargetOs::Other => steps.len() == 0,
    }
}

/// The text view of a `Result` of strings.
pub open spec fn result_text(r: Result<String, String>) -> Result<Seq<char>, Seq<char>> {
    match r {
        Ok(s) => Ok(s@),
        Err(e) => Err(e@),
    }
}

/// Steps that install the monitor to start with the session: on Linux write
/// the user unit (program path `app_bin`, configuration `config_path`), reload
/// systemd and enable the unit; on Windows register the logon task. An error
/// in finding the program (`app_bin`), or another platform, ends the request.
pub fn enable(target: TargetOs, app_bin: Result<String, String>, config_path: &str) -> (r: Result<
    Vec<AutostartStep>,
    String,
>)
    ensures
        enable_steps_are(r, target, result_text(app_bin), config_path@),
{
    match target {
        TargetOs::Other => Err(owned("Autostart del monitor no soportado en este SO")),
        TargetOs::Linux => match app_bin {
            Err(e) => Err(e),
            Ok(app) => {
                let mut steps: Vec<AutostartStep> = Vec::new();
                steps.push(AutostartStep::WriteUserUnit { body: monitor_unit_body(app.as_str(), config_path) });
                let mut reload: Vec<String> = Vec::new();
                reload.push(owned("--user"));
                reload.push(owned("daemon-reload"));
                assert(texts(reload@) =~= seq!["--user"@, "daemon-reload"@]);
                steps.push(AutostartStep::Systemctl { args: reload, must_succeed: true });
                let mut en: Vec<String> = Vec::new();
                en.push(owned("--user"));
                en.push(owned("enable"));
                en.push(owned(UNIT_NAME));
                assert(texts(en@) =~= seq!["--user"@, "enable"@, UNIT_NAME@]);
                steps.push(AutostartStep::Systemctl { args: en, must_succeed: true });
                Ok(steps)
            },
        },
        TargetOs::Windows => match app_bin {
            Err(e) => Err(e),
            Ok(app) => {
                let mut steps: Vec<AutostartStep> = Vec::new();
                steps.push(
                    AutostartStep::PowerShell { script: windows_enable_script(app.as_str()), must_succeed: true },
                );
                Ok(steps)
            },
        },
    }
}

/// Steps that stop the monitor from starting with the session: on Linux
/// disable and stop the unit, remove its file and reload systemd; on Windows
/// unregister the task; nothing elsewhere. Every failure is ignored.
pub fn disable(target: TargetOs) -> (steps: Vec<AutostartStep>)
    ensures
        disable_steps_are(steps@, target),
{
    let mut steps: Vec<AutostartStep> = Vec::new();
    match target {
        TargetOs::Linux => {
            let mut off: Vec<String> = Vec::new();
            off.push(owned("--user"));
            off.push(owned("disable"));
            off.push(owned("--now"));
            off.push(owned(UNIT_NAME));
            assert(texts(off@) =~= seq!["--user"@, "disable"@, "--now"@, UNIT_NAME@]);
            steps.push(AutostartStep::Systemctl { args: off, must_succeed: false });
            steps.push(AutostartStep::RemoveUserUnit);
            let mut reload: Vec<String> = Vec::new();
            reload.push(owned("--user"));
            reload.push(owned("daemon-reload"));
            assert(texts(reload@) =~= seq!["--user"@, "daemon-reload"@]);
            steps.push(AutostartStep::Systemctl { args: reload, must_succeed: false });
        },
        TargetOs::Windows => {
            steps.push(AutostartStep::PowerShell { script: owned(DISABLE_SCRIPT), must_succeed: false });
        },
        TargetOs::Other => {},
    }
    steps
}

/// Turns the monitor's autostart on (see `enable`) or off (see `disable`).
pub fn set_enabled(
    enabled: bool,
    target: TargetOs,
    app_bin: Result<String, String>,
    config_path: &str,
) -> (r: Result<Vec<AutostartStep>, String>)
    ensures
        enabled ==> enable_steps_are(r, target, result_text(app_bin), config_path@),
        !enabled ==> (r matches Ok(steps) && disable_steps_are(steps@, target)),
{
    if enabled {
        enable(target, app_bin, config_path)
    } else {
        Ok(disable(target))
    }
}

} // verus!
