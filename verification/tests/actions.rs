use sleepguard::autostart::{
    disable, enable, monitor_unit_body, powershell_quote, set_enabled, shell_escape, windows_enable_script,
    AutostartStep, DISABLE_SCRIPT, UNIT_NAME,
};
use sleepguard::boot_guard::{
    absolute_existing_file, ensure_boot_guard, guard_binary_candidates, linux_install_script_candidates,
    pkexec_args, pkexec_launch_error, windows_elevate_command, windows_register_script_candidates, BootGuardRoute,
    FileProbe, PathBase,
};
use sleepguard::shutdown::{execute_shutdown, execute_shutdown_delayed, execute_shutdown_now, is_dry_run, ShutdownMode, TargetOs};
use sleepguard::text::{replace_all, text_eq, trim};

fn strs(v: &[String]) -> Vec<&str> {
    v.iter().map(|s| s.as_str()).collect()
}

#[test]
fn trim_removes_unicode_white_space() {
    assert_eq!(trim("  07:00\t\n"), "07:00");
    assert_eq!(trim("\u{3000}a b\u{a0}"), "a b");
    assert_eq!(trim("   "), "");
    assert_eq!(trim(""), "");
    for s in [" x ", "\u{2009}y", "z\u{85}", "mid dle"] {
        assert_eq!(trim(s), s.trim());
    }
}

#[test]
fn replace_all_matches_str_replace() {
    for (s, p, r) in [
        ("aaa", "aa", "b"),
        ("@APP_BIN@ x @APP_BIN@", "@APP_BIN@", "/bin/app"),
        ("no match", "zz", "y"),
        ("a\"b\"", "\"", "\\\""),
        ("", "x", "y"),
    ] {
        assert_eq!(replace_all(s, p, r), s.replace(p, r));
    }
}

#[test]
fn text_eq_compares_characters() {
    assert!(text_eq("mon", "mon"));
    assert!(!text_eq("mon", "mo"));
    assert!(!text_eq("mon", "mun"));
}

#[test]
fn shell_escape_quotes_only_when_needed() {
    assert_eq!(shell_escape("/usr/bin/sleepguard"), "/usr/bin/sleepguard");
    assert_eq!(shell_escape("/home/a b/app"), "\"/home/a b/app\"");
    assert_eq!(shell_escape("say\"hi"), "\"say\\\"hi\"");
    assert_eq!(shell_escape(""), "");
}

#[test]
fn unit_body_fills_both_placeholders() {
    let body = monitor_unit_body("/opt/my app/sg", "/home/u/.config/sleepguard/config.json");
    assert!(body.contains("ExecStart=\"/opt/my app/sg\"\n"));
    assert!(body.contains("Environment=SLEEPGUARD_CONFIG=/home/u/.config/sleepguard/config.json\n"));
    assert!(body.starts_with("[Unit]\nDescription=SleepGuard monitor (user session)\n"));
    assert!(body.ends_with("[Install]\nWantedBy=default.target\n"));
    assert!(!body.contains('@'));
}

#[test]
fn powershell_quote_doubles_single_quotes() {
    assert_eq!(powershell_quote("C:\\O'Brien\\app.exe"), "C:\\O''Brien\\app.exe");
    let script = windows_enable_script("C:\\it's\\app.exe");
    assert!(script.contains("-Execute 'C:\\it''s\\app.exe'"));
    assert!(script.contains("-TaskName 'SleepGuard-Monitor' -Confirm:$false"));
    assert!(script.starts_with("\n$ErrorActionPreference = 'Stop'\n"));
}

#[test]
fn enable_on_linux_writes_unit_then_reloads_and_enables() {
    let steps = enable(TargetOs::Linux, Ok("/usr/bin/sg".into()), "/c/config.json").unwrap();
    assert_eq!(steps.len(), 3);
    match &steps[0] {
        AutostartStep::WriteUserUnit { body } => assert_eq!(body, &monitor_unit_body("/usr/bin/sg", "/c/config.json")),
        other => panic!("unexpected step {other:?}"),
    }
    match &steps[1] {
        AutostartStep::Systemctl { args, must_succeed } => {
            assert_eq!(strs(args), vec!["--user", "daemon-reload"]);
            assert!(*must_succeed);
        },
        other => panic!("unexpected step {other:?}"),
    }
    match &steps[2] {
        AutostartStep::Systemctl { args, must_succeed } => {
            assert_eq!(strs(args), vec!["--user", "enable", UNIT_NAME]);
            assert!(*must_succeed);
        },
        other => panic!("unexpected step {other:?}"),
    }
}

#[test]
fn enable_fails_without_program_path_or_support() {
    assert_eq!(enable(TargetOs::Linux, Err("no exe".into()), "").unwrap_err(), "no exe");
    assert_eq!(enable(TargetOs::Windows, Err("no exe".into()), "").unwrap_err(), "no exe");
    assert_eq!(
        enable(TargetOs::Other, Ok("/x".into()), "").unwrap_err(),
        "Autostart del monitor no soportado en este SO"
    );
}

#[test]
fn enable_on_windows_registers_task() {
    let steps = enable(TargetOs::Windows, Ok("C:\\sg.exe".into()), "").unwrap();
    assert_eq!(steps.len(), 1);
    match &steps[0] {
        AutostartStep::PowerShell { script, must_succeed } => {
            assert_eq!(script, &windows_enable_script("C:\\sg.exe"));
            assert!(*must_succeed);
        },
        other => panic!("unexpected step {other:?}"),
    }
}

#[test]
fn disable_ignores_failures() {
    let linux = disable(TargetOs::Linux);
    assert_eq!(linux.len(), 3);
    match &linux[0] {
        AutostartStep::Systemctl { args, must_succeed } => {
            assert_eq!(strs(args), vec!["--user", "disable", "--now", UNIT_NAME]);
            assert!(!*must_succeed);
        },
        other => panic!("unexpected step {other:?}"),
    }
    assert!(matches!(linux[1], AutostartStep::RemoveUserUnit));
    let windows = disable(TargetOs::Windows);
    match &windows[0] {
        AutostartStep::PowerShell { script, must_succeed } => {
            assert_eq!(script, DISABLE_SCRIPT);
            assert!(!*must_succeed);
        },
        other => panic!("unexpected step {other:?}"),
    }
    assert!(disable(TargetOs::Other).is_empty());
    assert!(set_enabled(false, TargetOs::Other, Err("unused".into()), "").unwrap().is_empty());
    assert_eq!(set_enabled(true, TargetOs::Linux, Ok("/a".into()), "/b").unwrap().len(), 3);
}

#[test]
fn dry_run_values() {
    for v in ["1", "true", "TRUE", "yes", "YES"] {
        assert!(is_dry_run(Some(v)));
    }
    for v in ["0", "True", "no", "", " 1"] {
        assert!(!is_dry_run(Some(v)));
    }
    assert!(!is_dry_run(None));
}

#[test]
fn shutdown_plans() {
    let dry = execute_shutdown(ShutdownMode::Delayed, true, TargetOs::Linux);
    assert_eq!(dry.messages, vec!["[DRY-RUN] shutdown (delayed)".to_string()]);
    assert!(dry.command.is_none());

    let linux = execute_shutdown_now(false, TargetOs::Linux);
    assert_eq!(linux.messages, vec!["Ejecutando shutdown (immediate)...".to_string()]);
    let cmd = linux.command.unwrap();
    assert_eq!(cmd.program, "shutdown");
    assert_eq!(strs(&cmd.args), vec!["-h", "now"]);

    let delayed = execute_shutdown_delayed(false, TargetOs::Linux).command.unwrap();
    assert_eq!(strs(&delayed.args), vec!["-h", "+1"]);

    let win = execute_shutdown_delayed(false, TargetOs::Windows).command.unwrap();
    assert_eq!(strs(&win.args), vec!["/s", "/t", "60"]);
    let win_now = execute_shutdown_now(false, TargetOs::Windows).command.unwrap();
    assert_eq!(strs(&win_now.args), vec!["/s", "/t", "0"]);

    let other = execute_shutdown_now(false, TargetOs::Other);
    assert_eq!(
        other.messages,
        vec!["Ejecutando shutdown (immediate)...".to_string(), "Shutdown no soportado en este SO".to_string()]
    );
    assert!(other.command.is_none());
}

#[test]
fn candidate_lists() {
    let linux = linux_install_script_candidates();
    assert_eq!(linux.len(), 6);
    assert_eq!(linux[0].base, PathBase::Resource);
    assert_eq!(linux[5].rel, "../installer/linux/install-guard.sh");
    let windows = windows_register_script_candidates();
    assert_eq!(windows[3].base, PathBase::ExeDir);
    assert_eq!(windows[3].rel, "installer/windows/register-guard.ps1");
    let guard = guard_binary_candidates();
    assert_eq!(guard.len(), 7);
    assert_eq!(guard[2].rel, "target/debug/sleepguard-guard");
    assert_eq!(guard[6].base, PathBase::Absolute);
}

#[test]
fn first_existing_file_wins() {
    let probes = vec![
        FileProbe { path: "/a".into(), is_file: false, canonical: Some("/real/a".into()) },
        FileProbe { path: "/b".into(), is_file: true, canonical: None },
        FileProbe { path: "/c".into(), is_file: true, canonical: Some("/real/c".into()) },
    ];
    assert_eq!(absolute_existing_file(&probes), Some("/b".to_string()));
    let probes = vec![FileProbe { path: "rel/c".into(), is_file: true, canonical: Some("/abs/c".into()) }];
    assert_eq!(absolute_existing_file(&probes), Some("/abs/c".to_string()));
    assert_eq!(absolute_existing_file(&Vec::new()), None);
}

#[test]
fn boot_guard_commands() {
    assert_eq!(ensure_boot_guard(TargetOs::Linux).unwrap(), BootGuardRoute::Linux);
    assert_eq!(ensure_boot_guard(TargetOs::Other).unwrap_err(), "Agente de arranque no soportado en este SO");
    let args = pkexec_args("/g", "/a", "/s.sh");
    assert_eq!(strs(&args), vec!["env", "GUARD_SRC=/g", "APP_BIN=/a", "bash", "/s.sh", "--guard-only"]);
    assert_eq!(
        pkexec_launch_error("boom", "/g", "/s.sh"),
        "No se pudo lanzar pkexec (boom). Instala polkit o ejecuta manualmente:\n  sudo GUARD_SRC=/g /s.sh --guard-only"
    );
    assert_eq!(
        windows_elevate_command("C:\\r'g.ps1", "C:\\app.exe"),
        "Start-Process -FilePath powershell -Verb RunAs -Wait -ArgumentList '-NoProfile','-ExecutionPolicy','Bypass','-File','C:\\r''g.ps1','-AppPath','C:\\app.exe','-GuardOnly'"
    );
}
