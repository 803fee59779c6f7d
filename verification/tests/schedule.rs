use chrono::{DateTime, Datelike, Duration, Local, TimeZone, Timelike};
use sleepguard::clock::{at_local_time, local_date_time_from, ClockTime, Instant, LocalDate, LocalDateTime, PlacedTime};
use sleepguard::config::{day_key, resolve_activation, resolve_shutdown, AppConfig, OverrideConfig, ScheduleConfig};
use sleepguard::schedule::{next_shutdown_event, pick_next_shutdown, upcoming};

fn cfg_with(
    shutdown_default: &str,
    activation_default: &str,
    overrides: Vec<(String, OverrideConfig)>,
) -> AppConfig {
    AppConfig {
        os: "linux".into(),
        enabled: true,
        schedule: ScheduleConfig {
            shutdown_default: shutdown_default.into(),
            activation_default: activation_default.into(),
            overrides,
        },
    }
}

fn hm(hour: u32, minute: u32) -> ClockTime {
    ClockTime::from_hms(hour, minute, 0).unwrap()
}

fn date_of(dt: &DateTime<Local>) -> LocalDate {
    LocalDate::from_num_days_from_ce(dt.date_naive().num_days_from_ce()).unwrap()
}

fn local(dt: DateTime<Local>) -> LocalDateTime {
    LocalDateTime {
        date: date_of(&dt),
        time: ClockTime::from_hms(dt.hour(), dt.minute(), dt.second()).unwrap(),
        instant: Instant { secs: dt.timestamp(), nanos: dt.timestamp_subsec_nanos() },
    }
}

fn chrono_of(ev: &LocalDateTime) -> DateTime<Local> {
    Local.timestamp_opt(ev.instant.secs, ev.instant.nanos).single().unwrap()
}

#[test]
fn resolve_uses_override_when_non_empty() {
    let overrides = vec![(
        "fri".to_string(),
        OverrideConfig { shutdown: "00:30".into(), activation: "08:30".into() },
    )];
    let cfg = cfg_with("23:30", "07:00", overrides);

    assert_eq!(resolve_shutdown(&cfg, "fri").unwrap(), hm(0, 30));
    assert_eq!(resolve_activation(&cfg, "fri").unwrap(), hm(8, 30));
}

#[test]
fn resolve_falls_back_on_empty_override() {
    let overrides = vec![(
        "sat".to_string(),
        OverrideConfig { shutdown: "".into(), activation: "".into() },
    )];
    let cfg = cfg_with("23:30", "07:00", overrides);

    assert_eq!(resolve_shutdown(&cfg, "sat").unwrap(), hm(23, 30));
    assert_eq!(resolve_activation(&cfg, "sat").unwrap(), hm(7, 0));
}

#[test]
fn next_shutdown_today_when_still_upcoming() {
    let cfg = cfg_with("23:30", "07:00", Vec::new());
    // Pick a fixed local datetime: a Monday 20:00
    let now = local(Local.with_ymd_and_hms(2026, 7, 13, 20, 0, 0).single().expect("valid local time"));
    assert_eq!(day_key(&now.date), "mon");

    let event = next_shutdown_event(&cfg, &now).unwrap();
    assert_eq!(event.date, now.date);
    assert_eq!(event.time, hm(23, 30));
}

#[test]
fn next_shutdown_tomorrow_when_today_passed() {
    let cfg = cfg_with("23:30", "07:00", Vec::new());
    let now = local(Local.with_ymd_and_hms(2026, 7, 13, 23, 45, 0).single().expect("valid local time"));

    let event = next_shutdown_event(&cfg, &now).unwrap();
    assert_eq!(event.date.num_days_from_ce(), now.date.num_days_from_ce() + 1);
    assert_eq!(day_key(&event.date), "tue");
    assert_eq!(event.time, hm(23, 30));
}

#[test]
fn next_shutdown_crosses_midnight_with_override() {
    let overrides = vec![(
        "tue".to_string(),
        OverrideConfig { shutdown: "00:05".into(), activation: "".into() },
    )];
    let cfg = cfg_with("23:30", "07:00", overrides);
    // Monday 23:50 -> next event is Tuesday 00:05
    let now = local(Local.with_ymd_and_hms(2026, 7, 13, 23, 50, 0).single().expect("valid local time"));

    let event = next_shutdown_event(&cfg, &now).unwrap();
    assert_eq!(day_key(&event.date), "tue");
    assert_eq!(event.time, hm(0, 5));

    let notify_at = chrono_of(&event) - Duration::minutes(15);
    assert_eq!((notify_at.hour(), notify_at.minute(), notify_at.second()), (23, 50, 0));
    assert_eq!(day_key(&date_of(&notify_at)), "mon");
}

#[test]
fn next_shutdown_none_when_disabled() {
    let mut cfg = cfg_with("23:30", "07:00", Vec::new());
    cfg.enabled = false;
    let now = local(Local.with_ymd_and_hms(2026, 7, 13, 20, 0, 0).single().expect("valid local time"));
    assert!(next_shutdown_event(&cfg, &now).is_none());
}

#[test]
fn next_shutdown_event_instant_is_the_local_time() {
    let cfg = cfg_with("23:30", "07:00", Vec::new());
    let now = local(Local.with_ymd_and_hms(2026, 7, 13, 20, 0, 0).single().unwrap());
    let event = next_shutdown_event(&cfg, &now).unwrap();
    let expected = Local.with_ymd_and_hms(2026, 7, 13, 23, 30, 0).single().unwrap();
    assert_eq!(event.instant, Instant { secs: expected.timestamp(), nanos: 0 });
    assert_ne!(event.instant, now.instant);
}

#[test]
fn next_shutdown_exactly_now_is_today() {
    let cfg = cfg_with("23:30", "07:00", Vec::new());
    let now = local(Local.with_ymd_and_hms(2026, 7, 13, 23, 30, 0).single().unwrap());
    let event = next_shutdown_event(&cfg, &now).unwrap();
    assert_eq!(event.date, now.date);
    assert_eq!(event.instant, now.instant);
}

#[test]
fn next_shutdown_none_when_no_time_resolves() {
    let cfg = cfg_with("", "07:00", Vec::new());
    let now = local(Local.with_ymd_and_hms(2026, 7, 13, 20, 0, 0).single().unwrap());
    assert!(next_shutdown_event(&cfg, &now).is_none());
}

#[test]
fn next_shutdown_skips_to_tomorrow_when_today_blank_override_and_blank_default() {
    let overrides = vec![(
        "tue".to_string(),
        OverrideConfig { shutdown: "22:00".into(), activation: "".into() },
    )];
    let cfg = cfg_with("  ", "07:00", overrides);
    let now = local(Local.with_ymd_and_hms(2026, 7, 13, 10, 0, 0).single().unwrap());
    let event = next_shutdown_event(&cfg, &now).unwrap();
    assert_eq!(day_key(&event.date), "tue");
    assert_eq!(event.time, hm(22, 0));
}

#[test]
fn upcoming_keeps_only_future_candidates() {
    let now = local(Local.with_ymd_and_hms(2026, 7, 13, 20, 0, 0).single().unwrap());
    let earlier = local(Local.with_ymd_and_hms(2026, 7, 13, 19, 59, 59).single().unwrap());
    let later = local(Local.with_ymd_and_hms(2026, 7, 13, 20, 0, 1).single().unwrap());
    assert_eq!(upcoming(Some(earlier), &now), None);
    assert_eq!(upcoming(Some(later), &now), Some(later));
    assert_eq!(upcoming(Some(now), &now), Some(now));
    assert_eq!(upcoming(None, &now), None);
}

#[test]
fn day_keys_follow_the_calendar() {
    // 2026-07-13 is a Monday.
    let mut d = date_of(&Local.with_ymd_and_hms(2026, 7, 13, 12, 0, 0).single().unwrap());
    let keys = ["mon", "tue", "wed", "thu", "fri", "sat", "sun", "mon"];
    for k in keys {
        assert_eq!(day_key(&d), k);
        d = d.succ().unwrap();
    }
    assert_eq!(d.weekday(), 1);
}

#[test]
fn local_date_range_is_chrono_range() {
    assert!(LocalDate::from_num_days_from_ce(-95_746_129).is_some());
    assert!(LocalDate::from_num_days_from_ce(-95_746_130).is_none());
    assert!(LocalDate::from_num_days_from_ce(95_745_399).is_some());
    assert!(LocalDate::from_num_days_from_ce(95_745_400).is_none());
    assert!(LocalDate::from_num_days_from_ce(95_745_399).unwrap().succ().is_none());
    assert_eq!(
        chrono::NaiveDate::MIN.num_days_from_ce(),
        -95_746_129
    );
    assert_eq!(chrono::NaiveDate::MAX.num_days_from_ce(), 95_745_399);
    assert_eq!(LocalDate::from_num_days_from_ce(0).unwrap().weekday(), 6);
    assert_eq!(LocalDate::from_num_days_from_ce(-6).unwrap().weekday(), 0);
}

#[test]
fn config_dir_names() {
    assert_eq!(sleepguard::config::config_dir_name(sleepguard::shutdown::TargetOs::Windows), "SleepGuard");
    assert_eq!(sleepguard::config::config_dir_name(sleepguard::shutdown::TargetOs::Linux), "sleepguard");
    assert_eq!(sleepguard::config::config_dir_name(sleepguard::shutdown::TargetOs::Other), "sleepguard");
}

#[test]
fn local_date_rejects_unrepresentable_days() {
    assert!(LocalDate::from_num_days_from_ce(i32::MAX).is_none());
    assert!(LocalDate::from_num_days_from_ce(1).is_some());
    // January 1 of year 1 is a Monday.
    assert_eq!(day_key(&LocalDate::from_num_days_from_ce(1).unwrap()), "mon");
}

#[test]
fn resolve_missing_day_uses_default() {
    let cfg = cfg_with("21:15", "06:45", Vec::new());
    assert_eq!(resolve_shutdown(&cfg, "wed"), Some(hm(21, 15)));
    assert_eq!(resolve_activation(&cfg, "wed"), Some(hm(6, 45)));
}

#[test]
fn resolve_invalid_override_is_none() {
    let overrides = vec![(
        "mon".to_string(),
        OverrideConfig { shutdown: "25:00".into(), activation: "abc".into() },
    )];
    let cfg = cfg_with("23:30", "07:00", overrides);
    assert_eq!(resolve_shutdown(&cfg, "mon"), None);
    assert_eq!(resolve_activation(&cfg, "mon"), None);
}

#[test]
fn first_launch_config_schedule() {
    let cfg = AppConfig::default_for_os(false);
    assert_eq!(cfg.os, "linux");
    assert!(cfg.enabled);
    assert_eq!(resolve_shutdown(&cfg, "fri"), Some(hm(0, 30)));
    assert_eq!(resolve_activation(&cfg, "fri"), Some(hm(8, 30)));
    assert_eq!(resolve_shutdown(&cfg, "sat"), Some(hm(23, 30)));
    assert_eq!(resolve_activation(&cfg, "sun"), Some(hm(7, 0)));
    assert_eq!(resolve_shutdown(&cfg, "mon"), Some(hm(23, 30)));
    assert_eq!(cfg.schedule.overrides.len(), 7);
    assert_eq!(AppConfig::default_for_os(true).os, "windows");
}

#[test]
fn local_date_time_from_keeps_the_placed_fields() {
    let now = local(Local.with_ymd_and_hms(2026, 7, 13, 20, 0, 0).single().unwrap());
    let placed = PlacedTime {
        days_from_ce: now.date.num_days_from_ce(),
        hour: 23,
        minute: 30,
        second: 0,
        instant: Instant { secs: 42, nanos: 0 },
    };
    let ev = local_date_time_from(Some(placed)).unwrap();
    assert_eq!(ev.date, now.date);
    assert_eq!(ev.time, hm(23, 30));
    assert_eq!(ev.instant, Instant { secs: 42, nanos: 0 });
    assert!(local_date_time_from(None).is_none());
    assert!(local_date_time_from(Some(PlacedTime { hour: 24, ..placed })).is_none());
    assert!(local_date_time_from(Some(PlacedTime { days_from_ce: i32::MAX, ..placed })).is_none());
    let bad = ClockTime { hour: 24, minute: 0, second: 0 };
    assert!(at_local_time(&now.date, bad).is_none());
}

#[test]
fn at_local_time_keeps_the_local_time() {
    let now = local(Local.with_ymd_and_hms(2026, 7, 13, 20, 0, 0).single().unwrap());
    let ev = at_local_time(&now.date, ClockTime { hour: 23, minute: 0, second: 30 }).unwrap();
    assert_eq!(ev.time, ClockTime { hour: 23, minute: 0, second: 30 });
    let expected = Local.with_ymd_and_hms(2026, 7, 13, 23, 0, 30).single().unwrap();
    assert_eq!(ev.instant, Instant { secs: expected.timestamp(), nanos: 0 });
    let naive = (now.date.num_days_from_ce() as i64 - 719_163) * 86_400 + 23 * 3600 + 30;
    assert!((ev.instant.secs - naive).abs() < 86_400);
}

#[test]
fn pick_prefers_today_when_upcoming() {
    let now = local(Local.with_ymd_and_hms(2026, 7, 13, 20, 0, 0).single().unwrap());
    let today = local(Local.with_ymd_and_hms(2026, 7, 13, 23, 30, 0).single().unwrap());
    let past = local(Local.with_ymd_and_hms(2026, 7, 13, 19, 0, 0).single().unwrap());
    let tomorrow = local(Local.with_ymd_and_hms(2026, 7, 14, 23, 30, 0).single().unwrap());
    assert_eq!(pick_next_shutdown(true, &now, Some(today), Some(tomorrow)), Some(today));
    assert_eq!(pick_next_shutdown(true, &now, Some(now), Some(tomorrow)), Some(now));
    assert_eq!(pick_next_shutdown(true, &now, Some(past), Some(tomorrow)), Some(tomorrow));
    assert_eq!(pick_next_shutdown(true, &now, None, Some(tomorrow)), Some(tomorrow));
    assert_eq!(pick_next_shutdown(true, &now, Some(past), None), None);
    assert_eq!(pick_next_shutdown(true, &now, Some(past), Some(past)), None);
    assert_eq!(pick_next_shutdown(true, &now, None, Some(past)), None);
    assert_eq!(pick_next_shutdown(false, &now, Some(today), Some(tomorrow)), None);
}

#[test]
fn resolve_reads_written_times() {
    let cfg = cfg_with(" 24:00 ", "12:60", Vec::new());
    assert_eq!(resolve_shutdown(&cfg, "mon"), None);
    assert_eq!(resolve_activation(&cfg, "mon"), None);
}
