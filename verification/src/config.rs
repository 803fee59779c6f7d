//! The stored configuration and how a day's shutdown and activation times are
//! resolved from it.
use vstd::prelude::*;
use crate::clock::{is_hhmm_shape, parse_hhmm, parse_hhmm_spec, shape_time, ClockTime, LocalDate, chrono_weekday};
use crate::shutdown::TargetOs;
use crate::text::{text_eq, trim, trim_seq};

verus! {

/// The times set for one weekday; an empty (or blank) time falls back to the default.
#[derive(Clone, Debug)]
pub struct OverrideConfig {
    pub shutdown: String,
    pub activation: String,
}

impl Default for OverrideConfig {
    fn default() -> (r: OverrideConfig)
        ensures
            r.shutdown@ == Seq::<char>::empty(),
            r.activation@ == Seq::<char>::empty(),
    {
        OverrideConfig { shutdown: String::new(), activation: String::new() }
    }
}

/// The weekly schedule: default times and per-day overrides keyed by day key
/// (`"mon"` ... `"sun"`). Each key should appear once (`keys_distinct`): the
/// first-launch configuration has distinct keys, as does one read from the
/// stored map; where a key appears twice, a lookup takes the first entry.
#[derive(Clone, Debug)]
pub struct ScheduleConfig {
    pub shutdown_default: String,
    pub activation_default: String,
    pub overrides: Vec<(String, OverrideConfig)>,
}

/// The whole application configuration.
#[derive(Clone, Debug)]
pub struct AppConfig {
    pub os: String,
    pub enabled: bool,
    pub schedule: ScheduleConfig,
}

/// Which of the two daily times is meant.
#[derive(Clone, Copy, Debug, PartialEq, Eq, Structural)]
pub enum ScheduleField {
    Shutdown,
    Activation,
}

/// No two overrides have the same day key (as in a map from day key to override).
pub open spec fn keys_distinct(ovs: Seq<(String, OverrideConfig)>) -> bool {
    forall|i: int, j: int|
        0 <= i < ovs.len() && 0 <= j < ovs.len() && i != j ==> #[trigger] ovs[i].0@ != #[trigger] ovs[j].0@
}

/// The override stored for `day`: the first entry with that key.
pub open spec fn find_override(ovs: Seq<(String, OverrideConfig)>, day: Seq<char>) -> Option<
    OverrideConfig,
>
    decreases ovs.len(),
{
    if ovs.len() == 0 {
        None
    } else if ovs[0].0@ == day {
        Some(ovs[0].1)
    } else {
        find_override(ovs.drop_first(), day)
    }
}

/// The text of one field of an override.
pub open spec fn override_text(o: OverrideConfig, field: ScheduleField) -> Seq<char> {
    match field {
        ScheduleField::Shutdown => o.shutdown@,
        ScheduleField::Activation => o.activation@,
    }
}

/// The default text of one field.
pub open spec fn default_text(s: ScheduleConfig, field: ScheduleField) -> Seq<char> {
    match field {
        ScheduleField::Shutdown => s.shutdown_default@,
        ScheduleField::Activation => s.activation_default@,
    }
}

/// The text that decides a field on `day`: the day's override when it is not
/// blank, else the default.
pub open spec fn effective_text(cfg: AppConfig, day: Seq<char>, field: ScheduleField) -> Seq<char> {
    match find_override(cfg.schedule.overrides@, day) {
        Some(o) => if trim_seq(override_text(o, field)).len() > 0 {
            override_text(o, field)
        } else {
            default_text(cfg.schedule, field)
        },
        None => default_text(cfg.schedule, field),
    }
}

/// The time of a field on `day`.
pub open spec fn resolve_spec(cfg: AppConfig, day: Seq<char>, field: ScheduleField) -> Option<
    ClockTime,
> {
    parse_hhmm_spec(effective_text(cfg, day, field))
}

/// The day key of a weekday number, Monday = 0 (anything from 6 on is Sunday).
pub open spec fn weekday_key(w: u32) -> Seq<char> {
    if w == 0 {
        "mon"@
    } else if w == 1 {
        "tue"@
    } else if w == 2 {
        "wed"@
    } else if w == 3 {
        "thu"@
    } else if w == 4 {
        "fri"@
    } else if w == 5 {
        "sat"@
    } else {
        "sun"@
    }
}

/// The day key of a date.
pub open spec fn date_key(date: LocalDate) -> Seq<char> {
    weekday_key(date.spec_weekday())
}

/// Day key in short form: `"mon"` ... `"sun"`.
pub fn day_key(date: &LocalDate) -> (key: &'static str)
    ensures
        key@ == date_key(*date),
        chrono_weekday(date@) == Some(date.spec_weekday()),
{
    match date.weekday() {
        0 => "mon",
        1 => "tue",
        2 => "wed",
        3 => "thu",
        4 => "fri",
        5 => "sat",
        _ => "sun",
    }
}

/// Index of the first override with key `day`, if any.
fn find_override_index(ovs: &Vec<(String, OverrideConfig)>, day: &str) -> (r: Option<usize>)
    ensures
        match r {
            Some(i) => i < ovs@.len() && find_override(ovs@, day@) == Some(ovs@[i as int].1),
            None => find_override(ovs@, day@) is None,
        },
{
    let n: usize = ovs.len();
    let mut i: usize = 0;
    assert(ovs@.subrange(0, n as int) =~= ovs@);
    while i < n
        invariant
            n == ovs@.len(),
            i <= n,
            find_override(ovs@, day@) == find_override(ovs@.subrange(i as int, n as int), day@),
        decreases n - i,
    {
        let ghost rest = ovs@.subrange(i as int, n as int);
        assert(rest[0] == ovs@[i as int]);
        if text_eq(ovs[i].0.as_str(), day) {
            return Some(i);
        }
        assert(rest.drop_first() =~= ovs@.subrange(i + 1, n as int));
        i = i + 1;
    }
    None
}

/// The time of a field on `day`: the day's override when it is not blank,
/// else the default; `None` when the deciding text is blank or not a time.
pub fn resolve_field(cfg: &AppConfig, day: &str, field: ScheduleField) -> (r: Option<ClockTime>)
    ensures
        r == resolve_spec(*cfg, day@, field),
        is_hhmm_shape(trim_seq(effective_text(*cfg, day@, field))) ==> r == shape_time(
            trim_seq(effective_text(*cfg, day@, field)),
        ),
{
    if let Some(i) = find_override_index(&cfg.schedule.overrides, day) {
        let o = &cfg.schedule.overrides[i].1;
        let value = match field {
            ScheduleField::Shutdown => o.shutdown.as_str(),
            ScheduleField::Activation => o.activation.as_str(),
        };
        if !trim(value).is_empty() {
            return parse_hhmm(value);
        }
    }
    let default = match field {
        ScheduleField::Shutdown => cfg.schedule.shutdown_default.as_str(),
        ScheduleField::Activation => cfg.schedule.activation_default.as_str(),
    };
    parse_hhmm(default)
}

/// The shutdown time on `day`.
pub fn resolve_shutdown(cfg: &AppConfig, day: &str) -> (r: Option<ClockTime>)
    ensures
        r == resolve_spec(*cfg, day@, ScheduleField::Shutdown),
        r matches Some(t) ==> t.wf() && t.second == 0,
        is_hhmm_shape(trim_seq(effective_text(*cfg, day@, ScheduleField::Shutdown))) ==> r == shape_time(
            trim_seq(effective_text(*cfg, day@, ScheduleField::Shutdown)),
        ),
{
    resolve_field(cfg, day, ScheduleField::Shutdown)
}

/// The activation time on `day`.
pub fn resolve_activation(cfg: &AppConfig, day: &str) -> (r: Option<ClockTime>)
    ensures
        r == resolve_spec(*cfg, day@, ScheduleField::Activation),
        r matches Some(t) ==> t.wf() && t.second == 0,
        is_hhmm_shape(trim_seq(effective_text(*cfg, day@, ScheduleField::Activation))) ==> r == shape_time(
            trim_seq(effective_text(*cfg, day@, ScheduleField::Activation)),
        ),
{
    resolve_field(cfg, day, ScheduleField::Activation)
}


/// Whether an override entry has the given key, shutdown and activation texts.
pub open spec fn entry_is(
    e: (String, OverrideConfig),
    day: Seq<char>,
    shutdown: Seq<char>,
    activation: Seq<char>,
) -> bool {
    &&& e.0@ == day
    &&& e.1.shutdown@ == shutdown
    &&& e.1.activation@ == activation
}

/// One override entry.
fn entry(day: &str, shutdown: &str, activation: &str) -> (e: (String, OverrideConfig))
    ensures
        entry_is(e, day@, shutdown@, activation@),
{
    (
        String::from_str(day),
        OverrideConfig { shutdown: String::from_str(shutdown), activation: String::from_str(activation) },
    )
}

/// The configuration written on first launch (see `AppConfig::default_for_os`).
pub open spec fn is_first_launch_config(cfg: AppConfig, on_windows: bool) -> bool {
    &&& cfg.os@ == (if on_windows { "windows"@ } else { "linux"@ })
    &&& cfg.enabled
    &&& cfg.schedule.shutdown_default@ == "23:30"@
    &&& cfg.schedule.activation_default@ == "07:00"@
    &&& cfg.schedule.overrides@.len() == 7
    &&& entry_is(cfg.schedule.overrides@[0], "mon"@, "23:30"@, "07:00"@)
    &&& entry_is(cfg.schedule.overrides@[1], "tue"@, "23:30"@, "07:00"@)
    &&& entry_is(cfg.schedule.overrides@[2], "wed"@, "23:30"@, "07:00"@)
    &&& entry_is(cfg.schedule.overrides@[3], "thu"@, "23:30"@, "07:00"@)
    &&& entry_is(cfg.schedule.overrides@[4], "fri"@, "00:30"@, "08:30"@)
    &&& entry_is(cfg.schedule.overrides@[5], "sat"@, ""@, ""@)
    &&& entry_is(cfg.schedule.overrides@[6], "sun"@, ""@, ""@)
    &&& keys_distinct(cfg.schedule.overrides@)
}

impl AppConfig {
    /// The configuration written on first launch: enabled, shutdown 23:30 and
    /// activation 07:00 by default, Friday 00:30 / 08:30, the weekend with
    /// empty overrides (so the defaults apply), every other weekday with
    /// 23:30 / 07:00; `os` names the platform it runs on.
    pub fn default_for_os(on_windows: bool) -> (cfg: AppConfig)
        ensures
            is_first_launch_config(cfg, on_windows),
    {
        let mut overrides: Vec<(String, OverrideConfig)> = Vec::new();
        overrides.push(entry("mon", "23:30", "07:00"));
        overrides.push(entry("tue", "23:30", "07:00"));
        overrides.push(entry("wed", "23:30", "07:00"));
        overrides.push(entry("thu", "23:30", "07:00"));
        overrides.push(entry("fri", "00:30", "08:30"));
        overrides.push(entry("sat", "", ""));
        overrides.push(entry("sun", "", ""));
        proof {
            let ovs = overrides@;
            assert forall|i: int| 0 <= i < 7 implies #[trigger] ovs[i].0@ == weekday_key(i as u32) by {
                if i == 0 {
                } else if i == 1 {
                } else if i == 2 {
                } else if i == 3 {
                } else if i == 4 {
                } else if i == 5 {
                } else {
                }
            }
            assert forall|i: int, j: int|
                0 <= i < ovs.len() && 0 <= j < ovs.len() && i != j implies #[trigger] ovs[i].0@
                != #[trigger] ovs[j].0@ by {
                assert(ovs[i].0@ == weekday_key(i as u32));
                assert(ovs[j].0@ == weekday_key(j as u32));
                lemma_day_keys_distinct(i as u32, j as u32);
            }
        }
        let os = if on_windows {
            String::from_str("windows")
        } else {
            String::from_str("linux")
        };
        AppConfig {
            os,
            enabled: true,
            schedule: ScheduleConfig {
                shutdown_default: String::from_str("23:30"),
                activation_default: String::from_str("07:00"),
                overrides,
            },
        }
    }
}


/// Distinct weekdays have distinct day keys, so each day's override is found
/// under its own key.
pub proof fn lemma_day_keys_distinct(w1: u32, w2: u32)
    requires
        w1 < 7,
        w2 < 7,
        w1 != w2,
    ensures
        weekday_key(w1) != weekday_key(w2),
{
    reveal_strlit("mon");
    reveal_strlit("tue");
    reveal_strlit("wed");
    reveal_strlit("thu");
    reveal_strlit("fri");
    reveal_strlit("sat");
    reveal_strlit("sun");
    let k1 = weekday_key(w1);
    let k2 = weekday_key(w2);
    assert(k1[0] != k2[0] || k1[1] != k2[1]);
}

/// A day with no override, or whose override leaves the field blank, takes
/// the default time; a day whose override sets the field takes that time.
pub proof fn lemma_override_or_default(cfg: AppConfig, day: Seq<char>, field: ScheduleField)
    ensures
        match find_override(cfg.schedule.overrides@, day) {
            Some(o) => if trim_seq(override_text(o, field)).len() > 0 {
                resolve_spec(cfg, day, field) == parse_hhmm_spec(override_text(o, field))
            } else {
                resolve_spec(cfg, day, field) == parse_hhmm_spec(default_text(cfg.schedule, field))
            },
            None => resolve_spec(cfg, day, field) == parse_hhmm_spec(default_text(cfg.schedule, field)),
        },
{
}


/// The lookup finds the entry at `k` when it has the key and no earlier entry does.
proof fn lemma_find_override_at(ovs: Seq<(String, OverrideConfig)>, k: int, day: Seq<char>)
    requires
        0 <= k < ovs.len(),
        ovs[k].0@ == day,
        forall|j: int| 0 <= j < k ==> ovs[j].0@ != day,
    ensures
        find_override(ovs, day) == Some(ovs[k].1),
    decreases k,
{
    if k > 0 {
        let rest = ovs.drop_first();
        assert forall|j: int| 0 <= j < k - 1 implies rest[j].0@ != day by {
            assert(rest[j] == ovs[j + 1]);
        }
        assert(rest[k - 1] == ovs[k]);
        lemma_find_override_at(rest, k - 1, day);
    }
}

/// In the first-launch configuration Monday to Thursday shut down at 23:30
/// and activate at 07:00, Friday at 00:30 and 08:30, and the weekend's empty
/// overrides fall back to the defaults (23:30 and 07:00).
pub proof fn lemma_first_launch_schedule(cfg: AppConfig, on_windows: bool)
    requires
        is_first_launch_config(cfg, on_windows),
    ensures
        effective_text(cfg, "mon"@, ScheduleField::Shutdown) == "23:30"@,
        effective_text(cfg, "mon"@, ScheduleField::Activation) == "07:00"@,
        effective_text(cfg, "tue"@, ScheduleField::Shutdown) == "23:30"@,
        effective_text(cfg, "tue"@, ScheduleField::Activation) == "07:00"@,
        effective_text(cfg, "wed"@, ScheduleField::Shutdown) == "23:30"@,
        effective_text(cfg, "wed"@, ScheduleField::Activation) == "07:00"@,
        effective_text(cfg, "thu"@, ScheduleField::Shutdown) == "23:30"@,
        effective_text(cfg, "thu"@, ScheduleField::Activation) == "07:00"@,
        effective_text(cfg, "fri"@, ScheduleField::Shutdown) == "00:30"@,
        effective_text(cfg, "fri"@, ScheduleField::Activation) == "08:30"@,
        effective_text(cfg, "sat"@, ScheduleField::Shutdown) == "23:30"@,
        effective_text(cfg, "sat"@, ScheduleField::Activation) == "07:00"@,
        effective_text(cfg, "sun"@, ScheduleField::Shutdown) == "23:30"@,
        effective_text(cfg, "sun"@, ScheduleField::Activation) == "07:00"@,
{
    reveal_strlit("mon");
    reveal_strlit("tue");
    reveal_strlit("wed");
    reveal_strlit("thu");
    reveal_strlit("fri");
    reveal_strlit("sat");
    reveal_strlit("sun");
    reveal_strlit("23:30");
    reveal_strlit("07:00");
    reveal_strlit("00:30");
    reveal_strlit("08:30");
    reveal_strlit("");
    let ovs = cfg.schedule.overrides@;
    assert(trim_seq(""@) == ""@);
    assert(trim_seq("23:30"@).len() > 0);
    assert(trim_seq("07:00"@).len() > 0);
    assert(trim_seq("00:30"@).len() > 0);
    assert(trim_seq("08:30"@).len() > 0);
    lemma_find_override_at(ovs, 0, "mon"@);
    assert("mon"@[0] != "tue"@[0]);
    lemma_find_override_at(ovs, 1, "tue"@);
    assert("mon"@[0] != "wed"@[0]);
    assert("tue"@[0] != "wed"@[0]);
    lemma_find_override_at(ovs, 2, "wed"@);
    assert("mon"@[0] != "thu"@[0]);
    assert("tue"@[1] != "thu"@[1]);
    assert("wed"@[0] != "thu"@[0]);
    lemma_find_override_at(ovs, 3, "thu"@);
    assert("mon"@[0] != "fri"@[0]);
    assert("tue"@[0] != "fri"@[0]);
    assert("wed"@[0] != "fri"@[0]);
    assert("thu"@[0] != "fri"@[0]);
    lemma_find_override_at(ovs, 4, "fri"@);
    assert("mon"@[0] != "sat"@[0]);
    assert("tue"@[0] != "sat"@[0]);
    assert("wed"@[0] != "sat"@[0]);
    assert("thu"@[0] != "sat"@[0]);
    assert("fri"@[0] != "sat"@[0]);
    lemma_find_override_at(ovs, 5, "sat"@);
    assert("mon"@[0] != "sun"@[0]);
    assert("tue"@[0] != "sun"@[0]);
    assert("wed"@[0] != "sun"@[0]);
    assert("thu"@[0] != "sun"@[0]);
    assert("fri"@[0] != "sun"@[0]);
    assert("sat"@[1] != "sun"@[1]);
    lemma_find_override_at(ovs, 6, "sun"@);
}


/// Where the configuration file lives.
#[derive(Clone, Debug)]
pub enum ConfigLocation {
    /// The path given by `SLEEPGUARD_CONFIG`.
    Custom(String),
    /// `config.json` in the directory named by `config_dir_name` of the user's configuration
    /// directory (or of the working directory when there is none).
    UserConfigDir,
}

/// The directory under the user's configuration directory that holds the
/// file: `SleepGuard` on Windows (under `%APPDATA%`), `sleepguard` elsewhere
/// (`~/.config/sleepguard` on Linux).
pub fn config_dir_name(target: TargetOs) -> (r: &'static str)
    ensures
        r@ == (if target == TargetOs::Windows { "SleepGuard"@ } else { "sleepguard"@ }),
{
    match target {
        TargetOs::Windows => "SleepGuard",
        _ => "sleepguard",
    }
}

/// Name of the configuration file.
pub const CONFIG_FILE_NAME: &'static str = "config.json";

/// The configuration's location from the value of `SLEEPGUARD_CONFIG`
/// (`None` when unset or not unicode): a non-empty value is the path.
pub fn config_location(custom: Option<&str>) -> (r: ConfigLocation)
    ensures
        match custom {
            Some(c) => if c@.len() > 0 {
                r matches ConfigLocation::Custom(p) && p@ == c@
            } else {
                r matches ConfigLocation::UserConfigDir
            },
            None => r matches ConfigLocation::UserConfigDir,
        },
{
    match custom {
        Some(c) => if c.is_empty() {
            ConfigLocation::UserConfigDir
        } else {
            ConfigLocation::Custom(String::from_str(c))
        },
        None => ConfigLocation::UserConfigDir,
    }
}


/// With distinct keys the overrides behave as a map: each entry is what its
/// own key looks up, and a key that no entry has looks up nothing.
pub proof fn lemma_lookup_is_map(ovs: Seq<(String, OverrideConfig)>, k: int, day: Seq<char>)
    requires
        keys_distinct(ovs),
        0 <= k < ovs.len(),
    ensures
        find_override(ovs, ovs[k].0@) == Some(ovs[k].1),
        (forall|i: int| 0 <= i < ovs.len() ==> ovs[i].0@ != day) ==> find_override(ovs, day) is None,
{
    assert forall|j: int| 0 <= j < k implies ovs[j].0@ != ovs[k].0@ by {
        assert(ovs[j].0@ != ovs[k].0@);
    }
    lemma_find_override_at(ovs, k, ovs[k].0@);
    if forall|i: int| 0 <= i < ovs.len() ==> ovs[i].0@ != day {
        lemma_find_override_absent(ovs, day);
    }
}

/// A key that no entry has looks up nothing.
proof fn lemma_find_override_absent(ovs: Seq<(String, OverrideConfig)>, day: Seq<char>)
    requires
        forall|i: int| 0 <= i < ovs.len() ==> ovs[i].0@ != day,
    ensures
        find_override(ovs, day) is None,
    decreases ovs.len(),
{
    if ovs.len() > 0 {
        let rest = ovs.drop_first();
        assert forall|i: int| 0 <= i < rest.len() implies rest[i].0@ != day by {
            assert(rest[i] == ovs[i + 1]);
        }
        assert(ovs[0].0@ != day);
        lemma_find_override_absent(rest, day);
    }
}

} // verus!
