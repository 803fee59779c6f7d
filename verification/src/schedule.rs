//! When the next scheduled shutdown happens.
use vstd::prelude::*;
use crate::clock::{at_local_time, placed, LocalDate, LocalDateTime};
use crate::config::{date_key, day_key, resolve_shutdown, resolve_spec, AppConfig, ScheduleField};

verus! {

/// A candidate kept when it is at or after `now`, dropped otherwise.
pub open spec fn upcoming_spec(candidate: Option<LocalDateTime>, now: LocalDateTime) -> Option<LocalDateTime> {
    match candidate {
        Some(ev) => if ev.instant.spec_ge(now.instant) {
            Some(ev)
        } else {
            None
        },
        None => None,
    }
}

/// A candidate shutdown that is still upcoming at `now`: kept when it is at or
/// after `now`, dropped otherwise.
pub fn upcoming(candidate: Option<LocalDateTime>, now: &LocalDateTime) -> (r: Option<LocalDateTime>)
    ensures
        r == upcoming_spec(candidate, *now),
{
    match candidate {
        Some(ev) => if ev.instant.is_at_or_after(&now.instant) {
            Some(ev)
        } else {
            None
        },
        None => None,
    }
}

/// Whether `c` may be the shutdown candidate of the day with number `day`:
/// none (the day's time does not resolve, or the time zone could not place
/// it), or that day at its resolved shutdown time, at an instant tied to it.
pub open spec fn candidate_on(cfg: AppConfig, day: int, c: Option<LocalDateTime>) -> bool {
    match c {
        Some(ev) => {
            &&& ev.date@ == day
            &&& Some(ev.time) == resolve_spec(cfg, date_key(ev.date), ScheduleField::Shutdown)
            &&& placed(ev)
        },
        None => true,
    }
}

/// The next shutdown from the day candidates: none when disabled; today's
/// when it is at or after `now`; else tomorrow's when it is at or after `now`.
pub open spec fn pick_spec(
    enabled: bool,
    now: LocalDateTime,
    today: Option<LocalDateTime>,
    tomorrow: Option<LocalDateTime>,
) -> Option<LocalDateTime> {
    if !enabled {
        None
    } else {
        match today {
            Some(ev) => if ev.instant.spec_ge(now.instant) {
                today
            } else {
                upcoming_spec(tomorrow, now)
            },
            None => upcoming_spec(tomorrow, now),
        }
    }
}

/// Chooses the next shutdown from today's and tomorrow's candidates.
pub fn pick_next_shutdown(
    enabled: bool,
    now: &LocalDateTime,
    today: Option<LocalDateTime>,
    tomorrow: Option<LocalDateTime>,
) -> (r: Option<LocalDateTime>)
    ensures
        r == pick_spec(enabled, *now, today, tomorrow),
{
    if !enabled {
        return None;
    }
    match upcoming(today, now) {
        Some(ev) => Some(ev),
        None => upcoming(tomorrow, now),
    }
}

/// The shutdown candidate of `date`: its resolved shutdown time placed in the
/// machine's time zone.
fn candidate(cfg: &AppConfig, date: &LocalDate) -> (r: Option<LocalDateTime>)
    ensures
        candidate_on(*cfg, date@ as int, r),
        r matches Some(ev) ==> ev.date == *date,
{
    match resolve_shutdown(cfg, day_key(date)) {
        Some(time) => at_local_time(date, time),
        None => None,
    }
}

/// Next shutdown instant at or after `now` (today's time if still upcoming,
/// else tomorrow's). `None` when the schedule is disabled, or when neither
/// day yields a shutdown at or after `now`: no time resolves for the day, or
/// that local time does not exist or occurs twice in the machine's time zone.
pub fn next_shutdown_event(cfg: &AppConfig, now: &LocalDateTime) -> (r: Option<LocalDateTime>)
    ensures
        exists|tc: Option<LocalDateTime>, mc: Option<LocalDateTime>|
            #![trigger pick_spec(cfg.enabled, *now, tc, mc)]
            candidate_on(*cfg, now.date@ as int, tc) && candidate_on(*cfg, now.date@ + 1, mc) && r
                == pick_spec(cfg.enabled, *now, tc, mc),
        !cfg.enabled ==> r is None,
        r matches Some(ev) ==> {
            &&& cfg.enabled
            &&& Some(ev.time) == resolve_spec(*cfg, date_key(ev.date), ScheduleField::Shutdown)
            &&& ev.time.wf()
            &&& ev.time.second == 0
            &&& placed(ev)
            &&& ev.instant.spec_ge(now.instant)
            &&& (ev.date == now.date || ev.date@ == now.date@ + 1)
        },
{
    let today = now.date;
    let today_event = if cfg.enabled {
        candidate(cfg, &today)
    } else {
        None
    };
    let tomorrow_event = if cfg.enabled && upcoming(today_event, now).is_none() {
        match today.succ() {
            Some(d) => candidate(cfg, &d),
            None => None,
        }
    } else {
        None
    };
    let r = pick_next_shutdown(cfg.enabled, now, today_event, tomorrow_event);
    assert(candidate_on(*cfg, now.date@ as int, today_event) && candidate_on(*cfg, now.date@ + 1, tomorrow_event)
        && r == pick_spec(cfg.enabled, *now, today_event, tomorrow_event));
    r
}


/// Today's shutdown, when it is still ahead (at or after now), is the one
/// chosen: never tomorrow's, and never none.
pub proof fn lemma_upcoming_today_is_chosen(
    now: LocalDateTime,
    today: LocalDateTime,
    tomorrow: Option<LocalDateTime>,
)
    requires
        today.instant.spec_ge(now.instant),
    ensures
        pick_spec(true, now, Some(today), tomorrow) == Some(today),
{
}

/// The chosen shutdown is one of the candidates and at or after now; it is
/// tomorrow's only when today's is absent or already past; and nothing is
/// chosen when the schedule is disabled.
pub proof fn lemma_choice_is_a_candidate(
    enabled: bool,
    now: LocalDateTime,
    today: Option<LocalDateTime>,
    tomorrow: Option<LocalDateTime>,
)
    ensures
        !enabled ==> pick_spec(enabled, now, today, tomorrow) is None,
        match pick_spec(enabled, now, today, tomorrow) {
            Some(e) => {
                &&& enabled
                &&& e.instant.spec_ge(now.instant)
                &&& (Some(e) == today || (Some(e) == tomorrow && match today {
                    Some(t) => !t.instant.spec_ge(now.instant),
                    None => true,
                }))
            },
            None => true,
        },
{
}

} // verus!
