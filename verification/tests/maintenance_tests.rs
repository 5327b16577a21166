use botshop::maintenance::{
    delay_nanos, next_time_after, pause_announcement, plan_maintenance, restart_times,
    resume_announcement, resume_sleep_secs, resume_times, sleep_secs, MaintenancePlan, TimeOfDay,
};

fn t(h: u32, m: u32, s: u32) -> TimeOfDay {
    TimeOfDay { secs: h * 3600 + m * 60 + s, frac: 0 }
}

#[test]
fn schedules() {
    let r = restart_times();
    assert_eq!(r.len(), 7);
    assert_eq!(r[0], t(23, 58, 0));
    assert_eq!(r[6], t(21, 58, 0));
    let s = resume_times();
    assert_eq!(s[0], t(0, 6, 0));
    assert_eq!(s[6], t(22, 6, 0));
}

#[test]
fn next_times() {
    let r = restart_times();
    // The list is searched in its own order, and 23:58 comes first.
    assert_eq!(next_time_after(&r, t(3, 0, 0)), t(23, 58, 0));
    assert_eq!(next_time_after(&r, t(23, 59, 0)), t(23, 58, 0));
    let s = resume_times();
    assert_eq!(next_time_after(&s, t(3, 0, 0)), t(4, 6, 0));
    assert_eq!(next_time_after(&s, t(22, 6, 0)), t(0, 6, 0));
}

#[test]
fn delays_and_seconds() {
    assert_eq!(delay_nanos(t(3, 58, 0), TimeOfDay { secs: 3 * 3600, frac: 500_000_000 }), 3479_500_000_000);
    assert_eq!(delay_nanos(t(0, 6, 0), t(23, 0, 0)), -(22 * 3600 + 54 * 60) as i64 * 1_000_000_000);
    assert_eq!(sleep_secs(3479_500_000_000), 3479);
    assert_eq!(sleep_secs(-1_500_000_000), u64::MAX);
    assert_eq!(sleep_secs(0), 0);
}

#[test]
fn plan_waits_for_the_next_resume_time() {
    assert_eq!(plan_maintenance(t(3, 0, 0)), MaintenancePlan::Wait { sleep_secs: 66 * 60 });
    assert_eq!(plan_maintenance(t(21, 0, 0)), MaintenancePlan::Wait { sleep_secs: 66 * 60 });
    assert_eq!(resume_sleep_secs(t(4, 6, 0), t(3, 58, 1)), 7 * 60 + 59);
}

#[test]
fn plan_waits_through_a_restart_window() {
    assert_eq!(plan_maintenance(t(0, 0, 0)), MaintenancePlan::Wait { sleep_secs: 6 * 60 });
    assert_eq!(plan_maintenance(t(4, 0, 0)), MaintenancePlan::Wait { sleep_secs: 6 * 60 });
}

#[test]
fn plan_late_in_the_evening_keeps_the_wrapped_sleep() {
    // After 22:06 no resume time lies ahead on the same day; the time difference is negative
    // and is taken as a u64, as chrono's `num_seconds() as u64` does.
    let expected = (-((22 * 3600 + 54 * 60) as i64)) as u64;
    assert_eq!(plan_maintenance(t(23, 0, 0)), MaintenancePlan::Wait { sleep_secs: expected });
}

#[test]
fn leap_second_is_counted_once() {
    let leap = TimeOfDay { secs: 3 * 3600 + 57 * 60 + 59, frac: 1_500_000_000 };
    assert_eq!(delay_nanos(t(3, 58, 0), leap), 500_000_000 - 1_000_000_000 + 1_000_000_000);
}

#[test]
fn announcements() {
    assert!(pause_announcement().starts_with("#Announce BOTSHOP"));
    assert!(resume_announcement().starts_with("#Announce BOTSHOP"));
}

#[test]
fn every_minute_before_the_last_resume_sleeps_at_most_a_day() {
    for minute in 0..(22 * 60 + 6) {
        let now = TimeOfDay { secs: minute * 60 + 17, frac: 250_000_000 };
        let secs = match plan_maintenance(now) {
            MaintenancePlan::Pause { sleep_secs, .. } => sleep_secs,
            MaintenancePlan::Wait { sleep_secs } => sleep_secs,
        };
        assert!(secs <= 86_400, "minute {}", minute);
    }
}

#[test]
fn the_schedule_never_pauses() {
    for secs in (0..86_400u32).step_by(30) {
        for frac in [0u32, 999_999_999] {
            let now = TimeOfDay { secs, frac };
            assert!(matches!(plan_maintenance(now), MaintenancePlan::Wait { .. }), "{:?}", now);
        }
    }
    assert!(matches!(plan_maintenance(t(23, 58, 0)), MaintenancePlan::Wait { .. }));
    assert!(matches!(plan_maintenance(t(21, 57, 59)), MaintenancePlan::Wait { .. }));
}
