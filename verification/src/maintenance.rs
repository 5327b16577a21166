//! The daily server-restart schedule: when the shop pauses before a restart and when it resumes.
//!
//! Times of day are those of `chrono::NaiveTime`: seconds since midnight and a fraction in
//! nanoseconds that reaches past one second only during a leap second.
use vstd::prelude::*;
use chrono::{NaiveTime, TimeDelta, Timelike};

verus! {

/// A time of day, as `chrono::NaiveTime` holds it.
#[derive(Clone, Copy, PartialEq, Eq, Debug)]
pub struct TimeOfDay {
    pub secs: u32,
    pub frac: u32,
}

impl TimeOfDay {
    /// The values that `chrono::NaiveTime` accepts.
    pub open spec fn wf(self) -> bool {
        &&& self.secs < 86_400
        &&& self.frac < 2_000_000_000
        &&& self.frac >= 1_000_000_000 ==> self.secs % 60 == 59
    }
}

/// `a` is later in the day than `b`.
pub open spec fn later(a: TimeOfDay, b: TimeOfDay) -> bool {
    a.secs > b.secs || (a.secs == b.secs && a.frac > b.frac)
}

/// The signed time from `b` to `a`, in nanoseconds, as `NaiveTime` subtraction counts it
/// (a leap second is counted once).
pub open spec fn since(a: TimeOfDay, b: TimeOfDay) -> int {
    let leap = if a.secs > b.secs && b.frac >= 1_000_000_000 {
        1int
    } else if a.secs < b.secs && a.frac >= 1_000_000_000 {
        -1int
    } else {
        0int
    };
    (a.secs - b.secs + leap) * 1_000_000_000 + (a.frac - b.frac)
}

/// `t` plus one day, as `NaiveTime` addition gives it: the same time of day, out of any leap
/// second.
pub open spec fn plus_day(t: TimeOfDay) -> TimeOfDay {
    TimeOfDay {
        secs: t.secs,
        frac: if t.frac >= 1_000_000_000 {
            (t.frac - 1_000_000_000) as u32
        } else {
            t.frac
        },
    }
}

/// The whole seconds of `nanos`, rounded toward zero, as `TimeDelta::num_seconds` counts them.
pub open spec fn whole_seconds(nanos: int) -> int {
    if nanos >= 0 {
        nanos / 1_000_000_000
    } else {
        -((-nanos) / 1_000_000_000)
    }
}

/// The time of day `h:m:s`.
pub open spec fn hms(h: int, m: int, s: int) -> TimeOfDay {
    TimeOfDay { secs: (h * 3600 + m * 60 + s) as u32, frac: 0 }
}

/// `h:m:s` as a time of day (`NaiveTime::from_hms_opt`).
#[verifier::external_body]
fn time_hms(h: u32, m: u32, s: u32) -> (t: TimeOfDay)
    requires
        h < 24,
        m < 60,
        s < 60,
    ensures
        t == hms(h as int, m as int, s as int),
{
    let t = NaiveTime::from_hms_opt(h, m, s).unwrap();
    TimeOfDay { secs: t.num_seconds_from_midnight(), frac: t.nanosecond() }
}

/// Whether `a` is later than `b` (`NaiveTime` ordering, which compares seconds, then fraction).
#[verifier::external_body]
fn time_later(a: TimeOfDay, b: TimeOfDay) -> (r: bool)
    requires
        a.wf(),
        b.wf(),
    ensures
        r == later(a, b),
{
    let a = NaiveTime::from_num_seconds_from_midnight_opt(a.secs, a.frac).unwrap();
    let b = NaiveTime::from_num_seconds_from_midnight_opt(b.secs, b.frac).unwrap();
    a > b
}

/// The time from `b` to `a`, in nanoseconds (`NaiveTime` subtraction, then
/// `TimeDelta::num_nanoseconds`).
#[verifier::external_body]
fn time_since(a: TimeOfDay, b: TimeOfDay) -> (r: i64)
    requires
        a.wf(),
        b.wf(),
    ensures
        r == since(a, b),
{
    let a = NaiveTime::from_num_seconds_from_midnight_opt(a.secs, a.frac).unwrap();
    let b = NaiveTime::from_num_seconds_from_midnight_opt(b.secs, b.frac).unwrap();
    (a - b).num_nanoseconds().unwrap()
}

/// `t` plus one day (`NaiveTime + TimeDelta::days(1)`, which wraps around midnight).
#[verifier::external_body]
fn time_plus_day(t: TimeOfDay) -> (r: TimeOfDay)
    requires
        t.wf(),
    ensures
        r == plus_day(t),
{
    let t = NaiveTime::from_num_seconds_from_midnight_opt(t.secs, t.frac).unwrap()
        + TimeDelta::days(1);
    TimeOfDay { secs: t.num_seconds_from_midnight(), frac: t.nanosecond() }
}

/// The times of day at which the shop pauses before a server restart.
pub open spec fn restart_schedule() -> Seq<TimeOfDay> {
    seq![hms(23, 58, 0), hms(3, 58, 0), hms(7, 58, 0), hms(11, 58, 0), hms(15, 58, 0), hms(19, 58, 0), hms(21, 58, 0)]
}

/// The times of day at which the shop resumes after a server restart.
pub open spec fn resume_schedule() -> Seq<TimeOfDay> {
    seq![hms(0, 6, 0), hms(4, 6, 0), hms(8, 6, 0), hms(12, 6, 0), hms(16, 6, 0), hms(20, 6, 0), hms(22, 6, 0)]
}

/// The first of `times` that is later than `now`, or the first of `times` when none is.
pub open spec fn next_after(times: Seq<TimeOfDay>, now: TimeOfDay) -> TimeOfDay {
    if exists|i: int| 0 <= i < times.len() && later(#[trigger] times[i], now) {
        let i = choose|i: int|
            0 <= i < times.len() && later(#[trigger] times[i], now) && forall|j: int|
                0 <= j < i ==> !later(#[trigger] times[j], now);
        times[i]
    } else {
        times[0]
    }
}

/// The time from `now` until `target`, in nanoseconds; a `target` not later than `now` is moved
/// one day on first, as `NaiveTime` does it.
pub open spec fn delay(target: TimeOfDay, now: TimeOfDay) -> int {
    if later(target, now) {
        since(target, now)
    } else {
        since(plus_day(target), now)
    }
}

/// The seconds slept for a delay of `nanos`: the whole seconds, taken as a `u64`.
pub open spec fn sleep_secs_for(nanos: int) -> u64 {
    whole_seconds(nanos) as u64
}

/// What the schedule does next from a given time of day.
#[derive(Clone, Copy, PartialEq, Eq, Debug)]
pub enum MaintenancePlan {
    /// Sleep `sleep_secs`, pause the shop, then resume it at `next_resume`.
    Pause { sleep_secs: u64, next_stop: TimeOfDay, next_resume: TimeOfDay },
    /// Sleep `sleep_secs`, then plan again.
    Wait { sleep_secs: u64 },
}

/// What the schedule does at `now`: pause at the next restart time if it comes before the next
/// resume time, else wait until that resume time.
pub open spec fn plan_spec(now: TimeOfDay) -> MaintenancePlan {
    let stop = next_after(restart_schedule(), now);
    let resume = next_after(resume_schedule(), now);
    if delay(stop, now) < delay(resume, now) {
        MaintenancePlan::Pause {
            sleep_secs: sleep_secs_for(delay(stop, now)),
            next_stop: stop,
            next_resume: resume,
        }
    } else {
        MaintenancePlan::Wait { sleep_secs: sleep_secs_for(delay(resume, now)) }
    }
}

/// The times of day at which the shop pauses before a server restart.
pub fn restart_times() -> (v: Vec<TimeOfDay>)
    ensures
        v@ == restart_schedule(),
{
    let mut v: Vec<TimeOfDay> = Vec::new();
    v.push(time_hms(23, 58, 0));
    v.push(time_hms(3, 58, 0));
    v.push(time_hms(7, 58, 0));
    v.push(time_hms(11, 58, 0));
    v.push(time_hms(15, 58, 0));
    v.push(time_hms(19, 58, 0));
    v.push(time_hms(21, 58, 0));
    assert(v@ =~= restart_schedule());
    v
}

/// The times of day at which the shop resumes after a server restart.
pub fn resume_times() -> (v: Vec<TimeOfDay>)
    ensures
        v@ == resume_schedule(),
{
    let mut v: Vec<TimeOfDay> = Vec::new();
    v.push(time_hms(0, 6, 0));
    v.push(time_hms(4, 6, 0));
    v.push(time_hms(8, 6, 0));
    v.push(time_hms(12, 6, 0));
    v.push(time_hms(16, 6, 0));
    v.push(time_hms(20, 6, 0));
    v.push(time_hms(22, 6, 0));
    assert(v@ =~= resume_schedule());
    v
}

/// The first of `times` that is later than `now`, or the first of `times` when none is.
pub fn next_time_after(times: &[TimeOfDay], now: TimeOfDay) -> (t: TimeOfDay)
    requires
        times@.len() > 0,
        now.wf(),
        forall|i: int| 0 <= i < times@.len() ==> (#[trigger] times@[i]).wf(),
    ensures
        t == next_after(times@, now),
{
    let mut i: usize = 0;
    while i < times.len()
        invariant
            i <= times@.len(),
            now.wf(),
            forall|k: int| 0 <= k < times@.len() ==> (#[trigger] times@[k]).wf(),
            forall|j: int| 0 <= j < i ==> !later(#[trigger] times@[j], now),
        decreases times@.len() - i,
    {
        if time_later(times[i], now) {
            proof {
                let w = choose|w: int|
                    0 <= w < times@.len() && later(#[trigger] times@[w], now) && forall|j: int|
                        0 <= j < w ==> !later(#[trigger] times@[j], now);
                assert(0 <= w < times@.len() && later(times@[w], now));
                if w < i {
                } else if w > i {
                    assert(!later(times@[i as int], now));
                }
            }
            return times[i];
        }
        i = i + 1;
    }
    times[0]
}

/// The time from `now` until `target`, in nanoseconds.
pub fn delay_nanos(target: TimeOfDay, now: TimeOfDay) -> (d: i64)
    requires
        target.wf(),
        now.wf(),
    ensures
        d == delay(target, now),
{
    if time_later(target, now) {
        time_since(target, now)
    } else {
        let moved = time_plus_day(target);
        time_since(moved, now)
    }
}

/// The seconds slept for a delay of `nanos`.
pub fn sleep_secs(nanos: i64) -> (s: u64)
    requires
        nanos > i64::MIN,
    ensures
        s == sleep_secs_for(nanos as int),
{
    let whole: i64 = if nanos >= 0 {
        nanos / 1_000_000_000
    } else {
        -((-nanos) / 1_000_000_000)
    };
    whole as u64
}

/// What the schedule does at `now`.
pub fn plan_maintenance(now: TimeOfDay) -> (p: MaintenancePlan)
    requires
        now.wf(),
    ensures
        p == plan_spec(now),
{
    let restarts = restart_times();
    let resumes = resume_times();
    let stop = next_time_after(&restarts, now);
    let resume = next_time_after(&resumes, now);
    let to_stop = delay_nanos(stop, now);
    let to_resume = delay_nanos(resume, now);
    if to_stop < to_resume {
        MaintenancePlan::Pause { sleep_secs: sleep_secs(to_stop), next_stop: stop, next_resume: resume }
    } else {
        MaintenancePlan::Wait { sleep_secs: sleep_secs(to_resume) }
    }
}

/// The seconds to sleep at `now` before resuming at `next_resume`.
pub fn resume_sleep_secs(next_resume: TimeOfDay, now: TimeOfDay) -> (s: u64)
    requires
        next_resume.wf(),
        now.wf(),
    ensures
        s == sleep_secs_for(delay(next_resume, now)),
{
    sleep_secs(delay_nanos(next_resume, now))
}

/// The announcement typed into the game when the shop pauses for a restart.
pub fn pause_announcement() -> (s: &'static str)
    ensures
        s@ == "#Announce BOTSHOP หยุดทำงานชั่วคราว เนื่องจาก SERVER กำลังจะ RESTART ในอีก 2 นาที"@,
{
    "#Announce BOTSHOP หยุดทำงานชั่วคราว เนื่องจาก SERVER กำลังจะ RESTART ในอีก 2 นาที"
}

/// The announcement typed into the game when the shop resumes.
pub fn resume_announcement() -> (s: &'static str)
    ensures
        s@ == "#Announce BOTSHOP กลับมาทำงานปกติแล้ว ลุยยยยย"@,
{
    "#Announce BOTSHOP กลับมาทำงานปกติแล้ว ลุยยยยย"
}

/// The time until a scheduled time of day that is later than `now` is positive and at most one
/// day.
proof fn lemma_delay_to_later(t: TimeOfDay, now: TimeOfDay)
    requires
        t.wf(),
        now.wf(),
        t.frac == 0,
        later(t, now),
    ensures
        0 < delay(t, now) <= 86_400_000_000_000,
{
}

/// When one of `times` is later than `now`, the next of them is later than `now`.
proof fn lemma_next_after_is_later(times: Seq<TimeOfDay>, now: TimeOfDay, k: int)
    requires
        0 <= k < times.len(),
        later(times[k], now),
    ensures
        later(next_after(times, now), now),
        exists|i: int| 0 <= i < times.len() && next_after(times, now) == times[i],
{
    assert(exists|i: int| 0 <= i < times.len() && later(#[trigger] times[i], now));
    let w = choose|i: int| 0 <= i < times.len() && later(#[trigger] times[i], now);
    lemma_first_later_exists(times, now, w);
}

/// Among `times`, some first one is later than `now`.
proof fn lemma_first_later_exists(times: Seq<TimeOfDay>, now: TimeOfDay, k: int)
    requires
        0 <= k < times.len(),
        later(times[k], now),
    ensures
        exists|i: int|
            0 <= i < times.len() && later(#[trigger] times[i], now) && forall|j: int|
                0 <= j < i ==> !later(#[trigger] times[j], now),
    decreases k,
{
    if exists|j: int| 0 <= j < k && later(#[trigger] times[j], now) {
        let j = choose|j: int| 0 <= j < k && later(#[trigger] times[j], now);
        lemma_first_later_exists(times, now, j);
    } else {
        assert(forall|j: int| 0 <= j < k ==> !later(#[trigger] times[j], now));
    }
}

/// Before 22:06, the last resume time of the day, the schedule sleeps at most one day before it
/// acts, and a planned pause comes before the resume that ends it.
pub proof fn lemma_plan_sleeps_at_most_a_day(now: TimeOfDay)
    requires
        now.wf(),
        now.secs < 22 * 3600 + 6 * 60,
    ensures
        match plan_spec(now) {
            MaintenancePlan::Pause { sleep_secs, next_stop, next_resume } => {
                &&& sleep_secs <= 86_400
                &&& later(next_stop, now)
                &&& delay(next_stop, now) < delay(next_resume, now)
            },
            MaintenancePlan::Wait { sleep_secs } => sleep_secs <= 86_400,
        },
{
    let restarts = restart_schedule();
    let resumes = resume_schedule();
    assert(later(resumes[6], now));
    lemma_next_after_is_later(resumes, now, 6);
    let resume = next_after(resumes, now);
    let i = choose|i: int| 0 <= i < resumes.len() && resume == resumes[i];
    assert(resume.frac == 0 && resume.wf());
    lemma_delay_to_later(resume, now);
    let stop = next_after(restarts, now);
    if later(restarts[0], now) {
        lemma_next_after_is_later(restarts, now, 0);
        let k = choose|k: int| 0 <= k < restarts.len() && stop == restarts[k];
        assert(stop.frac == 0 && stop.wf());
        lemma_delay_to_later(stop, now);
    } else {
        assert(restarts[0].secs == 86_280);
    }
}

/// When the first of `times` is later than `now`, it is the next of them.
proof fn lemma_next_after_first(times: Seq<TimeOfDay>, now: TimeOfDay)
    requires
        times.len() > 0,
        later(times[0], now),
    ensures
        next_after(times, now) == times[0],
{
    lemma_first_later_exists(times, now, 0);
    let i = choose|i: int|
        0 <= i < times.len() && later(#[trigger] times[i], now) && forall|j: int|
            0 <= j < i ==> !later(#[trigger] times[j], now);
    if i > 0 {
        assert(!later(times[0], now));
    }
}

/// Whatever the time of day, the schedule plans a wait and never a pause, so the shop is never
/// left inactive: the next restart time is the first one in its list that is later than now,
/// and that one, 23:58, is always further off than the next resume time (or, from 22:06 on,
/// when no resume time of the day is left, the resume time of the next day counts as passed).
pub proof fn lemma_schedule_never_pauses(now: TimeOfDay)
    requires
        now.wf(),
    ensures
        plan_spec(now) is Wait,
{
    let restarts = restart_schedule();
    let resumes = resume_schedule();
    let stop = next_after(restarts, now);
    let resume = next_after(resumes, now);
    if now.secs < 22 * 3600 + 6 * 60 {
        assert(later(restarts[0], now));
        lemma_next_after_first(restarts, now);
        assert(later(resumes[6], now));
        lemma_next_after_is_later(resumes, now, 6);
        let i = choose|i: int| 0 <= i < resumes.len() && resume == resumes[i];
        assert(resume.secs <= restarts[0].secs && resume.frac == 0);
        assert(delay(resume, now) < delay(stop, now));
    } else {
        assert(!exists|i: int| 0 <= i < resumes.len() && later(#[trigger] resumes[i], now)) by {
            assert forall|i: int| 0 <= i < resumes.len() implies !later(#[trigger] resumes[i], now) by {
                assert(resumes[i].secs <= 22 * 3600 + 6 * 60 && resumes[i].frac == 0);
            }
        }
        assert(resume == resumes[0]);
        if later(restarts[0], now) {
            lemma_next_after_first(restarts, now);
            lemma_delay_to_later(stop, now);
        } else {
            assert(!exists|i: int| 0 <= i < restarts.len() && later(#[trigger] restarts[i], now)) by {
                assert forall|i: int| 0 <= i < restarts.len() implies !later(#[trigger] restarts[i], now) by {
                    assert(restarts[i].secs <= restarts[0].secs && restarts[i].frac == 0);
                }
            }
            assert(stop == restarts[0]);
        }
    }
}

} // verus!
