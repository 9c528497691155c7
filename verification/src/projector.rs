//! The halving projector: from a DAA score and the schedule table to the
//! next halving's timestamp, date and amount.
//!
//! The scan walks the table in ascending threshold order and stops at the
//! first breakpoint whose threshold lies strictly above the score.  The
//! reported amount is deliberately the subsidy of the breakpoint after
//! that one — each table entry stores the reward that starts at its own
//! threshold, so the amount that begins once the found breakpoint is
//! crossed stands one entry further.  When the score lies at or beyond
//! the end of the table, or the found breakpoint is the last entry, the
//! projection falls back to a target threshold of zero and an amount of
//! zero.

use vstd::prelude::*;
use crate::schedule::{Breakpoint, Schedule};
use crate::calendar::{
    format_utc, parse_utc_spec, MAX_FORMATTABLE_TS, MIN_FORMATTABLE_TS,
};

verus! {

/// The index of the first breakpoint of `s` whose threshold lies
/// strictly above `score`, or `s.len()` when there is none.
pub open spec fn first_index_above(s: Seq<Breakpoint>, score: u64) -> int
    decreases s.len(),
{
    if s.len() == 0 {
        0
    } else if score < s[0].daa_threshold {
        0
    } else {
        1 + first_index_above(s.subrange(1, s.len() as int), score)
    }
}

/// `first_index_above` is the one position whose earlier entries all lie
/// at or below `score` and which, when inside the table, lies above it.
proof fn lemma_first_index_above_is(s: Seq<Breakpoint>, score: u64, i: int)
    requires
        0 <= i <= s.len(),
        forall|j: int| 0 <= j < i ==> s[j].daa_threshold <= score,
        i < s.len() ==> score < s[i].daa_threshold,
    ensures
        first_index_above(s, score) == i,
    decreases s.len(),
{
    if s.len() == 0 {
    } else if score < s[0].daa_threshold {
        assert(i == 0) by {
            if i > 0 {
                assert(s[0].daa_threshold <= score);
            }
        }
    } else {
        let t = s.subrange(1, s.len() as int);
        assert(forall|j: int| 0 <= j < i - 1 ==> t[j].daa_threshold <= score);
        lemma_first_index_above_is(t, score, i - 1);
    }
}

/// The DAA threshold the projection counts down to: that of the found
/// breakpoint, or zero in the fallback.
pub open spec fn target_threshold(s: Seq<Breakpoint>, score: u64) -> u64 {
    let i = first_index_above(s, score);
    if i + 1 < s.len() {
        s[i].daa_threshold
    } else {
        0
    }
}

/// The subsidy the projection reports: that of the breakpoint one past
/// the found one, or zero in the fallback.
pub open spec fn future_subsidy_sompi(s: Seq<Breakpoint>, score: u64) -> u64 {
    let i = first_index_above(s, score);
    if i + 1 < s.len() {
        s[i + 1].subsidy_sompi
    } else {
        0
    }
}

/// The projected timestamp: `now` plus the signed DAA distance from the
/// score to the target threshold (one DAA unit counts as one second).
pub open spec fn projected_timestamp(s: Seq<Breakpoint>, score: u64, now: i64) -> int {
    now + target_threshold(s, score) - score
}

/// A halving projection: the moment of the next halving as a Unix
/// timestamp and as a UTC date string, and the amount that the subsidy
/// becomes, in sompi.
pub struct HalvingProjection {
    pub next_halving_timestamp: i64,
    pub next_halving_date: String,
    pub next_halving_amount_sompi: u64,
}

/// Walks the table and returns the pair (target threshold, future
/// subsidy) for `daa_score`.
fn scan_schedule(schedule: &Schedule, daa_score: u64) -> (r: (u64, u64))
    ensures
        r.0 == target_threshold(schedule@, daa_score),
        r.1 == future_subsidy_sompi(schedule@, daa_score),
{
    let n = schedule.len();
    let mut k: usize = 0;
    while k < n
        invariant
            0 <= k <= n,
            n == schedule@.len(),
            forall|j: int| 0 <= j < k ==> schedule@[j].daa_threshold <= daa_score,
        decreases n - k,
    {
        let b = schedule.entry(k);
        if daa_score < b.daa_threshold {
            proof {
                lemma_first_index_above_is(schedule@, daa_score, k as int);
            }
            if k + 1 < n {
                return (b.daa_threshold, schedule.entry(k + 1).subsidy_sompi);
            }
            return (0, 0);
        }
        k = k + 1;
    }
    proof {
        lemma_first_index_above_is(schedule@, daa_score, n as int);
    }
    (0, 0)
}

/// Projects the next halving, provided the projected timestamp lands in
/// the range the date renderer covers; `None` otherwise.  The fields of
/// a returned projection are exact: the timestamp is `now` plus the
/// signed distance to the target threshold, the amount is the subsidy
/// one breakpoint past the found one, and the date string parses back to
/// the timestamp.
pub fn project_checked(daa_score: u64, schedule: &Schedule, now: i64) -> (r: Option<
    HalvingProjection,
>)
    requires
        schedule.wf(),
    ensures
        r is Some <==> MIN_FORMATTABLE_TS <= projected_timestamp(schedule@, daa_score, now)
            <= MAX_FORMATTABLE_TS,
        r is Some ==> r.unwrap().next_halving_timestamp == projected_timestamp(
            schedule@,
            daa_score,
            now,
        ),
        r is Some ==> r.unwrap().next_halving_amount_sompi == future_subsidy_sompi(
            schedule@,
            daa_score,
        ),
        r is Some ==> parse_utc_spec(r.unwrap().next_halving_date@) == Some(
            r.unwrap().next_halving_timestamp,
        ),
{
    let (target, amount) = scan_schedule(schedule, daa_score);
    let wide: i128 = now as i128 + target as i128 - daa_score as i128;
    if wide < MIN_FORMATTABLE_TS as i128 || wide > MAX_FORMATTABLE_TS as i128 {
        return None;
    }
    let ts: i64 = wide as i64;
    let date = format_utc(ts);
    Some(
        HalvingProjection {
            next_halving_timestamp: ts,
            next_halving_date: date,
            next_halving_amount_sompi: amount,
        },
    )
}

/// Projects the next halving for `daa_score` against `schedule`, seen
/// from the moment `now` (Unix seconds).  The projected timestamp must
/// land in the range the date renderer covers; `project_checked` decides
/// that at run time instead.
pub fn project(daa_score: u64, schedule: &Schedule, now: i64) -> (p: HalvingProjection)
    requires
        schedule.wf(),
        MIN_FORMATTABLE_TS <= projected_timestamp(schedule@, daa_score, now)
            <= MAX_FORMATTABLE_TS,
    ensures
        p.next_halving_timestamp == projected_timestamp(schedule@, daa_score, now),
        p.next_halving_amount_sompi == future_subsidy_sompi(schedule@, daa_score),
        parse_utc_spec(p.next_halving_date@) == Some(p.next_halving_timestamp),
{
    project_checked(daa_score, schedule, now).unwrap()
}

/// Relies on `chrono::Utc::now` and `DateTime::timestamp`: the current
/// wall-clock reading as Unix seconds.  Nothing is promised of the
/// value; callers state what holds whatever the clock read.
#[verifier::external_body]
fn now_unix_seconds() -> i64 {
    chrono::Utc::now().timestamp()
}

/// Projects the next halving seen from the clock's present reading.
/// The amount and the shape of the date are exact whatever the clock
/// read; the timestamp itself depends on that reading, of which nothing
/// can be stated.  `None` comes exactly when the projected timestamp
/// falls outside the range the date renderer covers.
pub fn halving_projection_now(schedule: &Schedule, daa_score: u64) -> (r: Option<
    HalvingProjection,
>)
    requires
        schedule.wf(),
    ensures
        r is Some ==> r.unwrap().next_halving_amount_sompi == future_subsidy_sompi(
            schedule@,
            daa_score,
        ),
        r is Some ==> parse_utc_spec(r.unwrap().next_halving_date@) == Some(
            r.unwrap().next_halving_timestamp,
        ),
{
    let now = now_unix_seconds();
    project_checked(daa_score, schedule, now)
}

} // verus!
