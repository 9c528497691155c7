use halving_api::projector::{halving_projection_now, project, project_checked};
use halving_api::schedule::{Breakpoint, Schedule};
use halving_api::table::production_schedule;
use halving_api::calendar::{parse_utc, MAX_FORMATTABLE_TS};
use halving_api::get_blocks_per_second;

fn mk(entries: &[(u64, u64)]) -> Schedule {
    let v: Vec<Breakpoint> = entries
        .iter()
        .map(|&(t, s)| Breakpoint { daa_threshold: t, subsidy_sompi: s })
        .collect();
    Schedule::new(v).expect("table must be accepted")
}

fn small_table() -> Schedule {
    // thresholds 100, 200, 300 with subsidies 10.0, 5.0, 2.5 coins
    mk(&[(100, 1000000000), (200, 500000000), (300, 250000000)])
}

#[test]
fn score_at_threshold_skips_that_breakpoint() {
    // A score exactly equal to a threshold is not strictly below it: the
    // match lands on the next entry, the amount two steps ahead.
    let sched = small_table();
    let now: i64 = 1000;
    let p = project(100, &sched, now);
    assert_eq!(p.next_halving_timestamp, now + (200 - 100));
    assert_eq!(p.next_halving_amount_sompi, 250000000);
}

#[test]
fn score_before_first_breakpoint() {
    let sched = small_table();
    let now: i64 = 1000;
    let p = project(50, &sched, now);
    assert_eq!(p.next_halving_timestamp, now + (100 - 50));
    assert_eq!(p.next_halving_amount_sompi, 500000000);
}

#[test]
fn score_beyond_last_breakpoint_falls_back() {
    let sched = small_table();
    let now: i64 = 1700000000;
    let p = project(350, &sched, now);
    assert_eq!(p.next_halving_timestamp, now - 350);
    assert_eq!(p.next_halving_amount_sompi, 0);
}

#[test]
fn match_on_last_breakpoint_falls_back() {
    // The match lands on the last entry, so no entry stands one further:
    // target and amount stay zero.
    let sched = small_table();
    let now: i64 = 1700000000;
    let p = project(250, &sched, now);
    assert_eq!(p.next_halving_timestamp, now - 250);
    assert_eq!(p.next_halving_amount_sompi, 0);
}

#[test]
fn production_prefix_end_to_end() {
    let sched = mk(&[
        (15519600, 50000000000),
        (18149400, 44000000000),
        (20779200, 41530469757),
    ]);
    let now: i64 = 1700000000;
    let p = project(15519600, &sched, now);
    assert_eq!(p.next_halving_timestamp, now + (18149400 - 15519600));
    assert_eq!(p.next_halving_amount_sompi, 41530469757);
}

#[test]
fn projection_always_carries_all_three_fields() {
    let sched = small_table();
    let now: i64 = 1700000000;
    // normal path
    let p = project(50, &sched, now);
    assert!(p.next_halving_timestamp > 0);
    assert_eq!(p.next_halving_date.chars().count(), 23);
    assert!(p.next_halving_amount_sompi > 0);
    // fallback path: the same three fields are still populated
    let q = project(999, &sched, now);
    assert_eq!(q.next_halving_timestamp, now - 999);
    assert_eq!(q.next_halving_date.chars().count(), 23);
    assert_eq!(q.next_halving_amount_sompi, 0);
}

#[test]
fn projected_date_parses_back_to_timestamp() {
    let sched = small_table();
    let p = project(50, &sched, 1700000000);
    assert_eq!(parse_utc(&p.next_halving_date), Some(p.next_halving_timestamp));
}

#[test]
fn checked_projection_refuses_unrenderable_times() {
    let sched = small_table();
    assert!(project_checked(350, &sched, MAX_FORMATTABLE_TS + 351).is_none());
    let p = project_checked(350, &sched, MAX_FORMATTABLE_TS + 350).expect("still in range");
    assert_eq!(p.next_halving_timestamp, MAX_FORMATTABLE_TS);
}

#[test]
fn projection_from_live_clock() {
    let sched = production_schedule();
    let r = halving_projection_now(&sched, 0).expect("a present-day clock reading is renderable");
    assert_eq!(r.next_halving_amount_sompi, 44000000000);
    assert_eq!(parse_utc(&r.next_halving_date), Some(r.next_halving_timestamp));
}

#[test]
fn blocks_per_second_is_fixed() {
    assert_eq!(get_blocks_per_second(), 40);
}
