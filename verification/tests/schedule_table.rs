use halving_api::schedule::{Breakpoint, Schedule, SOMPI_PER_COIN};
use halving_api::table::production_schedule;

fn bp(t: u64, s: u64) -> Breakpoint {
    Breakpoint { daa_threshold: t, subsidy_sompi: s }
}

#[test]
fn loading_rejects_an_unsorted_table() {
    assert!(Schedule::new(vec![bp(200, 1), bp(100, 2)]).is_none());
}

#[test]
fn loading_rejects_equal_thresholds() {
    assert!(Schedule::new(vec![bp(100, 1), bp(100, 2)]).is_none());
}

#[test]
fn loading_rejects_an_empty_table() {
    assert!(Schedule::new(Vec::new()).is_none());
}

#[test]
fn loading_accepts_a_sorted_table() {
    let s = Schedule::new(vec![bp(100, 1), bp(200, 2), bp(300, 3)]).unwrap();
    assert_eq!(s.len(), 3);
    assert_eq!(s.entry(1), bp(200, 2));
}

#[test]
fn production_table_is_sorted_ascending() {
    // The built table's invariant holds of the literal production data:
    // re-checking it through the load-time verifier must accept it.
    let sched = production_schedule();
    let entries: Vec<Breakpoint> = (0..sched.len()).map(|k| sched.entry(k)).collect();
    for w in entries.windows(2) {
        assert!(w[0].daa_threshold < w[1].daa_threshold);
    }
    assert!(Schedule::new(entries).is_some());
}

#[test]
fn production_table_holds_the_published_rows() {
    let sched = production_schedule();
    assert_eq!(sched.len(), 264);
    assert_eq!(sched.entry(0), bp(15519600, 50000000000));
    assert_eq!(sched.entry(1), bp(18149400, 44000000000));
    assert_eq!(sched.entry(2), bp(20779200, 41530469757));
    assert_eq!(sched.entry(263), bp(708157000, 335261108));
}

#[test]
fn sompi_scale_matches_eight_fractional_digits() {
    assert_eq!(SOMPI_PER_COIN, 100000000);
    // 415.30469757 coins, exactly, in sompi
    assert_eq!((41530469757u64 as f64) / (SOMPI_PER_COIN as f64), 415.30469757);
}
