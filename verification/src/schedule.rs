//! The halving schedule: an ordered table of breakpoints.
//!
//! Each breakpoint pairs a DAA threshold with the subsidy amount that
//! becomes active at that threshold.  The table is kept strictly
//! ascending in the threshold; `Schedule::new` verifies that order when
//! the table is loaded.

use vstd::prelude::*;

verus! {

/// Number of sompi (the smallest currency unit) in one whole coin.
/// Subsidy amounts are stored in sompi so that the table's decimal
/// values (up to eight fractional digits) are held exactly.
pub const SOMPI_PER_COIN: u64 = 100000000;

/// One entry of the halving schedule: at DAA score `daa_threshold`, the
/// block subsidy becomes `subsidy_sompi` (in sompi, 10^-8 of a coin).
#[derive(Clone, Copy, Debug, PartialEq, Eq, Structural)]
pub struct Breakpoint {
    pub daa_threshold: u64,
    pub subsidy_sompi: u64,
}

/// The thresholds of `s` are strictly increasing.
pub open spec fn strictly_ascending(s: Seq<Breakpoint>) -> bool {
    forall|i: int, j: int|
        0 <= i < j < s.len() ==> s[i].daa_threshold < s[j].daa_threshold
}

/// From adjacent order to full order: if every neighbouring pair of `s`
/// is ordered, any two positions are.
proof fn lemma_adjacent_implies_ascending(s: Seq<Breakpoint>, i: int, j: int)
    requires
        forall|k: int|
            0 <= k < s.len() - 1 ==> #[trigger] s[k].daa_threshold < s[k + 1].daa_threshold,
        0 <= i < j < s.len(),
    ensures
        s[i].daa_threshold < s[j].daa_threshold,
    decreases j - i,
{
    if i + 1 < j {
        lemma_adjacent_implies_ascending(s, i, j - 1);
    }
}

/// Decides whether the thresholds of `v` are strictly increasing.
pub fn is_strictly_ascending(v: &Vec<Breakpoint>) -> (r: bool)
    ensures
        r == strictly_ascending(v@),
{
    let n = v.len();
    let mut k: usize = 1;
    while k < n
        invariant
            1 <= k <= n || n == 0,
            n == v@.len(),
            forall|a: int|
                0 <= a < k - 1 ==> #[trigger] v@[a].daa_threshold < v@[a + 1].daa_threshold,
        decreases n - k,
    {
        if v[k - 1].daa_threshold >= v[k].daa_threshold {
            assert(!strictly_ascending(v@));
            return false;
        }
        k = k + 1;
    }
    proof {
        assert forall|i: int, j: int| 0 <= i < j < v@.len() implies v@[i].daa_threshold
            < v@[j].daa_threshold by {
            lemma_adjacent_implies_ascending(v@, i, j);
        }
    }
    true
}

/// A halving schedule: a non-empty table of breakpoints whose thresholds
/// are strictly increasing.
pub struct Schedule {
    entries: Vec<Breakpoint>,
}

impl View for Schedule {
    type V = Seq<Breakpoint>;

    closed spec fn view(&self) -> Seq<Breakpoint> {
        self.entries@
    }
}

impl Schedule {
    /// The table is non-empty and strictly ascending in the threshold.
    pub open spec fn wf(&self) -> bool {
        self@.len() > 0 && strictly_ascending(self@)
    }

    /// Verifies the table's order at load time: accepts `entries` exactly
    /// when it is non-empty and strictly ascending by threshold.
    pub fn new(entries: Vec<Breakpoint>) -> (r: Option<Schedule>)
        ensures
            r is Some <==> (entries@.len() > 0 && strictly_ascending(entries@)),
            r is Some ==> r.unwrap()@ == entries@ && r.unwrap().wf(),
    {
        if entries.len() == 0 {
            return None;
        }
        if !is_strictly_ascending(&entries) {
            return None;
        }
        Some(Schedule { entries })
    }

    /// Wraps a table whose order has already been established.
    pub fn from_sorted(entries: Vec<Breakpoint>) -> (r: Schedule)
        requires
            entries@.len() > 0,
            strictly_ascending(entries@),
        ensures
            r@ == entries@,
            r.wf(),
    {
        Schedule { entries }
    }

    /// How many breakpoints the table holds.
    pub fn len(&self) -> (r: usize)
        ensures
            r == self@.len(),
    {
        self.entries.len()
    }

    /// The breakpoint at position `k`.
    pub fn entry(&self, k: usize) -> (r: Breakpoint)
        requires
            k < self@.len(),
        ensures
            r == self@[k as int],
    {
        self.entries[k]
    }
}

} // verus!
