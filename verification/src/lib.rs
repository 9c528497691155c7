//! Halving-schedule projection for a blockchain REST service.
//!
//! The core of the library is the projection engine: given the chain's
//! current DAA score and an ordered table of schedule breakpoints, it
//! locates the next breakpoint and computes the projected subsidy amount
//! and the wall-clock time of the next halving event.

use vstd::prelude::*;

pub mod calendar;
pub mod projector;
pub mod schedule;
pub mod service;
pub mod table;
pub mod text;

verus! {

/// The block production rate the service assumes: forty blocks per
/// second.
pub fn get_blocks_per_second() -> (r: u64)
    ensures
        r == 40,
{
    40
}

} // verus!
