//! The fixed-timestep driver: decides how many fixed-size physics substeps
//! a frame's elapsed wall-clock time buys, capped by a per-frame budget.
//!
//! Time is carried in integer microseconds, so every quantity here is exact.

use vstd::prelude::*;

verus! {

/// Length of one fixed physics substep, in microseconds: 1/100 second.
pub const SUBSTEP_MICROS: u64 = 10_000;

/// Most substeps one frame may run, however much real time has passed.
pub const MAX_SUBSTEPS_PER_FRAME: u32 = 10;

/// Number of substeps owed for `elapsed` microseconds of wall-clock time:
/// one substep per whole `substep` contained in `elapsed`, but never more
/// than `max_substeps`. Time left over below one substep is dropped.
pub open spec fn spec_substep_count(elapsed: int, substep: int, max_substeps: int) -> int
    recommends
        substep > 0,
        max_substeps >= 0,
{
    if elapsed / substep <= max_substeps {
        elapsed / substep
    } else {
        max_substeps
    }
}

/// How many fixed substeps to run for one frame: `min(elapsed / substep, max_substeps)`.
pub fn substep_count(elapsed_micros: u64, substep_micros: u64, max_substeps: u32) -> (n: u32)
    requires
        substep_micros > 0,
    ensures
        n as int == spec_substep_count(elapsed_micros as int, substep_micros as int, max_substeps as int),
        n <= max_substeps,
{
    let whole: u64 = elapsed_micros / substep_micros;
    if whole >= max_substeps as u64 {
        max_substeps
    } else {
        whole as u32
    }
}

/// One frame's stepping budget: the wall-clock time the frame has to pay
/// for, the fixed size of one physics substep, and the cap on how many
/// substeps a single frame may run.
#[derive(Clone, Copy, PartialEq, Eq, Structural, Debug)]
pub struct StepBudget {
    pub elapsed_micros: u64,
    pub substep_micros: u64,
    pub max_substeps: u32,
}

/// Drain a frame's elapsed time into fixed-size substeps: one advance per
/// whole substep still covered by the remaining time, stopping at the cap.
/// Every delta handed back equals the fixed substep; time left over below
/// one substep is dropped, never carried into the next frame.
pub fn plan_substeps(budget: StepBudget) -> (deltas: Vec<u64>)
    requires
        budget.substep_micros > 0,
    ensures
        deltas@.len() == spec_substep_count(
            budget.elapsed_micros as int,
            budget.substep_micros as int,
            budget.max_substeps as int,
        ),
        forall|i: int| 0 <= i < deltas@.len() ==> deltas@[i] == budget.substep_micros,
{
    let substep = budget.substep_micros;
    let mut remaining: u64 = budget.elapsed_micros;
    let mut deltas: Vec<u64> = Vec::new();
    let mut steps: u32 = 0;
    while remaining >= substep && steps < budget.max_substeps
        invariant
            budget.substep_micros == substep,
            substep > 0,
            steps <= budget.max_substeps,
            deltas@.len() == steps,
            steps as int + remaining as int / substep as int
                == budget.elapsed_micros as int / substep as int
                || (steps as int <= budget.elapsed_micros as int / substep as int
                    && steps == budget.max_substeps),
            steps < budget.max_substeps ==> steps as int + remaining as int / substep as int
                == budget.elapsed_micros as int / substep as int,
            forall|i: int| 0 <= i < deltas@.len() ==> deltas@[i] == substep,
        decreases remaining,
    {
        deltas.push(substep);
        remaining = remaining - substep;
        steps = steps + 1;
        proof {
            lemma_sub_one_substep(remaining as int + substep as int, substep as int);
        }
    }
    proof {
        if remaining < substep {
            lemma_small_remainder(remaining as int, substep as int);
        }
    }
    deltas
}

/// Time short of one whole substep buys no substep at all.
proof fn lemma_small_remainder(r: int, d: int)
    requires
        d > 0,
        0 <= r < d,
    ensures
        r / d == 0,
{
    assert(r / d == 0) by (nonlinear_arith)
        requires
            d > 0,
            0 <= r < d,
    ;
}

/// Taking one whole `d` out of `r` lowers `r / d` by exactly one.
proof fn lemma_sub_one_substep(r: int, d: int)
    requires
        d > 0,
        r >= d,
    ensures
        (r - d) / d == r / d - 1,
{
    assert((r - d) / d == r / d - 1) by (nonlinear_arith)
        requires
            d > 0,
            r >= d,
    ;
}

} // verus!
