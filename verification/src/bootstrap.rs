//! One-shot scene setup: scatter a fixed count of bodies at deterministic
//! pseudo-random positions inside a square centred on the origin.
//!
//! Positions are carried in integer microunits (one millionth of a world
//! unit), so the whole scatter is an exact function of the seed.

use vstd::prelude::*;

use crate::rng::ScatterGen;
use crate::rng::spec_next_state;
use crate::rng::spec_output;

verus! {

/// How many bodies the scene starts with.
pub const BODY_COUNT: usize = 25;

/// First word of the fixed scatter seed.
pub const SCATTER_SEED_A: u64 = 42;

/// Second word of the fixed scatter seed.
pub const SCATTER_SEED_B: u64 = 69;

/// Half-width of the scatter square, in microunits: five world units.
pub const HALF_EXTENT_MICRO: i64 = 5_000_000;

/// Where one body starts, in microunits of world space.
#[derive(Clone, Copy, PartialEq, Eq, Structural, Debug)]
pub struct BodyInit {
    pub x_micro: i64,
    pub y_micro: i64,
}

/// One raw draw mapped onto the scatter square: the draw's fraction of the
/// full 64-bit range, scaled to ten world units and recentred on zero.
pub open spec fn spec_coord(u: u64) -> int {
    (u as int * 10_000_000) / 0xffff_ffff_ffff_ffff - 5_000_000
}

/// The body a pair of raw draws produces.
pub open spec fn spec_body(ux: u64, uy: u64) -> BodyInit {
    BodyInit { x_micro: spec_coord(ux) as i64, y_micro: spec_coord(uy) as i64 }
}

/// The scatter a generator state produces: two draws per body, `n` bodies.
pub open spec fn spec_scatter_from(s0: u64, s1: u64, n: nat) -> Seq<BodyInit>
    decreases n,
{
    if n == 0 {
        Seq::empty()
    } else {
        let u1 = spec_output(s0, s1);
        let t1 = spec_next_state(s0, s1);
        let u2 = spec_output(t1.0, t1.1);
        let t2 = spec_next_state(t1.0, t1.1);
        seq![spec_body(u1, u2)] + spec_scatter_from(t2.0, t2.1, (n - 1) as nat)
    }
}

/// `spec_coord` always lands inside the scatter square.
proof fn lemma_coord_in_square(u: u64)
    ensures
        -5_000_000 <= spec_coord(u) <= 5_000_000,
{
    let x = u as int * 10_000_000;
    let d = 0xffff_ffff_ffff_ffff as int;
    assert(0 <= x <= d * 10_000_000) by (nonlinear_arith)
        requires
            0 <= u as int <= 0xffff_ffff_ffff_ffff,
            x == u as int * 10_000_000,
            d == 0xffff_ffff_ffff_ffff,
    ;
    assert(0 <= x / d <= 10_000_000) by (nonlinear_arith)
        requires
            d > 0,
            0 <= x <= d * 10_000_000,
    ;
}

/// Map two raw draws onto a starting position inside the scatter square.
pub fn position_from_draws(ux: u64, uy: u64) -> (b: BodyInit)
    ensures
        b == spec_body(ux, uy),
        -5_000_000 <= b.x_micro <= 5_000_000,
        -5_000_000 <= b.y_micro <= 5_000_000,
{
    proof {
        lemma_coord_in_square(ux);
        lemma_coord_in_square(uy);
    }
    let sx: u128 = (ux as u128 * 10_000_000) / 0xffff_ffff_ffff_ffff;
    let sy: u128 = (uy as u128 * 10_000_000) / 0xffff_ffff_ffff_ffff;
    proof {
        assert(ux as int * 10_000_000 <= 0xffff_ffff_ffff_ffff * 10_000_000) by (nonlinear_arith)
            requires
                0 <= ux as int <= 0xffff_ffff_ffff_ffff,
        ;
        assert(uy as int * 10_000_000 <= 0xffff_ffff_ffff_ffff * 10_000_000) by (nonlinear_arith)
            requires
                0 <= uy as int <= 0xffff_ffff_ffff_ffff,
        ;
    }
    BodyInit { x_micro: sx as i64 - 5_000_000, y_micro: sy as i64 - 5_000_000 }
}

/// Scatter `count` bodies from the given seed: each position is an exact
/// function of the seed, and every one lies inside the scatter square.
pub fn scatter_positions(seed_a: u64, seed_b: u64, count: usize) -> (ps: Vec<BodyInit>)
    ensures
        ps@ == spec_scatter_from(seed_a, seed_b, count as nat),
        ps@.len() == count,
        forall|j: int|
            0 <= j < ps@.len() ==> -5_000_000 <= #[trigger] ps@[j].x_micro <= 5_000_000
                && -5_000_000 <= ps@[j].y_micro <= 5_000_000,
{
    let mut gen = ScatterGen::seed(seed_a, seed_b);
    let mut ps: Vec<BodyInit> = Vec::new();
    let mut i: usize = 0;
    while i < count
        invariant
            i <= count,
            ps@.len() == i,
            ps@ + spec_scatter_from(gen.s0, gen.s1, (count - i) as nat) == spec_scatter_from(
                seed_a,
                seed_b,
                count as nat,
            ),
            forall|j: int|
                0 <= j < ps@.len() ==> -5_000_000 <= #[trigger] ps@[j].x_micro <= 5_000_000
                    && -5_000_000 <= ps@[j].y_micro <= 5_000_000,
        decreases count - i,
    {
        let ghost prev = ps@;
        let ghost g_before = gen;
        let ux = gen.next_value();
        let uy = gen.next_value();
        let b = position_from_draws(ux, uy);
        ps.push(b);
        i = i + 1;
        proof {
            let k = (count - i + 1) as nat;
            let rest = spec_scatter_from(gen.s0, gen.s1, (k - 1) as nat);
            assert(spec_scatter_from(g_before.s0, g_before.s1, k) == seq![b] + rest);
            assert(prev + (seq![b] + rest) =~= (prev.push(b)) + rest);
        }
    }
    proof {
        assert(spec_scatter_from(gen.s0, gen.s1, 0) =~= Seq::<BodyInit>::empty());
        assert(ps@ + Seq::<BodyInit>::empty() =~= ps@);
    }
    ps
}

/// The scene the testbed always starts with: `BODY_COUNT` bodies scattered
/// from the fixed seed, so every run opens on the same layout.
pub fn bootstrap_positions() -> (ps: Vec<BodyInit>)
    ensures
        ps@ == spec_scatter_from(SCATTER_SEED_A, SCATTER_SEED_B, BODY_COUNT as nat),
        ps@.len() == BODY_COUNT,
        forall|j: int|
            0 <= j < ps@.len() ==> -5_000_000 <= #[trigger] ps@[j].x_micro <= 5_000_000
                && -5_000_000 <= ps@[j].y_micro <= 5_000_000,
{
    scatter_positions(SCATTER_SEED_A, SCATTER_SEED_B, BODY_COUNT)
}

} // verus!
