//! Per-tick target motion and miss detection. Both targets of a round share
//! one speed offset, so they advance by the same distance each tick.

use vstd::prelude::*;

use crate::geometry::MAX_COORD;
use crate::round::{Round, TargetSpec};
use crate::{MAX_RADIUS, OFFSET_SCALE};

verus! {

/// Base horizontal speed of a target, in milli-pixels per millisecond
/// (200 pixels per second).
pub const BASE_SPEED: u64 = 200;

/// Longest elapsed time one tick may report, in milliseconds: keeps the
/// travelled distance in machine range.
pub const MAX_TICK_MS: u64 = 1_000_000_000;

/// Largest distance one tick can move a target, in milli-pixels:
/// `MAX_TICK_MS * BASE_SPEED * (2 * OFFSET_SCALE - 1) / OFFSET_SCALE`.
pub const MAX_TRAVEL: u64 = 399_800_000_000;

/// Largest horizontal position a target of a live round can sit at, in
/// milli-pixels: `MAX_COORD + MAX_RADIUS`. A target at or past
/// `width + radius` is missed and its round ends, so a live target is
/// always below this bound.
pub const MAX_TARGET_X: i64 = 1_000_000_100_000;

/// Distance a target travels in one tick: the base speed scaled by the
/// round's shared offset, read as thousandths above one.
pub open spec fn spec_travel(dt: int, offset: int) -> int {
    dt * (BASE_SPEED as int) * (OFFSET_SCALE + offset) / (OFFSET_SCALE as int)
}

/// The travelled distance is non-negative and bounded while the tick and
/// offset are.
pub proof fn lemma_travel_bounds(dt: int, offset: int)
    requires
        0 <= dt <= MAX_TICK_MS,
        0 <= offset < OFFSET_SCALE,
    ensures
        0 <= spec_travel(dt, offset) <= MAX_TRAVEL,
{
    let prod = dt * (BASE_SPEED as int) * (OFFSET_SCALE + offset);
    assert(0 <= prod <= 399_800_000_000_000int) by (nonlinear_arith)
        requires
            0 <= dt <= MAX_TICK_MS,
            0 <= offset < OFFSET_SCALE,
            prod == dt * (BASE_SPEED as int) * (OFFSET_SCALE + offset),
    ;
    vstd::arithmetic::div_mod::lemma_div_is_ordered(prod, 399_800_000_000_000int, 1000);
    vstd::arithmetic::div_mod::lemma_div_is_ordered(0, prod, 1000);
    assert(399_800_000_000_000int / 1000 == MAX_TRAVEL);
}

/// Computes the distance one tick moves a target.
pub fn travel(dt: u64, offset: u32) -> (d: u64)
    requires
        dt <= MAX_TICK_MS,
        (offset as u64) < OFFSET_SCALE,
    ensures
        d == spec_travel(dt as int, offset as int),
        d <= MAX_TRAVEL,
{
    proof {
        lemma_travel_bounds(dt as int, offset as int);
        assert((dt * BASE_SPEED) * (OFFSET_SCALE + offset as u64) == (dt as int) * (
        BASE_SPEED as int) * (OFFSET_SCALE + offset as int)) by (nonlinear_arith)
            requires
                dt <= MAX_TICK_MS,
                (offset as u64) < OFFSET_SCALE,
        ;
    }
    dt * BASE_SPEED * (OFFSET_SCALE + offset as u64) / OFFSET_SCALE
}

/// A target one tick later: its horizontal position advanced by the
/// travelled distance, everything else unchanged.
pub open spec fn spec_moved_target(t: TargetSpec, dt: int) -> TargetSpec {
    TargetSpec { x: (t.x + spec_travel(dt, t.speed_offset as int)) as i64, ..t }
}

/// A round one tick later: both targets advanced.
pub open spec fn spec_moved_round(r: Round, dt: int) -> Round {
    Round {
        correct_target: spec_moved_target(r.correct_target, dt),
        incorrect_target: spec_moved_target(r.incorrect_target, dt),
        ..r
    }
}

/// Advances one target by one tick. Its horizontal position never
/// decreases.
pub fn advance_target(t: &mut TargetSpec, dt: u64)
    requires
        old(t).wf(),
        old(t).x <= MAX_TARGET_X,
        dt <= MAX_TICK_MS,
    ensures
        *final(t) == spec_moved_target(*old(t), dt as int),
        final(t).x == old(t).x + spec_travel(dt as int, old(t).speed_offset as int),
        final(t).x >= old(t).x,
        final(t).wf(),
{
    proof {
        lemma_travel_bounds(dt as int, old(t).speed_offset as int);
    }
    let d = travel(dt, t.speed_offset);
    t.x = t.x + (d as i64);
}

/// Advances both targets of a round by one tick: each position is
/// non-decreasing, and the two advance by the same distance, so the pair
/// stays synchronized.
pub fn advance_round(r: &mut Round, dt: u64)
    requires
        old(r).wf(),
        old(r).correct_target.x <= MAX_TARGET_X,
        old(r).incorrect_target.x <= MAX_TARGET_X,
        dt <= MAX_TICK_MS,
    ensures
        *final(r) == spec_moved_round(*old(r), dt as int),
        final(r).wf(),
        final(r).correct_target.x >= old(r).correct_target.x,
        final(r).incorrect_target.x >= old(r).incorrect_target.x,
        final(r).correct_target.x - old(r).correct_target.x == final(r).incorrect_target.x - old(
            r,
        ).incorrect_target.x,
{
    advance_target(&mut r.correct_target, dt);
    advance_target(&mut r.incorrect_target, dt);
}

/// Whether a target has left the field: its position has reached the field
/// width plus its radius.
pub open spec fn spec_target_missed(t: TargetSpec, width: int) -> bool {
    t.x >= width + t.radius
}

/// Tests whether a target has left the field.
pub fn target_missed(t: &TargetSpec, width: u64) -> (b: bool)
    requires
        t.wf(),
        width <= MAX_COORD,
    ensures
        b == spec_target_missed(*t, width as int),
{
    let limit = width + t.radius;
    t.x >= (limit as i64)
}

/// Whether either target of a round has left the field. However many
/// targets exit in one tick, this is the round's single missed signal.
pub open spec fn spec_round_missed(r: Round, width: int) -> bool {
    spec_target_missed(r.correct_target, width) || spec_target_missed(r.incorrect_target, width)
}

/// Raises the round's missed signal: true when at least one target has left
/// the field, at most once per tick however many exited.
pub fn round_missed(r: &Round, width: u64) -> (b: bool)
    requires
        r.wf(),
        width <= MAX_COORD,
    ensures
        b == spec_round_missed(*r, width as int),
{
    target_missed(&r.correct_target, width) || target_missed(&r.incorrect_target, width)
}

/// Motion never moves a target leftward: across any one tick a live
/// target's horizontal position is non-decreasing.
pub proof fn lemma_motion_non_decreasing(t: TargetSpec, dt: int)
    requires
        t.wf(),
        t.x <= MAX_TARGET_X,
        0 <= dt <= MAX_TICK_MS,
    ensures
        spec_moved_target(t, dt).x >= t.x,
{
    lemma_travel_bounds(dt, t.speed_offset as int);
}

} // verus!
