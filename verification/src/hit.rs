//! Click hit-testing: Euclidean distance against each live target, with the
//! correct target taking precedence on a tie.

use vstd::prelude::*;

use crate::round::{Round, TargetSpec};

verus! {

/// Slack added to a target's radius when judging a click, in milli-pixels
/// (1 pixel).
pub const HIT_TOLERANCE: u64 = 1_000;

/// What a click means against the two live targets.
#[derive(Clone, Copy, PartialEq, Eq, Structural, Debug)]
pub enum Judgement {
    HitCorrect,
    HitIncorrect,
    NoHit,
}

/// Whether a click lands on a target: the Euclidean distance from the
/// click to the target's centre is below the radius plus the tolerance.
pub open spec fn spec_hits(cx: int, cy: int, t: TargetSpec) -> bool {
    let dx = cx - t.x;
    let dy = cy - t.y;
    let th = t.radius + HIT_TOLERANCE;
    dx * dx + dy * dy < th * th
}

/// Tests whether a click lands on a target.
pub fn click_hits(cx: i64, cy: i64, t: &TargetSpec) -> (b: bool)
    requires
        t.wf(),
    ensures
        b == spec_hits(cx as int, cy as int, *t),
{
    let th: i128 = (t.radius + HIT_TOLERANCE) as i128;
    let dx: i128 = cx as i128 - t.x as i128;
    let dy: i128 = cy as i128 - t.y as i128;
    if dx <= -th || dx >= th {
        proof {
            assert(dx * dx >= th * th) by (nonlinear_arith)
                requires
                    th > 0,
                    dx <= -th || dx >= th,
            ;
            assert(dy * dy >= 0) by (nonlinear_arith);
        }
        false
    } else if dy <= -th || dy >= th {
        proof {
            assert(dy * dy >= th * th) by (nonlinear_arith)
                requires
                    th > 0,
                    dy <= -th || dy >= th,
            ;
            assert(dx * dx >= 0) by (nonlinear_arith);
        }
        false
    } else {
        proof {
            assert(0 <= dx * dx < th * th && 0 <= dy * dy < th * th && th * th
                <= 10_201_000_000i128) by (nonlinear_arith)
                requires
                    0 < th <= 101_000,
                    -th < dx < th,
                    -th < dy < th,
            ;
        }
        dx * dx + dy * dy < th * th
    }
}

/// The judgement a click yields: the correct target takes precedence when
/// both are within tolerance; a click on neither yields no judgement.
pub open spec fn spec_judge(cx: int, cy: int, r: Round) -> Judgement {
    if spec_hits(cx, cy, r.correct_target) {
        Judgement::HitCorrect
    } else if spec_hits(cx, cy, r.incorrect_target) {
        Judgement::HitIncorrect
    } else {
        Judgement::NoHit
    }
}

/// Judges one click against the round's two live targets.
pub fn judge_click(cx: i64, cy: i64, r: &Round) -> (j: Judgement)
    requires
        r.wf(),
    ensures
        j == spec_judge(cx as int, cy as int, *r),
{
    if click_hits(cx, cy, &r.correct_target) {
        Judgement::HitCorrect
    } else if click_hits(cx, cy, &r.incorrect_target) {
        Judgement::HitIncorrect
    } else {
        Judgement::NoHit
    }
}

} // verus!
