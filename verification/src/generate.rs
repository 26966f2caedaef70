//! The round generator: random draws from the palette and the placement
//! bands, assembled into a well-formed round.

use vstd::prelude::*;

use crate::geometry::{
    in_lower_band, in_upper_band, lemma_bands_nonempty, FieldGeometry, CENTER_GAP, EDGE_MARGIN,
    MIN_FIELD_HEIGHT,
};
use crate::palette::PALETTE_SIZE;
use crate::rng::{random_below, random_coin};
use crate::round::{make_round, JudgingMode, Round};
use crate::{CIRCLE_RADIUS, OFFSET_SCALE, SPAWN_X};

verus! {

/// The one failure the round generator can surface: a field too small to
/// place targets in. It is a configuration error; the core does not guess a
/// fallback field size.
#[derive(Clone, Copy, PartialEq, Eq, Structural, Debug)]
pub enum RoundError {
    InvalidField,
}

/// What holds of every round generated for a field: the round invariant,
/// spawn position and radius, and one target in each placement band.
pub open spec fn generated_for(r: Round, field: FieldGeometry) -> bool {
    &&& r.wf()
    &&& r.correct_target.x == SPAWN_X
    &&& r.incorrect_target.x == SPAWN_X
    &&& r.correct_target.radius == CIRCLE_RADIUS
    &&& r.incorrect_target.radius == CIRCLE_RADIUS
    &&& {
        ||| (in_upper_band(r.correct_target.y as int, field.height as int) && in_lower_band(
            r.incorrect_target.y as int,
            field.height as int,
        ))
        ||| (in_lower_band(r.correct_target.y as int, field.height as int) && in_upper_band(
            r.incorrect_target.y as int,
            field.height as int,
        ))
    }
}

/// Generates one round for the given field: judging mode and the two palette
/// entries are drawn at random (the correct entry is removed from the pool
/// before the wrong one is drawn), one target is placed uniformly in each
/// band with a coin for which goes on top, and a shared speed offset is
/// drawn. Succeeds exactly on valid fields.
pub fn generate_round(field: &FieldGeometry) -> (r: Result<Round, RoundError>)
    requires
        field.bounded(),
    ensures
        r is Ok <==> field.valid(),
        r matches Ok(rd) ==> generated_for(rd, *field),
{
    if field.width < 1 || field.height < MIN_FIELD_HEIGHT {
        return Err(RoundError::InvalidField);
    }
    let h = field.height;
    proof {
        lemma_bands_nonempty(h as int);
    }
    let mode = if random_coin() {
        JudgingMode::AsWritten
    } else {
        JudgingMode::AsColored
    };
    let correct_idx = random_below(PALETTE_SIZE);
    let wrong_draw = random_below(PALETTE_SIZE - 1);

    let upper_lo = h / 2 + CENTER_GAP;
    let upper_hi = h - EDGE_MARGIN;
    let lower_lo = EDGE_MARGIN;
    let lower_hi = h / 2 - CENTER_GAP;
    let upper_y = upper_lo + random_below(upper_hi - upper_lo);
    let lower_y = lower_lo + random_below(lower_hi - lower_lo);

    let correct_on_top = random_coin();
    let (correct_y, incorrect_y) = if correct_on_top {
        (upper_y, lower_y)
    } else {
        (lower_y, upper_y)
    };

    let offset = random_below(OFFSET_SCALE) as u32;
    Ok(make_round(mode, correct_idx, wrong_draw, correct_y as i64, incorrect_y as i64, offset))
}

} // verus!
