//! One round of the game: the prompt word and its ink colour, the judging
//! mode, and the two moving targets, built from two distinct palette draws.

use vstd::prelude::*;

use crate::palette::{
    color_of_index, lemma_palette_colors_distinct, spec_color_of_index, ColorId, PALETTE_SIZE,
};
use crate::{CIRCLE_RADIUS, MAX_RADIUS, OFFSET_SCALE, SPAWN_X};

verus! {

/// Whether the correct target is the one matching the prompt as written
/// (its word) or as coloured (its ink).
#[derive(Clone, Copy, PartialEq, Eq, Structural, Debug)]
pub enum JudgingMode {
    AsWritten,
    AsColored,
}

/// The label shown for a judging mode.
pub open spec fn spec_mode_label(m: JudgingMode) -> Seq<char> {
    match m {
        JudgingMode::AsWritten => "As Written"@,
        JudgingMode::AsColored => "As Colored"@,
    }
}

/// Hands the display label of a judging mode out.
pub fn mode_label(m: JudgingMode) -> (s: &'static str)
    ensures
        s@ == spec_mode_label(m),
{
    match m {
        JudgingMode::AsWritten => "As Written",
        JudgingMode::AsColored => "As Colored",
    }
}

/// One clickable moving circle. Positions are milli-pixels; `x` grows as the
/// target drifts rightward across the field.
#[derive(Clone, Copy, PartialEq, Eq, Structural, Debug)]
pub struct TargetSpec {
    pub color: ColorId,
    pub is_correct: bool,
    pub x: i64,
    pub y: i64,
    pub radius: u64,
    /// Shared per-round pace scalar, in thousandths below `OFFSET_SCALE`.
    pub speed_offset: u32,
}

impl TargetSpec {
    /// Bounds every target of a generated round satisfies.
    pub open spec fn wf(self) -> bool {
        &&& 0 < self.radius <= MAX_RADIUS
        &&& (self.speed_offset as u64) < OFFSET_SCALE
    }
}

/// A fully specified round.
#[derive(Clone, Copy, PartialEq, Eq, Structural, Debug)]
pub struct Round {
    /// The palette entry whose name is displayed as the prompt text.
    pub prompt_word: ColorId,
    /// The palette entry whose colour the prompt text is rendered in.
    pub prompt_color: ColorId,
    pub judging_mode: JudgingMode,
    pub correct_target: TargetSpec,
    pub incorrect_target: TargetSpec,
}

impl Round {
    /// The round invariant: the two targets never share a colour, exactly
    /// one of them is the correct one, both move at the same pace, and the
    /// prompt's word and ink come from the two drawn entries as the judging
    /// mode directs — so the word never names its own displayed colour.
    pub open spec fn wf(self) -> bool {
        &&& self.correct_target.wf()
        &&& self.incorrect_target.wf()
        &&& self.correct_target.is_correct
        &&& !self.incorrect_target.is_correct
        &&& self.correct_target.color != self.incorrect_target.color
        &&& self.correct_target.speed_offset == self.incorrect_target.speed_offset
        &&& self.prompt_word != self.prompt_color
        &&& (match self.judging_mode {
            JudgingMode::AsWritten => self.prompt_word == self.correct_target.color
                && self.prompt_color == self.incorrect_target.color,
            JudgingMode::AsColored => self.prompt_word == self.incorrect_target.color
                && self.prompt_color == self.correct_target.color,
        })
    }
}

/// The two targets of a well-formed round never share a colour.
pub proof fn lemma_targets_differ_in_color(r: Round)
    requires
        r.wf(),
    ensures
        r.correct_target.color != r.incorrect_target.color,
{
}

/// Exactly one of a well-formed round's two targets is marked correct.
pub proof fn lemma_exactly_one_correct(r: Round)
    requires
        r.wf(),
    ensures
        r.correct_target.is_correct,
        !r.incorrect_target.is_correct,
{
}

/// Where a draw from the pool with the correct entry removed lands in the
/// full palette: slots at or past the removed entry shift up by one.
pub open spec fn spec_remap_wrong(correct: int, draw: int) -> int {
    if draw >= correct {
        draw + 1
    } else {
        draw
    }
}

/// Maps a draw from the four-entry working pool (the palette with the
/// correct entry already removed) back to its palette index. The result is
/// never the correct entry's index: removal happens before the second draw.
pub fn remap_wrong(correct: u64, draw: u64) -> (r: u64)
    requires
        correct < PALETTE_SIZE,
        draw < PALETTE_SIZE - 1,
    ensures
        r == spec_remap_wrong(correct as int, draw as int),
        r < PALETTE_SIZE,
        r != correct,
{
    if draw >= correct {
        draw + 1
    } else {
        draw
    }
}

/// The round that a given set of draws determines.
pub open spec fn spec_round_from(
    mode: JudgingMode,
    correct_idx: int,
    wrong_draw: int,
    correct_y: i64,
    incorrect_y: i64,
    offset: u32,
) -> Round {
    let correct_color = spec_color_of_index(correct_idx);
    let wrong_color = spec_color_of_index(spec_remap_wrong(correct_idx, wrong_draw));
    Round {
        prompt_word: if mode is AsWritten {
            correct_color
        } else {
            wrong_color
        },
        prompt_color: if mode is AsWritten {
            wrong_color
        } else {
            correct_color
        },
        judging_mode: mode,
        correct_target: TargetSpec {
            color: correct_color,
            is_correct: true,
            x: SPAWN_X,
            y: correct_y,
            radius: CIRCLE_RADIUS,
            speed_offset: offset,
        },
        incorrect_target: TargetSpec {
            color: wrong_color,
            is_correct: false,
            x: SPAWN_X,
            y: incorrect_y,
            radius: CIRCLE_RADIUS,
            speed_offset: offset,
        },
    }
}

/// Builds the round a set of draws determines: the correct entry is drawn
/// from the full palette, the wrong one from the pool that remains, and the
/// prompt pairs the two entries as the mode directs.
pub fn make_round(
    mode: JudgingMode,
    correct_idx: u64,
    wrong_draw: u64,
    correct_y: i64,
    incorrect_y: i64,
    offset: u32,
) -> (r: Round)
    requires
        correct_idx < PALETTE_SIZE,
        wrong_draw < PALETTE_SIZE - 1,
        (offset as u64) < OFFSET_SCALE,
    ensures
        r == spec_round_from(
            mode,
            correct_idx as int,
            wrong_draw as int,
            correct_y,
            incorrect_y,
            offset,
        ),
        r.wf(),
{
    let wrong_idx = remap_wrong(correct_idx, wrong_draw);
    let correct_color = color_of_index(correct_idx);
    let wrong_color = color_of_index(wrong_idx);
    proof {
        lemma_palette_colors_distinct(correct_idx as int, wrong_idx as int);
    }
    let (prompt_word, prompt_color) = match mode {
        JudgingMode::AsWritten => (correct_color, wrong_color),
        JudgingMode::AsColored => (wrong_color, correct_color),
    };
    Round {
        prompt_word,
        prompt_color,
        judging_mode: mode,
        correct_target: TargetSpec {
            color: correct_color,
            is_correct: true,
            x: SPAWN_X,
            y: correct_y,
            radius: CIRCLE_RADIUS,
            speed_offset: offset,
        },
        incorrect_target: TargetSpec {
            color: wrong_color,
            is_correct: false,
            x: SPAWN_X,
            y: incorrect_y,
            radius: CIRCLE_RADIUS,
            speed_offset: offset,
        },
    }
}

/// Where a draw from the three entries left after removing both drawn ones
/// lands in the full palette.
pub open spec fn spec_decoy_index(correct: int, wrong: int, draw: int) -> int {
    let lo = if correct < wrong {
        correct
    } else {
        wrong
    };
    let hi = if correct < wrong {
        wrong
    } else {
        correct
    };
    let shifted = if draw >= lo {
        draw + 1
    } else {
        draw
    };
    if shifted >= hi {
        shifted + 1
    } else {
        shifted
    }
}

/// Maps a draw from the three-entry leftover pool back to its palette
/// index; the result is neither of the round's two interactive entries.
pub fn decoy_index(correct: u64, wrong: u64, draw: u64) -> (r: u64)
    requires
        correct < PALETTE_SIZE,
        wrong < PALETTE_SIZE,
        correct != wrong,
        draw < PALETTE_SIZE - 2,
    ensures
        r == spec_decoy_index(correct as int, wrong as int, draw as int),
        r < PALETTE_SIZE,
        r != correct,
        r != wrong,
{
    let lo = if correct < wrong {
        correct
    } else {
        wrong
    };
    let hi = if correct < wrong {
        wrong
    } else {
        correct
    };
    let shifted = if draw >= lo {
        draw + 1
    } else {
        draw
    };
    if shifted >= hi {
        shifted + 1
    } else {
        shifted
    }
}

/// Draws `count` cosmetic colours, with replacement, from the three palette
/// entries a round leaves unused: no decoy ever wears either target's colour.
pub fn decoy_colors(correct: ColorId, wrong: ColorId, count: usize) -> (v: Vec<ColorId>)
    requires
        correct != wrong,
    ensures
        v@.len() == count,
        forall|i: int| 0 <= i < count ==> v@[i] != correct && v@[i] != wrong,
{
    let correct_idx = crate::palette::index_of_color(correct);
    let wrong_idx = crate::palette::index_of_color(wrong);
    let mut v: Vec<ColorId> = Vec::new();
    let mut n: usize = 0;
    while n < count
        invariant
            v@.len() == n,
            n <= count,
            correct_idx < PALETTE_SIZE,
            wrong_idx < PALETTE_SIZE,
            correct_idx != wrong_idx,
            spec_color_of_index(correct_idx as int) == correct,
            spec_color_of_index(wrong_idx as int) == wrong,
            forall|i: int| 0 <= i < n ==> v@[i] != correct && v@[i] != wrong,
        decreases count - n,
    {
        let draw = crate::rng::random_below(PALETTE_SIZE - 2);
        let idx = decoy_index(correct_idx, wrong_idx, draw);
        let color = color_of_index(idx);
        proof {
            lemma_palette_colors_distinct(idx as int, correct_idx as int);
            lemma_palette_colors_distinct(idx as int, wrong_idx as int);
        }
        v.push(color);
        n = n + 1;
    }
    v
}

} // verus!
