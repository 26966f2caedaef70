use stroop::generate::{generate_round, RoundError};
use stroop::geometry::FieldGeometry;
use stroop::palette::{color_name, color_of_index, index_of_color, ColorId};
use stroop::round::{decoy_colors, decoy_index, make_round, mode_label, remap_wrong, JudgingMode};

#[test]
fn palette_names() {
    assert_eq!(color_name(ColorId::Red), "RED");
    assert_eq!(color_name(ColorId::Yellow), "YELLOW");
    assert_eq!(color_name(ColorId::Green), "GREEN");
    assert_eq!(color_name(ColorId::Blue), "BLUE");
    assert_eq!(color_name(ColorId::Purple), "PURPLE");
}

#[test]
fn palette_entries_distinct() {
    for i in 0..5u64 {
        for j in 0..5u64 {
            if i != j {
                assert_ne!(color_of_index(i), color_of_index(j));
                assert_ne!(color_name(color_of_index(i)), color_name(color_of_index(j)));
            }
        }
    }
    for i in 0..5u64 {
        assert_eq!(index_of_color(color_of_index(i)), i);
    }
}

#[test]
fn mode_labels() {
    assert_eq!(mode_label(JudgingMode::AsWritten), "As Written");
    assert_eq!(mode_label(JudgingMode::AsColored), "As Colored");
}

#[test]
fn wrong_draw_never_repeats_correct_entry() {
    // The correct entry is removed before the second draw: no pair of draws
    // may name the same palette entry twice.
    for correct in 0..5u64 {
        for draw in 0..4u64 {
            let wrong = remap_wrong(correct, draw);
            assert_ne!(wrong, correct);
            assert!(wrong < 5);
        }
    }
    // In particular the draw pair (0, 0) names entries 0 and 1.
    assert_eq!(remap_wrong(0, 0), 1);
}

#[test]
fn decoy_index_avoids_both_entries() {
    for correct in 0..5u64 {
        for wrong in 0..5u64 {
            if correct == wrong {
                continue;
            }
            for draw in 0..3u64 {
                let d = decoy_index(correct, wrong, draw);
                assert!(d < 5);
                assert_ne!(d, correct);
                assert_ne!(d, wrong);
            }
        }
    }
}

#[test]
fn make_round_as_written() {
    let r = make_round(JudgingMode::AsWritten, 0, 0, 500_000, 300_000, 250);
    // Draws (0, 0) name entries 0 (RED) and 1 (YELLOW).
    assert_eq!(r.correct_target.color, ColorId::Red);
    assert_eq!(r.incorrect_target.color, ColorId::Yellow);
    // As written: the prompt shows the correct entry's word in the wrong
    // entry's ink.
    assert_eq!(r.prompt_word, ColorId::Red);
    assert_eq!(r.prompt_color, ColorId::Yellow);
    assert!(r.correct_target.is_correct);
    assert!(!r.incorrect_target.is_correct);
    assert_ne!(r.correct_target.color, r.incorrect_target.color);
    assert_eq!(r.correct_target.y, 500_000);
    assert_eq!(r.incorrect_target.y, 300_000);
    assert_eq!(r.correct_target.x, -20_000);
    assert_eq!(r.incorrect_target.x, -20_000);
    assert_eq!(r.correct_target.radius, 20_000);
    assert_eq!(r.correct_target.speed_offset, 250);
    assert_eq!(r.incorrect_target.speed_offset, 250);
}

#[test]
fn make_round_as_colored() {
    let r = make_round(JudgingMode::AsColored, 2, 2, 500_000, 300_000, 0);
    // Draws (2, 2) name entries 2 (GREEN) and 3 (BLUE).
    assert_eq!(r.correct_target.color, ColorId::Green);
    assert_eq!(r.incorrect_target.color, ColorId::Blue);
    // As colored: the prompt shows the wrong entry's word in the correct
    // entry's ink.
    assert_eq!(r.prompt_word, ColorId::Blue);
    assert_eq!(r.prompt_color, ColorId::Green);
    assert!(r.correct_target.is_correct);
    assert!(!r.incorrect_target.is_correct);
}

#[test]
fn generated_rounds_keep_their_invariants() {
    let field = FieldGeometry { width: 1_280_000, height: 720_000 };
    let h = field.height;
    let upper = (h / 2 + 20_000) as i64..(h - 160_000) as i64;
    let lower = 160_000_i64..(h / 2 - 20_000) as i64;
    for _ in 0..200 {
        let r = generate_round(&field).unwrap();
        assert_ne!(r.correct_target.color, r.incorrect_target.color);
        assert!(r.correct_target.is_correct);
        assert!(!r.incorrect_target.is_correct);
        assert_ne!(r.prompt_word, r.prompt_color);
        assert_eq!(r.correct_target.x, -20_000);
        assert_eq!(r.incorrect_target.x, -20_000);
        assert_eq!(r.correct_target.radius, 20_000);
        assert_eq!(r.incorrect_target.radius, 20_000);
        assert!(r.correct_target.speed_offset < 1000);
        assert_eq!(r.correct_target.speed_offset, r.incorrect_target.speed_offset);
        let cy = r.correct_target.y;
        let iy = r.incorrect_target.y;
        assert!(
            (upper.contains(&cy) && lower.contains(&iy))
                || (lower.contains(&cy) && upper.contains(&iy))
        );
        match r.judging_mode {
            JudgingMode::AsWritten => {
                assert_eq!(r.prompt_word, r.correct_target.color);
                assert_eq!(r.prompt_color, r.incorrect_target.color);
            }
            JudgingMode::AsColored => {
                assert_eq!(r.prompt_word, r.incorrect_target.color);
                assert_eq!(r.prompt_color, r.correct_target.color);
            }
        }
    }
}

#[test]
fn generator_sees_both_modes_and_both_placements() {
    let field = FieldGeometry { width: 1_280_000, height: 720_000 };
    let mut saw_written = false;
    let mut saw_colored = false;
    let mut saw_correct_on_top = false;
    let mut saw_correct_below = false;
    for _ in 0..400 {
        let r = generate_round(&field).unwrap();
        match r.judging_mode {
            JudgingMode::AsWritten => saw_written = true,
            JudgingMode::AsColored => saw_colored = true,
        }
        if r.correct_target.y > r.incorrect_target.y {
            saw_correct_on_top = true;
        } else {
            saw_correct_below = true;
        }
    }
    assert!(saw_written && saw_colored);
    assert!(saw_correct_on_top && saw_correct_below);
}

#[test]
fn invalid_fields_are_refused() {
    assert_eq!(
        generate_round(&FieldGeometry { width: 0, height: 720_000 }),
        Err(RoundError::InvalidField)
    );
    assert_eq!(
        generate_round(&FieldGeometry { width: 1_280_000, height: 360_001 }),
        Err(RoundError::InvalidField)
    );
    assert!(generate_round(&FieldGeometry { width: 1, height: 360_002 }).is_ok());
}

#[test]
fn decoys_avoid_both_target_colors() {
    let v = decoy_colors(ColorId::Red, ColorId::Blue, 60);
    assert_eq!(v.len(), 60);
    for c in v {
        assert_ne!(c, ColorId::Red);
        assert_ne!(c, ColorId::Blue);
    }
}
