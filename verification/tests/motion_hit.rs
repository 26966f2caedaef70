use stroop::hit::{click_hits, judge_click, Judgement};
use stroop::motion::{advance_round, advance_target, round_missed, target_missed, travel};
use stroop::round::{make_round, JudgingMode, TargetSpec};

fn target_at(x: i64, y: i64) -> TargetSpec {
    TargetSpec {
        color: stroop::palette::ColorId::Red,
        is_correct: true,
        x,
        y,
        radius: 20_000,
        speed_offset: 0,
    }
}

#[test]
fn travel_formula_exact_values() {
    // 200 milli-pixels per millisecond at offset zero.
    assert_eq!(travel(1000, 0), 200_000);
    // The shared offset scales the pace in thousandths above one.
    assert_eq!(travel(1000, 999), 399_800);
    assert_eq!(travel(1000, 500), 300_000);
    assert_eq!(travel(0, 750), 0);
}

#[test]
fn targets_advance_together_and_never_move_left() {
    let mut r = make_round(JudgingMode::AsWritten, 0, 0, 500_000, 300_000, 500);
    let cx0 = r.correct_target.x;
    let ix0 = r.incorrect_target.x;
    advance_round(&mut r, 100);
    assert!(r.correct_target.x >= cx0);
    assert!(r.incorrect_target.x >= ix0);
    assert_eq!(r.correct_target.x - cx0, r.incorrect_target.x - ix0);
    assert_eq!(r.correct_target.x, cx0 + 30_000);
    // A zero-length tick moves nothing.
    let cx1 = r.correct_target.x;
    advance_round(&mut r, 0);
    assert_eq!(r.correct_target.x, cx1);
}

#[test]
fn single_target_advance() {
    let mut t = target_at(-20_000, 400_000);
    advance_target(&mut t, 1000);
    assert_eq!(t.x, 180_000);
    assert_eq!(t.y, 400_000);
}

#[test]
fn missed_exactly_at_width_plus_radius() {
    let width = 1_000_000u64;
    assert!(!target_missed(&target_at(1_019_999, 0), width));
    assert!(target_missed(&target_at(1_020_000, 0), width));
    assert!(target_missed(&target_at(1_020_001, 0), width));
}

#[test]
fn round_missed_when_either_target_exits() {
    let mut r = make_round(JudgingMode::AsWritten, 0, 0, 500_000, 300_000, 0);
    assert!(!round_missed(&r, 1_000_000));
    r.correct_target.x = 1_020_000;
    assert!(round_missed(&r, 1_000_000));
}

#[test]
fn hit_needs_distance_below_radius_plus_tolerance() {
    let t = target_at(0, 0);
    // Exact centre: distance zero.
    assert!(click_hits(0, 0, &t));
    // Just inside the tolerance ring: 20 pixels radius plus 1 pixel.
    assert!(click_hits(20_999, 0, &t));
    assert!(click_hits(0, -20_999, &t));
    // On the ring itself the distance is not strictly below it.
    assert!(!click_hits(21_000, 0, &t));
    assert!(!click_hits(0, 21_000, &t));
    // A diagonal click inside the ring: 14000^2 + 14000^2 < 21000^2.
    assert!(click_hits(14_000, 14_000, &t));
    // And one outside it: 15000^2 + 15000^2 > 21000^2.
    assert!(!click_hits(15_000, 15_000, &t));
}

#[test]
fn judgement_prefers_correct_on_overlap() {
    let mut r = make_round(JudgingMode::AsColored, 1, 1, 400_000, 400_000, 0);
    // Both targets share a centre here; the correct one takes precedence.
    r.incorrect_target.y = r.correct_target.y;
    assert_eq!(
        judge_click(r.correct_target.x, r.correct_target.y, &r),
        Judgement::HitCorrect
    );
}

#[test]
fn judgement_for_each_target_and_for_a_miss_click() {
    let r = make_round(JudgingMode::AsWritten, 4, 0, 500_000, 300_000, 0);
    assert_eq!(
        judge_click(r.correct_target.x, r.correct_target.y, &r),
        Judgement::HitCorrect
    );
    assert_eq!(
        judge_click(r.incorrect_target.x, r.incorrect_target.y, &r),
        Judgement::HitIncorrect
    );
    assert_eq!(judge_click(900_000_000, -900_000_000, &r), Judgement::NoHit);
}
