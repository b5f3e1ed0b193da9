use vocai::srs::{clamp_quality, HybridSrs, LeitnerSystem, Sm2Algorithm, MASTERED_BOX, RELEARN_DELAY_SECS, SECS_PER_DAY};

#[test]
fn leitner_intervals_follow_the_box_table() {
    assert_eq!(LeitnerSystem::get_review_interval_days(1), 1);
    assert_eq!(LeitnerSystem::get_review_interval_days(2), 3);
    assert_eq!(LeitnerSystem::get_review_interval_days(3), 7);
    assert_eq!(LeitnerSystem::get_review_interval_days(4), 14);
    assert_eq!(LeitnerSystem::get_review_interval_days(5), 30);
}

#[test]
fn leitner_interval_outside_the_boxes_is_monthly() {
    assert_eq!(LeitnerSystem::get_review_interval_days(0), 30);
    assert_eq!(LeitnerSystem::get_review_interval_days(6), 30);
    assert_eq!(LeitnerSystem::get_review_interval_days(-3), 30);
}

#[test]
fn leitner_success_moves_one_box_up_and_stops_at_five() {
    assert_eq!(LeitnerSystem::update_leitner_box(1, 3), 2);
    assert_eq!(LeitnerSystem::update_leitner_box(4, 5), 5);
    assert_eq!(LeitnerSystem::update_leitner_box(5, 4), 5);
    assert_eq!(LeitnerSystem::update_leitner_box(9, 3), 5);
}

#[test]
fn leitner_failure_returns_to_box_one() {
    assert_eq!(LeitnerSystem::update_leitner_box(5, 2), 1);
    assert_eq!(LeitnerSystem::update_leitner_box(3, 0), 1);
}

#[test]
fn four_successes_master_a_new_card() {
    let mut b = 1;
    for _ in 0..4 {
        b = LeitnerSystem::update_leitner_box(b, 5);
    }
    assert_eq!(b, 5);
}

#[test]
fn sm2_first_repetitions_use_fixed_intervals() {
    assert_eq!(Sm2Algorithm::next_schedule(0, 0, 4, 0), (1, 1));
    assert_eq!(Sm2Algorithm::next_schedule(1, 1, 3, 3), (6, 2));
    assert_eq!(Sm2Algorithm::next_schedule(6, 2, 5, 15), (15, 3));
}

#[test]
fn sm2_failure_restarts() {
    assert_eq!(Sm2Algorithm::next_schedule(40, 7, 2, 100), (1, 0));
    assert_eq!(Sm2Algorithm::next_schedule(40, 7, 0, 100), (1, 0));
}

#[test]
fn hybrid_caps_sm2_interval_by_the_box() {
    let r = HybridSrs::process_review_quality(6, 2, 2, 4, 15, 1_000);
    assert_eq!((r.interval_days, r.repetitions, r.leitner_box), (7, 3, 3));
    assert_eq!((r.review_delay_secs, r.next_review_secs), (7 * 86_400, 1_000 + 7 * 86_400));
    let r = HybridSrs::process_review_quality(0, 0, 1, 5, 0, 0);
    assert_eq!((r.interval_days, r.repetitions, r.leitner_box), (1, 1, 2));
    assert_eq!(r.next_review_secs, 86_400);
    let r = HybridSrs::process_review_quality(100, 9, 5, 5, 250, 1_700_000_000);
    assert_eq!((r.interval_days, r.repetitions, r.leitner_box), (30, 10, 5));
    assert_eq!(r.next_review_secs, 1_700_000_000 + 30 * 86_400);
}

#[test]
fn hybrid_failure_resets_card() {
    let r = HybridSrs::process_review_quality(30, 8, 5, 2, 75, 500);
    assert_eq!((r.interval_days, r.repetitions, r.leitner_box), (1, 0, 1));
    assert_eq!((r.review_delay_secs, r.next_review_secs), (86_400, 86_900));
}

#[test]
fn forgotten_cards_come_back_in_a_minute() {
    for q in [0, 1] {
        let r = HybridSrs::process_review_quality(30, 8, 5, q, 75, 1_700_000_000);
        assert_eq!((r.interval_days, r.repetitions, r.leitner_box), (0, 0, 1));
        assert_eq!(r.review_delay_secs, 60);
        assert_eq!(r.next_review_secs, 1_700_000_060);
    }
    assert_eq!(RELEARN_DELAY_SECS, 60);
    assert_eq!(SECS_PER_DAY, 86_400);
}

#[test]
fn a_card_is_mastered_in_the_top_box() {
    assert_eq!(MASTERED_BOX, 5);
    let r = HybridSrs::process_review_quality(14, 4, 4, 4, 35, 0);
    assert_eq!(r.leitner_box, MASTERED_BOX);
    let r = HybridSrs::process_review_quality(30, 5, 5, 1, 75, 0);
    assert!(r.leitner_box < MASTERED_BOX);
}

#[test]
fn quality_is_clamped_to_the_scale() {
    assert_eq!(clamp_quality(-4), 0);
    assert_eq!(clamp_quality(3), 3);
    assert_eq!(clamp_quality(9), 5);
}
