//! Spaced repetition: the SM-2 schedule and the Leitner boxes, and the hybrid
//! of the two that decides when a card is shown again.
//!
//! The easiness factor of SM-2 is a floating-point quantity; the library
//! takes the one value the schedule reads from it, the previous interval
//! scaled by that factor and rounded to whole days, as an integer argument.
//!
//! Grades 0 and 1 (a blackout, a wrong answer) put the card back for
//! relearning one minute later; grade 2 (recalled with difficulty) resets it
//! to the next day; grades 3 to 5 follow the schedule.

use vstd::prelude::*;

verus! {

/// SM-2 algorithm (SuperMemo), integer part of the schedule.
pub struct Sm2Algorithm;

/// Leitner system: box 1 = daily, 2 = every 3 days, 3 = weekly,
/// 4 = every 14 days, 5 = monthly.
pub struct LeitnerSystem;

/// Hybrid schedule combining SM-2 and Leitner.
pub struct HybridSrs;

/// Lowest quality grade that counts as a successful recall.
pub const PASSING_QUALITY: i32 = 3;

/// Lowest quality grade at which the word was recalled at all; below it the
/// card is relearned a minute later.
pub const RECALL_QUALITY: i32 = 2;

/// Highest Leitner box.
pub const TOP_BOX: i32 = 5;

/// Box of the mastered words.
pub const MASTERED_BOX: i32 = 5;

/// Seconds until a forgotten card is shown again: one minute.
pub const RELEARN_DELAY_SECS: i64 = 60;

/// Seconds in a day.
pub const SECS_PER_DAY: i64 = 86400;

/// A card counts as mastered once it reaches the top box.
pub open spec fn is_mastered(leitner_box: int) -> bool {
    leitner_box >= MASTERED_BOX
}

/// Seconds from a review to the next one: a minute for a forgotten card,
/// otherwise the interval in whole days.
pub open spec fn review_delay(quality: int, interval_days: int) -> int {
    if quality < RECALL_QUALITY {
        RELEARN_DELAY_SECS as int
    } else {
        interval_days * SECS_PER_DAY
    }
}

/// Review interval, in days, of a Leitner box.
pub open spec fn leitner_interval(leitner_box: int) -> int {
    if leitner_box == 1 {
        1
    } else if leitner_box == 2 {
        3
    } else if leitner_box == 3 {
        7
    } else if leitner_box == 4 {
        14
    } else {
        30
    }
}

/// Box after a review of the given quality.
pub open spec fn next_box(current_box: int, quality: int) -> int {
    if quality >= PASSING_QUALITY {
        if current_box + 1 < TOP_BOX {
            current_box + 1
        } else {
            TOP_BOX as int
        }
    } else {
        1
    }
}

/// SM-2 `(interval, repetitions)` after a review; `scaled` is the previous
/// interval multiplied by the easiness factor and rounded.
pub open spec fn sm2_schedule(interval_days: int, repetitions: int, quality: int, scaled: int) -> (
    int,
    int,
) {
    if quality >= PASSING_QUALITY {
        let interval = if repetitions == 0 {
            1
        } else if repetitions == 1 {
            6
        } else {
            scaled
        };
        (interval, repetitions + 1)
    } else {
        (1, 0)
    }
}

/// The schedule of a card after one review; the next review is
/// `review_delay_secs` after the review, at `next_review_secs` (Unix time).
pub struct ReviewOutcome {
    pub interval_days: i32,
    pub repetitions: i32,
    pub leitner_box: i32,
    pub review_delay_secs: i64,
    pub next_review_secs: i64,
}

/// What the hybrid schedule yields as `(interval, repetitions, box)`: the
/// SM-2 interval, capped by the interval of the card's new Leitner box; no
/// whole day for a forgotten card.
pub open spec fn hybrid_outcome(
    interval_days: int,
    repetitions: int,
    leitner_box: int,
    quality: int,
    scaled: int,
) -> (int, int, int) {
    let (interval, reps) = sm2_schedule(interval_days, repetitions, quality, scaled);
    let b = next_box(leitner_box, quality);
    let cap = leitner_interval(b);
    let days = if quality < RECALL_QUALITY {
        0
    } else if interval < cap {
        interval
    } else {
        cap
    };
    (days, reps, b)
}

impl Sm2Algorithm {
    /// Interval and repetition count after a review. A successful review
    /// (quality 3 or more) schedules 1 day after the first repetition, 6 after
    /// the second and `scaled` days after later ones; a failed one restarts.
    pub fn next_schedule(interval_days: i32, repetitions: i32, quality: i32, scaled: i32) -> (r: (
        i32,
        i32,
    ))
        requires
            quality >= PASSING_QUALITY ==> repetitions < i32::MAX,
        ensures
            (r.0 as int, r.1 as int) == sm2_schedule(
                interval_days as int,
                repetitions as int,
                quality as int,
                scaled as int,
            ),
    {
        if quality >= PASSING_QUALITY {
            let interval = if repetitions == 0 {
                1
            } else if repetitions == 1 {
                6
            } else {
                scaled
            };
            (interval, repetitions + 1)
        } else {
            (1, 0)
        }
    }
}

impl LeitnerSystem {
    /// Days until the next review for a card in `leitner_box`.
    pub fn get_review_interval_days(leitner_box: i32) -> (days: i32)
        ensures
            days as int == leitner_interval(leitner_box as int),
    {
        match leitner_box {
            1 => 1,
            2 => 3,
            3 => 7,
            4 => 14,
            _ => 30,
        }
    }

    /// A successful review moves the card one box up (at most to box 5); a
    /// failed one sends it back to box 1.
    pub fn update_leitner_box(current_box: i32, quality: i32) -> (b: i32)
        requires
            quality >= PASSING_QUALITY ==> current_box < i32::MAX,
        ensures
            b as int == next_box(current_box as int, quality as int),
    {
        if quality >= PASSING_QUALITY {
            let up = current_box + 1;
            if up < TOP_BOX {
                up
            } else {
                TOP_BOX
            }
        } else {
            1
        }
    }
}

impl HybridSrs {
    /// Processes a review made at `now_secs` (Unix time): runs SM-2 and the
    /// Leitner update, caps the SM-2 interval by the new box's interval, and
    /// schedules the next review that many days later, or one minute later
    /// for a forgotten card (grades 0 and 1).
    pub fn process_review_quality(
        interval_days: i32,
        repetitions: i32,
        leitner_box: i32,
        quality: i32,
        scaled: i32,
        now_secs: i64,
    ) -> (r: ReviewOutcome)
        requires
            quality >= PASSING_QUALITY ==> repetitions < i32::MAX,
            quality >= PASSING_QUALITY ==> leitner_box < i32::MAX,
            i64::MIN <= now_secs + review_delay(
                quality as int,
                hybrid_outcome(
                    interval_days as int,
                    repetitions as int,
                    leitner_box as int,
                    quality as int,
                    scaled as int,
                ).0,
            ) <= i64::MAX,
        ensures
            (r.interval_days as int, r.repetitions as int, r.leitner_box as int) == hybrid_outcome(
                interval_days as int,
                repetitions as int,
                leitner_box as int,
                quality as int,
                scaled as int,
            ),
            r.review_delay_secs == review_delay(quality as int, r.interval_days as int),
            r.next_review_secs == now_secs + r.review_delay_secs,
    {
        let (interval, reps) = Sm2Algorithm::next_schedule(
            interval_days,
            repetitions,
            quality,
            scaled,
        );
        let new_box = LeitnerSystem::update_leitner_box(leitner_box, quality);
        let cap = LeitnerSystem::get_review_interval_days(new_box);
        let final_interval = if quality < RECALL_QUALITY {
            0
        } else if interval < cap {
            interval
        } else {
            cap
        };
        let delay: i64 = if quality < RECALL_QUALITY {
            RELEARN_DELAY_SECS
        } else {
            proof {
                assert(-0x8000_0000 * 86400 <= final_interval * 86400 <= 0x7fff_ffff * 86400)
                    by (nonlinear_arith)
                    requires
                        -0x8000_0000 <= final_interval <= 0x7fff_ffff,
                ;
            }
            final_interval as i64 * SECS_PER_DAY
        };
        ReviewOutcome {
            interval_days: final_interval,
            repetitions: reps,
            leitner_box: new_box,
            review_delay_secs: delay,
            next_review_secs: now_secs + delay,
        }
    }
}

/// Quality grades are clamped to the scale 0..=5 before scheduling.
pub fn clamp_quality(quality: i32) -> (q: i32)
    ensures
        q == (if quality < 0 {
            0
        } else if quality > 5 {
            5
        } else {
            quality
        }),
{
    if quality < 0 {
        0
    } else if quality > 5 {
        5
    } else {
        quality
    }
}

// ---------------------------------------------------------------------------
// Laws
// ---------------------------------------------------------------------------

/// Cards stay within the five Leitner boxes: a card in a box 1..=5 is in a
/// box 1..=5 after any review.
pub proof fn law_box_stays_in_range(current_box: int, quality: int)
    requires
        1 <= current_box <= 5,
    ensures
        1 <= next_box(current_box, quality) <= 5,
{
}

/// A failed review (quality below 3) resets the card: box 1, no
/// repetitions, and the next review at most a day later.
pub proof fn law_failure_resets(
    interval_days: int,
    repetitions: int,
    leitner_box: int,
    quality: int,
    scaled: int,
)
    requires
        quality < PASSING_QUALITY,
    ensures
        ({
            let (i, r, b) = hybrid_outcome(interval_days, repetitions, leitner_box, quality, scaled);
            &&& r == 0
            &&& b == 1
            &&& !is_mastered(b)
            &&& 0 < review_delay(quality, i) <= SECS_PER_DAY
        }),
{
}

/// A forgotten card (grade 0, a blackout, or 1, a wrong answer) is reset
/// and shown again one minute later.
pub proof fn law_forgotten_card_in_a_minute(
    interval_days: int,
    repetitions: int,
    leitner_box: int,
    quality: int,
    scaled: int,
)
    requires
        quality < RECALL_QUALITY,
    ensures
        hybrid_outcome(interval_days, repetitions, leitner_box, quality, scaled) == (0int, 0int, 1int),
        review_delay(quality, 0) == 60,
{
}

/// A card recalled with difficulty (grade 2) is reset and shown again the
/// next day.
pub proof fn law_hard_recall_next_day(
    interval_days: int,
    repetitions: int,
    leitner_box: int,
    scaled: int,
)
    ensures
        hybrid_outcome(interval_days, repetitions, leitner_box, 2, scaled) == (1int, 0int, 1int),
        review_delay(2, 1) == 86400,
{
}

/// A successful review adds one repetition and moves the card one box up,
/// never beyond box 5.
pub proof fn law_success_promotes(
    interval_days: int,
    repetitions: int,
    leitner_box: int,
    quality: int,
    scaled: int,
)
    requires
        quality >= PASSING_QUALITY,
        leitner_box <= 5,
    ensures
        hybrid_outcome(interval_days, repetitions, leitner_box, quality, scaled).1 == repetitions + 1,
        hybrid_outcome(interval_days, repetitions, leitner_box, quality, scaled).2 == if leitner_box
            < 5 {
            leitner_box + 1
        } else {
            5
        },
{
}

/// The hybrid interval never exceeds the Leitner interval of the card's new
/// box, so no card waits longer than 30 days.
pub proof fn law_interval_capped_by_box(
    interval_days: int,
    repetitions: int,
    leitner_box: int,
    quality: int,
    scaled: int,
)
    ensures
        ({
            let (i, _r, b) = hybrid_outcome(interval_days, repetitions, leitner_box, quality, scaled);
            &&& i <= leitner_interval(b)
            &&& i <= 30
            &&& review_delay(quality, i) <= 30 * SECS_PER_DAY
        }),
{
}

/// Higher boxes are reviewed less often: the Leitner interval does not
/// decrease from box to box.
pub proof fn law_box_intervals_monotone(a: int, b: int)
    requires
        1 <= a <= b <= 5,
    ensures
        leitner_interval(a) <= leitner_interval(b),
{
}

/// `k` successful reviews in a row, starting from box `b`.
pub open spec fn promote_times(b: int, k: nat) -> int
    decreases k,
{
    if k == 0 {
        b
    } else {
        next_box(promote_times(b, (k - 1) as nat), PASSING_QUALITY as int)
    }
}

/// After `k` successful reviews in a row a card starting in box `b` (1..=5)
/// is in box `min(b + k, 5)`; it is mastered exactly when `b + k >= 5`, so
/// four are enough to master a new card.
pub proof fn law_repeated_success(b: int, k: nat)
    requires
        1 <= b <= 5,
    ensures
        promote_times(b, k) == if b + k < 5 {
            b + k
        } else {
            5
        },
        is_mastered(promote_times(b, k)) <==> b + k >= 5,
    decreases k,
{
    if k > 0 {
        law_repeated_success(b, (k - 1) as nat);
    }
}


/// From the third successful repetition on, SM-2 schedules the previous
/// interval scaled by the easiness factor (`scaled`), whatever the count of
/// repetitions, and the hybrid schedule takes it, capped by the interval of
/// the card's new box (one box up, at most box 5: 3, 7, 14 or 30 days).
pub proof fn law_later_repetitions_use_scaled_interval(
    interval_days: int,
    repetitions: int,
    leitner_box: int,
    quality: int,
    scaled: int,
)
    requires
        quality >= 3,
        repetitions >= 2,
        1 <= leitner_box <= 5,
    ensures
        sm2_schedule(interval_days, repetitions, quality, scaled) == (scaled, repetitions + 1),
        ({
            let new_box = if leitner_box + 1 < 5 {
                leitner_box + 1
            } else {
                5
            };
            let cap = if new_box == 2 {
                3
            } else if new_box == 3 {
                7
            } else if new_box == 4 {
                14
            } else {
                30
            };
            let days = if scaled < cap {
                scaled
            } else {
                cap
            };
            &&& hybrid_outcome(interval_days, repetitions, leitner_box, quality, scaled) == (
                days,
                repetitions + 1,
                new_box,
            )
            &&& review_delay(quality, days) == days * 86400
        }),
{
}

/// The first two successful repetitions are scheduled 1 and 6 days out,
/// before the box cap.
pub proof fn law_first_repetitions_fixed(interval_days: int, quality: int, scaled: int)
    requires
        quality >= 3,
    ensures
        sm2_schedule(interval_days, 0, quality, scaled) == (1int, 1int),
        sm2_schedule(interval_days, 1, quality, scaled) == (6int, 2int),
{
}

} // verus!
