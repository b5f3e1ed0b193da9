//! Review sessions: grading an answer and rescheduling the card.

use vstd::prelude::*;
use crate::handlers::reply::{
    ErrorReply, session_user, session_user_of, header_view, unauthorized, error_reply,
    NOT_AUTHENTICATED,
};
use crate::ids::{parse_uuid, uuid_of_text};
use crate::srs::clamp_quality;

verus! {

/// An answer to a review card.
pub struct ReviewAnswer {
    pub flashcard_id: String,
    pub quality: i32,
    pub response_time_ms: Option<i32>,
}

/// A graded answer to record for a user.
pub struct AnswerJob {
    pub user_id: u128,
    pub flashcard_id: u128,
    pub quality: i32,
}

/// Schedule fields of a card.
pub struct CardSchedule {
    pub interval_days: i32,
    pub repetitions: i32,
    pub leitner_box: i32,
}

/// Message for a malformed card id in an answer.
pub const INVALID_FLASHCARD_ID: &'static str = "Invalid flashcard_id";

/// `POST` of an answer, first part: without a session 401, with a
/// malformed card id 400, otherwise the answer with its quality clamped to
/// 0..=5.
pub fn plan_answer(cookie_header: Option<&str>, answer: &ReviewAnswer) -> (r: Result<
    AnswerJob,
    ErrorReply,
>)
    ensures
        session_user_of(header_view(cookie_header)) is None ==> (r matches Err(e) && e.status
            == 401 && e.message@ == NOT_AUTHENTICATED@),
        session_user_of(header_view(cookie_header)) is Some && uuid_of_text(
            answer.flashcard_id@,
        ) is None ==> (r matches Err(e) && e.status == 400 && e.message@ == INVALID_FLASHCARD_ID@),
        session_user_of(header_view(cookie_header)) is Some && uuid_of_text(
            answer.flashcard_id@,
        ) is Some ==> (r matches Ok(j) && {
            &&& Some(j.user_id) == session_user_of(header_view(cookie_header))
            &&& Some(j.flashcard_id) == uuid_of_text(answer.flashcard_id@)
            &&& j.quality == (if answer.quality < 0 {
                0
            } else if answer.quality > 5 {
                5
            } else {
                answer.quality
            })
        }),
{
    let user_id = match session_user(cookie_header) {
        Some(u) => u,
        None => {
            return Err(unauthorized());
        },
    };
    let flashcard_id = match parse_uuid(answer.flashcard_id.as_str()) {
        Some(id) => id,
        None => {
            return Err(error_reply(400, INVALID_FLASHCARD_ID));
        },
    };
    Ok(AnswerJob { user_id, flashcard_id, quality: clamp_quality(answer.quality) })
}

/// Schedule of a card never reviewed: no interval, no repetitions, box 1.
pub fn new_card_schedule() -> (s: CardSchedule)
    ensures
        s.interval_days == 0,
        s.repetitions == 0,
        s.leitner_box == 1,
{
    CardSchedule { interval_days: 0, repetitions: 0, leitner_box: 1 }
}


/// A user's review streaks, in days with at least one review: the run that
/// ends with the latest review, and the longest run so far.
pub struct Streaks {
    pub current_streak: i32,
    pub longest_streak: i32,
}

/// The current streak after a review on day `today`, given the day of the
/// previous review (days are numbered consecutively): unchanged on the same
/// day, one longer on the next day, otherwise a new streak of one.
pub open spec fn next_streak(last_review_day: Option<i64>, today: i64, current_streak: i32) -> int {
    match last_review_day {
        None => 1,
        Some(d) => if d == today {
            current_streak as int
        } else if d + 1 == today {
            current_streak + 1
        } else {
            1
        },
    }
}

/// The longest streak after a review on day `today`.
pub open spec fn next_longest_streak(
    last_review_day: Option<i64>,
    today: i64,
    current_streak: i32,
    longest_streak: i32,
) -> int {
    let c = next_streak(last_review_day, today, current_streak);
    if longest_streak >= c {
        longest_streak as int
    } else {
        c
    }
}

/// Streaks after a review on day `today`, from the day of the previous
/// review (`None` before the first one) and the stored streaks.
pub fn update_streak(
    last_review_day: Option<i64>,
    today: i64,
    current_streak: i32,
    longest_streak: i32,
) -> (r: Streaks)
    requires
        last_review_day matches Some(d) && d + 1 == today ==> current_streak < i32::MAX,
    ensures
        r.current_streak == next_streak(last_review_day, today, current_streak),
        r.longest_streak == next_longest_streak(
            last_review_day,
            today,
            current_streak,
            longest_streak,
        ),
{
    let current: i32 = match last_review_day {
        None => 1,
        Some(d) => if d == today {
            current_streak
        } else if d < today && d == today - 1 {
            current_streak + 1
        } else {
            1
        },
    };
    let longest: i32 = if longest_streak >= current {
        longest_streak
    } else {
        current
    };
    Streaks { current_streak: current, longest_streak: longest }
}

// ---------------------------------------------------------------------------
// Laws
// ---------------------------------------------------------------------------

/// Reviewing again on the same day leaves the streaks as they are (given
/// the longest is at least the current, as `update_streak` keeps it).
pub proof fn law_streak_same_day(day: i64, current_streak: i32, longest_streak: i32)
    requires
        longest_streak >= current_streak,
    ensures
        next_streak(Some(day), day, current_streak) == current_streak,
        next_longest_streak(Some(day), day, current_streak, longest_streak) == longest_streak,
{
}

/// A review on the day after the previous one extends the streak by one.
pub proof fn law_streak_next_day(day: i64, current_streak: i32)
    requires
        day < i64::MAX,
    ensures
        next_streak(Some(day), (day + 1) as i64, current_streak) == current_streak + 1,
{
}

/// A review after a day without reviews (or before any earlier review)
/// starts a new streak of one day; so does the first review.
pub proof fn law_streak_gap_restarts(last_review_day: i64, today: i64, current_streak: i32)
    requires
        last_review_day != today,
        last_review_day + 1 != today,
    ensures
        next_streak(Some(last_review_day), today, current_streak) == 1,
        next_streak(None, today, current_streak) == 1,
{
}

/// The longest streak never falls below the current one nor below its
/// previous value.
pub proof fn law_longest_streak_bounds(
    last_review_day: Option<i64>,
    today: i64,
    current_streak: i32,
    longest_streak: i32,
)
    ensures
        next_longest_streak(last_review_day, today, current_streak, longest_streak) >= next_streak(
            last_review_day,
            today,
            current_streak,
        ),
        next_longest_streak(last_review_day, today, current_streak, longest_streak)
            >= longest_streak,
{
}


/// The longest streak after a review is the larger of the previous longest
/// streak and the new current one: at least each of them, and equal to one
/// of them. In particular it does not change while the current streak stays
/// at or below it.
pub proof fn law_longest_streak_is_maximum(
    last_review_day: Option<i64>,
    today: i64,
    current_streak: i32,
    longest_streak: i32,
)
    ensures
        ({
            let c = next_streak(last_review_day, today, current_streak);
            let l = next_longest_streak(last_review_day, today, current_streak, longest_streak);
            &&& l >= longest_streak
            &&& l >= c
            &&& (l == longest_streak || l == c)
            &&& c <= longest_streak ==> l == longest_streak
        }),
{
}

} // verus!
