//! Static pages, the statistics summary, and the text-to-speech proxy.

use vstd::prelude::*;
use crate::handlers::reply::{ErrorReply, error_reply};
use crate::pollinations::{TTSClient, audio_url};
use crate::text::{owned, concat3};

verus! {

/// File of a page: `public/<page>.html`.
pub fn html_path(page: &str) -> (p: String)
    ensures
        p@ == "public/"@ + page@ + ".html"@,
{
    concat3("public/", page, ".html")
}

/// Counts read for the statistics page, with the streaks stored for the
/// user (`None` where the query failed or nothing is stored).
pub struct StatsCounts {
    pub total_cards: Option<i32>,
    pub total_reviews: Option<i32>,
    pub mastered_words: Option<i32>,
    pub due_count: Option<i32>,
    pub current_streak: Option<i32>,
    pub longest_streak: Option<i32>,
}

/// The statistics summary.
pub struct StatsReport {
    pub total_cards: i32,
    pub total_reviews: i32,
    pub mastered_words: i32,
    pub current_streak: i32,
    pub longest_streak: i32,
    pub due_count: i32,
}

/// A count, zero when it could not be read.
pub open spec fn count_or_zero(c: Option<i32>) -> i32 {
    match c {
        Some(n) => n,
        None => 0,
    }
}

/// `GET /stats`: the counts and the streaks read for the signed-in user,
/// zero where a query failed or nothing is stored; all zeros when there is
/// no session or no database connection (`None`).
pub fn stats(counts: Option<StatsCounts>) -> (r: StatsReport)
    ensures
        match counts {
            None => r.total_cards == 0 && r.total_reviews == 0 && r.mastered_words == 0
                && r.due_count == 0 && r.current_streak == 0 && r.longest_streak == 0,
            Some(c) => {
                &&& r.total_cards == count_or_zero(c.total_cards)
                &&& r.total_reviews == count_or_zero(c.total_reviews)
                &&& r.mastered_words == count_or_zero(c.mastered_words)
                &&& r.due_count == count_or_zero(c.due_count)
                &&& r.current_streak == count_or_zero(c.current_streak)
                &&& r.longest_streak == count_or_zero(c.longest_streak)
            },
        },
{
    match counts {
        None => StatsReport {
            total_cards: 0,
            total_reviews: 0,
            mastered_words: 0,
            current_streak: 0,
            longest_streak: 0,
            due_count: 0,
        },
        Some(c) => StatsReport {
            total_cards: zero_if_none(c.total_cards),
            total_reviews: zero_if_none(c.total_reviews),
            mastered_words: zero_if_none(c.mastered_words),
            current_streak: zero_if_none(c.current_streak),
            longest_streak: zero_if_none(c.longest_streak),
            due_count: zero_if_none(c.due_count),
        },
    }
}

fn zero_if_none(c: Option<i32>) -> (n: i32)
    ensures
        n == count_or_zero(c),
{
    match c {
        Some(n) => n,
        None => 0,
    }
}

/// Query of `GET /api/tts`.
pub struct TTSParams {
    pub text: String,
    pub lang: String,
}

/// Language used when the query names none.
pub fn default_lang() -> (l: String)
    ensures
        l@ == "en"@,
{
    owned("en")
}

/// Message when the text is missing.
pub const TEXT_REQUIRED: &'static str = "text parameter required";

/// Message when the speech service cannot be reached.
pub const TTS_UNAVAILABLE: &'static str = "TTS service unavailable";

/// `GET /api/tts`: the speech link to fetch, or 400 for an empty text.
pub fn tts_proxy_target(params: &TTSParams) -> (r: Result<String, ErrorReply>)
    ensures
        params.text@.len() == 0 ==> (r matches Err(e) && e.status == 400 && e.message@
            == TEXT_REQUIRED@),
        params.text@.len() > 0 ==> (r matches Ok(u) && u@ == audio_url(params.text@, params.lang@)),
{
    if params.text.as_str().is_empty() {
        Err(error_reply(400, TEXT_REQUIRED))
    } else {
        Ok(TTSClient::generate_audio_url(params.text.as_str(), params.lang.as_str()))
    }
}

/// Answer when the speech service fails: 502.
pub fn tts_unavailable() -> (e: ErrorReply)
    ensures
        e.status == 502,
        e.message@ == TTS_UNAVAILABLE@,
{
    error_reply(502, TTS_UNAVAILABLE)
}

} // verus!
