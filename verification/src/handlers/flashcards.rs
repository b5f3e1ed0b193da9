//! Flashcards: saving a card, generating cards with the AI model, reading
//! one, and adding the missing picture and audio links to a user's cards.

use vstd::prelude::*;
use crate::handlers::reply::{
    ErrorReply, session_user, session_user_of, header_view, unauthorized, error_reply,
    NOT_AUTHENTICATED,
};
use crate::ids::{parse_uuid, uuid_text, uuid_of_text, uuid_hyphenated};
use crate::nvidia::{Model, GeneratedFlashcard, model_named};
use crate::pollinations::{PollinationsClient, TTSClient, audio_url, setting, FREE_IMAGE_ENDPOINT};
use crate::rate_limit::{
    RateLimiter, ai_rate_key, decide, in_time_order, window_count, law_limiter_admits_at_most_limit,
    law_full_window_refuses,
};
use crate::text::{owned, concat2, concat3};
use crate::urlenc::url_encoded;

verus! {

/// The fields of a save request (`None` where absent or not text).
pub struct SaveRequest {
    pub word: Option<String>,
    pub definition: Option<String>,
    pub example_sentence: Option<String>,
    pub phonetic: Option<String>,
    pub part_of_speech: Option<String>,
    pub image_prompt: Option<String>,
    pub language: Option<String>,
}

/// A card ready to be stored, with its picture and audio links.
pub struct FlashcardDraft {
    pub word: String,
    pub definition: String,
    pub example_sentence: Option<String>,
    pub phonetic: Option<String>,
    pub part_of_speech: Option<String>,
    pub image_prompt: String,
    pub image_url: String,
    pub tts_url: String,
}

/// What `POST /api/flashcards/save` does.
pub enum SavePlan {
    Reject(ErrorReply),
    Insert { user_id: u128, draft: FlashcardDraft },
}

/// Message when the request body cannot be read.
pub const INVALID_BODY: &'static str = "Invalid body";

/// Prompt for a card's picture when the request gives none.
pub open spec fn default_image_prompt(word: Seq<char>) -> Seq<char> {
    "educational illustration for the word '"@ + word + "', clean simple modern style"@
}

/// Prompt for the picture of a card found without one.
pub open spec fn migration_image_prompt(word: Seq<char>, part_of_speech: Seq<char>) -> Seq<char> {
    "educational illustration for the word '"@ + word + "', "@ + part_of_speech
        + " context, clean simple modern style"@
}

/// Link of the free picture for a prompt.
pub open spec fn image_link(prompt: Seq<char>) -> Seq<char> {
    FREE_IMAGE_ENDPOINT@ + url_encoded(prompt)
}

/// The card a save request describes.
pub open spec fn draft_of(req: SaveRequest, d: FlashcardDraft) -> bool {
    let word = setting(req.word, ""@);
    let prompt = match req.image_prompt {
        Some(p) => p@,
        None => default_image_prompt(word),
    };
    &&& d.word@ == word
    &&& d.definition@ == setting(req.definition, ""@)
    &&& d.example_sentence == req.example_sentence
    &&& d.phonetic == req.phonetic
    &&& d.part_of_speech == req.part_of_speech
    &&& d.image_prompt@ == prompt
    &&& d.image_url@ == image_link(prompt)
    &&& d.tts_url@ == audio_url(setting(req.example_sentence, word), setting(req.language, "en"@))
}

fn text_or(v: &Option<String>, default: &str) -> (r: String)
    ensures
        r@ == setting(*v, default@),
{
    match v {
        Some(s) => owned(s.as_str()),
        None => owned(default),
    }
}

/// The card a save request describes: missing word and definition are
/// empty, the picture prompt defaults to an illustration of the word, the
/// audio reads the example sentence (or the word) in the requested
/// language (English by default).
pub fn draft_flashcard(images: &PollinationsClient, req: SaveRequest) -> (d: FlashcardDraft)
    ensures
        draft_of(req, d),
{
    let word = text_or(&req.word, "");
    let definition = text_or(&req.definition, "");
    let image_prompt = match &req.image_prompt {
        Some(p) => owned(p.as_str()),
        None => concat3(
            "educational illustration for the word '",
            word.as_str(),
            "', clean simple modern style",
        ),
    };
    let image_url = images.generate_image_url(image_prompt.as_str());
    let lang = text_or(&req.language, "en");
    let tts_url = match &req.example_sentence {
        Some(e) => TTSClient::generate_audio_url(e.as_str(), lang.as_str()),
        None => TTSClient::generate_audio_url(word.as_str(), lang.as_str()),
    };
    let SaveRequest { word: _, definition: _, example_sentence, phonetic, part_of_speech, image_prompt: _, language: _ } = req;
    FlashcardDraft {
        word,
        definition,
        example_sentence,
        phonetic,
        part_of_speech,
        image_prompt,
        image_url,
        tts_url,
    }
}

/// `POST /api/flashcards/save`: without a session 401; when the body cannot
/// be read (`None`) 400; otherwise the card to store for the user.
pub fn plan_save(images: &PollinationsClient, cookie_header: Option<&str>, body: Option<
    SaveRequest,
>) -> (p: SavePlan)
    ensures
        session_user_of(header_view(cookie_header)) is None ==> (p matches SavePlan::Reject(e)
            && e.status == 401 && e.message@ == NOT_AUTHENTICATED@),
        session_user_of(header_view(cookie_header)) is Some && body is None ==> (p matches SavePlan::Reject(
            e,
        ) && e.status == 400 && e.message@ == INVALID_BODY@),
        session_user_of(header_view(cookie_header)) is Some && body is Some ==> (p matches SavePlan::Insert {
            user_id,
            draft,
        } && Some(user_id) == session_user_of(header_view(cookie_header)) && draft_of(
            body->0,
            draft,
        )),
{
    let user_id = match session_user(cookie_header) {
        Some(u) => u,
        None => {
            return SavePlan::Reject(unauthorized());
        },
    };
    match body {
        None => SavePlan::Reject(error_reply(400, INVALID_BODY)),
        Some(req) => SavePlan::Insert { user_id, draft: draft_flashcard(images, req) },
    }
}

// ---------------------------------------------------------------------------
// Generation
// ---------------------------------------------------------------------------

/// Form fields of a generation request (`None` where absent or of another
/// type).
pub struct GenerateParams {
    pub topic: Option<String>,
    pub count: Option<u64>,
    pub language: Option<String>,
    pub difficulty: Option<String>,
    pub model: Option<String>,
}

/// A generation to run for a user.
pub struct GenerationJob {
    pub user_id: u128,
    pub topic: String,
    pub count: usize,
    pub language: String,
    pub difficulty: String,
    pub model: Model,
}

/// Message when a user asks too often.
pub const RATE_LIMITED: &'static str =
    "Rate limit exceeded. Please wait before generating more flashcards.";

/// Message when the model takes longer than three minutes.
pub const GENERATION_TIMED_OUT: &'static str =
    "AI generation timed out (3min). Try fewer words or a simpler topic.";

/// Seconds a generation may take.
pub const GENERATION_TIMEOUT_SECS: u64 = 180;

/// AI requests a user may make per window.
pub const AI_REQUESTS_PER_WINDOW: usize = 20;

/// The rate-limit window, in seconds: one hour.
pub const AI_WINDOW_SECS: u64 = 3600;

/// `POST /api/flashcards/generate`, first part: without a session 401;
/// otherwise the generation with defaults topic `general`, 10 words,
/// `English`, `intermediate`, model `minimax`.
pub fn plan_generation(cookie_header: Option<&str>, params: GenerateParams) -> (r: Result<
    GenerationJob,
    ErrorReply,
>)
    ensures
        session_user_of(header_view(cookie_header)) is None ==> (r matches Err(e) && e.status
            == 401 && e.message@ == NOT_AUTHENTICATED@),
        session_user_of(header_view(cookie_header)) is Some ==> (r matches Ok(j) && {
            &&& Some(j.user_id) == session_user_of(header_view(cookie_header))
            &&& j.topic@ == setting(params.topic, "general"@)
            &&& j.count == (match params.count {
                Some(c) => c as usize,
                None => 10usize,
            })
            &&& j.language@ == setting(params.language, "English"@)
            &&& j.difficulty@ == setting(params.difficulty, "intermediate"@)
            &&& j.model == model_named(setting(params.model, "minimax"@))
        }),
{
    let user_id = match session_user(cookie_header) {
        Some(u) => u,
        None => {
            return Err(unauthorized());
        },
    };
    let topic = text_or(&params.topic, "general");
    let count: u64 = match params.count {
        Some(c) => c,
        None => 10,
    };
    let language = text_or(&params.language, "English");
    let difficulty = text_or(&params.difficulty, "intermediate");
    let model_name = text_or(&params.model, "minimax");
    let model = Model::from_str(model_name.as_str());
    Ok(
        GenerationJob {
            user_id,
            topic,
            count: count as usize,
            language,
            difficulty,
            model,
        },
    )
}

/// The limiter of AI generation requests: 20 per user per hour, empty.
pub fn generation_limiter() -> (r: RateLimiter)
    ensures
        r.wf(),
        r.limit() == AI_REQUESTS_PER_WINDOW,
        r.window() == AI_WINDOW_SECS,
        forall|k: Seq<char>| r.history(k) == Seq::<u64>::empty(),
        forall|k: Seq<char>| r.requests(k) == Seq::<u64>::empty(),
        forall|k: Seq<char>| r.granted(k) == Seq::<u64>::empty(),
{
    RateLimiter::new(AI_REQUESTS_PER_WINDOW, AI_WINDOW_SECS)
}

/// The limiter key of a user's AI requests: `ai:<user id>`.
pub open spec fn generation_key(user_id: u128) -> Seq<char> {
    "ai:"@ + uuid_hyphenated(user_id)
}

/// The rate-limit decision for a generation at time `now`: at most 20 AI
/// requests per user per hour, counted by the generation limiter; 429
/// otherwise.
pub fn admit_generation(limiter: &mut RateLimiter, job: &GenerationJob, now: u64) -> (r: Result<
    (),
    ErrorReply,
>)
    requires
        old(limiter).wf(),
        old(limiter).limit() == AI_REQUESTS_PER_WINDOW,
        old(limiter).window() == AI_WINDOW_SECS,
    ensures
        ({
            let key = generation_key(job.user_id);
            let (ok, kept) = decide(
                old(limiter).history(key),
                now,
                old(limiter).limit(),
                old(limiter).window(),
            );
            &&& final(limiter).wf()
            &&& final(limiter).history(key) == kept
            &&& final(limiter).requests(key) == old(limiter).requests(key).push(now)
            &&& final(limiter).granted(key) == if ok {
                old(limiter).granted(key).push(now)
            } else {
                old(limiter).granted(key)
            }
            &&& forall|k: Seq<char>| k != key ==> final(limiter).history(k) == old(
                limiter,
            ).history(k)
            &&& forall|k: Seq<char>| k != key ==> final(limiter).requests(k) == old(
                limiter,
            ).requests(k)
            &&& forall|k: Seq<char>| k != key ==> final(limiter).granted(k) == old(
                limiter,
            ).granted(k)
            &&& final(limiter).limit() == old(limiter).limit()
            &&& final(limiter).window() == old(limiter).window()
            &&& ok ==> r is Ok
            &&& !ok ==> (r matches Err(e) && e.status == 429 && e.message@ == RATE_LIMITED@)
        }),
{
    let id = uuid_text(job.user_id);
    let key = ai_rate_key(id.as_str());
    if limiter.is_allowed(key.as_str(), now) {
        Ok(())
    } else {
        Err(error_reply(429, RATE_LIMITED))
    }
}

/// The generation limit: with the generation limiter, a user whose
/// requests came in time order never has more than 20 generations admitted
/// within an hour; and once 20 were admitted in the hour up to `now`, a
/// request at `now` is answered 429.
pub proof fn law_generation_limit(limiter: RateLimiter, user_id: u128, end: u64, now: u64)
    requires
        limiter.wf(),
        limiter.limit() == AI_REQUESTS_PER_WINDOW,
        limiter.window() == AI_WINDOW_SECS,
        in_time_order(limiter.requests(generation_key(user_id))),
    ensures
        window_count(limiter.granted(generation_key(user_id)), end, AI_WINDOW_SECS) <= 20,
        (forall|i: int|
            0 <= i < limiter.requests(generation_key(user_id)).len() ==> #[trigger] limiter.requests(
                generation_key(user_id),
            )[i] <= now) && window_count(
            limiter.granted(generation_key(user_id)),
            now,
            AI_WINDOW_SECS,
        ) >= 20 ==> !decide(
            limiter.history(generation_key(user_id)),
            now,
            AI_REQUESTS_PER_WINDOW as nat,
            AI_WINDOW_SECS,
        ).0,
{
    let key = generation_key(user_id);
    law_limiter_admits_at_most_limit(limiter, key, end);
    if (forall|i: int| 0 <= i < limiter.requests(key).len() ==> #[trigger] limiter.requests(key)[i]
        <= now) && window_count(limiter.granted(key), now, AI_WINDOW_SECS) >= 20 {
        law_full_window_refuses(limiter, key, now);
    }
}

/// How a generation ended.
pub enum GenerationOutcome {
    Generated(Vec<GeneratedFlashcard>),
    Failed(String),
    TimedOut,
}

/// The answer to a generation: the cards, or 500 with the error, or 504
/// when the model took too long.
pub fn generation_reply(outcome: GenerationOutcome) -> (r: Result<
    Vec<GeneratedFlashcard>,
    ErrorReply,
>)
    ensures
        match outcome {
            GenerationOutcome::Generated(c) => r == Ok::<Vec<GeneratedFlashcard>, ErrorReply>(c),
            GenerationOutcome::Failed(m) => r matches Err(e) && e.status == 500 && e.message == m,
            GenerationOutcome::TimedOut => r matches Err(e) && e.status == 504 && e.message@
                == GENERATION_TIMED_OUT@,
        },
{
    match outcome {
        GenerationOutcome::Generated(c) => Ok(c),
        GenerationOutcome::Failed(m) => Err(ErrorReply { status: 500, message: m }),
        GenerationOutcome::TimedOut => Err(error_reply(504, GENERATION_TIMED_OUT)),
    }
}

// ---------------------------------------------------------------------------
// Reading one card, study mode
// ---------------------------------------------------------------------------

/// Message for a malformed card id.
pub const INVALID_CARD_ID: &'static str = "Invalid card ID";

/// Message when no card has the id.
pub const CARD_NOT_FOUND: &'static str = "Flashcard not found";

/// The card id of `GET /flashcards/{id}`, or 400 (among others for every
/// text not 32, 36, 38 or 45 bytes long).
pub fn parse_card_id(id: &str) -> (r: Result<u128, ErrorReply>)
    ensures
        match uuid_of_text(id@) {
            Some(u) => r == Ok::<u128, ErrorReply>(u),
            None => r matches Err(e) && e.status == 400 && e.message@ == INVALID_CARD_ID@,
        },
{
    match parse_uuid(id) {
        Some(u) => Ok(u),
        None => Err(error_reply(400, INVALID_CARD_ID)),
    }
}

/// Text of the study page for a card.
pub fn study(id: &str) -> (t: String)
    ensures
        t@ == "Study mode for flashcard: "@ + id@,
{
    concat2("Study mode for flashcard: ", id)
}

// ---------------------------------------------------------------------------
// Migration
// ---------------------------------------------------------------------------

/// A stored card missing its picture or audio link.
pub struct CardRow {
    pub id: u128,
    pub word: String,
    pub example_sentence: Option<String>,
    pub part_of_speech: Option<String>,
    pub image_url: Option<String>,
    pub tts_url: Option<String>,
}

/// The links to store for one card (`None`: leave as it is).
pub struct CardUpdate {
    pub id: u128,
    pub image_url: Option<String>,
    pub tts_url: Option<String>,
}

/// What the migration stores, and its counts.
pub struct MigrationPlan {
    pub updates: Vec<CardUpdate>,
    pub total: usize,
    pub images_added: usize,
    pub tts_added: usize,
}

/// The update a card needs: a picture of the word in its part of speech
/// (`word` when unknown) if it has none, English audio of its example
/// sentence (or word) if it has none.
pub open spec fn update_for(row: CardRow, u: CardUpdate) -> bool {
    &&& u.id == row.id
    &&& match row.image_url {
        None => u.image_url matches Some(l) && l@ == image_link(
            migration_image_prompt(row.word@, setting(row.part_of_speech, "word"@)),
        ),
        Some(_) => u.image_url is None,
    }
    &&& match row.tts_url {
        None => u.tts_url matches Some(l) && l@ == audio_url(
            setting(row.example_sentence, row.word@),
            "en"@,
        ),
        Some(_) => u.tts_url is None,
    }
}

/// Number of cards without a picture.
pub open spec fn missing_images(rows: Seq<CardRow>) -> nat
    decreases rows.len(),
{
    if rows.len() == 0 {
        0
    } else {
        missing_images(rows.drop_last()) + if rows.last().image_url is None {
            1nat
        } else {
            0nat
        }
    }
}

/// Number of cards without audio.
pub open spec fn missing_audio(rows: Seq<CardRow>) -> nat
    decreases rows.len(),
{
    if rows.len() == 0 {
        0
    } else {
        missing_audio(rows.drop_last()) + if rows.last().tts_url is None {
            1nat
        } else {
            0nat
        }
    }
}

proof fn lemma_missing_bounds(rows: Seq<CardRow>)
    ensures
        missing_images(rows) <= rows.len(),
        missing_audio(rows) <= rows.len(),
    decreases rows.len(),
{
    if rows.len() > 0 {
        lemma_missing_bounds(rows.drop_last());
    }
}

/// After the migration every card has a picture link and an audio link:
/// each one it lacked is supplied by its update.
pub proof fn law_migration_completes_cards(row: CardRow, u: CardUpdate)
    requires
        update_for(row, u),
    ensures
        row.image_url is Some || u.image_url is Some,
        row.tts_url is Some || u.tts_url is Some,
        row.image_url is Some ==> u.image_url is None,
        row.tts_url is Some ==> u.tts_url is None,
{
}

/// A card with both a picture link and an audio link.
pub open spec fn is_complete(row: CardRow) -> bool {
    row.image_url is Some && row.tts_url is Some
}

/// A card once its update is stored: each link of the update replaces the
/// card's, a missing one leaves it as it is.
pub open spec fn applied(row: CardRow, u: CardUpdate) -> CardRow {
    CardRow {
        id: row.id,
        word: row.word,
        example_sentence: row.example_sentence,
        part_of_speech: row.part_of_speech,
        image_url: if u.image_url is Some {
            u.image_url
        } else {
            row.image_url
        },
        tts_url: if u.tts_url is Some {
            u.tts_url
        } else {
            row.tts_url
        },
    }
}

proof fn lemma_complete_rows_missing_none(rows: Seq<CardRow>)
    requires
        forall|i: int| 0 <= i < rows.len() ==> is_complete(#[trigger] rows[i]),
    ensures
        missing_images(rows) == 0,
        missing_audio(rows) == 0,
    decreases rows.len(),
{
    if rows.len() > 0 {
        let d = rows.drop_last();
        assert forall|i: int| 0 <= i < d.len() implies is_complete(#[trigger] d[i]) by {
            assert(d[i] == rows[i]);
        }
        lemma_complete_rows_missing_none(d);
        assert(is_complete(rows[rows.len() - 1]));
    }
}

/// A second migration finds nothing to do: once the updates of a migration
/// are stored, every card is complete, so none is missing a link, and for
/// such cards every update the migration may plan stores nothing.
pub proof fn law_second_migration_idle(rows: Seq<CardRow>, updates: Seq<CardUpdate>)
    requires
        updates.len() == rows.len(),
        forall|i: int| 0 <= i < rows.len() ==> update_for(rows[i], #[trigger] updates[i]),
    ensures
        ({
            let after = Seq::new(rows.len(), |i: int| applied(rows[i], updates[i]));
            &&& forall|i: int| 0 <= i < after.len() ==> is_complete(#[trigger] after[i])
            &&& missing_images(after) == 0
            &&& missing_audio(after) == 0
            &&& forall|i: int, u: CardUpdate|
                0 <= i < after.len() && #[trigger] update_for(after[i], u) ==> u.image_url is None
                    && u.tts_url is None
        }),
{
    let after = Seq::new(rows.len(), |i: int| applied(rows[i], updates[i]));
    assert forall|i: int| 0 <= i < after.len() implies is_complete(#[trigger] after[i]) by {
        assert(update_for(rows[i], updates[i]));
    }
    lemma_complete_rows_missing_none(after);
}

/// The links to add to a user's cards, card by card, with the numbers of
/// pictures and audio links added.
pub fn plan_migration(images: &PollinationsClient, rows: &Vec<CardRow>) -> (p: MigrationPlan)
    ensures
        p.updates@.len() == rows@.len(),
        forall|i: int| 0 <= i < rows@.len() ==> update_for(rows@[i], #[trigger] p.updates@[i]),
        p.total == rows@.len(),
        p.images_added == missing_images(rows@),
        p.tts_added == missing_audio(rows@),
{
    let mut updates: Vec<CardUpdate> = Vec::new();
    let mut images_added: usize = 0;
    let mut tts_added: usize = 0;
    let mut i: usize = 0;
    while i < rows.len()
        invariant
            i <= rows@.len(),
            updates@.len() == i,
            forall|j: int| 0 <= j < i ==> update_for(rows@[j], #[trigger] updates@[j]),
            images_added == missing_images(rows@.take(i as int)),
            tts_added == missing_audio(rows@.take(i as int)),
        decreases rows.len() - i,
    {
        let row = &rows[i];
        proof {
            assert(rows@.take(i + 1).drop_last() =~= rows@.take(i as int));
            lemma_missing_bounds(rows@.take(i as int));
        }
        let image_url = match &row.image_url {
            None => {
                let pos = text_or(&row.part_of_speech, "word");
                let mut prompt = owned("educational illustration for the word '");
                prompt.append(row.word.as_str());
                prompt.append("', ");
                prompt.append(pos.as_str());
                prompt.append(" context, clean simple modern style");
                images_added = images_added + 1;
                Some(images.generate_image_url(prompt.as_str()))
            },
            Some(_) => None,
        };
        let tts_url = match &row.tts_url {
            None => {
                tts_added = tts_added + 1;
                match &row.example_sentence {
                    Some(e) => Some(TTSClient::generate_audio_url(e.as_str(), "en")),
                    None => Some(TTSClient::generate_audio_url(row.word.as_str(), "en")),
                }
            },
            Some(_) => None,
        };
        updates.push(CardUpdate { id: row.id, image_url, tts_url });
        i = i + 1;
    }
    assert(rows@.take(rows@.len() as int) =~= rows@);
    MigrationPlan { updates, total: rows.len(), images_added, tts_added }
}


/// A save request's own picture prompt is kept as it is, whatever the word,
/// and the picture link is the free endpoint followed by that prompt
/// encoded; only a request without a prompt gets the illustration of the
/// word.
pub proof fn law_save_keeps_given_prompt(req: SaveRequest, d: FlashcardDraft)
    requires
        draft_of(req, d),
    ensures
        req.image_prompt matches Some(p) ==> d.image_prompt@ == p@ && d.image_url@
            == FREE_IMAGE_ENDPOINT@ + url_encoded(p@),
        req.image_prompt is None ==> d.image_prompt@ == "educational illustration for the word '"@
            + d.word@ + "', clean simple modern style"@,
        d.image_url@ == FREE_IMAGE_ENDPOINT@ + url_encoded(d.image_prompt@),
{
}

/// The audio added to a card without audio reads its example sentence, or
/// its word when it has none, in English, whether or not the card already
/// has a picture; a card with audio keeps it. The picture added to a card
/// without one is the free picture of an illustration of its word in its
/// part of speech (`word` when unknown), whether or not it has audio.
pub proof fn law_migration_audio_reads_example(row: CardRow, u: CardUpdate)
    requires
        update_for(row, u),
    ensures
        row.tts_url is None ==> (u.tts_url matches Some(l) && l@ == audio_url(
            match row.example_sentence {
                Some(e) => e@,
                None => row.word@,
            },
            "en"@,
        )),
        row.tts_url is Some ==> u.tts_url is None,
        row.image_url is None ==> (u.image_url matches Some(l) && l@ == FREE_IMAGE_ENDPOINT@
            + url_encoded(
            "educational illustration for the word '"@ + row.word@ + "', "@ + match row.part_of_speech {
                Some(p) => p@,
                None => "word"@,
            } + " context, clean simple modern style"@,
        )),
        row.image_url is Some ==> u.image_url is None,
        u.id == row.id,
{
}

} // verus!
