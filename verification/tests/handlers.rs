use vocai::handlers::auth::{
    callback_step, login, login_html, logout, popup_close_html, CallbackAction, CallbackEvent,
    CallbackState, LoginPage, AUTHORIZE_URL,
};
use vocai::handlers::flashcards::{
    admit_generation, generation_limiter, generation_reply, parse_card_id, plan_generation, plan_migration,
    plan_save, study, CardRow, GenerateParams, GenerationOutcome, SavePlan, SaveRequest,
};
use vocai::handlers::islands::{create, view, IslandParams};
use vocai::handlers::pages::{default_lang, html_path, stats, tts_proxy_target, tts_unavailable, StatsCounts, TTSParams};
use vocai::handlers::review::{new_card_schedule, plan_answer, update_streak, ReviewAnswer};
use vocai::nvidia::Model;
use vocai::pollinations::{PollinationsClient, PollinationsEnv};
use vocai::session::get_session;

const ID: u128 = 0xa1a2a3a4b1b2c1c2d1d2d3d4d5d6d7d8;
const COOKIE: &str = "vocai_session=a1a2a3a4-b1b2-c1c2-d1d2-d3d4d5d6d7d8:tok";

fn images() -> PollinationsClient {
    PollinationsClient::new(PollinationsEnv {
        api_key: None,
        api_base: None,
        image_model: None,
        image_size: None,
        image_quality: None,
        referrer: None,
        site_url: None,
    })
}

fn save_request(word: Option<&str>) -> SaveRequest {
    SaveRequest {
        word: word.map(String::from),
        definition: Some("a definition".into()),
        example_sentence: None,
        phonetic: None,
        part_of_speech: Some("noun".into()),
        image_prompt: None,
        language: None,
    }
}

#[test]
fn login_page_is_served_verbatim() {
    let h = login_html();
    assert!(h.starts_with("<!DOCTYPE html>\n<html lang=\"en\">"));
    assert!(h.contains(":root {{ --bg: #050505;"));
    assert!(h.contains("href=\"https://db.w9.nu/oauth/authorize?redirect_uri=https://vocai.top/auth/callback&response_type=code&client_id=vocai\""));
}

#[test]
fn popup_page_quotes_the_target() {
    let h = popup_close_html("/dashboard");
    assert!(h.contains("const target = \"/dashboard\"; if (window.opener"));
    assert!(h.ends_with("<p>Signing you in\u{2026}</p></body></html>"));
    let h = popup_close_html("a\"b");
    assert!(h.contains("const target = \"a\\\"b\";"));
}

#[test]
fn login_redirects_signed_in_users() {
    assert!(matches!(login(Some(COOKIE)), LoginPage::Dashboard));
    match login(None) {
        LoginPage::Form(h) => assert_eq!(h, login_html()),
        LoginPage::Dashboard => panic!(),
    }
    assert!(matches!(login(Some("vocai_session=bad")), LoginPage::Form(_)));
}

#[test]
fn logout_clears_the_cookie_and_goes_home() {
    let r = logout();
    assert_eq!(r.location, "/");
    assert_eq!(r.set_cookie, "vocai_session=; HttpOnly; SameSite=Lax; Secure; Path=/; Max-Age=0");
}

#[test]
fn callback_full_sign_in() {
    let (s, a) = callback_step(CallbackState::Start, CallbackEvent::Received { code: "C0DE".into() });
    match a {
        CallbackAction::ExchangeCode { url, form } => {
            assert_eq!(url, "https://db.w9.nu/oauth/token");
            assert_eq!(
                form,
                vec![
                    ("grant_type".to_string(), "authorization_code".to_string()),
                    ("code".to_string(), "C0DE".to_string()),
                    ("redirect_uri".to_string(), "https://vocai.top/auth/callback".to_string()),
                ]
            );
        }
        _ => panic!(),
    }
    let (s, a) = callback_step(s, CallbackEvent::TokenExchanged { access_token: Some("T0K".into()) });
    match a {
        CallbackAction::FetchUser { url, authorization } => {
            assert_eq!(url, "https://db.w9.nu/api/auth/me");
            assert_eq!(authorization, "Bearer T0K");
        }
        _ => panic!(),
    }
    let (s, a) = callback_step(s, CallbackEvent::UserFetched { profile: Some(None) });
    match a {
        CallbackAction::StoreUser { email } => assert_eq!(email, "unknown@vocai.top"),
        _ => panic!(),
    }
    let (s, a) = callback_step(s, CallbackEvent::UserStored { user_id: Some(ID) });
    match a {
        CallbackAction::SignIn { page, set_cookie } => {
            assert_eq!(page, popup_close_html("/dashboard"));
            assert_eq!(
                set_cookie,
                "vocai_session=a1a2a3a4-b1b2-c1c2-d1d2-d3d4d5d6d7d8:T0K; HttpOnly; SameSite=Lax; Secure; Path=/; Max-Age=604800"
            );
            let sent_back = set_cookie.split(';').next().unwrap().to_string();
            assert_eq!(get_session(Some(&sent_back)), Some((ID, "T0K".to_string())));
        }
        _ => panic!(),
    }
    assert!(matches!(s, CallbackState::Done));
}

#[test]
fn callback_failures_reauthorize() {
    let (s, _) = callback_step(CallbackState::Start, CallbackEvent::Received { code: "c".into() });
    let (s2, a) = callback_step(s, CallbackEvent::TokenExchanged { access_token: None });
    assert!(matches!(s2, CallbackState::Done));
    match a {
        CallbackAction::Reauthorize { location } => assert_eq!(location, AUTHORIZE_URL),
        _ => panic!(),
    }
    let (_, a) = callback_step(
        CallbackState::AwaitingUser { token: "t".into() },
        CallbackEvent::UserFetched { profile: None },
    );
    assert!(matches!(a, CallbackAction::Reauthorize { .. }));
    let (_, a) = callback_step(
        CallbackState::AwaitingStore { token: "t".into() },
        CallbackEvent::UserStored { user_id: None },
    );
    assert!(matches!(a, CallbackAction::Reauthorize { .. }));
    let (_, a) = callback_step(CallbackState::Done, CallbackEvent::Received { code: "c".into() });
    assert!(matches!(a, CallbackAction::Reauthorize { .. }));
}

#[test]
fn callback_keeps_the_profile_email() {
    let (_, a) = callback_step(
        CallbackState::AwaitingUser { token: "t".into() },
        CallbackEvent::UserFetched { profile: Some(Some("ann@example.org".into())) },
    );
    match a {
        CallbackAction::StoreUser { email } => assert_eq!(email, "ann@example.org"),
        _ => panic!(),
    }
}

#[test]
fn save_requires_a_session_and_a_body() {
    match plan_save(&images(), None, Some(save_request(Some("apple")))) {
        SavePlan::Reject(e) => {
            assert_eq!(e.status, 401);
            assert_eq!(e.message, "Not authenticated");
        }
        _ => panic!(),
    }
    match plan_save(&images(), Some(COOKIE), None) {
        SavePlan::Reject(e) => {
            assert_eq!(e.status, 400);
            assert_eq!(e.message, "Invalid body");
        }
        _ => panic!(),
    }
}

#[test]
fn save_builds_the_card_with_default_links() {
    match plan_save(&images(), Some(COOKIE), Some(save_request(Some("apple pie")))) {
        SavePlan::Insert { user_id, draft } => {
            assert_eq!(user_id, ID);
            assert_eq!(draft.word, "apple pie");
            assert_eq!(draft.definition, "a definition");
            assert_eq!(draft.image_prompt, "educational illustration for the word 'apple pie', clean simple modern style");
            assert_eq!(
                draft.image_url,
                "https://image.pollinations.ai/prompt/educational%20illustration%20for%20the%20word%20%27apple%20pie%27%2C%20clean%20simple%20modern%20style"
            );
            assert_eq!(
                draft.tts_url,
                "https://translate.google.com/translate_tts?ie=UTF-8&tl=en&client=tw-ob&q=apple%20pie"
            );
            assert_eq!(draft.part_of_speech.as_deref(), Some("noun"));
        }
        _ => panic!(),
    }
}

#[test]
fn save_uses_given_prompt_example_and_language() {
    let mut r = save_request(None);
    r.image_prompt = Some("sun".into());
    r.example_sentence = Some("Hola amigo".into());
    r.language = Some("es".into());
    match plan_save(&images(), Some(COOKIE), Some(r)) {
        SavePlan::Insert { draft, .. } => {
            assert_eq!(draft.word, "");
            assert_eq!(draft.image_url, "https://image.pollinations.ai/prompt/sun");
            assert_eq!(
                draft.tts_url,
                "https://translate.google.com/translate_tts?ie=UTF-8&tl=es&client=tw-ob&q=Hola%20amigo"
            );
            assert_eq!(draft.example_sentence.as_deref(), Some("Hola amigo"));
        }
        _ => panic!(),
    }
}

fn no_params() -> GenerateParams {
    GenerateParams { topic: None, count: None, language: None, difficulty: None, model: None }
}

#[test]
fn generation_defaults() {
    assert!(matches!(plan_generation(None, no_params()), Err(e) if e.status == 401));
    let j = match plan_generation(Some(COOKIE), no_params()) {
        Ok(j) => j,
        Err(_) => panic!(),
    };
    assert_eq!(j.user_id, ID);
    assert_eq!(j.topic, "general");
    assert_eq!(j.count, 10);
    assert_eq!(j.language, "English");
    assert_eq!(j.difficulty, "intermediate");
    assert_eq!(j.model, Model::MiniMaxM27);
}

#[test]
fn generation_parameters() {
    let p = GenerateParams {
        topic: Some("travel".into()),
        count: Some(5),
        language: Some("French".into()),
        difficulty: Some("advanced".into()),
        model: Some("glm4.7".into()),
    };
    let j = match plan_generation(Some(COOKIE), p) {
        Ok(j) => j,
        Err(_) => panic!(),
    };
    assert_eq!((j.topic.as_str(), j.count, j.language.as_str(), j.difficulty.as_str()), ("travel", 5, "French", "advanced"));
    assert_eq!(j.model, Model::GLM4_7);
}

#[test]
fn generation_rate_limit_is_twenty_per_hour() {
    let mut l = generation_limiter();
    let j = match plan_generation(Some(COOKIE), no_params()) {
        Ok(j) => j,
        Err(_) => panic!(),
    };
    for i in 0..20u64 {
        assert!(admit_generation(&mut l, &j, i).is_ok());
    }
    match admit_generation(&mut l, &j, 21) {
        Err(e) => {
            assert_eq!(e.status, 429);
            assert_eq!(e.message, "Rate limit exceeded. Please wait before generating more flashcards.");
        }
        Ok(_) => panic!(),
    }
    assert!(l.is_allowed("ai:someone-else", 22));
    assert!(!l.is_allowed("ai:a1a2a3a4-b1b2-c1c2-d1d2-d3d4d5d6d7d8", 23));
}

#[test]
fn generation_replies() {
    assert!(matches!(generation_reply(GenerationOutcome::Generated(vec![])), Ok(v) if v.is_empty()));
    match generation_reply(GenerationOutcome::Failed("bad".into())) {
        Err(e) => {
            assert_eq!(e.status, 500);
            assert_eq!(e.message, "bad");
        }
        _ => panic!(),
    }
    match generation_reply(GenerationOutcome::TimedOut) {
        Err(e) => {
            assert_eq!(e.status, 504);
            assert_eq!(e.message, "AI generation timed out (3min). Try fewer words or a simpler topic.");
        }
        _ => panic!(),
    }
}

#[test]
fn card_ids_and_study_text() {
    assert!(matches!(parse_card_id("a1a2a3a4-b1b2-c1c2-d1d2-d3d4d5d6d7d8"), Ok(ID)));
    match parse_card_id("42") {
        Err(e) => {
            assert_eq!(e.status, 400);
            assert_eq!(e.message, "Invalid card ID");
        }
        _ => panic!(),
    }
    assert_eq!(study("abc"), "Study mode for flashcard: abc");
}

#[test]
fn migration_fills_only_missing_links() {
    let rows = vec![
        CardRow { id: 1, word: "run".into(), example_sentence: Some("I run".into()), part_of_speech: Some("verb".into()), image_url: None, tts_url: None },
        CardRow { id: 2, word: "red".into(), example_sentence: None, part_of_speech: None, image_url: None, tts_url: Some("x".into()) },
        CardRow { id: 3, word: "sky".into(), example_sentence: None, part_of_speech: None, image_url: Some("y".into()), tts_url: None },
    ];
    let p = plan_migration(&images(), &rows);
    assert_eq!((p.total, p.images_added, p.tts_added), (3, 2, 2));
    assert_eq!(p.updates[0].id, 1);
    assert_eq!(
        p.updates[0].image_url.as_deref(),
        Some("https://image.pollinations.ai/prompt/educational%20illustration%20for%20the%20word%20%27run%27%2C%20verb%20context%2C%20clean%20simple%20modern%20style")
    );
    assert_eq!(
        p.updates[0].tts_url.as_deref(),
        Some("https://translate.google.com/translate_tts?ie=UTF-8&tl=en&client=tw-ob&q=I%20run")
    );
    assert_eq!(
        p.updates[1].image_url.as_deref(),
        Some("https://image.pollinations.ai/prompt/educational%20illustration%20for%20the%20word%20%27red%27%2C%20word%20context%2C%20clean%20simple%20modern%20style")
    );
    assert_eq!(p.updates[1].tts_url, None);
    assert_eq!(p.updates[2].image_url, None);
    assert_eq!(
        p.updates[2].tts_url.as_deref(),
        Some("https://translate.google.com/translate_tts?ie=UTF-8&tl=en&client=tw-ob&q=sky")
    );
}

#[test]
fn islands() {
    let d = create(IslandParams { name: None, topic: None, description: None });
    assert_eq!((d.name.as_str(), d.topic.as_str(), d.description), ("New Island", "general", None));
    let d = create(IslandParams { name: Some("Kitchen".into()), topic: Some("cooking".into()), description: Some("food".into()) });
    assert_eq!((d.name.as_str(), d.topic.as_str(), d.description.as_deref()), ("Kitchen", "cooking", Some("food")));
    assert_eq!(view("7"), "Vocabulary Island: 7");
}

#[test]
fn pages_and_stats() {
    assert_eq!(html_path("flashcards-new"), "public/flashcards-new.html");
    let r = stats(None);
    assert_eq!((r.total_cards, r.total_reviews, r.mastered_words, r.current_streak, r.longest_streak, r.due_count), (0, 0, 0, 0, 0, 0));
    let r = stats(Some(StatsCounts {
        total_cards: Some(12),
        total_reviews: None,
        mastered_words: Some(3),
        due_count: Some(4),
        current_streak: Some(6),
        longest_streak: Some(9),
    }));
    assert_eq!((r.total_cards, r.total_reviews, r.mastered_words, r.current_streak, r.longest_streak, r.due_count), (12, 0, 3, 6, 9, 4));
    let r = stats(Some(StatsCounts {
        total_cards: Some(1),
        total_reviews: Some(2),
        mastered_words: None,
        due_count: None,
        current_streak: None,
        longest_streak: None,
    }));
    assert_eq!((r.total_cards, r.total_reviews, r.mastered_words, r.current_streak, r.longest_streak, r.due_count), (1, 2, 0, 0, 0, 0));
}

#[test]
fn tts_proxy() {
    assert_eq!(default_lang(), "en");
    match tts_proxy_target(&TTSParams { text: String::new(), lang: default_lang() }) {
        Err(e) => {
            assert_eq!(e.status, 400);
            assert_eq!(e.message, "text parameter required");
        }
        _ => panic!(),
    }
    match tts_proxy_target(&TTSParams { text: "Guten Tag".into(), lang: "de".into() }) {
        Ok(u) => assert_eq!(u, "https://translate.google.com/translate_tts?ie=UTF-8&tl=de&client=tw-ob&q=Guten%20Tag"),
        _ => panic!(),
    }
    let e = tts_unavailable();
    assert_eq!((e.status, e.message.as_str()), (502, "TTS service unavailable"));
}

#[test]
fn answers() {
    let a = ReviewAnswer { flashcard_id: "a1a2a3a4-b1b2-c1c2-d1d2-d3d4d5d6d7d8".into(), quality: 9, response_time_ms: Some(1200) };
    assert!(matches!(plan_answer(None, &a), Err(e) if e.status == 401));
    let j = match plan_answer(Some(COOKIE), &a) {
        Ok(j) => j,
        Err(_) => panic!(),
    };
    assert_eq!((j.user_id, j.flashcard_id, j.quality), (ID, ID, 5));
    let bad = ReviewAnswer { flashcard_id: "nope".into(), quality: 3, response_time_ms: None };
    match plan_answer(Some(COOKIE), &bad) {
        Err(e) => {
            assert_eq!(e.status, 400);
            assert_eq!(e.message, "Invalid flashcard_id");
        }
        _ => panic!(),
    }
    let s = new_card_schedule();
    assert_eq!((s.interval_days, s.repetitions, s.leitner_box), (0, 0, 1));
}

#[test]
fn streaks_follow_review_days() {
    let s = update_streak(None, 100, 0, 0);
    assert_eq!((s.current_streak, s.longest_streak), (1, 1));
    let s = update_streak(Some(100), 100, 4, 9);
    assert_eq!((s.current_streak, s.longest_streak), (4, 9));
    let s = update_streak(Some(99), 100, 4, 4);
    assert_eq!((s.current_streak, s.longest_streak), (5, 5));
    let s = update_streak(Some(97), 100, 4, 6);
    assert_eq!((s.current_streak, s.longest_streak), (1, 6));
    let s = update_streak(Some(101), 100, 4, 6);
    assert_eq!((s.current_streak, s.longest_streak), (1, 6));
}

#[test]
fn second_migration_finds_nothing_to_do() {
    let rows = vec![
        CardRow { id: 1, word: "run".into(), example_sentence: Some("I run".into()), part_of_speech: Some("verb".into()), image_url: None, tts_url: None },
        CardRow { id: 2, word: "red".into(), example_sentence: None, part_of_speech: None, image_url: None, tts_url: Some("x".into()) },
    ];
    let p = plan_migration(&images(), &rows);
    let after: Vec<CardRow> = rows
        .iter()
        .zip(p.updates.iter())
        .map(|(r, u)| CardRow {
            id: r.id,
            word: r.word.clone(),
            example_sentence: r.example_sentence.clone(),
            part_of_speech: r.part_of_speech.clone(),
            image_url: u.image_url.clone().or(r.image_url.clone()),
            tts_url: u.tts_url.clone().or(r.tts_url.clone()),
        })
        .collect();
    let q = plan_migration(&images(), &after);
    assert_eq!((q.total, q.images_added, q.tts_added), (2, 0, 0));
    assert!(q.updates.iter().all(|u| u.image_url.is_none() && u.tts_url.is_none()));
    let empty = plan_migration(&images(), &vec![]);
    assert_eq!((empty.total, empty.images_added, empty.tts_added, empty.updates.len()), (0, 0, 0, 0));
}

#[test]
fn ids_of_other_lengths_are_rejected() {
    for bad in ["", "a1a2a3a4-b1b2-c1c2-d1d2-d3d4d5d6d7d", "a1a2a3a4-b1b2-c1c2-d1d2-d3d4d5d6d7d8x"] {
        match parse_card_id(bad) {
            Err(e) => assert_eq!((e.status, e.message.as_str()), (400, "Invalid card ID")),
            _ => panic!(),
        }
    }
    assert!(matches!(parse_card_id("a1a2a3a4b1b2c1c2d1d2d3d4d5d6d7d8"), Ok(ID)));
    assert!(matches!(parse_card_id("{a1a2a3a4-b1b2-c1c2-d1d2-d3d4d5d6d7d8}"), Ok(ID)));
    assert!(matches!(parse_card_id("urn:uuid:a1a2a3a4-b1b2-c1c2-d1d2-d3d4d5d6d7d8"), Ok(ID)));
}
