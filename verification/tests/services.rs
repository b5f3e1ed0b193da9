use vocai::nvidia::{chat_outcome, extract_json_array, ChatReply, Model, NvidiaClient};
use vocai::pollinations::{
    image_outcome, ImageData, ImageReply, PollinationsClient, PollinationsEnv, PollinationsError,
    TTSClient,
};

#[test]
fn model_ids() {
    assert_eq!(Model::MiniMaxM27.id(), "minimaxai/minimax-m2.7");
    assert_eq!(Model::GLM4_7.id(), "z-ai/glm4.7");
}

#[test]
fn model_names_choose_glm_or_default_to_minimax() {
    assert_eq!(Model::from_str("glm4.7"), Model::GLM4_7);
    assert_eq!(Model::from_str("z-ai/glm4.7"), Model::GLM4_7);
    assert_eq!(Model::from_str("minimax"), Model::MiniMaxM27);
    assert_eq!(Model::from_str("GLM4.7"), Model::MiniMaxM27);
    assert_eq!(Model::from_str(""), Model::MiniMaxM27);
    assert_eq!(Model::default(), Model::MiniMaxM27);
}

#[test]
fn model_id_reads_back() {
    for m in [Model::MiniMaxM27, Model::GLM4_7] {
        assert_eq!(Model::from_str(m.id()), m);
    }
}

#[test]
fn chat_request_targets_completions_with_bearer_key() {
    let c = NvidiaClient::new("KEY").with_model(Model::GLM4_7);
    let r = c.chat_request("hi", 7, 500);
    assert_eq!(r.url, "https://integrate.api.nvidia.com/v1/chat/completions");
    assert_eq!(r.authorization, "Bearer KEY");
    assert_eq!(r.model_id, "z-ai/glm4.7");
    assert_eq!(r.prompt, "hi");
    assert_eq!(r.role, "user");
    assert!(!r.stream);
    assert_eq!((r.temperature_tenths, r.top_p_hundredths, r.max_tokens), (7, 95, 500));
}

#[test]
fn flashcard_prompt_names_count_language_level_and_topic() {
    let c = NvidiaClient::new("k");
    let r = c.generate_flashcards_request("cooking", 12, "Spanish", "beginner");
    assert!(r.prompt.starts_with(
        "Generate 12 vocabulary words for Spanish language learning at beginner difficulty level.\nTopic: cooking\n\nFor each word, provide:\n1. The word\n"
    ));
    assert!(r.prompt.contains("[\n  {\n    \"word\": \"example\",\n"));
    assert!(r.prompt.contains("\"phonetic\": \"/ɪɡˈzɑːmpəl/\","));
    assert!(r.prompt.ends_with("  }\n]\n\nEnsure words are practical and related to the topic."));
    assert_eq!((r.temperature_tenths, r.max_tokens), (7, 4000));
}

#[test]
fn explain_and_image_prompts() {
    let c = NvidiaClient::new("k");
    let r = c.explain_word_request("serendipity", "English");
    assert_eq!(
        r.prompt,
        "Explain the word \"serendipity\" in English for a language learner. Include etymology, common collocations, memory tricks, and cultural context."
    );
    assert_eq!((r.temperature_tenths, r.max_tokens), (7, 500));
    let r = c.generate_image_prompt_request("bake", "kitchen");
    assert_eq!(
        r.prompt,
        "Create a vivid visual description to help remember the word \"bake\" in this context: kitchen"
    );
    assert_eq!((r.temperature_tenths, r.max_tokens), (8, 200));
}

#[test]
fn chat_outcomes() {
    assert_eq!(chat_outcome(ChatReply::Failed("boom".into())), Err("boom".to_string()));
    assert_eq!(
        chat_outcome(ChatReply::Rejected { status: "500 Internal Server Error".into(), body: "oops".into() }),
        Err("NVIDIA API error: 500 Internal Server Error - oops".to_string())
    );
    assert_eq!(
        chat_outcome(ChatReply::Choices(vec!["first".into(), "second".into()])),
        Ok("first".to_string())
    );
}

#[test]
fn json_array_is_cut_from_first_bracket_to_last() {
    assert_eq!(extract_json_array("Sure! [ {\"a\": [1]} ] done"), Ok("[ {\"a\": [1]} ]".to_string()));
    assert_eq!(extract_json_array("été: [\"é\"]"), Ok("[\"é\"]".to_string()));
    assert_eq!(extract_json_array("a]["), Ok(String::new()));
}

#[test]
fn json_array_errors() {
    assert_eq!(extract_json_array("no array"), Err("No JSON array found in response".to_string()));
    assert_eq!(extract_json_array("[ unterminated"), Err("No JSON array end found in response".to_string()));
}

fn env(key: Option<&str>) -> PollinationsEnv {
    PollinationsEnv {
        api_key: key.map(|k| k.to_string()),
        api_base: None,
        image_model: None,
        image_size: None,
        image_quality: None,
        referrer: None,
        site_url: None,
    }
}

#[test]
fn pollinations_defaults() {
    let c = PollinationsClient::new(env(Some("  secret \n")));
    assert_eq!(c.api_key.as_deref(), Some("secret"));
    assert!(c.has_key());
    assert_eq!(c.api_base, "https://gen.pollinations.ai");
    assert_eq!(c.default_model(), "flux");
    assert_eq!(c.default_size, "512x512");
    assert_eq!(c.default_quality, "medium");
    assert_eq!(c.referrer, "https://vocai.top");
}

#[test]
fn blank_key_counts_as_missing_and_site_url_is_the_fallback_referrer() {
    let mut e = env(Some("   "));
    e.site_url = Some("https://example.org".into());
    let c = PollinationsClient::new(e);
    assert!(!c.has_key());
    assert_eq!(c.referrer, "https://example.org");
    let mut e = env(None);
    e.referrer = Some("https://ref.example".into());
    e.site_url = Some("https://example.org".into());
    assert_eq!(PollinationsClient::new(e).referrer, "https://ref.example");
}

#[test]
fn image_request_needs_prompt_and_key() {
    let with_key = PollinationsClient::new(env(Some("k")));
    assert!(matches!(with_key.image_request("  \t", None, None), Err(PollinationsError::MissingPrompt)));
    let no_key = PollinationsClient::new(env(None));
    assert!(matches!(no_key.image_request("a cat", None, None), Err(PollinationsError::MissingPrompt) | Err(PollinationsError::MissingKey)));
    assert!(matches!(no_key.image_request("a cat", None, None), Err(PollinationsError::MissingKey)));
}

#[test]
fn image_request_fields() {
    let mut e = env(Some("k"));
    e.api_base = Some("https://api.example//".into());
    e.referrer = Some("bad\nreferrer".into());
    let c = PollinationsClient::new(e);
    let r = match c.image_request("  a red apple ", Some("  turbo "), Some("u1")) {
        Ok(r) => r,
        Err(_) => panic!("expected a request"),
    };
    assert_eq!(r.url, "https://api.example/v1/images/generations");
    assert_eq!(r.authorization, "Bearer k");
    assert_eq!(r.referer, "https://vocai.top");
    assert_eq!(r.user_agent, "vocai/1.0");
    assert_eq!((r.n, r.response_format.as_str(), r.safe), (1, "url", true));
    assert_eq!((r.size.as_str(), r.quality.as_str()), ("512x512", "medium"));
    assert_eq!(r.prompt, "a red apple");
    assert_eq!(r.model, "turbo");
    assert_eq!(r.user.as_deref(), Some("u1"));
    let r = match c.image_request("x", Some("   "), None) {
        Ok(r) => r,
        Err(_) => panic!("expected a request"),
    };
    assert_eq!(r.model, "flux");
    assert_eq!(r.user, None);
}

#[test]
fn image_outcomes() {
    let m = || "flux".to_string();
    match image_outcome(ImageReply::Failed("timeout".into()), m()) {
        Err(PollinationsError::Request(e)) => assert_eq!(e, "timeout"),
        _ => panic!(),
    }
    match image_outcome(ImageReply::Rejected { status: "401 Unauthorized".into(), body: "no".into() }, m()) {
        Err(PollinationsError::Api(e)) => assert_eq!(e, "HTTP 401 Unauthorized: no"),
        _ => panic!(),
    }
    match image_outcome(ImageReply::Data(None), m()) {
        Err(PollinationsError::Response(e)) => assert_eq!(e, "missing image data"),
        _ => panic!(),
    }
    let d = ImageData { url: Some("https://img/1.png".into()), b64_json: Some("AAAA".into()), mime_type: None };
    match image_outcome(ImageReply::Data(Some(d)), m()) {
        Ok(a) => {
            assert_eq!(a.url, "https://img/1.png");
            assert_eq!(a.model, "flux");
        }
        _ => panic!(),
    }
    let d = ImageData { url: None, b64_json: Some("AAAA".into()), mime_type: None };
    match image_outcome(ImageReply::Data(Some(d)), m()) {
        Ok(a) => assert_eq!(a.url, "data:image/jpeg;base64,AAAA"),
        _ => panic!(),
    }
    let d = ImageData { url: None, b64_json: Some("BB".into()), mime_type: Some("image/png".into()) };
    match image_outcome(ImageReply::Data(Some(d)), m()) {
        Ok(a) => assert_eq!(a.url, "data:image/png;base64,BB"),
        _ => panic!(),
    }
    let d = ImageData { url: None, b64_json: None, mime_type: Some("image/png".into()) };
    match image_outcome(ImageReply::Data(Some(d)), m()) {
        Err(PollinationsError::Response(e)) => assert_eq!(e, "missing url in response"),
        _ => panic!(),
    }
}

#[test]
fn audio_url_encodes_the_text_only() {
    assert_eq!(
        TTSClient::generate_audio_url("Hello world!", "en"),
        "https://translate.google.com/translate_tts?ie=UTF-8&tl=en&client=tw-ob&q=Hello%20world%21"
    );
    assert_eq!(
        TTSClient::generate_audio_url("café & co", "fr"),
        "https://translate.google.com/translate_tts?ie=UTF-8&tl=fr&client=tw-ob&q=caf%C3%A9%20%26%20co"
    );
    assert_eq!(
        TTSClient::generate_audio_url("a-b_c.d~e", "en"),
        "https://translate.google.com/translate_tts?ie=UTF-8&tl=en&client=tw-ob&q=a-b_c.d~e"
    );
}

#[test]
fn free_image_link_encodes_the_prompt() {
    let c = PollinationsClient::new(env(None));
    assert_eq!(c.generate_image_url("a cat?"), "https://image.pollinations.ai/prompt/a%20cat%3F");
}
