//! The NVIDIA chat-completion client: model choice, prompts, request
//! description, and reading the reply.
//!
//! The HTTP exchange itself is performed by the application; the library
//! says what to send and what the answer means.

use vstd::prelude::*;
use crate::text::{
    chars_of, str_eq, owned, concat2, decimal, decimal_text, first_pos, last_pos, find_in, rfind,
    string_of_range,
};

verus! {

/// Available NVIDIA NIM models.
#[derive(Debug, Clone, Copy, PartialEq, Eq, Structural)]
pub enum Model {
    MiniMaxM27,
    GLM4_7,
}

/// Model identifier sent to the API.
pub open spec fn model_id(m: Model) -> Seq<char> {
    match m {
        Model::MiniMaxM27 => "minimaxai/minimax-m2.7"@,
        Model::GLM4_7 => "z-ai/glm4.7"@,
    }
}

/// Model named by a request parameter: `glm4.7` or `z-ai/glm4.7` choose GLM,
/// anything else MiniMax.
pub open spec fn model_named(s: Seq<char>) -> Model {
    if s == "glm4.7"@ || s == "z-ai/glm4.7"@ {
        Model::GLM4_7
    } else {
        Model::MiniMaxM27
    }
}

impl Model {
    /// The API identifier of the model.
    pub fn id(&self) -> (r: &'static str)
        ensures
            r@ == model_id(*self),
    {
        match self {
            Model::MiniMaxM27 => "minimaxai/minimax-m2.7",
            Model::GLM4_7 => "z-ai/glm4.7",
        }
    }

    /// The model a request parameter names.
    pub fn from_str(s: &str) -> (m: Self)
        ensures
            m == model_named(s@),
    {
        if str_eq(s, "glm4.7") || str_eq(s, "z-ai/glm4.7") {
            Model::GLM4_7
        } else {
            Model::MiniMaxM27
        }
    }
}

impl Default for Model {
    fn default() -> (m: Self)
        ensures
            m == Model::MiniMaxM27,
    {
        Model::MiniMaxM27
    }
}

/// Reading a model's identifier back gives the model.
pub proof fn law_model_id_round_trip(m: Model)
    ensures
        model_named(model_id(m)) == m,
{
    reveal_strlit("minimaxai/minimax-m2.7");
    reveal_strlit("z-ai/glm4.7");
    reveal_strlit("glm4.7");
    if m == Model::MiniMaxM27 {
        assert(model_id(m).len() != "glm4.7"@.len());
        assert(model_id(m).len() != "z-ai/glm4.7"@.len());
    }
}

/// A vocabulary card as the model generates it.
pub struct GeneratedFlashcard {
    pub word: String,
    pub definition: String,
    pub example_sentence: String,
    pub phonetic: Option<String>,
    pub part_of_speech: String,
    pub image_prompt: Option<String>,
}

/// Settings of the chat client.
#[derive(Clone)]
pub struct NvidiaClient {
    pub api_key: String,
    pub base_url: String,
    pub model: Model,
}

/// Everything the chat-completion call sends: the endpoint, the
/// `Authorization` header, and the JSON body fields (the prompt is the one
/// message, from role `user`; `temperature` in tenths, `top_p` in
/// hundredths).
pub struct ChatRequest {
    pub url: String,
    pub authorization: String,
    pub model_id: String,
    pub role: String,
    pub prompt: String,
    pub stream: bool,
    pub temperature_tenths: u8,
    pub top_p_hundredths: u8,
    pub max_tokens: usize,
}

/// Default API base.
pub const NVIDIA_BASE_URL: &'static str = "https://integrate.api.nvidia.com/v1";

/// `top_p` of every request, in hundredths.
pub const TOP_P_HUNDREDTHS: u8 = 95;

/// Piece 1 of the flashcard generation prompt.
pub const FLASHCARD_PROMPT_0: &'static str = "Generate ";

/// Piece 2 of the flashcard generation prompt.
pub const FLASHCARD_PROMPT_1: &'static str = " vocabulary words for ";

/// Piece 3 of the flashcard generation prompt.
pub const FLASHCARD_PROMPT_2: &'static str = " language learning at ";

/// Piece 4 of the flashcard generation prompt.
pub const FLASHCARD_PROMPT_3: &'static str = " difficulty level.\nTopic: ";

/// Piece 5 of the flashcard generation prompt.
pub const FLASHCARD_PROMPT_4: &'static str = "\n\nFor each word, provide:\n1. The word\n2. Clear definition\n3. Example sentence showing usage in context\n4. Phonetic pronunciation (if applicable)\n5. Part of speech (noun, verb, adjective, etc.)\n\nReturn ONLY valid JSON array in this exact format:\n[\n  {\n    \"word\": \"example\",\n    \"definition\": \"a representative form or pattern\",\n    \"example_sentence\": \"This sentence is an example of proper usage.\",\n    \"phonetic\": \"/\u{26a}\u{261}\u{2c8}z\u{251}\u{2d0}mp\u{259}l/\",\n    \"part_of_speech\": \"noun\"\n  }\n]\n\nEnsure words are practical and related to the topic.";

/// Piece 1 of the word explanation prompt.
pub const EXPLAIN_PROMPT_0: &'static str = "Explain the word \"";

/// Piece 2 of the word explanation prompt.
pub const EXPLAIN_PROMPT_1: &'static str = "\" in ";

/// Piece 3 of the word explanation prompt.
pub const EXPLAIN_PROMPT_2: &'static str = " for a language learner. Include etymology, common collocations, memory tricks, and cultural context.";

/// Piece 1 of the memory image prompt.
pub const IMAGE_PROMPT_0: &'static str = "Create a vivid visual description to help remember the word \"";

/// Piece 2 of the memory image prompt.
pub const IMAGE_PROMPT_1: &'static str = "\" in this context: ";


/// The flashcard generation prompt.
pub open spec fn flashcard_prompt(
    count: nat,
    language: Seq<char>,
    difficulty: Seq<char>,
    topic: Seq<char>,
) -> Seq<char> {
    FLASHCARD_PROMPT_0@ + decimal(count) + FLASHCARD_PROMPT_1@ + language + FLASHCARD_PROMPT_2@
        + difficulty + FLASHCARD_PROMPT_3@ + topic + FLASHCARD_PROMPT_4@
}

/// The word explanation prompt.
pub open spec fn explain_prompt(word: Seq<char>, language: Seq<char>) -> Seq<char> {
    EXPLAIN_PROMPT_0@ + word + EXPLAIN_PROMPT_1@ + language + EXPLAIN_PROMPT_2@
}

/// The memory image description prompt.
pub open spec fn image_description_prompt(word: Seq<char>, context: Seq<char>) -> Seq<char> {
    IMAGE_PROMPT_0@ + word + IMAGE_PROMPT_1@ + context
}

impl NvidiaClient {
    /// A client for `api_key` with the default endpoint and model.
    pub fn new(api_key: &str) -> (c: Self)
        ensures
            c.api_key@ == api_key@,
            c.base_url@ == NVIDIA_BASE_URL@,
            c.model == Model::MiniMaxM27,
    {
        NvidiaClient { api_key: owned(api_key), base_url: owned(NVIDIA_BASE_URL), model: Model::MiniMaxM27 }
    }

    /// The same client using `model`.
    pub fn with_model(self, model: Model) -> (c: Self)
        ensures
            c.api_key == self.api_key,
            c.base_url == self.base_url,
            c.model == model,
    {
        NvidiaClient { model, ..self }
    }

    /// The chat-completion call for `prompt`.
    pub fn chat_request(&self, prompt: &str, temperature_tenths: u8, max_tokens: usize) -> (r:
        ChatRequest)
        ensures
            r.url@ == self.base_url@ + "/chat/completions"@,
            r.authorization@ == "Bearer "@ + self.api_key@,
            r.model_id@ == model_id(self.model),
            r.role@ == "user"@,
            r.prompt@ == prompt@,
            !r.stream,
            r.temperature_tenths == temperature_tenths,
            r.top_p_hundredths == TOP_P_HUNDREDTHS,
            r.max_tokens == max_tokens,
    {
        ChatRequest {
            url: concat2(self.base_url.as_str(), "/chat/completions"),
            authorization: concat2("Bearer ", self.api_key.as_str()),
            model_id: owned(self.model.id()),
            role: owned("user"),
            prompt: owned(prompt),
            stream: false,
            temperature_tenths,
            top_p_hundredths: TOP_P_HUNDREDTHS,
            max_tokens,
        }
    }

    /// The call that asks for `count` cards on `topic` (temperature 0.7, at
    /// most 4000 tokens).
    pub fn generate_flashcards_request(
        &self,
        topic: &str,
        count: usize,
        language: &str,
        difficulty: &str,
    ) -> (r: ChatRequest)
        ensures
            r.url@ == self.base_url@ + "/chat/completions"@,
            r.authorization@ == "Bearer "@ + self.api_key@,
            r.model_id@ == model_id(self.model),
            r.prompt@ == flashcard_prompt(count as nat, language@, difficulty@, topic@),
            r.temperature_tenths == 7,
            r.max_tokens == 4000,
    {
        let mut p = owned(FLASHCARD_PROMPT_0);
        let n = decimal_text(count as u64);
        p.append(n.as_str());
        p.append(FLASHCARD_PROMPT_1);
        p.append(language);
        p.append(FLASHCARD_PROMPT_2);
        p.append(difficulty);
        p.append(FLASHCARD_PROMPT_3);
        p.append(topic);
        p.append(FLASHCARD_PROMPT_4);
        self.chat_request(p.as_str(), 7, 4000)
    }

    /// The call that asks to explain `word` (temperature 0.7, at most 500
    /// tokens).
    pub fn explain_word_request(&self, word: &str, language: &str) -> (r: ChatRequest)
        ensures
            r.url@ == self.base_url@ + "/chat/completions"@,
            r.authorization@ == "Bearer "@ + self.api_key@,
            r.model_id@ == model_id(self.model),
            r.prompt@ == explain_prompt(word@, language@),
            r.temperature_tenths == 7,
            r.max_tokens == 500,
    {
        let mut p = owned(EXPLAIN_PROMPT_0);
        p.append(word);
        p.append(EXPLAIN_PROMPT_1);
        p.append(language);
        p.append(EXPLAIN_PROMPT_2);
        self.chat_request(p.as_str(), 7, 500)
    }

    /// The call that asks for a memorable picture of `word` (temperature 0.8,
    /// at most 200 tokens).
    pub fn generate_image_prompt_request(&self, word: &str, context: &str) -> (r: ChatRequest)
        ensures
            r.url@ == self.base_url@ + "/chat/completions"@,
            r.authorization@ == "Bearer "@ + self.api_key@,
            r.model_id@ == model_id(self.model),
            r.prompt@ == image_description_prompt(word@, context@),
            r.temperature_tenths == 8,
            r.max_tokens == 200,
    {
        let mut p = owned(IMAGE_PROMPT_0);
        p.append(word);
        p.append(IMAGE_PROMPT_1);
        p.append(context);
        self.chat_request(p.as_str(), 8, 200)
    }
}

/// How a chat-completion call ended.
pub enum ChatReply {
    /// The request could not be sent, or the body could not be decoded.
    Failed(String),
    /// The API answered with a non-success status (its text, e.g.
    /// `500 Internal Server Error`) and body.
    Rejected { status: String, body: String },
    /// The decoded contents of the reply's choices.
    Choices(Vec<String>),
}

/// Error text for a rejected call.
pub open spec fn rejection_message(status: Seq<char>, body: Seq<char>) -> Seq<char> {
    "NVIDIA API error: "@ + status + " - "@ + body
}

/// The text of the first choice, or the error message.
pub fn chat_outcome(reply: ChatReply) -> (r: Result<String, String>)
    requires
        reply matches ChatReply::Choices(c) ==> c@.len() > 0,
    ensures
        match reply {
            ChatReply::Failed(e) => r == Err::<String, String>(e),
            ChatReply::Rejected { status, body } => r matches Err(m) && m@ == rejection_message(
                status@,
                body@,
            ),
            ChatReply::Choices(c) => r == Ok::<String, String>(c@[0]),
        },
{
    match reply {
        ChatReply::Failed(e) => Err(e),
        ChatReply::Rejected { status, body } => {
            let mut m = owned("NVIDIA API error: ");
            m.append(status.as_str());
            m.append(" - ");
            m.append(body.as_str());
            Err(m)
        },
        ChatReply::Choices(c) => {
            let mut c = c;
            Ok(c.swap_remove(0))
        },
    }
}

/// Error when the reply holds no `[`.
pub const NO_ARRAY_START: &'static str = "No JSON array found in response";

/// Error when the reply holds no `]`.
pub const NO_ARRAY_END: &'static str = "No JSON array end found in response";

/// The JSON array in a model reply: from its first `[` to its last `]`.
pub open spec fn json_array_slice(s: Seq<char>) -> Result<Seq<char>, Seq<char>> {
    let a = first_pos(s, '[');
    let b = last_pos(s, ']');
    if a >= s.len() {
        Err(NO_ARRAY_START@)
    } else if b < 0 {
        Err(NO_ARRAY_END@)
    } else {
        Ok(s.subrange(a, b + 1))
    }
}

/// The slice is well formed unless the last `]` stands more than one
/// character before the first `[`.
pub open spec fn json_array_slice_valid(s: Seq<char>) -> bool {
    first_pos(s, '[') < s.len() && last_pos(s, ']') >= 0 ==> first_pos(s, '[') <= last_pos(s, ']')
        + 1
}

/// What is cut out of a reply runs from a `[` to a `]` whenever the last
/// `]` does not come before the first `[`.
pub proof fn law_json_array_bracketed(s: Seq<char>)
    requires
        first_pos(s, '[') < s.len(),
        last_pos(s, ']') >= 0,
        first_pos(s, '[') <= last_pos(s, ']'),
    ensures
        json_array_slice(s) matches Ok(a) && a.len() >= 1 && a[0] == '[' && a.last() == ']',
{
    crate::text::lemma_first_pos(s, '[');
    crate::text::lemma_last_pos(s, ']');
}

/// Cuts the JSON array out of a model reply.
pub fn extract_json_array(content: &str) -> (r: Result<String, String>)
    requires
        json_array_slice_valid(content@),
    ensures
        match r {
            Ok(a) => json_array_slice(content@) == Ok::<Seq<char>, Seq<char>>(a@),
            Err(e) => json_array_slice(content@) == Err::<Seq<char>, Seq<char>>(e@),
        },
{
    let v = chars_of(content);
    let a = find_in(&v, '[', 0, v.len());
    assert(v@.subrange(0, v@.len() as int) =~= v@);
    if a >= v.len() {
        return Err(owned(NO_ARRAY_START));
    }
    proof {
        crate::text::lemma_last_pos(v@, ']');
        crate::text::lemma_first_pos(v@, '[');
    }
    match rfind(&v, ']') {
        None => Err(owned(NO_ARRAY_END)),
        Some(b) => Ok(string_of_range(&v, a, b + 1)),
    }
}

} // verus!
