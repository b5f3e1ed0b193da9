//! Image generation through Pollinations and text-to-speech links through
//! Google Translate: settings, request description, and reading the reply.

use vstd::prelude::*;
use crate::text::{
    chars_of, owned, concat2, trim, trimmed, strip_trailing, string_of_range,
};
use crate::urlenc::{url_encode, url_encoded};

verus! {

/// Why an image could not be generated.
pub enum PollinationsError {
    /// The prompt is empty once trimmed.
    MissingPrompt,
    /// No API key is configured.
    MissingKey,
    /// The request failed; the transport error's text.
    Request(String),
    /// The API answered with an error status.
    Api(String),
    /// The answer did not hold an image.
    Response(String),
}

/// A generated image and the model that drew it.
pub struct ImageArtifact {
    pub url: String,
    pub model: String,
}

/// Configuration read from the environment; `None` where a variable is
/// unset.
pub struct PollinationsEnv {
    pub api_key: Option<String>,
    pub api_base: Option<String>,
    pub image_model: Option<String>,
    pub image_size: Option<String>,
    pub image_quality: Option<String>,
    pub referrer: Option<String>,
    pub site_url: Option<String>,
}

/// Settings of the image client.
#[derive(Clone)]
pub struct PollinationsClient {
    pub api_key: Option<String>,
    pub api_base: String,
    pub default_model: String,
    pub default_size: String,
    pub default_quality: String,
    pub referrer: String,
}

/// Everything the image generation call sends: endpoint, `Authorization`,
/// `Referer` and `User-Agent` headers, and the JSON body.
pub struct ImageRequest {
    pub url: String,
    pub authorization: String,
    pub referer: String,
    pub user_agent: String,
    pub n: u8,
    pub response_format: String,
    pub safe: bool,
    pub prompt: String,
    pub model: String,
    pub size: String,
    pub quality: String,
    pub user: Option<String>,
}

/// The first entry of the `data` array of an image reply.
pub struct ImageData {
    pub url: Option<String>,
    pub b64_json: Option<String>,
    pub mime_type: Option<String>,
}

/// How an image generation call ended.
pub enum ImageReply {
    /// The request failed or its body could not be decoded.
    Failed(String),
    /// The API answered with a non-success status (its text) and body.
    Rejected { status: String, body: String },
    /// The decoded reply: its first image, if any.
    Data(Option<ImageData>),
}

/// Image API used when none is configured.
pub const DEFAULT_API_BASE: &'static str = "https://gen.pollinations.ai";

/// Image model used when none is configured.
pub const DEFAULT_IMAGE_MODEL: &'static str = "flux";

/// Image size used when none is configured.
pub const DEFAULT_IMAGE_SIZE: &'static str = "512x512";

/// Image quality used when none is configured.
pub const DEFAULT_IMAGE_QUALITY: &'static str = "medium";

/// `Referer` sent when none is configured, or the configured one is not a valid header value.
pub const DEFAULT_REFERRER: &'static str = "https://vocai.top";

/// `User-Agent` of image requests.
pub const USER_AGENT: &'static str = "vocai/1.0";

/// Public image endpoint that draws the prompt in its path, without a key.
pub const FREE_IMAGE_ENDPOINT: &'static str = "https://image.pollinations.ai/prompt/";

/// Text-to-speech link up to the language code.
pub const TTS_ENDPOINT: &'static str =
    "https://translate.google.com/translate_tts?ie=UTF-8&tl=";

/// Text-to-speech link between the language code and the text.
pub const TTS_QUERY_SEPARATOR: &'static str = "&client=tw-ob&q=";

/// A character that `HeaderValue::from_str` accepts: tab, or anything from
/// space upwards except DEL (non-ASCII characters are encoded as bytes of
/// 128 and above, which are accepted).
pub open spec fn header_char_ok(c: char) -> bool {
    c == '\t' || (' ' <= c && c != '\x7f')
}

/// A text usable as an HTTP header value.
pub open spec fn valid_header_value(s: Seq<char>) -> bool {
    forall|i: int| 0 <= i < s.len() ==> header_char_ok(#[trigger] s[i])
}

/// Whether `s` is usable as an HTTP header value.
pub fn is_valid_header_value(s: &str) -> (b: bool)
    ensures
        b == valid_header_value(s@),
{
    let v = chars_of(s);
    let mut i: usize = 0;
    while i < v.len()
        invariant
            v@ == s@,
            i <= v@.len(),
            forall|j: int| 0 <= j < i ==> header_char_ok(#[trigger] v@[j]),
        decreases v.len() - i,
    {
        let c = v[i];
        if !(c == '\t' || (' ' <= c && c != '\x7f')) {
            return false;
        }
        i = i + 1;
    }
    true
}

/// A configured value: the variable's value, or the default.
pub open spec fn setting(v: Option<String>, default: Seq<char>) -> Seq<char> {
    match v {
        Some(s) => s@,
        None => default,
    }
}

fn setting_or(v: Option<String>, default: &str) -> (r: String)
    ensures
        r@ == setting(v, default@),
{
    match v {
        Some(s) => s,
        None => owned(default),
    }
}

/// The API key: the variable's value trimmed, unless that is empty.
pub open spec fn key_setting(v: Option<String>) -> Option<Seq<char>> {
    match v {
        Some(s) => if trim(s@).len() > 0 {
            Some(trim(s@))
        } else {
            None
        },
        None => None,
    }
}

/// Text of a data URL holding a base64 image.
pub open spec fn data_url(mime: Seq<char>, b64: Seq<char>) -> Seq<char> {
    "data:"@ + mime + ";base64,"@ + b64
}

/// The model used for a request: the requested one trimmed, unless that is
/// empty, else the client's default.
pub open spec fn resolved_model(requested: Option<Seq<char>>, default: Seq<char>) -> Seq<char> {
    match requested {
        Some(m) => if trim(m).len() > 0 {
            trim(m)
        } else {
            default
        },
        None => default,
    }
}

impl PollinationsClient {
    /// The client configured by `env`: `POLLINATIONS_API_KEY` (trimmed; empty
    /// counts as unset), `POLLINATIONS_API_BASE`, `POLLINATIONS_IMAGE_MODEL`,
    /// `POLLINATIONS_IMAGE_SIZE`, `POLLINATIONS_IMAGE_QUALITY`, and
    /// `POLLINATIONS_REFERRER` falling back to `VOCAI_BASE_URL`.
    pub fn new(env: PollinationsEnv) -> (c: Self)
        ensures
            match key_setting(env.api_key) {
                Some(k) => c.api_key matches Some(ck) && ck@ == k,
                None => c.api_key is None,
            },
            c.api_base@ == setting(env.api_base, DEFAULT_API_BASE@),
            c.default_model@ == setting(env.image_model, DEFAULT_IMAGE_MODEL@),
            c.default_size@ == setting(env.image_size, DEFAULT_IMAGE_SIZE@),
            c.default_quality@ == setting(env.image_quality, DEFAULT_IMAGE_QUALITY@),
            c.referrer@ == (match env.referrer {
                Some(r) => r@,
                None => setting(env.site_url, DEFAULT_REFERRER@),
            }),
    {
        let api_key = match env.api_key {
            Some(value) => {
                let t = trimmed(value.as_str());
                if t.as_str().is_empty() {
                    None
                } else {
                    Some(t)
                }
            },
            None => None,
        };
        let referrer = match env.referrer {
            Some(r) => r,
            None => setting_or(env.site_url, DEFAULT_REFERRER),
        };
        PollinationsClient {
            api_key,
            api_base: setting_or(env.api_base, DEFAULT_API_BASE),
            default_model: setting_or(env.image_model, DEFAULT_IMAGE_MODEL),
            default_size: setting_or(env.image_size, DEFAULT_IMAGE_SIZE),
            default_quality: setting_or(env.image_quality, DEFAULT_IMAGE_QUALITY),
            referrer,
        }
    }

    /// Whether an API key is configured.
    pub fn has_key(&self) -> (b: bool)
        ensures
            b == self.api_key is Some,
    {
        self.api_key.is_some()
    }

    /// The model used when a request names none.
    pub fn default_model(&self) -> (m: &str)
        ensures
            m@ == self.default_model@,
    {
        self.default_model.as_str()
    }

    /// The call that generates an image for `prompt`, or why none can be
    /// made: an empty prompt (after trimming) or a missing API key.
    pub fn image_request(&self, prompt: &str, model: Option<&str>, user: Option<&str>) -> (r:
        Result<ImageRequest, PollinationsError>)
        ensures
            trim(prompt@).len() == 0 ==> r matches Err(PollinationsError::MissingPrompt),
            trim(prompt@).len() > 0 && self.api_key is None ==> r matches Err(
                PollinationsError::MissingKey,
            ),
            trim(prompt@).len() > 0 && self.api_key is Some ==> (r matches Ok(q) && {
                &&& q.url@ == strip_trailing(self.api_base@, '/') + "/v1/images/generations"@
                &&& q.authorization@ == "Bearer "@ + self.api_key->0@
                &&& q.referer@ == if valid_header_value(self.referrer@) {
                    self.referrer@
                } else {
                    DEFAULT_REFERRER@
                }
                &&& q.user_agent@ == USER_AGENT@
                &&& q.n == 1
                &&& q.response_format@ == "url"@
                &&& q.safe
                &&& q.prompt@ == trim(prompt@)
                &&& q.model@ == resolved_model(
                    match model {
                        Some(m) => Some(m@),
                        None => None,
                    },
                    self.default_model@,
                )
                &&& q.size@ == self.default_size@
                &&& q.quality@ == self.default_quality@
                &&& match user {
                    Some(u) => q.user matches Some(qu) && qu@ == u@,
                    None => q.user is None,
                }
            }),
    {
        let p = trimmed(prompt);
        if p.as_str().is_empty() {
            return Err(PollinationsError::MissingPrompt);
        }
        let key = match &self.api_key {
            Some(k) => k,
            None => {
                return Err(PollinationsError::MissingKey);
            },
        };
        let resolved = match model {
            Some(m) => {
                let t = trimmed(m);
                if t.as_str().is_empty() {
                    owned(self.default_model.as_str())
                } else {
                    t
                }
            },
            None => owned(self.default_model.as_str()),
        };
        let base = trim_trailing_slashes(self.api_base.as_str());
        let referer = if is_valid_header_value(self.referrer.as_str()) {
            owned(self.referrer.as_str())
        } else {
            owned(DEFAULT_REFERRER)
        };
        Ok(
            ImageRequest {
                url: concat2(base.as_str(), "/v1/images/generations"),
                authorization: concat2("Bearer ", key.as_str()),
                referer,
                user_agent: owned(USER_AGENT),
                n: 1,
                response_format: owned("url"),
                safe: true,
                prompt: p,
                model: resolved,
                size: owned(self.default_size.as_str()),
                quality: owned(self.default_quality.as_str()),
                user: match user {
                    Some(u) => Some(owned(u)),
                    None => None,
                },
            },
        )
    }

    /// A free image link for `prompt`: the prompt, percent-encoded, appended
    /// to the public Pollinations image endpoint.
    pub fn generate_image_url(&self, prompt: &str) -> (u: String)
        ensures
            u@ == FREE_IMAGE_ENDPOINT@ + url_encoded(prompt@),
    {
        let e = url_encode(prompt);
        concat2(FREE_IMAGE_ENDPOINT, e.as_str())
    }
}

/// `str::trim_end_matches('/')`.
fn trim_trailing_slashes(s: &str) -> (r: String)
    ensures
        r@ == strip_trailing(s@, '/'),
{
    let v = chars_of(s);
    let mut k = v.len();
    assert(v@.subrange(0, k as int) =~= v@);
    while k > 0 && v[k - 1] == '/'
        invariant
            k <= v@.len(),
            strip_trailing(v@, '/') == strip_trailing(v@.subrange(0, k as int), '/'),
        decreases k,
    {
        assert(v@.subrange(0, k as int).drop_last() =~= v@.subrange(0, k - 1));
        k = k - 1;
    }
    string_of_range(&v, 0, k)
}

/// Reads the reply of an image generation call made with `model`.
pub fn image_outcome(reply: ImageReply, model: String) -> (r: Result<
    ImageArtifact,
    PollinationsError,
>)
    ensures
        match reply {
            ImageReply::Failed(e) => r matches Err(PollinationsError::Request(m)) && m == e,
            ImageReply::Rejected { status, body } => r matches Err(PollinationsError::Api(m))
                && m@ == "HTTP "@ + status@ + ": "@ + body@,
            ImageReply::Data(None) => r matches Err(PollinationsError::Response(m)) && m@
                == "missing image data"@,
            ImageReply::Data(Some(d)) => match (d.url, d.b64_json) {
                (Some(u), _) => r matches Ok(a) && a.url == u && a.model == model,
                (None, Some(b)) => r matches Ok(a) && a.url@ == data_url(
                    setting(d.mime_type, "image/jpeg"@),
                    b@,
                ) && a.model == model,
                (None, None) => r matches Err(PollinationsError::Response(m)) && m@
                    == "missing url in response"@,
            },
        },
{
    match reply {
        ImageReply::Failed(e) => Err(PollinationsError::Request(e)),
        ImageReply::Rejected { status, body } => {
            let mut m = owned("HTTP ");
            m.append(status.as_str());
            m.append(": ");
            m.append(body.as_str());
            Err(PollinationsError::Api(m))
        },
        ImageReply::Data(None) => Err(PollinationsError::Response(owned("missing image data"))),
        ImageReply::Data(Some(d)) => {
            let ImageData { url, b64_json, mime_type } = d;
            match url {
                Some(u) => Ok(ImageArtifact { url: u, model }),
                None => match b64_json {
                    Some(b) => {
                        let mime = setting_or(mime_type, "image/jpeg");
                        let mut u = owned("data:");
                        u.append(mime.as_str());
                        u.append(";base64,");
                        u.append(b.as_str());
                        Ok(ImageArtifact { url: u, model })
                    },
                    None => Err(PollinationsError::Response(owned("missing url in response"))),
                },
            }
        },
    }
}

/// Google Translate text-to-speech links.
pub struct TTSClient;

/// The audio link for `text` spoken in `lang`.
pub open spec fn audio_url(text: Seq<char>, lang: Seq<char>) -> Seq<char> {
    TTS_ENDPOINT@ + lang + TTS_QUERY_SEPARATOR@ + url_encoded(text)
}

impl TTSClient {
    /// MP3 audio link for `text` in language `lang` (e.g. `en`, `es`, `vi`);
    /// the text is percent-encoded, the language code is used as given.
    pub fn generate_audio_url(text: &str, lang: &str) -> (u: String)
        ensures
            u@ == audio_url(text@, lang@),
    {
        let e = url_encode(text);
        let mut u = owned(TTS_ENDPOINT);
        u.append(lang);
        u.append(TTS_QUERY_SEPARATOR);
        u.append(e.as_str());
        u
    }
}

/// The spoken text travels intact in the last query parameter: the link
/// ends with `&q=` followed by the percent-encoded text, which holds no
/// character that could end the parameter.
pub proof fn law_audio_url_carries_text(text: Seq<char>, lang: Seq<char>)
    ensures
        audio_url(text, lang).skip(audio_url(text, lang).len() - url_encoded(text).len())
            == url_encoded(text),
        forall|i: int|
            0 <= i < url_encoded(text).len() ==> crate::urlenc::is_encoded_char(
                #[trigger] url_encoded(text)[i],
            ),
{
    let a = audio_url(text, lang);
    let e = url_encoded(text);
    assert(a.skip(a.len() - e.len()) =~= e);
    crate::urlenc::law_encoded_text_is_query_safe(vstd::utf8::encode_utf8(text));
}


/// Every text of visible ASCII characters (space to `~`), such as any URL,
/// is a valid header value, and so is one with tabs among them; so a
/// configured referrer of that kind is sent unchanged.
pub proof fn law_visible_ascii_is_valid_header(s: Seq<char>)
    requires
        forall|i: int| 0 <= i < s.len() ==> (' ' <= #[trigger] s[i] <= '~' || s[i] == '\t'),
    ensures
        valid_header_value(s),
{
}

/// A text holding a control character other than tab, or DEL, is not a
/// valid header value.
pub proof fn law_control_characters_invalid_header(s: Seq<char>, i: int)
    requires
        0 <= i < s.len(),
        (s[i] < ' ' && s[i] != '\t') || s[i] == '\x7f',
    ensures
        !valid_header_value(s),
{
}

} // verus!
