//! Sign-in: the login page, the OAuth callback with the W9 DB identity
//! provider, and logout.
//!
//! The callback alternates HTTP calls and decisions; the decisions are the
//! step function `callback_step`, from the current stage and what the last
//! call produced to the next stage and the next thing to do.

use vstd::prelude::*;
use crate::session::{
    session_of, login_cookie, logout_cookie, app_cookie_text, session_value, SESSION_COOKIE,
    SESSION_MAX_AGE_SECS, law_session_round_trip,
};
use crate::text::{owned, concat2, concat3, is_ws};
use crate::ids::{uuid_parse_result, uuid_hyphenated};

pub use crate::session::get_session;

verus! {

/// The login page: a card with a button that opens the W9 DB authorization
/// in a popup.
pub const LOGIN_PAGE: &'static str = "<!DOCTYPE html>\n<html lang=\"en\">\n<head>\n  <meta charset=\"utf-8\">\n  <meta name=\"viewport\" content=\"width=device-width, initial-scale=1\">\n  <title>Vocai Login</title>\n  <style>\n    :root {{ --bg: #050505; --panel: #111111; --text: #e5e5e5; --accent: #00ff41; --border: #e5e5e5; }}\n    * {{ box-sizing: border-box; }}\n    body {{ margin: 0; min-height: 100vh; display: grid; place-items: center; background: var(--bg); color: var(--text); font-family: monospace; padding: 24px; }}\n    .card {{ width: min(100%, 520px); background: var(--panel); border: 4px solid var(--border); box-shadow: 8px 8px 0 #000; padding: 24px; text-align: center; }}\n    img {{ width: min(100%, 320px); height: auto; display: block; margin: 0 auto 16px; }}\n    h1 {{ margin: 0 0 12px; }}\n    p {{ margin: 0 0 20px; line-height: 1.5; }}\n    .btn {{ display: inline-block; padding: 14px 18px; background: var(--accent); color: #000; border: 3px solid var(--border); box-shadow: 4px 4px 0 #000; text-decoration: none; font-weight: 700; }}\n    .btn:hover {{ transform: translate(2px, 2px); box-shadow: 2px 2px 0 #000; }}\n  </style>\n</head>\n<body>\n  <div class=\"card\">\n    <img src=\"/w9-logo/logo-landscape-transparent.svg\" alt=\"W9 Labs\">\n    <h1>Vocai</h1>\n    <p>Sign in with W9 DB to sync your vocabulary progress.</p>\n    <a class=\"btn\" href=\"https://db.w9.nu/oauth/authorize?redirect_uri=https://vocai.top/auth/callback&response_type=code&client_id=vocai\" onclick=\"const w=window.open(this.href,'w9-vocai-login','width=520,height=720'); if (w) { w.focus(); return false; }\">Login with W9 DB</a>\n  </div>\n</body>\n</html>";

/// Start of the page that ends a sign-in, up to the quoted target.
pub const POPUP_PAGE_START: &'static str = "<!DOCTYPE html><html lang=\"en\"><head><meta charset=\"utf-8\"><meta name=\"viewport\" content=\"width=device-width, initial-scale=1\"><title>Vocai Login</title></head><body><script>(function(){const target = ";

/// End of the page that ends a sign-in, after the quoted target.
pub const POPUP_PAGE_END: &'static str = "; if (window.opener && !window.opener.closed) { try { window.opener.location.href = target; window.opener.focus(); } catch (_) {} window.close(); } else { window.location.replace(target); }})();</script><p>Signing you in\u{2026}</p></body></html>";

/// Where the provider sends the browser back.
pub const REDIRECT_URI: &'static str = "https://vocai.top/auth/callback";

/// Token endpoint of the provider.
pub const W9_TOKEN_URL: &'static str = "https://db.w9.nu/oauth/token";

/// Profile endpoint of the provider.
pub const W9_USER_URL: &'static str = "https://db.w9.nu/api/auth/me";

/// Where every failed sign-in sends the browser: a fresh authorization.
pub const AUTHORIZE_URL: &'static str =
    "https://db.w9.nu/oauth/authorize?redirect_uri=https://vocai.top/auth/callback&response_type=code&client_id=vocai";

/// Email recorded when the profile has none.
pub const UNKNOWN_EMAIL: &'static str = "unknown@vocai.top";

/// Page shown after sign-in.
pub const DASHBOARD_PATH: &'static str = "/dashboard";

/// Query of the OAuth callback.
pub struct OAuthCallback {
    pub code: String,
}

/// The login page.
pub fn login_html() -> (h: String)
    ensures
        h@ == LOGIN_PAGE@,
{
    owned(LOGIN_PAGE)
}

/// What `format!("{:?}", s)` prints for a text: the text quoted and escaped.
pub uninterp spec fn debug_text(s: Seq<char>) -> Seq<char>;

/// `format!("{:?}", s)` for a `&str` (std's `Debug` for `str`). Trusted:
/// the text is std's, named `debug_text`; its escaping rules are not
/// stated.
#[verifier::external_body]
fn debug_quoted(s: &str) -> (r: String)
    ensures
        r@ == debug_text(s@),
{
    format!("{:?}", s)
}

/// The page that closes the login popup and sends its opener to `target`.
pub open spec fn popup_page(target: Seq<char>) -> Seq<char> {
    POPUP_PAGE_START@ + debug_text(target) + POPUP_PAGE_END@
}

/// The page that closes the login popup and sends its opener to `target`.
pub fn popup_close_html(target: &str) -> (h: String)
    ensures
        h@ == popup_page(target@),
{
    let q = debug_quoted(target);
    concat3(POPUP_PAGE_START, q.as_str(), POPUP_PAGE_END)
}

/// Answer to `GET /login`.
pub enum LoginPage {
    /// Already signed in: go to the dashboard.
    Dashboard,
    /// The login page.
    Form(String),
}

/// `GET /login`: a request that carries a session goes to the dashboard,
/// any other gets the login page.
pub fn login(cookie_header: Option<&str>) -> (r: LoginPage)
    ensures
        session_of(
            match cookie_header {
                Some(h) => Some(h@),
                None => None,
            },
        ) is Some ==> r is Dashboard,
        session_of(
            match cookie_header {
                Some(h) => Some(h@),
                None => None,
            },
        ) is None ==> (r matches LoginPage::Form(h) && h@ == LOGIN_PAGE@),
{
    match get_session(cookie_header) {
        Some(_) => LoginPage::Dashboard,
        None => LoginPage::Form(login_html()),
    }
}

/// Answer to `GET /logout`: go home, with the session cookie cleared.
pub struct LogoutReply {
    pub location: String,
    pub set_cookie: String,
}

/// `GET /logout`.
pub fn logout() -> (r: LogoutReply)
    ensures
        r.location@ == "/"@,
        r.set_cookie@ == app_cookie_text(SESSION_COOKIE@, ""@, 0),
{
    LogoutReply { location: owned("/"), set_cookie: logout_cookie() }
}

// ---------------------------------------------------------------------------
// The OAuth callback
// ---------------------------------------------------------------------------

/// Stage of a sign-in.
pub enum CallbackState {
    Start,
    AwaitingToken,
    AwaitingUser { token: String },
    AwaitingStore { token: String },
    Done,
}

/// What the last step of a sign-in produced.
pub enum CallbackEvent {
    /// The callback request arrived with its authorization code.
    Received { code: String },
    /// The token exchange answered; `None` when the request failed, the
    /// answer was not JSON, or it held no `access_token` text.
    TokenExchanged { access_token: Option<String> },
    /// The profile request answered; `None` when it failed or was not JSON,
    /// otherwise the profile's `email` text, if any.
    UserFetched { profile: Option<Option<String>> },
    /// The user was looked up or created; `None` when that failed.
    UserStored { user_id: Option<u128> },
}

/// What to do next.
pub enum CallbackAction {
    /// POST the form to the token endpoint.
    ExchangeCode { url: String, form: Vec<(String, String)> },
    /// GET the profile with this `Authorization` header.
    FetchUser { url: String, authorization: String },
    /// Look up, or create, the user with this email.
    StoreUser { email: String },
    /// Answer with this page and `Set-Cookie` value.
    SignIn { page: String, set_cookie: String },
    /// Redirect the browser to this location.
    Reauthorize { location: String },
}

/// Stage of a sign-in, as values.
pub enum CallbackStateView {
    Start,
    AwaitingToken,
    AwaitingUser(Seq<char>),
    AwaitingStore(Seq<char>),
    Done,
}

/// Event, as values.
pub enum CallbackEventView {
    Received(Seq<char>),
    TokenExchanged(Option<Seq<char>>),
    UserFetched(Option<Option<Seq<char>>>),
    UserStored(Option<u128>),
}

/// Action, as values.
pub enum CallbackActionView {
    ExchangeCode(Seq<char>, Seq<(Seq<char>, Seq<char>)>),
    FetchUser(Seq<char>, Seq<char>),
    StoreUser(Seq<char>),
    SignIn(Seq<char>, Seq<char>),
    Reauthorize(Seq<char>),
}

/// An optional text as an optional value.
pub open spec fn opt_view(o: Option<String>) -> Option<Seq<char>> {
    match o {
        Some(s) => Some(s@),
        None => None,
    }
}

impl View for CallbackState {
    type V = CallbackStateView;

    open spec fn view(&self) -> CallbackStateView {
        match self {
            CallbackState::Start => CallbackStateView::Start,
            CallbackState::AwaitingToken => CallbackStateView::AwaitingToken,
            CallbackState::AwaitingUser { token } => CallbackStateView::AwaitingUser(token@),
            CallbackState::AwaitingStore { token } => CallbackStateView::AwaitingStore(token@),
            CallbackState::Done => CallbackStateView::Done,
        }
    }
}

impl View for CallbackEvent {
    type V = CallbackEventView;

    open spec fn view(&self) -> CallbackEventView {
        match self {
            CallbackEvent::Received { code } => CallbackEventView::Received(code@),
            CallbackEvent::TokenExchanged { access_token } => CallbackEventView::TokenExchanged(
                opt_view(*access_token),
            ),
            CallbackEvent::UserFetched { profile } => CallbackEventView::UserFetched(
                match profile {
                    Some(p) => Some(opt_view(*p)),
                    None => None,
                },
            ),
            CallbackEvent::UserStored { user_id } => CallbackEventView::UserStored(*user_id),
        }
    }
}

impl View for CallbackAction {
    type V = CallbackActionView;

    open spec fn view(&self) -> CallbackActionView {
        match self {
            CallbackAction::ExchangeCode { url, form } => CallbackActionView::ExchangeCode(
                url@,
                form@.map_values(|p: (String, String)| (p.0@, p.1@)),
            ),
            CallbackAction::FetchUser { url, authorization } => CallbackActionView::FetchUser(
                url@,
                authorization@,
            ),
            CallbackAction::StoreUser { email } => CallbackActionView::StoreUser(email@),
            CallbackAction::SignIn { page, set_cookie } => CallbackActionView::SignIn(
                page@,
                set_cookie@,
            ),
            CallbackAction::Reauthorize { location } => CallbackActionView::Reauthorize(
                location@,
            ),
        }
    }
}

/// The form of the token exchange.
pub open spec fn token_form(code: Seq<char>) -> Seq<(Seq<char>, Seq<char>)> {
    seq![
        ("grant_type"@, "authorization_code"@),
        ("code"@, code),
        ("redirect_uri"@, REDIRECT_URI@),
    ]
}

/// One step of a sign-in.
pub open spec fn callback_next(s: CallbackStateView, e: CallbackEventView) -> (
    CallbackStateView,
    CallbackActionView,
) {
    match (s, e) {
        (CallbackStateView::Start, CallbackEventView::Received(code)) => (
            CallbackStateView::AwaitingToken,
            CallbackActionView::ExchangeCode(W9_TOKEN_URL@, token_form(code)),
        ),
        (CallbackStateView::AwaitingToken, CallbackEventView::TokenExchanged(Some(t))) => (
            CallbackStateView::AwaitingUser(t),
            CallbackActionView::FetchUser(W9_USER_URL@, "Bearer "@ + t),
        ),
        (CallbackStateView::AwaitingUser(t), CallbackEventView::UserFetched(Some(email))) => (
            CallbackStateView::AwaitingStore(t),
            CallbackActionView::StoreUser(
                match email {
                    Some(m) => m,
                    None => UNKNOWN_EMAIL@,
                },
            ),
        ),
        (CallbackStateView::AwaitingStore(t), CallbackEventView::UserStored(Some(u))) => (
            CallbackStateView::Done,
            CallbackActionView::SignIn(
                popup_page(DASHBOARD_PATH@),
                app_cookie_text(SESSION_COOKIE@, session_value(u, t), SESSION_MAX_AGE_SECS),
            ),
        ),
        _ => (CallbackStateView::Done, CallbackActionView::Reauthorize(AUTHORIZE_URL@)),
    }
}

fn reauthorize() -> (r: (CallbackState, CallbackAction))
    ensures
        r.0@ == CallbackStateView::Done,
        r.1@ == CallbackActionView::Reauthorize(AUTHORIZE_URL@),
{
    (CallbackState::Done, CallbackAction::Reauthorize { location: owned(AUTHORIZE_URL) })
}

/// One step of the OAuth callback: exchange the code for a token, fetch the
/// profile with it, store the user, then sign in; any failure (and any
/// event out of order) redirects to a fresh authorization.
pub fn callback_step(state: CallbackState, event: CallbackEvent) -> (r: (
    CallbackState,
    CallbackAction,
))
    ensures
        (r.0@, r.1@) == callback_next(state@, event@),
{
    match (state, event) {
        (CallbackState::Start, CallbackEvent::Received { code }) => {
            let form = vec![
                (owned("grant_type"), owned("authorization_code")),
                (owned("code"), code),
                (owned("redirect_uri"), owned(REDIRECT_URI)),
            ];
            let action = CallbackAction::ExchangeCode { url: owned(W9_TOKEN_URL), form };
            assert(action@ == CallbackActionView::ExchangeCode(W9_TOKEN_URL@, token_form(code@)))
                by {
                if let CallbackAction::ExchangeCode { url: _, form: f } = action {
                    assert(f@.map_values(|p: (String, String)| (p.0@, p.1@)) =~= token_form(
                        code@,
                    ));
                }
            }
            (CallbackState::AwaitingToken, action)
        },
        (CallbackState::AwaitingToken, CallbackEvent::TokenExchanged { access_token }) => {
            match access_token {
                Some(t) => {
                    let authorization = concat2("Bearer ", t.as_str());
                    (
                        CallbackState::AwaitingUser { token: t },
                        CallbackAction::FetchUser { url: owned(W9_USER_URL), authorization },
                    )
                },
                None => reauthorize(),
            }
        },
        (CallbackState::AwaitingUser { token }, CallbackEvent::UserFetched { profile }) => {
            match profile {
                Some(email) => {
                    let email = match email {
                        Some(m) => m,
                        None => owned(UNKNOWN_EMAIL),
                    };
                    (CallbackState::AwaitingStore { token }, CallbackAction::StoreUser { email })
                },
                None => reauthorize(),
            }
        },
        (CallbackState::AwaitingStore { token }, CallbackEvent::UserStored { user_id }) => {
            match user_id {
                Some(u) => {
                    let page = popup_close_html(DASHBOARD_PATH);
                    let set_cookie = login_cookie(u, token.as_str());
                    (CallbackState::Done, CallbackAction::SignIn { page, set_cookie })
                },
                None => reauthorize(),
            }
        },
        _ => reauthorize(),
    }
}

/// Runs the sign-in from its start through a list of events.
pub open spec fn callback_run(events: Seq<CallbackEventView>) -> (
    CallbackStateView,
    Seq<CallbackActionView>,
)
    decreases events.len(),
{
    if events.len() == 0 {
        (CallbackStateView::Start, Seq::empty())
    } else {
        let (s, acts) = callback_run(events.drop_last());
        let (s2, a) = callback_next(s, events.last());
        (s2, acts.push(a))
    }
}

/// A sign-in whose calls all succeed exchanges the code, fetches the profile
/// with the token, stores the user by email, and ends by setting the
/// session cookie for the stored user and the token received; read back by
/// `get_session`, that cookie names the same user and token.
pub proof fn law_callback_signs_in(
    code: Seq<char>,
    token: Seq<char>,
    email: Option<Seq<char>>,
    user_id: u128,
)
    requires
        uuid_parse_result(uuid_hyphenated(user_id)) == Some(user_id),
        forall|i: int| 0 <= i < token.len() ==> token[i] != ';',
        token.len() == 0 || !is_ws(token.last()),
    ensures
        ({
            let events = seq![
                CallbackEventView::Received(code),
                CallbackEventView::TokenExchanged(Some(token)),
                CallbackEventView::UserFetched(Some(email)),
                CallbackEventView::UserStored(Some(user_id)),
            ];
            let (s, acts) = callback_run(events);
            &&& s == CallbackStateView::Done
            &&& acts == seq![
                CallbackActionView::ExchangeCode(W9_TOKEN_URL@, token_form(code)),
                CallbackActionView::FetchUser(W9_USER_URL@, "Bearer "@ + token),
                CallbackActionView::StoreUser(
                    match email {
                        Some(m) => m,
                        None => UNKNOWN_EMAIL@,
                    },
                ),
                CallbackActionView::SignIn(
                    popup_page(DASHBOARD_PATH@),
                    app_cookie_text(
                        SESSION_COOKIE@,
                        session_value(user_id, token),
                        SESSION_MAX_AGE_SECS,
                    ),
                ),
            ]
            &&& session_of(Some(SESSION_COOKIE@ + seq!['='] + session_value(user_id, token)))
                == Some((user_id, token))
        }),
{
    let events = seq![
        CallbackEventView::Received(code),
        CallbackEventView::TokenExchanged(Some(token)),
        CallbackEventView::UserFetched(Some(email)),
        CallbackEventView::UserStored(Some(user_id)),
    ];
    assert(events.drop_last().drop_last().drop_last().drop_last() =~= Seq::<
        CallbackEventView,
    >::empty());
    assert(events.drop_last().drop_last().drop_last() =~= seq![CallbackEventView::Received(code)]);
    assert(events.drop_last().drop_last() =~= seq![
        CallbackEventView::Received(code),
        CallbackEventView::TokenExchanged(Some(token)),
    ]);
    assert(events.drop_last() =~= seq![
        CallbackEventView::Received(code),
        CallbackEventView::TokenExchanged(Some(token)),
        CallbackEventView::UserFetched(Some(email)),
    ]);
    let a1 = CallbackActionView::ExchangeCode(W9_TOKEN_URL@, token_form(code));
    let a2 = CallbackActionView::FetchUser(W9_USER_URL@, "Bearer "@ + token);
    let a3 = CallbackActionView::StoreUser(
        match email {
            Some(m) => m,
            None => UNKNOWN_EMAIL@,
        },
    );
    let a4 = CallbackActionView::SignIn(
        popup_page(DASHBOARD_PATH@),
        app_cookie_text(SESSION_COOKIE@, session_value(user_id, token), SESSION_MAX_AGE_SECS),
    );
    let r0 = callback_run(Seq::<CallbackEventView>::empty());
    assert(r0 == (CallbackStateView::Start, Seq::<CallbackActionView>::empty()));
    let r1 = callback_run(events.drop_last().drop_last().drop_last());
    assert(r1.0 == CallbackStateView::AwaitingToken);
    assert(r1.1 =~= seq![a1]);
    let r2 = callback_run(events.drop_last().drop_last());
    assert(r2.0 == CallbackStateView::AwaitingUser(token));
    assert(r2.1 =~= seq![a1, a2]);
    let r3 = callback_run(events.drop_last());
    assert(r3.0 == CallbackStateView::AwaitingStore(token));
    assert(r3.1 =~= seq![a1, a2, a3]);
    let r4 = callback_run(events);
    assert(r4.0 == CallbackStateView::Done);
    assert(r4.1 =~= seq![a1, a2, a3, a4]);
    law_session_round_trip(user_id, token);
}

/// Every failed call ends the sign-in with a redirect to a fresh
/// authorization, and so does any event after the sign-in has ended.
pub proof fn law_callback_failure_reauthorizes(s: CallbackStateView, e: CallbackEventView)
    requires
        e == CallbackEventView::TokenExchanged(None) || e == CallbackEventView::UserFetched(None)
            || e == CallbackEventView::UserStored(None) || s == CallbackStateView::Done,
    ensures
        callback_next(s, e) == (
            CallbackStateView::Done,
            CallbackActionView::Reauthorize(AUTHORIZE_URL@),
        ),
{
}

} // verus!
