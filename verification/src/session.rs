//! Session cookies: the `Set-Cookie` values the server sends (built by the
//! `cookie` crate) and the parsing of the `Cookie` request header.
//!
//! Two cookies exist: `vocai_session`, holding `<user id>:<access token>`,
//! and the older `session_id`, holding only the user id.

use vstd::prelude::*;
use cookie::{Cookie, SameSite};
use crate::ids::{
    parse_uuid, uuid_text, uuid_parse_result, uuid_of_text, uuid_hyphenated, lemma_uuid_text_chars,
    lemma_uuid_text_length,
};
use crate::text::{
    chars_of, find_in, trim_bounds, range_has_prefix, string_of_range, concat3, first_pos, trim,
    has_prefix, strip_all_prefixes, is_ws, signed_decimal, lemma_first_pos, lemma_first_pos_unique,
    lemma_lead_ws_unique, lemma_trail_ws_unique,
};

verus! {

/// The `SameSite` attribute of a cookie.
pub enum SameSitePolicy {
    Strict,
    Lax,
    Unrestricted,
}

/// Name of the session cookie holding `<user id>:<token>`.
pub const SESSION_COOKIE: &'static str = "vocai_session";

/// Name of the cookie holding only the user id.
pub const USER_COOKIE: &'static str = "session_id";

/// Seconds a session lasts: seven days.
pub const SESSION_MAX_AGE_SECS: i64 = 604800;

/// Value of the `SameSite` attribute.
pub open spec fn same_site_text(same_site: SameSitePolicy) -> Seq<char> {
    match same_site {
        SameSitePolicy::Strict => "Strict"@,
        SameSitePolicy::Lax => "Lax"@,
        SameSitePolicy::Unrestricted => "None"@,
    }
}

/// The `Set-Cookie` header value of a cookie with these attributes:
/// `name=value`, then `; HttpOnly` if set, `; SameSite=...`, `; Secure` if
/// set, `; Path=...` and `; Max-Age=<seconds>`, in that order.
pub open spec fn set_cookie_text(
    name: Seq<char>,
    value: Seq<char>,
    path: Seq<char>,
    http_only: bool,
    secure: bool,
    same_site: SameSitePolicy,
    max_age_secs: i64,
) -> Seq<char> {
    name + seq!['='] + value + (if http_only {
        "; HttpOnly"@
    } else {
        Seq::empty()
    }) + "; SameSite="@ + same_site_text(same_site) + (if secure {
        "; Secure"@
    } else {
        Seq::empty()
    }) + "; Path="@ + path + "; Max-Age="@ + signed_decimal(max_age_secs as int)
}

/// `cookie::Cookie::new` with `set_path`, `set_http_only`, `set_secure`,
/// `set_same_site`, `set_max_age` (`time::Duration::seconds`), then
/// `to_string`. Trusted: the crate writes `name=value` unencoded, then, of
/// the attributes set here, `HttpOnly` when true, `SameSite`, `Secure` when
/// true, `Path` and `Max-Age` in whole seconds, each after `; `, in that
/// order; nothing else is set, so nothing else is written.
#[verifier::external_body]
fn render_set_cookie(
    name: &str,
    value: &str,
    path: &str,
    http_only: bool,
    secure: bool,
    same_site: SameSitePolicy,
    max_age_secs: i64,
) -> (r: String)
    ensures
        r@ == set_cookie_text(name@, value@, path@, http_only, secure, same_site, max_age_secs),
{
    let mut c = Cookie::new(name.to_owned(), value.to_owned());
    c.set_path(path.to_owned());
    c.set_http_only(http_only);
    c.set_secure(secure);
    c.set_same_site(
        match same_site {
            SameSitePolicy::Strict => SameSite::Strict,
            SameSitePolicy::Lax => SameSite::Lax,
            SameSitePolicy::Unrestricted => SameSite::None,
        },
    );
    c.set_max_age(time::Duration::seconds(max_age_secs));
    c.to_string()
}

/// A cookie of this application: path `/`, HTTP-only, secure, `SameSite=Lax`.
pub open spec fn app_cookie_text(name: Seq<char>, value: Seq<char>, max_age_secs: i64) -> Seq<
    char,
> {
    set_cookie_text(name, value, "/"@, true, true, SameSitePolicy::Lax, max_age_secs)
}

fn app_cookie(name: &str, value: &str, max_age_secs: i64) -> (r: String)
    ensures
        r@ == app_cookie_text(name@, value@, max_age_secs),
        has_prefix(r@, name@ + seq!['='] + value@),
{
    let r = render_set_cookie(name, value, "/", true, true, SameSitePolicy::Lax, max_age_secs);
    proof {
        let head = name@ + seq!['='] + value@;
        let tail = "; HttpOnly"@ + "; SameSite="@ + "Lax"@ + "; Secure"@ + "; Path="@ + "/"@
            + "; Max-Age="@ + signed_decimal(max_age_secs as int);
        assert(r@ =~= head + tail);
        assert((head + tail).take(head.len() as int) =~= head);
    }
    r
}

/// The value stored in the session cookie: `<user id>:<token>`.
pub open spec fn session_value(user_id: u128, token: Seq<char>) -> Seq<char> {
    uuid_hyphenated(user_id) + seq![':'] + token
}

/// `Set-Cookie` value that opens a session for `user_id` with the access
/// `token`, valid for seven days.
pub fn login_cookie(user_id: u128, token: &str) -> (r: String)
    ensures
        r@ == app_cookie_text(SESSION_COOKIE@, session_value(user_id, token@), SESSION_MAX_AGE_SECS),
        has_prefix(r@, SESSION_COOKIE@ + seq!['='] + session_value(user_id, token@)),
{
    let id = uuid_text(user_id);
    let value = concat3(id.as_str(), ":", token);
    proof {
        reveal_strlit(":");
        assert(value@ =~= session_value(user_id, token@));
    }
    app_cookie(SESSION_COOKIE, value.as_str(), SESSION_MAX_AGE_SECS)
}

/// `Set-Cookie` value that ends the session: empty value, `Max-Age=0`.
pub fn logout_cookie() -> (r: String)
    ensures
        r@ == app_cookie_text(SESSION_COOKIE@, ""@, 0),
{
    app_cookie(SESSION_COOKIE, "", 0)
}

/// `Set-Cookie` value that stores `user_id` in the `session_id` cookie for
/// seven days.
pub fn create_session_cookie(user_id: u128) -> (r: String)
    ensures
        r@ == app_cookie_text(USER_COOKIE@, uuid_hyphenated(user_id), SESSION_MAX_AGE_SECS),
        has_prefix(r@, USER_COOKIE@ + seq!['='] + uuid_hyphenated(user_id)),
{
    let id = uuid_text(user_id);
    app_cookie(USER_COOKIE, id.as_str(), SESSION_MAX_AGE_SECS)
}

/// `Set-Cookie` value that clears the `session_id` cookie.
pub fn clear_session_cookie() -> (r: String)
    ensures
        r@ == app_cookie_text(USER_COOKIE@, ""@, 0),
{
    app_cookie(USER_COOKIE, "", 0)
}

// ---------------------------------------------------------------------------
// Reading the Cookie request header
// ---------------------------------------------------------------------------

/// The value of the first `;`-separated entry of the header `s` that, once
/// trimmed, starts with `name_eq` (`name=`); every leading repetition of
/// `name_eq` is removed from it. `None` when no entry starts so.
pub open spec fn first_cookie_value(s: Seq<char>, name_eq: Seq<char>) -> Option<Seq<char>>
    decreases s.len(),
{
    let i = first_pos(s, ';');
    let entry = trim(s.take(i));
    if has_prefix(entry, name_eq) {
        Some(strip_all_prefixes(entry, name_eq))
    } else if 0 <= i < s.len() {
        first_cookie_value(s.skip(i + 1), name_eq)
    } else {
        None
    }
}

/// Splits at the first `:` (`str::split_once`).
pub open spec fn split_at_colon(v: Seq<char>) -> Option<(Seq<char>, Seq<char>)> {
    let j = first_pos(v, ':');
    if 0 <= j < v.len() {
        Some((v.take(j), v.skip(j + 1)))
    } else {
        None
    }
}

/// The session named by a `Cookie` header: the user id and access token of
/// the first `vocai_session` entry, when its value is `<uuid>:<token>`.
pub open spec fn session_of(header: Option<Seq<char>>) -> Option<(u128, Seq<char>)> {
    match header {
        None => None,
        Some(h) => match first_cookie_value(h, SESSION_COOKIE@ + seq!['=']) {
            None => None,
            Some(v) => match split_at_colon(v) {
                None => None,
                Some((id_text, token)) => match uuid_of_text(id_text) {
                    None => None,
                    Some(id) => Some((id, token)),
                },
            },
        },
    }
}

/// The user named by the first `session_id` entry of a `Cookie` header.
pub open spec fn user_of(header: Option<Seq<char>>) -> Option<u128> {
    match header {
        None => None,
        Some(h) => match first_cookie_value(h, USER_COOKIE@ + seq!['=']) {
            None => None,
            Some(v) => uuid_of_text(v),
        },
    }
}

/// Bounds of `first_cookie_value(v, name_eq)` inside `v`.
fn cookie_value_bounds(v: &Vec<char>, name_eq: &Vec<char>) -> (r: Option<(usize, usize)>)
    requires
        name_eq@.len() > 0,
    ensures
        match r {
            None => first_cookie_value(v@, name_eq@) is None,
            Some((a, b)) => a <= b <= v@.len() && first_cookie_value(v@, name_eq@) == Some(
                v@.subrange(a as int, b as int),
            ),
        },
{
    let n = v.len();
    let mut start: usize = 0;
    assert(v@.skip(0) =~= v@);
    loop
        invariant
            n == v@.len(),
            start <= n,
            name_eq@.len() > 0,
            first_cookie_value(v@, name_eq@) == first_cookie_value(v@.skip(start as int), name_eq@),
        decreases n - start,
    {
        let ghost s = v@.skip(start as int);
        let i = find_in(v, ';', start, n);
        assert(v@.subrange(start as int, n as int) =~= s);
        assert(s.take(i - start) =~= v@.subrange(start as int, i as int));
        let (a, b) = trim_bounds(v, start, i);
        if range_has_prefix(v, a, b, name_eq) {
            let mut c = a;
            while range_has_prefix(v, c, b, name_eq)
                invariant
                    a <= c <= b <= v@.len(),
                    name_eq@.len() > 0,
                    strip_all_prefixes(v@.subrange(a as int, b as int), name_eq@)
                        == strip_all_prefixes(v@.subrange(c as int, b as int), name_eq@),
                decreases b - c,
            {
                assert(v@.subrange(c as int, b as int).skip(name_eq@.len() as int) =~= v@.subrange(
                    c + name_eq@.len(),
                    b as int,
                ));
                c = c + name_eq.len();
            }
            return Some((c, b));
        }
        if i >= n {
            return None;
        }
        assert(s.skip(i - start + 1) =~= v@.skip(i + 1));
        start = i + 1;
    }
}

/// Reads the session from the `Cookie` header (if the request has one):
/// the first entry named `vocai_session`, split at its first `:` into a
/// user id and an access token. An entry whose value is malformed yields
/// no session, even if a later entry would.
pub fn get_session(cookie_header: Option<&str>) -> (r: Option<(u128, String)>)
    ensures
        match r {
            None => session_of(
                match cookie_header {
                    Some(h) => Some(h@),
                    None => None,
                },
            ) is None,
            Some((id, token)) => session_of(
                match cookie_header {
                    Some(h) => Some(h@),
                    None => None,
                },
            ) == Some((id, token@)),
        },
{
    match cookie_header {
        None => None,
        Some(h) => {
            let v = chars_of(h);
            let p = chars_of("vocai_session=");
            proof {
                reveal_strlit("vocai_session=");
                reveal_strlit("vocai_session");
                assert(p@ == SESSION_COOKIE@ + seq!['=']);
            }
            match cookie_value_bounds(&v, &p) {
                None => None,
                Some((a, b)) => {
                    let j = find_in(&v, ':', a, b);
                    let ghost val = v@.subrange(a as int, b as int);
                    if j >= b {
                        None
                    } else {
                        assert(val.take(j - a) =~= v@.subrange(a as int, j as int));
                        assert(val.skip(j - a + 1) =~= v@.subrange(j + 1, b as int));
                        let id_text = string_of_range(&v, a, j);
                        match parse_uuid(id_text.as_str()) {
                            None => None,
                            Some(id) => Some((id, string_of_range(&v, j + 1, b))),
                        }
                    }
                }
            }
        }
    }
}

/// Reads the user id from the first `session_id` entry of the `Cookie`
/// header.
pub fn get_user_from_session(cookie_header: Option<&str>) -> (r: Option<u128>)
    ensures
        r == user_of(
            match cookie_header {
                Some(h) => Some(h@),
                None => None,
            },
        ),
{
    match cookie_header {
        None => None,
        Some(h) => {
            let v = chars_of(h);
            let p = chars_of("session_id=");
            proof {
                reveal_strlit("session_id=");
                reveal_strlit("session_id");
                assert(p@ == USER_COOKIE@ + seq!['=']);
            }
            match cookie_value_bounds(&v, &p) {
                None => None,
                Some((a, b)) => {
                    let id_text = string_of_range(&v, a, b);
                    parse_uuid(id_text.as_str())
                },
            }
        }
    }
}

// ---------------------------------------------------------------------------
// Laws
// ---------------------------------------------------------------------------

/// A header holding a single entry, white space `lead` then `name_eq` +
/// `rest`, where `rest` has no `;`, does not end in white space and does
/// not itself start with `name_eq`, gives `rest` as the cookie's value.
proof fn lemma_single_entry(lead: Seq<char>, name_eq: Seq<char>, rest: Seq<char>)
    requires
        forall|i: int| 0 <= i < lead.len() ==> is_ws(lead[i]),
        name_eq.len() > 0,
        !is_ws(name_eq[0]),
        forall|i: int| 0 <= i < name_eq.len() ==> name_eq[i] != ';',
        forall|i: int| 0 <= i < rest.len() ==> rest[i] != ';',
        rest.len() == 0 || !is_ws(rest.last()),
        rest.len() > 0 || !is_ws(name_eq.last()),
        !has_prefix(rest, name_eq),
    ensures
        first_cookie_value(lead + name_eq + rest, name_eq) == Some(rest),
{
    let e = name_eq + rest;
    let s = lead + e;
    assert(s =~= lead + name_eq + rest);
    assert forall|j: int| 0 <= j < s.len() implies s[j] != ';' by {
        if j < lead.len() {
            assert(s[j] == lead[j]);
            assert(is_ws(lead[j]));
        } else if j < lead.len() + name_eq.len() {
            assert(s[j] == name_eq[j - lead.len()]);
        } else {
            assert(s[j] == rest[j - lead.len() - name_eq.len()]);
        }
    }
    lemma_first_pos_unique(s, ';', s.len() as int);
    assert(s.take(s.len() as int) =~= s);
    assert(s[lead.len() as int] == name_eq[0]);
    lemma_lead_ws_unique(s, lead.len() as int);
    assert(s.skip(lead.len() as int) =~= e);
    if rest.len() == 0 {
        assert(e[e.len() - 1] == name_eq.last());
    } else {
        assert(e[e.len() - 1] == rest.last());
    }
    lemma_trail_ws_unique(e, 0);
    assert(e.take(e.len() as int) =~= e);
    assert(trim(s) =~= e);
    assert(e.take(name_eq.len() as int) =~= name_eq);
    assert(e.skip(name_eq.len() as int) =~= rest);
    assert(has_prefix(e, name_eq));
    assert(strip_all_prefixes(e, name_eq) == strip_all_prefixes(rest, name_eq));
    assert(strip_all_prefixes(rest, name_eq) == rest);
}

/// Reading back a session: a `Cookie` header that holds the value the login
/// cookie stores, `vocai_session=<user id>:<token>`, names that user and
/// token — for every token without `;` and without trailing white space,
/// given that the UUID text of the user id parses back to it (which
/// `parse_uuid` states for every call).
pub proof fn law_session_round_trip(user_id: u128, token: Seq<char>)
    requires
        uuid_parse_result(uuid_hyphenated(user_id)) == Some(user_id),
        forall|i: int| 0 <= i < token.len() ==> token[i] != ';',
        token.len() == 0 || !is_ws(token.last()),
    ensures
        session_of(Some(SESSION_COOKIE@ + seq!['='] + session_value(user_id, token))) == Some(
            (user_id, token),
        ),
{
    reveal_strlit("vocai_session");
    let name_eq = SESSION_COOKIE@ + seq!['='];
    let u = uuid_hyphenated(user_id);
    let rest = session_value(user_id, token);
    lemma_uuid_text_chars(user_id);
    assert forall|i: int| 0 <= i < rest.len() implies rest[i] != ';' by {
        if i < 36 {
            assert(rest[i] == u[i]);
        } else if i > 36 {
            assert(rest[i] == token[i - 37]);
        }
    }
    if token.len() == 0 {
        assert(rest.last() == ':');
    } else {
        assert(rest.last() == token.last());
    }
    assert(rest[0] == u[0]);
    assert(rest.take(name_eq.len() as int)[0] == rest[0]);
    lemma_single_entry(Seq::empty(), name_eq, rest);
    assert(Seq::<char>::empty() + name_eq + rest =~= name_eq + rest);
    assert(SESSION_COOKIE@ + seq!['='] + session_value(user_id, token) == name_eq + rest);
    assert forall|j: int| 0 <= j < 36 implies rest[j] != ':' by {
        assert(rest[j] == u[j]);
    }
    assert(rest[36] == ':');
    lemma_first_pos_unique(rest, ':', 36);
    assert(rest.take(36) =~= u);
    assert(rest.skip(37) =~= token);
    lemma_uuid_text_length(user_id);
}

/// Entries of other cookies before the sought one do not change what is
/// read: an entry without `;` that, trimmed, does not start with `name=`
/// is skipped.
pub proof fn law_other_cookies_skipped(other: Seq<char>, rest: Seq<char>, name_eq: Seq<char>)
    requires
        forall|i: int| 0 <= i < other.len() ==> other[i] != ';',
        !has_prefix(trim(other), name_eq),
    ensures
        first_cookie_value(other + seq![';'] + rest, name_eq) == first_cookie_value(rest, name_eq),
{
    let s = other + seq![';'] + rest;
    assert forall|j: int| 0 <= j < other.len() implies s[j] != ';' by {
        assert(s[j] == other[j]);
    }
    assert(s[other.len() as int] == ';');
    lemma_first_pos_unique(s, ';', other.len() as int);
    assert(s.take(other.len() as int) =~= other);
    assert(s.skip(other.len() + 1int) =~= rest);
}

/// After logout the browser sends back an empty `vocai_session` value,
/// which names no session.
pub proof fn law_cleared_cookie_names_no_session()
    ensures
        session_of(Some(SESSION_COOKIE@ + seq!['='])) is None,
{
    reveal_strlit("vocai_session");
    let name_eq = SESSION_COOKIE@ + seq!['='];
    lemma_single_entry(Seq::empty(), name_eq, Seq::empty());
    assert(Seq::<char>::empty() + name_eq + Seq::<char>::empty() =~= name_eq);
    lemma_first_pos(Seq::<char>::empty(), ':');
}

/// Reading back the user cookie: the header a browser sends after
/// `create_session_cookie`, `session_id=<user id>`, alone or after another
/// cookie (`<other>; session_id=<user id>`), names that user, given that
/// the UUID text of the user id parses back to it (which `parse_uuid`
/// states for every call).
pub proof fn law_user_cookie_round_trip(other: Seq<char>, user_id: u128)
    requires
        uuid_parse_result(uuid_hyphenated(user_id)) == Some(user_id),
        forall|i: int| 0 <= i < other.len() ==> other[i] != ';',
        !has_prefix(trim(other), USER_COOKIE@ + seq!['=']),
    ensures
        user_of(Some(USER_COOKIE@ + seq!['='] + uuid_hyphenated(user_id))) == Some(user_id),
        user_of(Some(other + seq![';', ' '] + USER_COOKIE@ + seq!['='] + uuid_hyphenated(user_id)))
            == Some(user_id),
{
    reveal_strlit("session_id");
    let name_eq = USER_COOKIE@ + seq!['='];
    let u = uuid_hyphenated(user_id);
    lemma_uuid_text_chars(user_id);
    lemma_uuid_text_length(user_id);
    assert forall|i: int| 0 <= i < u.len() implies u[i] != ';' by {
        assert(('0' <= u[i] <= '9') || ('a' <= u[i] <= 'f') || u[i] == '-');
    }
    assert(u.last() == u[35]);
    assert(!is_ws(u.last())) by {
        assert(('0' <= u[35] <= '9') || ('a' <= u[35] <= 'f') || u[35] == '-');
    }
    assert(!has_prefix(u, name_eq)) by {
        assert(u.take(name_eq.len() as int)[0] == u[0]);
        assert(('0' <= u[0] <= '9') || ('a' <= u[0] <= 'f') || u[0] == '-');
    }
    lemma_single_entry(Seq::empty(), name_eq, u);
    assert(Seq::<char>::empty() + name_eq + u =~= name_eq + u);
    lemma_single_entry(seq![' '], name_eq, u);
    law_other_cookies_skipped(other, seq![' '] + name_eq + u, name_eq);
    assert(other + seq![';', ' '] + USER_COOKIE@ + seq!['='] + u =~= other + seq![';'] + (seq![
        ' ',
    ] + name_eq + u));
}

/// The empty `session_id` value that `clear_session_cookie` leaves behind
/// names no user.
pub proof fn law_cleared_user_cookie_names_no_user()
    ensures
        user_of(Some(USER_COOKIE@ + seq!['='])) is None,
{
    reveal_strlit("session_id");
    let name_eq = USER_COOKIE@ + seq!['='];
    lemma_single_entry(Seq::empty(), name_eq, Seq::empty());
    assert(Seq::<char>::empty() + name_eq + Seq::<char>::empty() =~= name_eq);
    lemma_uuid_text_length(0);
}

/// Only the first entry of a cookie counts: in `name=<v>;<rest>` the value
/// read is `v` (for a `v` without `;`, not ending in white space and not
/// itself starting with `name=`), whatever `rest` holds; for the user
/// cookie, the user read is the one `v` names.
pub proof fn law_first_entry_counts(name_eq: Seq<char>, v: Seq<char>, rest: Seq<char>)
    requires
        name_eq.len() > 0,
        !is_ws(name_eq[0]),
        !is_ws(name_eq.last()),
        forall|i: int| 0 <= i < name_eq.len() ==> name_eq[i] != ';',
        forall|i: int| 0 <= i < v.len() ==> v[i] != ';',
        v.len() == 0 || !is_ws(v.last()),
        !has_prefix(v, name_eq),
    ensures
        first_cookie_value(name_eq + v + seq![';'] + rest, name_eq) == Some(v),
        name_eq == USER_COOKIE@ + seq!['='] ==> user_of(Some(name_eq + v + seq![';'] + rest))
            == uuid_of_text(v),
{
    lemma_single_entry(Seq::empty(), name_eq, v);
    let e = name_eq + v;
    assert(Seq::<char>::empty() + name_eq + v =~= e);
    assert forall|j: int| 0 <= j < e.len() implies e[j] != ';' by {
        if j < name_eq.len() {
            assert(e[j] == name_eq[j]);
        } else {
            assert(e[j] == v[j - name_eq.len()]);
        }
    }
    let s = e + seq![';'] + rest;
    assert(s =~= name_eq + v + seq![';'] + rest);
    assert forall|j: int| 0 <= j < e.len() implies s[j] != ';' by {
        assert(s[j] == e[j]);
    }
    assert(s[e.len() as int] == ';');
    lemma_first_pos_unique(s, ';', e.len() as int);
    lemma_first_pos_unique(e, ';', e.len() as int);
    assert(s.take(e.len() as int) =~= e);
    assert(e.take(e.len() as int) =~= e);
}

} // verus!
