use vocai::session::{
    clear_session_cookie, create_session_cookie, get_session, get_user_from_session, login_cookie,
    logout_cookie,
};

const ID: u128 = 0xa1a2a3a4b1b2c1c2d1d2d3d4d5d6d7d8;
const ID_TEXT: &str = "a1a2a3a4-b1b2-c1c2-d1d2-d3d4d5d6d7d8";

#[test]
fn session_is_read_from_the_cookie_header() {
    let h = format!("vocai_session={}:tok123", ID_TEXT);
    assert_eq!(get_session(Some(&h)), Some((ID, "tok123".to_string())));
}

#[test]
fn session_is_found_among_other_cookies() {
    let h = format!("theme=dark;  vocai_session={}:a:b:c ; other=1", ID_TEXT);
    assert_eq!(get_session(Some(&h)), Some((ID, "a:b:c".to_string())));
}

#[test]
fn no_header_or_no_session_cookie_means_no_session() {
    assert_eq!(get_session(None), None);
    assert_eq!(get_session(Some("theme=dark; lang=en")), None);
    assert_eq!(get_session(Some("")), None);
}

#[test]
fn malformed_session_values_give_no_session() {
    assert_eq!(get_session(Some("vocai_session=not-a-uuid:tok")), None);
    let no_colon = format!("vocai_session={}", ID_TEXT);
    assert_eq!(get_session(Some(&no_colon)), None);
    assert_eq!(get_session(Some("vocai_session=")), None);
}

#[test]
fn only_the_first_session_entry_counts() {
    let h = format!("vocai_session=bad; vocai_session={}:t", ID_TEXT);
    assert_eq!(get_session(Some(&h)), None);
}

#[test]
fn repeated_cookie_name_prefix_is_stripped() {
    let h = format!("vocai_session=vocai_session={}:t", ID_TEXT);
    assert_eq!(get_session(Some(&h)), Some((ID, "t".to_string())));
}

#[test]
fn uppercase_and_simple_uuid_forms_are_accepted() {
    let h = "vocai_session=A1A2A3A4B1B2C1C2D1D2D3D4D5D6D7D8:x";
    assert_eq!(get_session(Some(h)), Some((ID, "x".to_string())));
}

#[test]
fn login_cookie_is_a_lax_secure_http_only_seven_day_cookie() {
    let c = login_cookie(ID, "tok");
    assert_eq!(
        c,
        format!("vocai_session={}:tok; HttpOnly; SameSite=Lax; Secure; Path=/; Max-Age=604800", ID_TEXT)
    );
}

#[test]
fn login_cookie_value_reads_back_as_the_same_session() {
    let c = login_cookie(ID, "access-token");
    let name_value = c.split(';').next().unwrap().to_string();
    assert_eq!(get_session(Some(&name_value)), Some((ID, "access-token".to_string())));
}

#[test]
fn logout_cookie_expires_the_session() {
    assert_eq!(
        logout_cookie(),
        "vocai_session=; HttpOnly; SameSite=Lax; Secure; Path=/; Max-Age=0"
    );
    assert_eq!(get_session(Some("vocai_session=")), None);
}

#[test]
fn user_cookie_round_trip() {
    let c = create_session_cookie(ID);
    assert_eq!(
        c,
        format!("session_id={}; HttpOnly; SameSite=Lax; Secure; Path=/; Max-Age=604800", ID_TEXT)
    );
    let name_value = c.split(';').next().unwrap().to_string();
    assert_eq!(get_user_from_session(Some(&name_value)), Some(ID));
}

#[test]
fn user_cookie_parsing_cases() {
    assert_eq!(get_user_from_session(None), None);
    assert_eq!(get_user_from_session(Some("a=b; session_id=zzz; session_id=x")), None);
    let h = format!(" x=1 ;session_id={} ", ID_TEXT);
    assert_eq!(get_user_from_session(Some(&h)), Some(ID));
}

#[test]
fn cleared_user_cookie() {
    assert_eq!(
        clear_session_cookie(),
        "session_id=; HttpOnly; SameSite=Lax; Secure; Path=/; Max-Age=0"
    );
}

#[test]
fn user_cookie_reads_back_and_clears() {
    let h = format!("a=b; session_id={}", ID_TEXT);
    assert_eq!(get_user_from_session(Some(&h)), Some(ID));
    assert_eq!(get_user_from_session(Some("session_id=")), None);
    assert_eq!(get_user_from_session(Some("a=b; session_id=")), None);
    assert_eq!(get_user_from_session(Some("session_id=12345")), None);
    let first = format!("session_id={}; session_id=00000000-0000-0000-0000-000000000000", ID_TEXT);
    assert_eq!(get_user_from_session(Some(&first)), Some(ID));
}
