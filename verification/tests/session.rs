use wg_gesucht_updater::auth_data::AuthData;
use wg_gesucht_updater::client::session::{build_patch_url, Session};
use wg_gesucht_updater::error::{Failure, HeaderField};
use wg_gesucht_updater::functions::Timeout;
use wg_gesucht_updater::transport::{Method, Request, Response, TransportError};

fn pair(name: &str, value: &str) -> (String, String) {
    (name.to_string(), value.to_string())
}

fn session_of(user_id: &str, access_token: &str, user_agent: &str) -> Session {
    let auth_data = AuthData::new(
        user_id.to_string(),
        "wg_desktop_website".to_string(),
        access_token.to_string(),
        "ref".to_string(),
        "csrf".to_string(),
    );
    Session::new(auth_data, Timeout::from_secs(10), user_agent.to_string())
}

fn session() -> Session {
    session_of("4711", "token", "agent/1.0")
}

fn patch(id: &str, deactivated: &str) -> Request {
    Request {
        method: Method::Patch,
        url: format!("https://www.wg-gesucht.de/api/offers/{id}/users/4711"),
        headers: vec![
            pair("X-User-ID", "4711"),
            pair("X-Client-ID", "wg_desktop_website"),
            pair("X-Authorization", "Bearer token"),
            pair("X-Dev-Ref-No", "ref"),
            pair("User-Agent", "agent/1.0"),
        ],
        body: vec![pair("deactivated", deactivated), pair("csrf_token", "csrf")],
        timeout: Timeout::from_secs(10),
    }
}

fn answer(status: u16) -> Result<Response, TransportError> {
    Ok(Response { status, cookies: Vec::new(), body: Vec::new() })
}

#[test]
fn patch_url_names_the_offer_and_the_user() {
    assert_eq!(
        build_patch_url(101, "4711"),
        Some("https://www.wg-gesucht.de/api/offers/101/users/4711".to_string())
    );
    assert_eq!(
        build_patch_url(0, "u"),
        Some("https://www.wg-gesucht.de/api/offers/0/users/u".to_string())
    );
    assert_eq!(
        build_patch_url(u32::MAX, "u"),
        Some("https://www.wg-gesucht.de/api/offers/4294967295/users/u".to_string())
    );
}

#[test]
fn patch_url_escapes_the_user_id() {
    assert_eq!(
        build_patch_url(5, "a b/c?d#e%f"),
        Some("https://www.wg-gesucht.de/api/offers/5/users/a%20b%2Fc%3Fd%23e%25f".to_string())
    );
    assert_eq!(
        build_patch_url(5, "ü"),
        Some("https://www.wg-gesucht.de/api/offers/5/users/%C3%BC".to_string())
    );
}

#[test]
fn session_keeps_what_it_was_made_of() {
    let session = session();
    assert_eq!(session.auth_data().user_id(), "4711");
    assert_eq!(session.auth_data().csrf_token(), "csrf");
    assert_eq!(session.timeout(), Timeout::from_secs(10));
    assert_eq!(session.user_agent(), "agent/1.0");
}

#[test]
fn deactivate_builds_the_request_that_hides_the_offer() {
    assert_eq!(session().deactivate(101), Ok(patch("101", "1")));
    assert_eq!(session().build_patch_request(101, true), Ok(patch("101", "1")));
}

#[test]
fn activate_builds_the_request_that_shows_the_offer() {
    assert_eq!(session().activate(7), Ok(patch("7", "0")));
    assert_eq!(session().build_patch_request(7, false), Ok(patch("7", "0")));
}

#[test]
fn bump_builds_two_requests_deactivate_first() {
    assert_eq!(session().bump(101), Ok((patch("101", "1"), patch("101", "0"))));
}

#[test]
fn deactivate_twice_builds_the_same_request_twice() {
    let session = session();
    let first = session.deactivate(9);
    let second = session.deactivate(9);
    assert_eq!(first, Ok(patch("9", "1")));
    assert_eq!(first, second);
    assert_eq!(Session::outcome(answer(200)), Ok(()));
    assert_eq!(Session::outcome(answer(200)), Ok(()));
}

#[test]
fn a_request_takes_the_timeout_and_the_user_agent_of_the_session() {
    let auth_data = AuthData::new(
        "4711".to_string(),
        "wg_desktop_website".to_string(),
        "token".to_string(),
        "ref".to_string(),
        "csrf".to_string(),
    );
    let session = Session::new(auth_data, Timeout::from_secs(3), "other".to_string());
    let request = session.activate(1).unwrap();
    assert_eq!(request.timeout, Timeout::from_secs(3));
    assert_eq!(request.headers[4], pair("User-Agent", "other"));
}

#[test]
fn credentials_that_cannot_be_sent_keep_the_request_from_being_built() {
    assert_eq!(
        session_of("4711", "to\nken", "agent").deactivate(1),
        Err(Failure::InvalidHeader(HeaderField::Authorization))
    );
    assert_eq!(
        session_of("47\n11", "token", "agent").activate(1),
        Err(Failure::InvalidHeader(HeaderField::UserId))
    );
    assert_eq!(
        session_of("4711", "to\nken", "agent").bump(1),
        Err(Failure::InvalidHeader(HeaderField::Authorization))
    );
}

#[test]
fn a_user_agent_that_cannot_be_sent_keeps_the_request_from_being_built() {
    assert_eq!(
        session_of("4711", "token", "agent\r\n").deactivate(1),
        Err(Failure::InvalidHeader(HeaderField::UserAgent))
    );
    assert_eq!(
        session_of("4711", "to\nken", "agent\r\n").deactivate(1),
        Err(Failure::InvalidHeader(HeaderField::Authorization))
    );
}

#[test]
fn outcome_is_success_for_every_status_from_200_to_299() {
    assert_eq!(Session::outcome(answer(200)), Ok(()));
    assert_eq!(Session::outcome(answer(204)), Ok(()));
    assert_eq!(Session::outcome(answer(299)), Ok(()));
}

#[test]
fn outcome_keeps_a_status_that_is_no_success() {
    assert_eq!(Session::outcome(answer(199)), Err(Failure::Status(199)));
    assert_eq!(Session::outcome(answer(300)), Err(Failure::Status(300)));
    assert_eq!(Session::outcome(answer(403)), Err(Failure::Status(403)));
    assert_eq!(Session::outcome(answer(500)), Err(Failure::Status(500)));
}

#[test]
fn outcome_keeps_the_account_of_the_transport() {
    assert_eq!(
        Session::outcome(Err(TransportError { message: "timed out".to_string() })),
        Err(Failure::Transport("timed out".to_string()))
    );
}

#[test]
fn the_body_of_an_answer_to_a_change_is_not_read() {
    let request = session().deactivate(1).unwrap();
    assert!(!request.reads_body(200));
    assert!(!request.reads_body(500));
}

#[test]
fn a_user_id_beyond_all_measure_has_no_address() {
    let user_id = "a".repeat(0x0100_0001);
    assert_eq!(build_patch_url(1, &user_id), None);
    assert_eq!(session_of(&user_id, "token", "agent").deactivate(1), Err(Failure::InvalidUrl));
    assert_eq!(session_of(&user_id, "to\nken", "agent\n").bump(1), Err(Failure::InvalidUrl));
}
