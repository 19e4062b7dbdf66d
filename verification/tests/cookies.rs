use wg_gesucht_updater::error::{Cookie, ExtractionError};
use wg_gesucht_updater::response_ext::{find_cookie, scrape_dev_ref_and_access_token};

fn cookies(pairs: &[(&str, &str)]) -> Vec<(String, String)> {
    pairs.iter().map(|(name, value)| (name.to_string(), value.to_string())).collect()
}

#[test]
fn both_cookies_are_found() {
    let cookies = cookies(&[("X-Dev-Ref-No", "ref"), ("X-Access-Token", "token")]);
    assert_eq!(scrape_dev_ref_and_access_token(&cookies), Ok(("ref", "token")));
}

#[test]
fn the_order_of_the_cookies_does_not_matter() {
    let cookies = cookies(&[("other", "x"), ("X-Access-Token", "token"), ("X-Dev-Ref-No", "ref")]);
    assert_eq!(scrape_dev_ref_and_access_token(&cookies), Ok(("ref", "token")));
}

#[test]
fn the_values_are_not_validated() {
    let cookies = cookies(&[("X-Dev-Ref-No", ""), ("X-Access-Token", "a b\nc")]);
    assert_eq!(scrape_dev_ref_and_access_token(&cookies), Ok(("", "a b\nc")));
}

#[test]
fn a_missing_dev_ref_is_reported() {
    let cookies = cookies(&[("X-Access-Token", "token")]);
    assert_eq!(
        scrape_dev_ref_and_access_token(&cookies),
        Err(ExtractionError::MissingField(Cookie::DevRefNo))
    );
}

#[test]
fn a_missing_access_token_is_reported() {
    let cookies = cookies(&[("X-Dev-Ref-No", "ref")]);
    assert_eq!(
        scrape_dev_ref_and_access_token(&cookies),
        Err(ExtractionError::MissingField(Cookie::AccessToken))
    );
}

#[test]
fn without_cookies_the_dev_ref_is_missed_first() {
    assert_eq!(
        scrape_dev_ref_and_access_token(&Vec::new()),
        Err(ExtractionError::MissingField(Cookie::DevRefNo))
    );
}

#[test]
fn the_names_are_matched_exactly() {
    let cookies = cookies(&[("x-dev-ref-no", "ref"), ("X-Access-Token ", "token")]);
    assert_eq!(
        scrape_dev_ref_and_access_token(&cookies),
        Err(ExtractionError::MissingField(Cookie::DevRefNo))
    );
}

#[test]
fn the_last_cookie_of_a_name_decides() {
    let cookies = cookies(&[
        ("X-Dev-Ref-No", "old"),
        ("X-Access-Token", "token"),
        ("X-Dev-Ref-No", "new"),
    ]);
    assert_eq!(scrape_dev_ref_and_access_token(&cookies), Ok(("new", "token")));
    assert_eq!(find_cookie(&cookies, "X-Dev-Ref-No"), Some("new"));
}

#[test]
fn find_cookie_finds_nothing_under_an_unknown_name() {
    let cookies = cookies(&[("a", "1")]);
    assert_eq!(find_cookie(&cookies, "b"), None);
    assert_eq!(find_cookie(&cookies, "a"), Some("1"));
}
