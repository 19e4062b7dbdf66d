use wg_gesucht_updater::error::{
    failed_login_message, failed_update_message, Cookie, ExtractionError, Failure, HeaderField,
    Kind, Scraped,
};

#[test]
fn extraction_errors_say_what_is_missing() {
    assert_eq!(
        ExtractionError::MissingField(Cookie::DevRefNo).message(),
        "X-Dev-Ref-No not found in cookies"
    );
    assert_eq!(
        ExtractionError::MissingField(Cookie::AccessToken).message(),
        "X-Access-Token not found in cookies"
    );
    assert_eq!(
        ExtractionError::MissingElement(Scraped::CsrfToken).message(),
        "Could not find element with CSRF token"
    );
    assert_eq!(
        ExtractionError::MissingElement(Scraped::UserId).message(),
        "Could not find element with user ID"
    );
    assert_eq!(
        ExtractionError::MissingAttribute(Scraped::CsrfToken).message(),
        "Could not extract CSRF token from element"
    );
    assert_eq!(
        ExtractionError::MissingAttribute(Scraped::UserId).message(),
        "Could not extract user ID from element"
    );
    assert_eq!(
        ExtractionError::InvalidSelector(Scraped::CsrfToken).message(),
        "Could not create CSRF token selector"
    );
    assert_eq!(
        ExtractionError::InvalidSelector(Scraped::UserId).message(),
        "Could not create user ID selector"
    );
    assert_eq!(ExtractionError::PageTooLong.message(), "The page is too long to be read");
}

#[test]
fn failures_say_what_went_wrong() {
    assert_eq!(Failure::Transport("connection refused".to_string()).message(), "connection refused");
    assert_eq!(Failure::Status(500).message(), "HTTP status 500");
    assert_eq!(Failure::Status(65535).message(), "HTTP status 65535");
    assert_eq!(
        Failure::Extraction(ExtractionError::MissingField(Cookie::DevRefNo)).message(),
        "X-Dev-Ref-No not found in cookies"
    );
    assert_eq!(Failure::Decode.message(), "The page is not valid UTF-8");
    assert_eq!(
        Failure::InvalidHeader(HeaderField::Authorization).message(),
        "Invalid value for the header X-Authorization"
    );
    assert_eq!(Failure::InvalidUrl.message(), "Could not build the address of the offer");
}

#[test]
fn header_fields_and_kinds_have_their_names() {
    assert_eq!(HeaderField::UserAgent.name(), "User-Agent");
    assert_eq!(HeaderField::UserId.name(), "X-User-ID");
    assert_eq!(HeaderField::ClientId.name(), "X-Client-ID");
    assert_eq!(HeaderField::Authorization.name(), "X-Authorization");
    assert_eq!(HeaderField::DevRefNo.name(), "X-Dev-Ref-No");
    assert_eq!(Kind::Activate.verb(), "activate");
    assert_eq!(Kind::Deactivate.verb(), "deactivate");
    assert_eq!(Kind::Bump.verb(), "bump");
}

#[test]
fn a_failed_update_names_kind_offer_and_cause() {
    assert_eq!(
        failed_update_message(Kind::Activate, 6, &Failure::Status(500)),
        "Failed to activate #6: HTTP status 500"
    );
    assert_eq!(
        failed_update_message(Kind::Deactivate, 0, &Failure::Decode),
        "Failed to deactivate #0: The page is not valid UTF-8"
    );
    assert_eq!(
        failed_update_message(Kind::Bump, 101, &Failure::Transport("timed out".to_string())),
        "Failed to bump #101: timed out"
    );
}

#[test]
fn a_failed_login_names_the_cause() {
    assert_eq!(
        failed_login_message(&Failure::Extraction(ExtractionError::MissingElement(Scraped::UserId))),
        "Login failed: Could not find element with user ID"
    );
}
