use wg_gesucht_updater::login_data::LoginData;
use wg_gesucht_updater::patch_data::PatchData;

fn pair(name: &str, value: &str) -> (String, String) {
    (name.to_string(), value.to_string())
}

#[test]
fn login_data_is_sent_with_the_names_of_the_site() {
    let fields = LoginData::new("user@example.com", "secret", true, "de").fields();
    assert_eq!(
        fields,
        vec![
            pair("login_email_username", "user@example.com"),
            pair("login_password", "secret"),
            pair("login_form_autologin", "1"),
            pair("display_language", "de"),
        ]
    );
}

#[test]
fn login_data_without_autologin_sends_zero() {
    let fields = LoginData::new("user", "secret", false, "en").fields();
    assert_eq!(fields[2], pair("login_form_autologin", "0"));
    assert_eq!(fields[3], pair("display_language", "en"));
}

#[test]
fn login_data_compares_by_its_fields() {
    assert_eq!(LoginData::new("u", "p", true, "de"), LoginData::new("u", "p", true, "de"));
    assert_ne!(LoginData::new("u", "p", true, "de"), LoginData::new("u", "p", false, "de"));
}

#[test]
fn patch_data_that_deactivates_sends_one() {
    let fields = PatchData::new(true, "csrf").fields();
    assert_eq!(fields, vec![pair("deactivated", "1"), pair("csrf_token", "csrf")]);
}

#[test]
fn patch_data_that_activates_sends_zero() {
    let fields = PatchData::new(false, "csrf").fields();
    assert_eq!(fields, vec![pair("deactivated", "0"), pair("csrf_token", "csrf")]);
}
