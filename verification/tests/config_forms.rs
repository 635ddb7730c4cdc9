use mqtt_gate::config::SubmittedForm;
use mqtt_gate::provisioning::{render_form, submit, ERROR_CLOSE, ERROR_OPEN, FORM_BODY, FORM_HEAD, SAVED_PAGE};

fn form() -> SubmittedForm {
    SubmittedForm {
        ssid: "home".to_string(),
        wifi_password: "secret".to_string(),
        mqtt_host: "broker.local".to_string(),
        mqtt_port: 1883,
        mqtt_username: String::new(),
        mqtt_password: String::new(),
    }
}

#[test]
fn valid_form_becomes_config_with_blank_credentials_unset() {
    let cfg = form().into_config().unwrap();
    assert_eq!(cfg.wifi_ssid, "home");
    assert_eq!(cfg.wifi_password, "secret");
    assert_eq!(cfg.mqtt_host, "broker.local");
    assert_eq!(cfg.mqtt_port, 1883);
    assert_eq!(cfg.mqtt_username, None);
    assert_eq!(cfg.mqtt_password, None);
}

#[test]
fn credentials_are_kept_when_given() {
    let mut f = form();
    f.mqtt_username = "user".to_string();
    f.mqtt_password = "pw".to_string();
    let cfg = f.into_config().unwrap();
    assert_eq!(cfg.mqtt_username.as_deref(), Some("user"));
    assert_eq!(cfg.mqtt_password.as_deref(), Some("pw"));
}

#[test]
fn each_check_reports_its_error() {
    let mut f = form();
    f.ssid = String::new();
    assert_eq!(f.into_config().unwrap_err(), "SSID must not be empty");

    let mut f = form();
    f.ssid = "s".repeat(33);
    assert_eq!(f.into_config().unwrap_err(), "SSID is too long");

    let mut f = form();
    f.wifi_password = "p".repeat(65);
    assert_eq!(f.into_config().unwrap_err(), "Wi-Fi password is too long");

    let mut f = form();
    f.mqtt_host = String::new();
    assert_eq!(f.into_config().unwrap_err(), "MQTT host must not be empty");

    let mut f = form();
    f.mqtt_host = "h".repeat(129);
    assert_eq!(f.into_config().unwrap_err(), "MQTT host is too long");

    let mut f = form();
    f.mqtt_username = "u".repeat(65);
    assert_eq!(f.into_config().unwrap_err(), "MQTT credentials are too long");

    let mut f = form();
    f.mqtt_password = "u".repeat(65);
    assert_eq!(f.into_config().unwrap_err(), "MQTT credentials are too long");
}

#[test]
fn limits_are_inclusive_and_count_bytes() {
    let mut f = form();
    f.ssid = "s".repeat(32);
    f.wifi_password = "p".repeat(64);
    f.mqtt_host = "h".repeat(128);
    f.mqtt_username = "u".repeat(64);
    f.mqtt_password = "w".repeat(64);
    assert!(f.into_config().is_ok());

    // 17 two-byte characters are 34 bytes.
    let mut f = form();
    f.ssid = "ä".repeat(17);
    assert_eq!(f.into_config().unwrap_err(), "SSID is too long");
    let mut f = form();
    f.ssid = "ä".repeat(16);
    assert!(f.into_config().is_ok());
}

#[test]
fn first_failing_check_wins() {
    let mut f = form();
    f.ssid = String::new();
    f.mqtt_host = String::new();
    assert_eq!(f.into_config().unwrap_err(), "SSID must not be empty");
}

#[test]
fn form_page_without_error() {
    let page = render_form(None);
    assert_eq!(page, format!("{}{}", FORM_HEAD, FORM_BODY));
    assert!(page.contains("name=\"ssid\""));
    assert!(!page.contains("color:red"));
}

#[test]
fn form_page_shows_error() {
    let page = render_form(Some("SSID is too long"));
    assert_eq!(
        page,
        format!("{}{}SSID is too long{}{}", FORM_HEAD, ERROR_OPEN, ERROR_CLOSE, FORM_BODY)
    );
    assert!(page.contains("<p style=\"color:red\">SSID is too long</p>"));
}

#[test]
fn submit_valid_form() {
    let (page, cfg) = submit(form());
    assert_eq!(page, SAVED_PAGE);
    assert_eq!(cfg.unwrap().wifi_ssid, "home");
}

#[test]
fn submit_invalid_form_rerenders_with_error() {
    let mut f = form();
    f.mqtt_host = String::new();
    let (page, cfg) = submit(f);
    assert!(cfg.is_none());
    assert_eq!(page, render_form(Some("MQTT host must not be empty")));
}

#[test]
fn form_page_error_sits_right_after_heading() {
    let plain = render_form(None);
    let with_error = render_form(Some("bad port"));
    for page in [&plain, &with_error] {
        assert!(page.starts_with("<!doctype html>"));
        assert!(page.ends_with("</form></body></html>"));
    }
    let heading = "<h1>mqtt_gate setup</h1>";
    let cut = plain.find(heading).unwrap() + heading.len();
    let expected = format!(
        "{}<p style=\"color:red\">bad port</p>{}",
        &plain[..cut],
        &plain[cut..]
    );
    assert_eq!(with_error, expected);
}
