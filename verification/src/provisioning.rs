//! The provisioning config form, served over plain HTTP once the device is in
//! access-point mode. Submitting a valid form hands the config over to be
//! persisted before rebooting into station mode.
use vstd::prelude::*;
use crate::config::{AppConfig, SubmittedForm, config_matches_form, form_error};

verus! {

pub const FORM_HEAD: &'static str = "<!doctype html><html><head><meta charset=\"utf-8\"><meta name=\"viewport\" content=\"width=device-width, initial-scale=1\"><title>mqtt_gate setup</title></head><body><h1>mqtt_gate setup</h1>";

pub const ERROR_OPEN: &'static str = "<p style=\"color:red\">";

pub const ERROR_CLOSE: &'static str = "</p>";

pub const FORM_BODY: &'static str = "<form method=\"post\" action=\"/\"><label>Wi-Fi SSID<br><input name=\"ssid\" required maxlength=\"32\"></label><br><label>Wi-Fi password<br><input name=\"wifi_password\" type=\"password\" maxlength=\"64\"></label><br><label>MQTT host<br><input name=\"mqtt_host\" required maxlength=\"128\"></label><br><label>MQTT port<br><input name=\"mqtt_port\" type=\"number\" value=\"1883\" required></label><br><label>MQTT username (optional)<br><input name=\"mqtt_username\" maxlength=\"64\"></label><br><label>MQTT password (optional)<br><input name=\"mqtt_password\" type=\"password\" maxlength=\"64\"></label><br><button type=\"submit\">Save &amp; reboot</button></form></body></html>";

pub const SAVED_PAGE: &'static str = "<!doctype html><html><body><p>Saved. Rebooting into station mode...</p></body></html>";

/// The form page, with the error message (if any) shown above the form.
pub open spec fn form_page(error: Option<Seq<char>>) -> Seq<char> {
    FORM_HEAD@ + match error {
        Some(e) => ERROR_OPEN@ + e + ERROR_CLOSE@,
        None => Seq::empty(),
    } + FORM_BODY@
}

pub open spec fn opt_str_view(error: Option<&str>) -> Option<Seq<char>> {
    match error {
        Some(e) => Some(e@),
        None => None,
    }
}

pub fn render_form(error: Option<&str>) -> (page: String)
    ensures
        page@ == form_page(opt_str_view(error)),
{
    let mut page = String::from_str(FORM_HEAD);
    if let Some(error) = error {
        page.append(ERROR_OPEN);
        page.append(error);
        page.append(ERROR_CLOSE);
    }
    page.append(FORM_BODY);
    page
}

/// Handles a form submission: a valid form yields the config to persist and
/// the "saved" page; an invalid one re-renders the form with the error.
pub fn submit(form: SubmittedForm) -> (res: (String, Option<AppConfig>))
    ensures
        match res.1 {
            Some(cfg) => form_error(form) is None && config_matches_form(cfg, form) && res.0@
                == SAVED_PAGE@,
            None => form_error(form) matches Some(e) && res.0@ == form_page(Some(e)),
        },
{
    match form.into_config() {
        Ok(cfg) => (String::from_str(SAVED_PAGE), Some(cfg)),
        Err(error) => (render_form(Some(error)), None),
    }
}

/// What the page says, whatever the error: it is an HTML document that begins
/// with `<!doctype html>` and ends by closing the form, the body and the
/// document. An error adds exactly one red paragraph holding the message, right
/// after the `<h1>mqtt_gate setup</h1>` heading; without one the heading is
/// followed directly by the form.
pub proof fn lemma_form_page_layout(error: Option<Seq<char>>, e: Seq<char>)
    ensures
        form_page(error).subrange(0, 15) == "<!doctype html>"@,
        form_page(error).subrange(form_page(error).len() - 21, form_page(error).len() as int)
            == "</form></body></html>"@,
        FORM_HEAD@.subrange(FORM_HEAD@.len() - 24, FORM_HEAD@.len() as int)
            == "<h1>mqtt_gate setup</h1>"@,
        form_page(None) == FORM_HEAD@ + FORM_BODY@,
        form_page(Some(e)) == FORM_HEAD@ + ("<p style=\"color:red\">"@ + e + "</p>"@) + FORM_BODY@,
{
    reveal_strlit("<!doctype html><html><head><meta charset=\"utf-8\"><meta name=\"viewport\" content=\"width=device-width, initial-scale=1\"><title>mqtt_gate setup</title></head><body><h1>mqtt_gate setup</h1>");
    reveal_strlit("<form method=\"post\" action=\"/\"><label>Wi-Fi SSID<br><input name=\"ssid\" required maxlength=\"32\"></label><br><label>Wi-Fi password<br><input name=\"wifi_password\" type=\"password\" maxlength=\"64\"></label><br><label>MQTT host<br><input name=\"mqtt_host\" required maxlength=\"128\"></label><br><label>MQTT port<br><input name=\"mqtt_port\" type=\"number\" value=\"1883\" required></label><br><label>MQTT username (optional)<br><input name=\"mqtt_username\" maxlength=\"64\"></label><br><label>MQTT password (optional)<br><input name=\"mqtt_password\" type=\"password\" maxlength=\"64\"></label><br><button type=\"submit\">Save &amp; reboot</button></form></body></html>");
    reveal_strlit("<p style=\"color:red\">");
    reveal_strlit("</p>");
    reveal_strlit("<!doctype html>");
    reveal_strlit("</form></body></html>");
    reveal_strlit("<h1>mqtt_gate setup</h1>");
}

} // verus!
