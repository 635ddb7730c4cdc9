//! Provisioned device configuration: Wi-Fi credentials and MQTT broker
//! settings, collected via the provisioning form when none is stored yet.
use vstd::prelude::*;
use vstd::utf8::encode_utf8;

verus! {

pub const MAX_SSID_LEN: usize = 32;
pub const MAX_PSK_LEN: usize = 64;
pub const MAX_HOST_LEN: usize = 128;
pub const MAX_CRED_LEN: usize = 64;

#[derive(Debug, Clone, PartialEq, Eq)]
pub struct AppConfig {
    pub wifi_ssid: String,
    pub wifi_password: String,
    pub mqtt_host: String,
    pub mqtt_port: u16,
    pub mqtt_username: Option<String>,
    pub mqtt_password: Option<String>,
}

/// Raw fields as submitted by the provisioning HTML form.
#[derive(Debug)]
pub struct SubmittedForm {
    pub ssid: String,
    pub wifi_password: String,
    pub mqtt_host: String,
    pub mqtt_port: u16,
    pub mqtt_username: String,
    pub mqtt_password: String,
}

/// Length in bytes of the UTF-8 encoding of a string.
pub open spec fn byte_len(s: Seq<char>) -> nat {
    encode_utf8(s).len()
}

/// The view of an optional string.
pub open spec fn opt_view(o: Option<String>) -> Option<Seq<char>> {
    match o {
        Some(s) => Some(s@),
        None => None,
    }
}

/// A blank optional field means "not set".
pub open spec fn blank_to_none(s: Seq<char>) -> Option<Seq<char>> {
    if s.len() == 0 { None } else { Some(s) }
}

/// The message of the first check a submitted form fails, if any.
pub open spec fn form_error(f: SubmittedForm) -> Option<Seq<char>> {
    if f.ssid@.len() == 0 {
        Some("SSID must not be empty"@)
    } else if byte_len(f.ssid@) > MAX_SSID_LEN {
        Some("SSID is too long"@)
    } else if byte_len(f.wifi_password@) > MAX_PSK_LEN {
        Some("Wi-Fi password is too long"@)
    } else if f.mqtt_host@.len() == 0 {
        Some("MQTT host must not be empty"@)
    } else if byte_len(f.mqtt_host@) > MAX_HOST_LEN {
        Some("MQTT host is too long"@)
    } else if byte_len(f.mqtt_username@) > MAX_CRED_LEN || byte_len(f.mqtt_password@) > MAX_CRED_LEN {
        Some("MQTT credentials are too long"@)
    } else {
        None
    }
}

/// The configuration a valid form describes.
pub open spec fn config_matches_form(cfg: AppConfig, f: SubmittedForm) -> bool {
    &&& cfg.wifi_ssid@ == f.ssid@
    &&& cfg.wifi_password@ == f.wifi_password@
    &&& cfg.mqtt_host@ == f.mqtt_host@
    &&& cfg.mqtt_port == f.mqtt_port
    &&& opt_view(cfg.mqtt_username) == blank_to_none(f.mqtt_username@)
    &&& opt_view(cfg.mqtt_password) == blank_to_none(f.mqtt_password@)
}

/// Turns a blank field into `None` and keeps any other as it is.
fn non_blank(s: String) -> (o: Option<String>)
    ensures
        opt_view(o) == blank_to_none(s@),
{
    if s.as_str().is_empty() {
        None
    } else {
        Some(s)
    }
}

impl SubmittedForm {
    /// Validates field lengths (in bytes) and turns blank optional fields into `None`.
    ///
    /// Returns a human-readable error to show back in the re-rendered form on failure.
    pub fn into_config(self) -> (res: Result<AppConfig, &'static str>)
        ensures
            match res {
                Ok(cfg) => form_error(self) is None && config_matches_form(cfg, self),
                Err(e) => form_error(self) == Some(e@),
            },
    {
        proof {
            reveal_strlit("SSID must not be empty");
            reveal_strlit("SSID is too long");
            reveal_strlit("Wi-Fi password is too long");
            reveal_strlit("MQTT host must not be empty");
            reveal_strlit("MQTT host is too long");
            reveal_strlit("MQTT credentials are too long");
        }
        if self.ssid.as_str().is_empty() {
            return Err("SSID must not be empty");
        }
        if self.ssid.as_str().as_bytes().len() > MAX_SSID_LEN {
            return Err("SSID is too long");
        }
        if self.wifi_password.as_str().as_bytes().len() > MAX_PSK_LEN {
            return Err("Wi-Fi password is too long");
        }
        if self.mqtt_host.as_str().is_empty() {
            return Err("MQTT host must not be empty");
        }
        if self.mqtt_host.as_str().as_bytes().len() > MAX_HOST_LEN {
            return Err("MQTT host is too long");
        }
        if self.mqtt_username.as_str().as_bytes().len() > MAX_CRED_LEN || self.mqtt_password.as_str().as_bytes().len()
            > MAX_CRED_LEN {
            return Err("MQTT credentials are too long");
        }
        Ok(
            AppConfig {
                wifi_ssid: self.ssid,
                wifi_password: self.wifi_password,
                mqtt_host: self.mqtt_host,
                mqtt_port: self.mqtt_port,
                mqtt_username: non_blank(self.mqtt_username),
                mqtt_password: non_blank(self.mqtt_password),
            },
        )
    }
}

/// A form is accepted exactly when the SSID and the MQTT host are non-empty,
/// the SSID takes at most 32 bytes, the Wi-Fi password at most 64, the host
/// at most 128, and the MQTT user name and password at most 64 each. An
/// accepted form keeps every field as typed, except that a blank user name or
/// password means none is set.
pub proof fn lemma_form_limits(f: SubmittedForm, cfg: AppConfig)
    ensures
        form_error(f) is None <==> {
            &&& f.ssid@.len() > 0
            &&& byte_len(f.ssid@) <= 32
            &&& byte_len(f.wifi_password@) <= 64
            &&& f.mqtt_host@.len() > 0
            &&& byte_len(f.mqtt_host@) <= 128
            &&& byte_len(f.mqtt_username@) <= 64
            &&& byte_len(f.mqtt_password@) <= 64
        },
        config_matches_form(cfg, f) ==> {
            &&& cfg.wifi_ssid@ == f.ssid@
            &&& cfg.wifi_password@ == f.wifi_password@
            &&& cfg.mqtt_host@ == f.mqtt_host@
            &&& cfg.mqtt_port == f.mqtt_port
            &&& (f.mqtt_username@.len() == 0 ==> cfg.mqtt_username is None)
            &&& (f.mqtt_username@.len() > 0 ==> opt_view(cfg.mqtt_username) == Some(
                f.mqtt_username@,
            ))
            &&& (f.mqtt_password@.len() == 0 ==> cfg.mqtt_password is None)
            &&& (f.mqtt_password@.len() > 0 ==> opt_view(cfg.mqtt_password) == Some(
                f.mqtt_password@,
            ))
        },
{
}

} // verus!
