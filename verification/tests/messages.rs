use mqtt_gate::gate::{barrier2_set, wind_locked, wind_trigger, GateCommand, GateControl};
use mqtt_gate::mqtt_client::{credentials, QoS, Subscription, SubscriptionRegistry};
use mqtt_gate::mqtt_handler::{bytes_eq, on_message};
use mqtt_gate::config::AppConfig;
use mqtt_gate::topics::on_off_payload;

#[test]
fn cover_commands_move_the_gate() {
    let mut ctl = GateControl::new();
    assert_eq!(on_message(&mut ctl, "mqtt_gate/cover/set", b"OPEN"), Some(GateCommand::Open));
    assert_eq!(on_message(&mut ctl, "mqtt_gate/cover/set", b"CLOSE"), Some(GateCommand::Close));
    assert_eq!(on_message(&mut ctl, "mqtt_gate/cover/set", b"STOP"), Some(GateCommand::Stop));
}

#[test]
fn unknown_payloads_and_topics_are_ignored() {
    let mut ctl = GateControl::new();
    assert_eq!(on_message(&mut ctl, "mqtt_gate/cover/set", b"open"), None);
    assert_eq!(on_message(&mut ctl, "mqtt_gate/cover/set", b""), None);
    assert_eq!(on_message(&mut ctl, "mqtt_gate/cover/set", &[0xff, 0xfe]), None);
    assert_eq!(on_message(&mut ctl, "mqtt_gate/cover/state", b"OPEN"), None);
    assert_eq!(on_message(&mut ctl, "other", b"OPEN"), None);
}

#[test]
fn cover_commands_respect_the_gating_rules() {
    let mut ctl = GateControl::new();
    barrier2_set(&mut ctl, true);
    assert_eq!(on_message(&mut ctl, "mqtt_gate/cover/set", b"CLOSE"), None);
    assert_eq!(on_message(&mut ctl, "mqtt_gate/cover/set", b"OPEN"), Some(GateCommand::Open));
    wind_trigger(&mut ctl);
    assert_eq!(on_message(&mut ctl, "mqtt_gate/cover/set", b"STOP"), None);
}

#[test]
fn reset_button_clears_the_wind_lock() {
    let mut ctl = GateControl::new();
    wind_trigger(&mut ctl);
    assert_eq!(on_message(&mut ctl, "mqtt_gate/impulse/set", b"PRESS"), None);
    assert!(wind_locked(&ctl));
    assert_eq!(on_message(&mut ctl, "mqtt_gate/impulse/set", b"RESET"), Some(GateCommand::Stop));
    assert!(!wind_locked(&ctl));
}

#[test]
fn byte_comparison() {
    assert!(bytes_eq(b"abc", b"abc"));
    assert!(!bytes_eq(b"abc", b"abd"));
    assert!(!bytes_eq(b"abc", b"ab"));
    assert!(bytes_eq(b"", b""));
}

#[test]
fn on_off_payloads() {
    assert_eq!(on_off_payload(true), "ON");
    assert_eq!(on_off_payload(false), "OFF");
}

fn cfg(user: Option<&str>, pass: Option<&str>) -> AppConfig {
    AppConfig {
        wifi_ssid: "s".to_string(),
        wifi_password: String::new(),
        mqtt_host: "h".to_string(),
        mqtt_port: 1883,
        mqtt_username: user.map(|s| s.to_string()),
        mqtt_password: pass.map(|s| s.to_string()),
    }
}

#[test]
fn credentials_only_when_both_set() {
    assert_eq!(credentials(&cfg(Some("u"), Some("p"))), Some(("u", "p")));
    assert_eq!(credentials(&cfg(Some("u"), None)), None);
    assert_eq!(credentials(&cfg(None, Some("p"))), None);
    assert_eq!(credentials(&cfg(None, None)), None);
}

#[test]
fn registry_restores_all_subscriptions_in_order() {
    let mut reg = SubscriptionRegistry::new();
    assert!(reg.to_restore().is_empty());
    reg.register(Subscription { topic: "a".to_string(), qos: QoS::AtLeastOnce });
    reg.register(Subscription { topic: "b".to_string(), qos: QoS::AtMostOnce });
    let subs = reg.to_restore();
    assert_eq!(subs.len(), 2);
    assert_eq!(subs[0].topic, "a");
    assert_eq!(subs[0].qos, QoS::AtLeastOnce);
    assert_eq!(subs[1].topic, "b");
    assert_eq!(subs[1].qos, QoS::AtMostOnce);
    // restoring does not consume the registry
    assert_eq!(reg.to_restore().len(), 2);
}
