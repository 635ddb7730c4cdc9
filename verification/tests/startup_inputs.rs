use mqtt_gate::boot::{
    choose_boot_mode, hold_decision, motor_settings, restored_gate_state, station_settings,
    BootMode, HoldDecision, LEFT_MOTOR_DURATION_SECS, RIGHT_MOTOR_DURATION_SECS,
};
use mqtt_gate::config::AppConfig;
use mqtt_gate::discovery::{
    config_target, cover_config, device, publish_order, reset_button_config, wind_sensor_config,
    DiscoveryEntity,
};
use mqtt_gate::mqtt_client::QoS;
use mqtt_gate::drive::GateDrive;
use mqtt_gate::gate::{settle, GateControl};
use mqtt_gate::inputs::{ContactButton, EdgeDetector, LevelTracker};
use mqtt_gate::storage::GateState;

fn cfg(ssid: &str, password: &str) -> AppConfig {
    AppConfig {
        wifi_ssid: ssid.to_string(),
        wifi_password: password.to_string(),
        mqtt_host: "h".to_string(),
        mqtt_port: 1883,
        mqtt_username: None,
        mqtt_password: None,
    }
}

#[test]
fn hold_to_reset() {
    assert_eq!(hold_decision(false, 0), HoldDecision::Released);
    assert_eq!(hold_decision(false, 6000), HoldDecision::Released);
    assert_eq!(hold_decision(true, 4999), HoldDecision::KeepPolling);
    assert_eq!(hold_decision(true, 5000), HoldDecision::Erase);
}

#[test]
fn boot_mode_needs_a_stored_ssid() {
    assert_eq!(choose_boot_mode(&None), BootMode::Provisioning);
    assert_eq!(choose_boot_mode(&Some(cfg("", "x"))), BootMode::Provisioning);
    assert_eq!(choose_boot_mode(&Some(cfg("home", ""))), BootMode::Station);
}

#[test]
fn missing_gate_state_means_closed_and_unlocked() {
    assert_eq!(restored_gate_state(None), GateState::default());
    assert_eq!(
        GateState::default(),
        GateState { left_position: 0, right_position: 0, wind_locked: false }
    );
    let s = GateState { left_position: 3, right_position: 200, wind_locked: true };
    assert_eq!(restored_gate_state(Some(s)), s);
}

#[test]
fn persisted_state_resumes_after_reboot() {
    let mut ctl = GateControl::new();
    let report = settle(&mut ctl, 77, 180);
    let (l, r) = motor_settings(report.persisted);
    assert_eq!(l.duration, LEFT_MOTOR_DURATION_SECS);
    assert_eq!(r.duration, RIGHT_MOTOR_DURATION_SECS);
    let drive = GateDrive::new(l, r);
    assert_eq!(drive.left().position(), 77);
    assert_eq!(drive.right().position(), 180);
}

#[test]
fn station_settings_follow_the_password() {
    let s = station_settings(&cfg("home", ""));
    assert!(s.open_network);
    assert_eq!(s.ssid, "home");
    let s = station_settings(&cfg("home", "pw"));
    assert!(!s.open_network);
    assert_eq!(s.password, "pw");
}

#[test]
fn edge_detector_fires_once_per_press() {
    let mut d = EdgeDetector::new();
    assert!(!d.sample(false));
    assert!(d.sample(true));
    assert!(!d.sample(true));
    assert!(!d.sample(true));
    assert!(!d.sample(false));
    assert!(d.sample(true));
}

#[test]
fn level_tracker_reports_changes() {
    let mut t = LevelTracker::new(true);
    assert_eq!(t.sample(true), None);
    assert_eq!(t.sample(false), Some(false));
    assert_eq!(t.sample(false), None);
    assert_eq!(t.sample(true), Some(true));
}

#[test]
fn contact_button_toggles_on_press() {
    let mut b = ContactButton::new();
    assert_eq!(b.sample(false), None);
    assert_eq!(b.sample(true), Some(true));
    assert_eq!(b.sample(true), None);
    assert_eq!(b.sample(false), None);
    assert_eq!(b.sample(true), Some(false));
}

#[test]
fn discovery_configs_use_the_handled_topics() {
    let d = device("1.2.3");
    assert_eq!(d.identifiers, ["mqtt_gate"]);
    assert_eq!(d.sw_version, "1.2.3");
    let c = cover_config(d);
    assert_eq!(c.command_topic, "mqtt_gate/cover/set");
    assert_eq!(c.state_topic, "mqtt_gate/cover/state");
    assert_eq!(c.payload_open, "OPEN");
    assert_eq!(c.state_closing, "closing");
    let w = wind_sensor_config(d);
    assert_eq!(w.unique_id, "mqtt_gate_wind");
    assert_eq!(w.payload_on, "ON");
    let b = reset_button_config(d);
    assert_eq!(b.command_topic, "mqtt_gate/impulse/set");
    assert_eq!(b.payload_press, "RESET");
}

#[test]
fn discovery_configs_are_published_retained_in_order() {
    assert_eq!(
        publish_order(),
        [DiscoveryEntity::Cover, DiscoveryEntity::WindSensor, DiscoveryEntity::ResetButton]
    );
    let cover = config_target(DiscoveryEntity::Cover);
    assert_eq!(cover.topic, "homeassistant/cover/mqtt_gate/config");
    let wind = config_target(DiscoveryEntity::WindSensor);
    assert_eq!(wind.topic, "homeassistant/binary_sensor/mqtt_gate_wind/config");
    let button = config_target(DiscoveryEntity::ResetButton);
    assert_eq!(button.topic, "homeassistant/button/mqtt_gate_impulse/config");
    for t in [cover, wind, button] {
        assert_eq!(t.qos, QoS::AtLeastOnce);
        assert!(t.retain);
    }
}
