//! Home Assistant MQTT Discovery configs, so the cover, its wind-lock sensor
//! and the wind-lock-reset button show up as entities without manual YAML.
//! The configs are published retained, serialized as JSON, by the caller.
//!
//! <https://www.home-assistant.io/integrations/mqtt/#mqtt-discovery>
use vstd::prelude::*;
use crate::mqtt_packet::QoS;
use crate::topics::{
    BUTTON_COMMAND_TOPIC, BUTTON_CONFIG_TOPIC, CLOSED_STATE, CLOSE_PAYLOAD, CLOSING_STATE,
    COVER_COMMAND_TOPIC, COVER_CONFIG_TOPIC, COVER_STATE_TOPIC, NODE_ID, OFF_PAYLOAD, ON_PAYLOAD,
    OPENING_STATE, OPEN_PAYLOAD, OPEN_STATE, RESET_WIND_LOCK_PAYLOAD, STOP_PAYLOAD,
    WIND_CONFIG_TOPIC, WIND_STATE_TOPIC,
};

verus! {

#[derive(Clone, Copy, Debug)]
pub struct Device {
    pub identifiers: [&'static str; 1],
    pub name: &'static str,
    pub manufacturer: &'static str,
    pub model: &'static str,
    pub sw_version: &'static str,
}

#[derive(Clone, Copy, Debug)]
pub struct CoverConfig {
    pub name: &'static str,
    pub unique_id: &'static str,
    pub device_class: &'static str,
    pub command_topic: &'static str,
    pub state_topic: &'static str,
    pub payload_open: &'static str,
    pub payload_close: &'static str,
    pub payload_stop: &'static str,
    pub state_open: &'static str,
    pub state_opening: &'static str,
    pub state_closed: &'static str,
    pub state_closing: &'static str,
    pub device: Device,
}

#[derive(Clone, Copy, Debug)]
pub struct BinarySensorConfig {
    pub name: &'static str,
    pub unique_id: &'static str,
    pub device_class: &'static str,
    pub state_topic: &'static str,
    pub payload_on: &'static str,
    pub payload_off: &'static str,
    pub device: Device,
}

#[derive(Clone, Copy, Debug)]
pub struct ButtonConfig {
    pub name: &'static str,
    pub unique_id: &'static str,
    pub command_topic: &'static str,
    pub payload_press: &'static str,
    pub device: Device,
}

/// The device all three entities belong to, reporting firmware version `sw_version`.
pub fn device(sw_version: &'static str) -> (d: Device)
    ensures
        d.identifiers[0]@ == NODE_ID@,
        d.name@ == "Gate"@,
        d.manufacturer@ == "mqtt_gate"@,
        d.model@ == "ESP32 Gate Controller"@,
        d.sw_version@ == sw_version@,
{
    Device {
        identifiers: [NODE_ID],
        name: "Gate",
        manufacturer: "mqtt_gate",
        model: "ESP32 Gate Controller",
        sw_version,
    }
}

/// The cover: commanded on the topic and with the payloads the message
/// handler understands, reporting the states the motor task publishes.
pub fn cover_config(device: Device) -> (c: CoverConfig)
    ensures
        c.name@ == "gate"@,
        c.unique_id@ == "mqtt_gate_cover"@,
        c.device_class@ == "gate"@,
        c.command_topic@ == COVER_COMMAND_TOPIC@,
        c.state_topic@ == COVER_STATE_TOPIC@,
        c.payload_open@ == OPEN_PAYLOAD@,
        c.payload_close@ == CLOSE_PAYLOAD@,
        c.payload_stop@ == STOP_PAYLOAD@,
        c.state_open@ == OPEN_STATE@,
        c.state_opening@ == OPENING_STATE@,
        c.state_closed@ == CLOSED_STATE@,
        c.state_closing@ == CLOSING_STATE@,
        c.device == device,
{
    CoverConfig {
        name: "gate",
        unique_id: "mqtt_gate_cover",
        device_class: "gate",
        command_topic: COVER_COMMAND_TOPIC,
        state_topic: COVER_STATE_TOPIC,
        payload_open: OPEN_PAYLOAD,
        payload_close: CLOSE_PAYLOAD,
        payload_stop: STOP_PAYLOAD,
        state_open: OPEN_STATE,
        state_opening: OPENING_STATE,
        state_closed: CLOSED_STATE,
        state_closing: CLOSING_STATE,
        device,
    }
}

/// The wind-lock sensor: on while the wind lock is engaged.
pub fn wind_sensor_config(device: Device) -> (c: BinarySensorConfig)
    ensures
        c.name@ == "Windwächter"@,
        c.unique_id@ == "mqtt_gate_wind"@,
        c.device_class@ == "safety"@,
        c.state_topic@ == WIND_STATE_TOPIC@,
        c.payload_on@ == ON_PAYLOAD@,
        c.payload_off@ == OFF_PAYLOAD@,
        c.device == device,
{
    BinarySensorConfig {
        name: "Windwächter",
        unique_id: "mqtt_gate_wind",
        device_class: "safety",
        state_topic: WIND_STATE_TOPIC,
        payload_on: ON_PAYLOAD,
        payload_off: OFF_PAYLOAD,
        device,
    }
}

/// The button that clears the wind lock without commanding any gate movement itself.
pub fn reset_button_config(device: Device) -> (c: ButtonConfig)
    ensures
        c.name@ == "Windwächter zurücksetzen"@,
        c.unique_id@ == "mqtt_gate_reset_anemometer"@,
        c.command_topic@ == BUTTON_COMMAND_TOPIC@,
        c.payload_press@ == RESET_WIND_LOCK_PAYLOAD@,
        c.device == device,
{
    ButtonConfig {
        name: "Windwächter zurücksetzen",
        unique_id: "mqtt_gate_reset_anemometer",
        command_topic: BUTTON_COMMAND_TOPIC,
        payload_press: RESET_WIND_LOCK_PAYLOAD,
        device,
    }
}

/// The entities announced through discovery.
#[derive(Clone, Copy, Debug, PartialEq, Eq, Structural)]
pub enum DiscoveryEntity {
    Cover,
    WindSensor,
    ResetButton,
}

/// Where and how an entity's config is published.
#[derive(Clone, Copy, Debug)]
pub struct ConfigTarget {
    pub topic: &'static str,
    pub qos: QoS,
    pub retain: bool,
}

/// The discovery topic each entity's config goes to.
pub open spec fn config_topic(entity: DiscoveryEntity) -> Seq<char> {
    match entity {
        DiscoveryEntity::Cover => COVER_CONFIG_TOPIC@,
        DiscoveryEntity::WindSensor => WIND_CONFIG_TOPIC@,
        DiscoveryEntity::ResetButton => BUTTON_CONFIG_TOPIC@,
    }
}

/// The order in which the configs are published: the cover, then the
/// wind-lock sensor, then the reset button.
pub fn publish_order() -> (order: [DiscoveryEntity; 3])
    ensures
        order@ == seq![
            DiscoveryEntity::Cover,
            DiscoveryEntity::WindSensor,
            DiscoveryEntity::ResetButton,
        ],
{
    let order = [DiscoveryEntity::Cover, DiscoveryEntity::WindSensor, DiscoveryEntity::ResetButton];
    assert(order@ =~= seq![
        DiscoveryEntity::Cover,
        DiscoveryEntity::WindSensor,
        DiscoveryEntity::ResetButton,
    ]);
    order
}

/// Each config goes to its entity's discovery topic, at least once and
/// retained, so Home Assistant finds it again after a restart.
pub fn config_target(entity: DiscoveryEntity) -> (t: ConfigTarget)
    ensures
        t.topic@ == config_topic(entity),
        t.qos == QoS::AtLeastOnce,
        t.retain,
{
    let topic = match entity {
        DiscoveryEntity::Cover => COVER_CONFIG_TOPIC,
        DiscoveryEntity::WindSensor => WIND_CONFIG_TOPIC,
        DiscoveryEntity::ResetButton => BUTTON_CONFIG_TOPIC,
    };
    ConfigTarget { topic, qos: QoS::AtLeastOnce, retain: true }
}

/// Each entity's config goes to the Home Assistant discovery topic of its own
/// component (the cover under `homeassistant/cover/`, the wind-lock sensor
/// under `homeassistant/binary_sensor/`, the reset button under
/// `homeassistant/button/`), ending in `/config`; no two entities share a topic.
pub proof fn lemma_config_topics(a: DiscoveryEntity, b: DiscoveryEntity)
    ensures
        config_topic(DiscoveryEntity::Cover).subrange(0, 20) == "homeassistant/cover/"@,
        config_topic(DiscoveryEntity::WindSensor).subrange(0, 28) == "homeassistant/binary_sensor/"@,
        config_topic(DiscoveryEntity::ResetButton).subrange(0, 21) == "homeassistant/button/"@,
        config_topic(a).subrange(config_topic(a).len() - 7, config_topic(a).len() as int)
            == "/config"@,
        a != b ==> config_topic(a) != config_topic(b),
{
    reveal_strlit("homeassistant/cover/mqtt_gate/config");
    reveal_strlit("homeassistant/binary_sensor/mqtt_gate_wind/config");
    reveal_strlit("homeassistant/button/mqtt_gate_impulse/config");
    reveal_strlit("homeassistant/cover/");
    reveal_strlit("homeassistant/binary_sensor/");
    reveal_strlit("homeassistant/button/");
    reveal_strlit("/config");
    assert(config_topic(DiscoveryEntity::Cover).subrange(0, 20) =~= "homeassistant/cover/"@);
    assert(config_topic(DiscoveryEntity::WindSensor).subrange(0, 28) =~= "homeassistant/binary_sensor/"@);
    assert(config_topic(DiscoveryEntity::ResetButton).subrange(0, 21) =~= "homeassistant/button/"@);
    assert(config_topic(a).subrange(config_topic(a).len() - 7, config_topic(a).len() as int) =~= "/config"@);
    if a != b {
        assert(config_topic(a)[15] != config_topic(b)[15]);
    }
}

} // verus!
