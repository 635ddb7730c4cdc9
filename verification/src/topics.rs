//! MQTT topics and payloads shared by the command logic, the message handler and
//! the Home Assistant discovery configs.
use vstd::prelude::*;

verus! {

pub const NODE_ID: &'static str = "mqtt_gate";

pub const COVER_CONFIG_TOPIC: &'static str = "homeassistant/cover/mqtt_gate/config";
pub const COVER_COMMAND_TOPIC: &'static str = "mqtt_gate/cover/set";
pub const COVER_STATE_TOPIC: &'static str = "mqtt_gate/cover/state";

pub const CONTACT_CONFIG_TOPIC: &'static str = "homeassistant/binary_sensor/mqtt_gate_contact/config";
pub const CONTACT_STATE_TOPIC: &'static str = "mqtt_gate/contact/state";

pub const WIND_CONFIG_TOPIC: &'static str = "homeassistant/binary_sensor/mqtt_gate_wind/config";
pub const WIND_STATE_TOPIC: &'static str = "mqtt_gate/wind/state";

pub const SPARE_INPUT_STATE_TOPIC: &'static str = "mqtt_gate/spare_input/state";

pub const BUTTON_CONFIG_TOPIC: &'static str = "homeassistant/button/mqtt_gate_impulse/config";
pub const BUTTON_COMMAND_TOPIC: &'static str = "mqtt_gate/impulse/set";

pub const OPEN_STATE: &'static str = "open";
pub const CLOSED_STATE: &'static str = "closed";
pub const OPENING_STATE: &'static str = "opening";
pub const CLOSING_STATE: &'static str = "closing";

pub const OPEN_PAYLOAD: &'static str = "OPEN";
pub const CLOSE_PAYLOAD: &'static str = "CLOSE";
pub const STOP_PAYLOAD: &'static str = "STOP";

pub const ON_PAYLOAD: &'static str = "ON";
pub const OFF_PAYLOAD: &'static str = "OFF";

/// Payload of the discovery button that clears the wind lock.
pub const RESET_WIND_LOCK_PAYLOAD: &'static str = "RESET";

/// `ON` for an active (true) binary state, `OFF` otherwise.
pub fn on_off_payload(active: bool) -> (payload: &'static str)
    ensures
        payload@ == (if active { ON_PAYLOAD@ } else { OFF_PAYLOAD@ }),
{
    if active { ON_PAYLOAD } else { OFF_PAYLOAD }
}

} // verus!
