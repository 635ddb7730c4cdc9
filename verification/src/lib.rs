//! Verified core of a two-leaf gate controller exposed to Home Assistant over
//! MQTT.
//!
//! * [`gate`] - who may move the leaves: commands, light barriers, wind lock.
//! * [`motor`], [`drive`] - position tracking of one leaf, and running both
//!   leaves through a command.
//! * [`inputs`], [`boot`] - decisions of the input watchers and at start-up.
//! * [`config`], [`provisioning`], [`storage`] - the provisioned configuration,
//!   the setup form, and the persisted records.
//! * [`topics`], [`discovery`], [`mqtt_handler`], [`mqtt_client`] - what is
//!   published and subscribed, and how incoming messages turn into commands.
//! * [`mqtt_codec`], [`mqtt_packet`], [`mqtt_session`] - the MQTT 3.1.1 wire
//!   format and the client side of a connection.

pub mod boot;
pub mod config;
pub mod discovery;
pub mod drive;
pub mod gate;
pub mod inputs;
pub mod motor;
pub mod mqtt_client;
pub mod mqtt_codec;
pub mod mqtt_handler;
pub mod mqtt_packet;
pub mod mqtt_session;
pub mod provisioning;
pub mod storage;
pub mod topics;
