//! Start-up decisions: hold-to-reset, which mode to boot into, how the leaves
//! resume from the persisted state, and the Wi-Fi settings of either mode.
use vstd::prelude::*;
use crate::config::AppConfig;
use crate::drive::drive_from_settings;
use crate::gate::{classify, settled, GateControlView};
use crate::motor::MotorSettings;
use crate::storage::GateState;

verus! {

/// How long the BOOT button must be held continuously at start-up to erase the
/// stored config, in milliseconds.
pub const HOLD_MS: u64 = 5000;
/// Delay between two samples of the BOOT button while it is held, in milliseconds.
pub const RESET_POLL_INTERVAL_MS: u64 = 50;

/// Seconds each leaf needs for a full travel.
pub const LEFT_MOTOR_DURATION_SECS: u8 = 15;
pub const RIGHT_MOTOR_DURATION_SECS: u8 = 15;

/// SSID advertised by the open provisioning hotspot.
pub const AP_SSID: &'static str = "mqtt-gate-setup";
pub const AP_IP_OCTETS: [u8; 4] = [192, 168, 2, 1];
pub const AP_PREFIX_LEN: u8 = 24;

#[derive(Clone, Copy, Debug, PartialEq, Eq, Structural)]
pub enum HoldDecision {
    /// The button is not (or no longer) held: carry on booting without erasing.
    Released,
    /// Held long enough: erase the stored config, then carry on booting.
    Erase,
    /// Still held but not yet long enough: sample again after the poll interval.
    KeepPolling,
}

/// What one sample of the hold-to-reset check decides.
pub open spec fn hold_decision_for(is_low: bool, held_ms: u64) -> HoldDecision {
    if !is_low {
        HoldDecision::Released
    } else if held_ms >= HOLD_MS {
        HoldDecision::Erase
    } else {
        HoldDecision::KeepPolling
    }
}

/// One sample of the hold-to-reset check: `held_ms` is the time since the
/// check started, during which the button has been low at every sample.
pub fn hold_decision(is_low: bool, held_ms: u64) -> (d: HoldDecision)
    ensures
        d == hold_decision_for(is_low, held_ms),
{
    if !is_low {
        HoldDecision::Released
    } else if held_ms >= HOLD_MS {
        HoldDecision::Erase
    } else {
        HoldDecision::KeepPolling
    }
}

#[derive(Clone, Copy, Debug, PartialEq, Eq, Structural)]
pub enum BootMode {
    /// Join the configured Wi-Fi network and run the motors.
    Station,
    /// Open the setup hotspot and serve the provisioning form.
    Provisioning,
}

pub open spec fn boot_mode_for(stored: Option<AppConfig>) -> BootMode {
    match stored {
        Some(cfg) => if cfg.wifi_ssid@.len() != 0 { BootMode::Station } else { BootMode::Provisioning },
        None => BootMode::Provisioning,
    }
}

/// Station mode needs a stored config with a Wi-Fi SSID; anything else means
/// nothing is configured yet.
pub fn choose_boot_mode(stored: &Option<AppConfig>) -> (mode: BootMode)
    ensures
        mode == boot_mode_for(*stored),
{
    match stored {
        Some(cfg) => if !cfg.wifi_ssid.as_str().is_empty() {
            BootMode::Station
        } else {
            BootMode::Provisioning
        },
        None => BootMode::Provisioning,
    }
}

/// The persisted gate state, or - if none was ever saved - closed and unlocked.
pub fn restored_gate_state(loaded: Option<GateState>) -> (s: GateState)
    ensures
        s == (match loaded {
            Some(state) => state,
            None => GateState { left_position: 0, right_position: 0, wind_locked: false },
        }),
{
    match loaded {
        Some(state) => state,
        None => GateState::default(),
    }
}

pub open spec fn settings_for(state: GateState) -> (MotorSettings, MotorSettings) {
    (
        MotorSettings { duration: LEFT_MOTOR_DURATION_SECS, initial_position: state.left_position },
        MotorSettings { duration: RIGHT_MOTOR_DURATION_SECS, initial_position: state.right_position },
    )
}

/// Motor settings of the left and right leaf, resuming at the persisted positions.
pub fn motor_settings(state: GateState) -> (s: (MotorSettings, MotorSettings))
    ensures
        s == settings_for(state),
{
    (
        MotorSettings { duration: LEFT_MOTOR_DURATION_SECS, initial_position: state.left_position },
        MotorSettings { duration: RIGHT_MOTOR_DURATION_SECS, initial_position: state.right_position },
    )
}

/// A reboot resumes where the leaves were: the state persisted when a command
/// settles gives motors at the same leaf positions, and the same wind lock.
pub proof fn lemma_persisted_state_resumes(c: GateControlView, left: u8, right: u8)
    ensures
        ({
            let persisted = GateState { left_position: left, right_position: right, wind_locked: c.wind_locked };
            let (ls, rs) = settings_for(persisted);
            let drive = drive_from_settings(ls, rs);
            &&& drive.left.position == left
            &&& drive.right.position == right
            &&& drive.both_idle()
            &&& classify(drive.left.position, drive.right.position) == settled(c, left, right).position
            &&& persisted.wind_locked == settled(c, left, right).wind_locked
        }),
{
}

/// What the station interface is configured with.
pub struct StationSettings {
    pub ssid: String,
    pub password: String,
    /// Join without authentication (the network has no password).
    pub open_network: bool,
}

/// Station settings from the persisted config. Only open and WPA2-Personal
/// networks are supported: an empty password means an open network.
pub fn station_settings(cfg: &AppConfig) -> (s: StationSettings)
    ensures
        s.ssid@ == cfg.wifi_ssid@,
        s.password@ == cfg.wifi_password@,
        s.open_network == (cfg.wifi_password@.len() == 0),
{
    StationSettings {
        ssid: cfg.wifi_ssid.clone(),
        password: cfg.wifi_password.clone(),
        open_network: cfg.wifi_password.as_str().is_empty(),
    }
}

/// The device boots into station mode exactly when a config is stored and it
/// names a Wi-Fi network; with nothing stored, or a blank SSID, it opens the
/// provisioning hotspot.
pub proof fn lemma_boot_mode(stored: Option<AppConfig>)
    ensures
        boot_mode_for(stored) == BootMode::Station <==> (stored matches Some(cfg)
            && cfg.wifi_ssid@.len() > 0),
        stored is None ==> boot_mode_for(stored) == BootMode::Provisioning,
{
}

/// Hold-to-reset erases only after the button has been held for the full
/// five seconds, and a release at any time carries on without erasing.
pub proof fn lemma_hold_to_reset(held_ms: u64)
    ensures
        HOLD_MS == 5000,
        held_ms >= 5000 ==> hold_decision_for(true, held_ms) == HoldDecision::Erase,
        held_ms < 5000 ==> hold_decision_for(true, held_ms) == HoldDecision::KeepPolling,
        hold_decision_for(false, held_ms) == HoldDecision::Released,
{
}

} // verus!
