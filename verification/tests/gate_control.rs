use mqtt_gate::gate::{
    barrier1_set, barrier2_set, close, command_started, impulse, open, reset_wind_lock,
    restore_wind_lock, settle, stop, wind_locked, wind_trigger, Direction, GateCommand,
    GateControl, PositionClass,
};

#[test]
fn fresh_control_accepts_user_commands() {
    let ctl = GateControl::new();
    assert_eq!(open(&ctl), Some(GateCommand::Open));
    assert_eq!(close(&ctl), Some(GateCommand::Close));
    assert_eq!(stop(&ctl), Some(GateCommand::Stop));
    assert!(!wind_locked(&ctl));
    assert_eq!(ctl.current_direction(), Direction::Idle);
    assert_eq!(ctl.position(), PositionClass::Closed);
}

#[test]
fn wind_lock_ignores_user_commands() {
    let mut ctl = GateControl::new();
    assert_eq!(wind_trigger(&mut ctl), Some(GateCommand::Open));
    assert!(wind_locked(&ctl));
    assert_eq!(open(&ctl), None);
    assert_eq!(close(&ctl), None);
    assert_eq!(stop(&ctl), None);
    assert_eq!(impulse(&ctl), None);
    assert_eq!(reset_wind_lock(&mut ctl), Some(GateCommand::Stop));
    assert!(!wind_locked(&ctl));
    assert_eq!(open(&ctl), Some(GateCommand::Open));
}

#[test]
fn wind_trigger_is_overridden_by_barrier1() {
    let mut ctl = GateControl::new();
    assert_eq!(barrier1_set(&mut ctl, true), Some(GateCommand::Stop));
    assert_eq!(wind_trigger(&mut ctl), None);
    assert!(wind_locked(&ctl));
    // Once the obstruction clears, "always open" is pursued again.
    assert_eq!(barrier1_set(&mut ctl, false), Some(GateCommand::Open));
}

#[test]
fn barrier1_clearing_without_wind_lock_queues_nothing() {
    let mut ctl = GateControl::new();
    assert_eq!(barrier1_set(&mut ctl, true), Some(GateCommand::Stop));
    assert_eq!(barrier1_set(&mut ctl, false), None);
}

#[test]
fn barrier1_blocks_open_and_close() {
    let mut ctl = GateControl::new();
    barrier1_set(&mut ctl, true);
    assert_eq!(open(&ctl), None);
    assert_eq!(close(&ctl), None);
    assert_eq!(stop(&ctl), Some(GateCommand::Stop));
}

#[test]
fn barrier2_blocks_closing_only() {
    let mut ctl = GateControl::new();
    assert_eq!(barrier2_set(&mut ctl, true), None);
    assert_eq!(close(&ctl), None);
    assert_eq!(open(&ctl), Some(GateCommand::Open));
}

#[test]
fn barrier2_stops_a_closing_gate() {
    let mut ctl = GateControl::new();
    command_started(&mut ctl, GateCommand::Close);
    assert_eq!(barrier2_set(&mut ctl, true), Some(GateCommand::Stop));
    let mut ctl = GateControl::new();
    command_started(&mut ctl, GateCommand::Open);
    assert_eq!(barrier2_set(&mut ctl, true), None);
}

#[test]
fn impulse_cycles_open_stop_close_stop_open() {
    let mut ctl = GateControl::new();
    // idle and closed: open
    assert_eq!(impulse(&ctl), Some(GateCommand::Open));
    assert_eq!(command_started(&mut ctl, GateCommand::Open), Some("opening"));
    // moving: stop
    assert_eq!(impulse(&ctl), Some(GateCommand::Stop));
    settle(&mut ctl, 120, 130);
    assert_eq!(ctl.position(), PositionClass::Partial);
    // stopped mid-travel after opening: close
    assert_eq!(impulse(&ctl), Some(GateCommand::Close));
    assert_eq!(command_started(&mut ctl, GateCommand::Close), Some("closing"));
    assert_eq!(impulse(&ctl), Some(GateCommand::Stop));
    settle(&mut ctl, 60, 70);
    // stopped mid-travel after closing: open
    assert_eq!(impulse(&ctl), Some(GateCommand::Open));
}

#[test]
fn impulse_at_open_end_closes() {
    let mut ctl = GateControl::new();
    command_started(&mut ctl, GateCommand::Open);
    settle(&mut ctl, 255, 255);
    assert_eq!(ctl.position(), PositionClass::Open);
    assert_eq!(impulse(&ctl), Some(GateCommand::Close));
}

#[test]
fn first_impulse_from_partial_position_opens() {
    let mut ctl = GateControl::new();
    settle(&mut ctl, 10, 0);
    assert_eq!(impulse(&ctl), Some(GateCommand::Open));
}

#[test]
fn stop_command_does_not_change_direction() {
    let mut ctl = GateControl::new();
    assert_eq!(command_started(&mut ctl, GateCommand::Stop), None);
    assert_eq!(ctl.current_direction(), Direction::Idle);
}

#[test]
fn settle_classifies_and_reports() {
    let mut ctl = GateControl::new();
    command_started(&mut ctl, GateCommand::Open);
    let r = settle(&mut ctl, 0, 0);
    assert_eq!(r.position, PositionClass::Closed);
    assert_eq!(r.cover_state, "closed");
    assert_eq!(r.wind_state, "OFF");
    assert_eq!(r.persisted.left_position, 0);
    assert_eq!(r.persisted.right_position, 0);
    assert!(!r.persisted.wind_locked);
    assert_eq!(ctl.current_direction(), Direction::Idle);

    wind_trigger(&mut ctl);
    let r = settle(&mut ctl, 255, 254);
    assert_eq!(r.position, PositionClass::Partial);
    assert_eq!(r.cover_state, "open");
    assert_eq!(r.wind_state, "ON");
    assert!(r.persisted.wind_locked);

    let r = settle(&mut ctl, 255, 255);
    assert_eq!(r.position, PositionClass::Open);
    assert_eq!(r.cover_state, "open");
}

#[test]
fn restored_wind_lock_pursues_open() {
    let mut ctl = GateControl::new();
    assert_eq!(restore_wind_lock(&mut ctl, true), Some(GateCommand::Open));
    assert!(wind_locked(&ctl));
    let mut ctl = GateControl::new();
    assert_eq!(restore_wind_lock(&mut ctl, false), None);
    assert!(!wind_locked(&ctl));
}

#[test]
fn restored_wind_lock_waits_for_barrier1() {
    let mut ctl = GateControl::new();
    assert_eq!(barrier1_set(&mut ctl, true), Some(GateCommand::Stop));
    assert_eq!(restore_wind_lock(&mut ctl, true), None);
    assert!(wind_locked(&ctl));
    assert_eq!(barrier1_set(&mut ctl, false), Some(GateCommand::Open));
}

#[test]
fn last_direction_follows_started_commands() {
    let mut ctl = GateControl::new();
    assert_eq!(ctl.last_direction(), Direction::Closing);
    command_started(&mut ctl, GateCommand::Open);
    assert_eq!(ctl.last_direction(), Direction::Opening);
    settle(&mut ctl, 100, 100);
    assert_eq!(ctl.current_direction(), Direction::Idle);
    assert_eq!(ctl.last_direction(), Direction::Opening);
    command_started(&mut ctl, GateCommand::Stop);
    assert_eq!(ctl.last_direction(), Direction::Opening);
    command_started(&mut ctl, GateCommand::Close);
    assert_eq!(ctl.last_direction(), Direction::Closing);
}
