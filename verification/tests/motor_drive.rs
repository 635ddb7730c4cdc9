use mqtt_gate::drive::{DrivePhase, DriveStep, GateDrive};
use mqtt_gate::gate::GateCommand;
use mqtt_gate::motor::{Motor, MotorSettings, MotorState};

fn settings(duration: u8, initial_position: u8) -> MotorSettings {
    MotorSettings { duration, initial_position }
}

#[test]
fn new_motor_is_idle_with_relays_off() {
    let m = Motor::new(settings(15, 100));
    assert_eq!(m.position(), 100);
    assert!(!m.open_relay());
    assert!(!m.close_relay());
    assert!(m.is_idle());
}

#[test]
fn zero_duration_counts_as_one_second() {
    let m = Motor::new(settings(0, 0));
    // 1000 ms * 255 / 255
    assert_eq!(m.remaining_open(), 1000);
}

#[test]
fn remaining_times_follow_the_formula() {
    // position 0: biased open = 0 -> full 15 s; close biased = 20 -> 15000*20/255
    let m = Motor::new(settings(15, 0));
    assert_eq!(m.remaining_open(), 15000);
    assert_eq!(m.remaining_close(), 15000 * 20 / 255);
    let m = Motor::new(settings(15, 255));
    assert_eq!(m.remaining_open(), 15000 * 20 / 255);
    assert_eq!(m.remaining_close(), 15000);
    let m = Motor::new(settings(15, 100));
    assert_eq!(m.remaining_open(), 15000 * 175 / 255);
    assert_eq!(m.remaining_close(), 15000 * 120 / 255);
}

#[test]
fn opening_run_moves_position() {
    let mut m = Motor::new(settings(10, 0));
    m.start_open(1_000_000);
    assert!(m.open_relay());
    assert!(!m.close_relay());
    assert_eq!(m.state(), MotorState::Opening(1_000_000));
    // 5 s of a 10 s travel: 5000 * 255 / 10000 = 127
    m.stop(6_000_000);
    assert_eq!(m.position(), 127);
    assert!(m.is_idle());
    assert!(!m.open_relay());
    // overrunning saturates at fully open
    m.start_open(7_000_000);
    m.stop(100_000_000);
    assert_eq!(m.position(), 255);
}

#[test]
fn closing_run_moves_position_and_saturates() {
    let mut m = Motor::new(settings(10, 200));
    m.start_close(0);
    assert!(m.close_relay());
    assert!(!m.open_relay());
    // 2 s of 10 s: 2000 * 255 / 10000 = 51
    m.stop(2_000_999);
    assert_eq!(m.position(), 149);
    m.start_close(3_000_000);
    m.stop(30_000_000);
    assert_eq!(m.position(), 0);
}

#[test]
fn start_at_end_stop_does_nothing() {
    let mut m = Motor::new(settings(10, 255));
    m.start_open(0);
    assert!(m.is_idle());
    assert!(!m.open_relay());
    let mut m = Motor::new(settings(10, 0));
    m.start_close(0);
    assert!(m.is_idle());
    assert!(!m.close_relay());
}

#[test]
fn open_run_staggers_the_leaves() {
    // left at 0 needs 15000 ms, right at 100 needs 15000*175/255 = 10294 ms
    let mut d = GateDrive::new(settings(15, 0), settings(15, 100));
    let step = d.begin(GateCommand::Open, 0);
    assert_eq!(step, DriveStep::Wait(15000 - 10294));
    assert_eq!(d.phase(), DrivePhase::OpenStagger { left_longer: true });
    assert!(d.left().open_relay());
    assert!(!d.right().open_relay());
    let step = d.timer_elapsed(4_706_000);
    assert_eq!(step, DriveStep::Wait(10294));
    assert!(d.right().open_relay());
    let step = d.timer_elapsed(15_000_000);
    assert_eq!(step, DriveStep::Finished);
    assert_eq!(d.left().position(), 255);
    assert_eq!(d.right().position(), 255);
    assert!(!d.left().open_relay() && !d.right().open_relay());
    assert_eq!(d.phase(), DrivePhase::Idle);
}

#[test]
fn close_run_stops_the_sooner_leaf_first() {
    // left at 255 needs 15000 ms; right at 50 needs 15000*70/255 = 4117 ms
    let mut d = GateDrive::new(settings(15, 255), settings(15, 50));
    let step = d.begin(GateCommand::Close, 0);
    assert_eq!(step, DriveStep::Wait(4117));
    assert!(d.left().close_relay() && d.right().close_relay());
    let step = d.timer_elapsed(4_117_000);
    assert_eq!(step, DriveStep::Wait(15000 - 4117));
    assert!(!d.right().close_relay());
    assert_eq!(d.right().position(), 0);
    let step = d.timer_elapsed(15_000_000);
    assert_eq!(step, DriveStep::Finished);
    assert_eq!(d.left().position(), 0);
}

#[test]
fn interrupted_run_stops_both_leaves() {
    let mut d = GateDrive::new(settings(10, 0), settings(10, 0));
    let step = d.begin(GateCommand::Open, 0);
    assert_eq!(step, DriveStep::Wait(0));
    d.timer_elapsed(0);
    d.interrupt(2_000_000);
    assert!(d.left().is_idle() && d.right().is_idle());
    assert_eq!(d.left().position(), 51);
    assert_eq!(d.right().position(), 51);
    assert_eq!(d.phase(), DrivePhase::Idle);
}

#[test]
fn stop_command_finishes_at_once() {
    let mut d = GateDrive::new(settings(10, 30), settings(10, 40));
    assert_eq!(d.begin(GateCommand::Stop, 5), DriveStep::Finished);
    assert_eq!(d.left().position(), 30);
    assert_eq!(d.right().position(), 40);
}
