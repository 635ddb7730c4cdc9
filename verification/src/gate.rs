//! Gate command logic: who may move the leaves, and when.
//!
//! [`GateControl`] holds the state that every input consults: what the motors
//! are doing, where the leaves are (coarsely), the wind-lock latch and the two
//! light barriers. The input handlers ([`open`], [`close`], [`stop`],
//! [`impulse`], [`wind_trigger`], [`reset_wind_lock`], [`barrier1_set`],
//! [`barrier2_set`]) return the command they queue for the motor task, if any;
//! the caller hands it to the one-slot command queue, which drops it when a
//! command is already pending.
use vstd::prelude::*;
use crate::storage::GateState;
use crate::topics::{CLOSED_STATE, CLOSING_STATE, OPEN_STATE, OPENING_STATE, OFF_PAYLOAD, ON_PAYLOAD};

verus! {

#[derive(Clone, Copy, Debug, PartialEq, Eq, Structural)]
pub enum GateCommand {
    Open,
    Close,
    Stop,
}

/// What the motors are doing.
#[derive(Clone, Copy, Debug, PartialEq, Eq, Structural)]
pub enum Direction {
    Idle,
    Opening,
    Closing,
}

/// Coarse classification of the leaf positions: closed only when both leaves
/// are fully closed, open only when both are fully open, partial otherwise.
#[derive(Clone, Copy, Debug, PartialEq, Eq, Structural)]
pub enum PositionClass {
    Closed,
    Partial,
    Open,
}

pub ghost struct GateControlView {
    /// `Idle` whenever no command is in flight.
    pub current_direction: Direction,
    /// The most recent non-idle direction, kept after the motors go idle.
    pub last_direction: Direction,
    pub position: PositionClass,
    /// While set, the leaves are forced open and open/close/stop/impulse are ignored.
    pub wind_locked: bool,
    /// Light barrier 1: stops the leaves regardless of direction and blocks open/close.
    pub barrier1_active: bool,
    /// Light barrier 2: only stops/blocks closing.
    pub barrier2_active: bool,
}

pub struct GateControl {
    current_direction: Direction,
    last_direction: Direction,
    position: PositionClass,
    wind_locked: bool,
    barrier1_active: bool,
    barrier2_active: bool,
}

impl GateControl {
    /// The last direction is the most recent non-idle direction: never idle.
    #[verifier::type_invariant]
    spec fn last_direction_not_idle(self) -> bool {
        self.last_direction != Direction::Idle
    }
}

impl View for GateControl {
    type V = GateControlView;

    closed spec fn view(&self) -> GateControlView {
        GateControlView {
            current_direction: self.current_direction,
            last_direction: self.last_direction,
            position: self.position,
            wind_locked: self.wind_locked,
            barrier1_active: self.barrier1_active,
            barrier2_active: self.barrier2_active,
        }
    }
}

/// State at power-up: idle, closed, nothing latched. The last direction
/// defaults to closing so the first impulse from a partial position opens.
pub open spec fn initial_control() -> GateControlView {
    GateControlView {
        current_direction: Direction::Idle,
        last_direction: Direction::Closing,
        position: PositionClass::Closed,
        wind_locked: false,
        barrier1_active: false,
        barrier2_active: false,
    }
}

/// Open, unless light barrier 1 is broken (the wind lock is not consulted).
pub open spec fn open_unless_barrier1_request(c: GateControlView) -> Option<GateCommand> {
    if c.barrier1_active { None } else { Some(GateCommand::Open) }
}

pub open spec fn open_request(c: GateControlView) -> Option<GateCommand> {
    if c.wind_locked { None } else { open_unless_barrier1_request(c) }
}

pub open spec fn close_request(c: GateControlView) -> Option<GateCommand> {
    if c.wind_locked || c.barrier1_active || c.barrier2_active {
        None
    } else {
        Some(GateCommand::Close)
    }
}

pub open spec fn stop_request(c: GateControlView) -> Option<GateCommand> {
    if c.wind_locked { None } else { Some(GateCommand::Stop) }
}

/// Press cycle open -> stop -> close -> stop -> open: stop a moving gate, send
/// an idle gate at a known end the other way, and resume a gate stopped
/// mid-travel in the direction opposite to the interrupted one.
pub open spec fn impulse_request(c: GateControlView) -> Option<GateCommand> {
    if c.wind_locked {
        None
    } else if c.current_direction != Direction::Idle {
        stop_request(c)
    } else {
        match c.position {
            PositionClass::Closed => open_request(c),
            PositionClass::Open => close_request(c),
            PositionClass::Partial => if c.last_direction == Direction::Opening {
                close_request(c)
            } else {
                open_request(c)
            },
        }
    }
}

/// Classification of two leaf positions.
pub open spec fn classify(left: u8, right: u8) -> PositionClass {
    if left == 0 && right == 0 {
        PositionClass::Closed
    } else if left == 255 && right == 255 {
        PositionClass::Open
    } else {
        PositionClass::Partial
    }
}

impl GateControl {
    pub fn new() -> (c: GateControl)
        ensures
            c@ == initial_control(),
    {
        GateControl {
            current_direction: Direction::Idle,
            last_direction: Direction::Closing,
            position: PositionClass::Closed,
            wind_locked: false,
            barrier1_active: false,
            barrier2_active: false,
        }
    }

    pub fn current_direction(&self) -> (d: Direction)
        ensures
            d == self@.current_direction,
    {
        self.current_direction
    }

    /// The direction of the most recent command that moved the leaves; never
    /// idle, since the type keeps it so.
    pub fn last_direction(&self) -> (d: Direction)
        ensures
            d == self@.last_direction,
            d != Direction::Idle,
    {
        proof {
            use_type_invariant(self);
        }
        self.last_direction
    }

    pub fn position(&self) -> (p: PositionClass)
        ensures
            p == self@.position,
    {
        self.position
    }
}

pub fn wind_locked(ctl: &GateControl) -> (locked: bool)
    ensures
        locked == ctl@.wind_locked,
{
    ctl.wind_locked
}

/// Queues an OPEN unless light barrier 1 is currently broken - used both by
/// [`open`] (which also honours the wind lock) and by the paths that must open regardless of the wind
/// lock (the wind lock forcing the leaves open is what barrier 1 overrides).
fn send_open_unless_barrier1(ctl: &GateControl) -> (cmd: Option<GateCommand>)
    ensures
        cmd == open_unless_barrier1_request(ctl@),
{
    if !ctl.barrier1_active {
        Some(GateCommand::Open)
    } else {
        None
    }
}

pub fn open(ctl: &GateControl) -> (cmd: Option<GateCommand>)
    ensures
        cmd == open_request(ctl@),
{
    if wind_locked(ctl) {
        return None;
    }
    send_open_unless_barrier1(ctl)
}

pub fn close(ctl: &GateControl) -> (cmd: Option<GateCommand>)
    ensures
        cmd == close_request(ctl@),
{
    if wind_locked(ctl) {
        return None;
    }
    if ctl.barrier1_active || ctl.barrier2_active {
        return None;
    }
    Some(GateCommand::Close)
}

pub fn stop(ctl: &GateControl) -> (cmd: Option<GateCommand>)
    ensures
        cmd == stop_request(ctl@),
{
    if wind_locked(ctl) {
        return None;
    }
    Some(GateCommand::Stop)
}

/// Local push button and radio remote: see [`impulse_request`].
pub fn impulse(ctl: &GateControl) -> (cmd: Option<GateCommand>)
    ensures
        cmd == impulse_request(ctl@),
{
    if wind_locked(ctl) {
        return None;
    }
    if ctl.current_direction != Direction::Idle {
        return stop(ctl);
    }
    match ctl.position {
        PositionClass::Closed => open(ctl),
        PositionClass::Open => close(ctl),
        PositionClass::Partial => match ctl.last_direction {
            Direction::Opening => close(ctl),
            _ => open(ctl),
        },
    }
}

/// Wind guard tripped: latches the lock and forces the leaves open, bypassing
/// the lock check itself - only barrier 1 can still override this.
pub fn wind_trigger(ctl: &mut GateControl) -> (cmd: Option<GateCommand>)
    ensures
        final(ctl)@ == (GateControlView { wind_locked: true, ..old(ctl)@ }),
        cmd == open_unless_barrier1_request(old(ctl)@),
{
    proof {
        use_type_invariant(&*ctl);
    }
    ctl.wind_locked = true;
    send_open_unless_barrier1(ctl)
}

/// Clears the wind lock and queues a (harmless if already idle) STOP so the
/// gate task republishes and persists the new state promptly.
pub fn reset_wind_lock(ctl: &mut GateControl) -> (cmd: Option<GateCommand>)
    ensures
        final(ctl)@ == (GateControlView { wind_locked: false, ..old(ctl)@ }),
        cmd == Some(GateCommand::Stop),
{
    proof {
        use_type_invariant(&*ctl);
    }
    ctl.wind_locked = false;
    Some(GateCommand::Stop)
}

/// What [`barrier1_set`] queues: a stop when barrier 1 breaks; when it clears
/// under the wind lock, the open that the lock pursues.
pub open spec fn barrier1_request(c: GateControlView, active: bool) -> Option<GateCommand> {
    if active {
        Some(GateCommand::Stop)
    } else if c.wind_locked {
        Some(GateCommand::Open)
    } else {
        None
    }
}

/// Light barrier 1 (always stops, regardless of direction). Once it clears
/// while the wind lock is engaged, opening is pursued again.
pub fn barrier1_set(ctl: &mut GateControl, active: bool) -> (cmd: Option<GateCommand>)
    ensures
        final(ctl)@ == (GateControlView { barrier1_active: active, ..old(ctl)@ }),
        cmd == barrier1_request(old(ctl)@, active),
{
    proof {
        use_type_invariant(&*ctl);
    }
    ctl.barrier1_active = active;
    if active {
        Some(GateCommand::Stop)
    } else if wind_locked(ctl) {
        send_open_unless_barrier1(ctl)
    } else {
        None
    }
}

/// Light barrier 2 (only stops closing; opening is never affected).
pub fn barrier2_set(ctl: &mut GateControl, active: bool) -> (cmd: Option<GateCommand>)
    ensures
        final(ctl)@ == (GateControlView { barrier2_active: active, ..old(ctl)@ }),
        cmd == barrier2_request(old(ctl)@, active),
{
    proof {
        use_type_invariant(&*ctl);
    }
    ctl.barrier2_active = active;
    if active && ctl.current_direction == Direction::Closing {
        Some(GateCommand::Stop)
    } else {
        None
    }
}

fn set_direction(ctl: &mut GateControl, direction: Direction)
    requires
        direction != Direction::Idle,
    ensures
        final(ctl)@ == (GateControlView {
            current_direction: direction,
            last_direction: direction,
            ..old(ctl)@
        }),
{
    ctl.last_direction = direction;
    ctl.current_direction = direction;
}

/// Effect on the shared state of the motor task picking up a command.
pub open spec fn started(c: GateControlView, cmd: GateCommand) -> GateControlView {
    match cmd {
        GateCommand::Open => GateControlView {
            current_direction: Direction::Opening,
            last_direction: Direction::Opening,
            ..c
        },
        GateCommand::Close => GateControlView {
            current_direction: Direction::Closing,
            last_direction: Direction::Closing,
            ..c
        },
        GateCommand::Stop => c,
    }
}

/// The motor task picks up `cmd`: records the travel direction and returns the
/// cover state to publish before the motors start (none for STOP).
pub fn command_started(ctl: &mut GateControl, cmd: GateCommand) -> (state: Option<&'static str>)
    ensures
        final(ctl)@ == started(old(ctl)@, cmd),
        match cmd {
            GateCommand::Open => state matches Some(s) && s@ == OPENING_STATE@,
            GateCommand::Close => state matches Some(s) && s@ == CLOSING_STATE@,
            GateCommand::Stop => state is None,
        },
{
    match cmd {
        GateCommand::Open => {
            set_direction(ctl, Direction::Opening);
            Some(OPENING_STATE)
        },
        GateCommand::Close => {
            set_direction(ctl, Direction::Closing);
            Some(CLOSING_STATE)
        },
        GateCommand::Stop => None,
    }
}

/// What the motor task publishes and persists once a command has settled.
#[derive(Clone, Copy, Debug)]
pub struct SettleReport {
    pub position: PositionClass,
    /// Retained cover state: `closed` when fully closed, `open` otherwise.
    pub cover_state: &'static str,
    /// Retained wind-lock sensor state.
    pub wind_state: &'static str,
    /// Record to write to flash.
    pub persisted: GateState,
}

/// Effect on the shared state of a command settling with the given leaf positions.
pub open spec fn settled(c: GateControlView, left: u8, right: u8) -> GateControlView {
    GateControlView { current_direction: Direction::Idle, position: classify(left, right), ..c }
}

/// Re-classifies the leaf positions once a command settles (completes or is
/// interrupted), and says what to publish and persist.
pub fn settle(ctl: &mut GateControl, left_position: u8, right_position: u8) -> (r: SettleReport)
    ensures
        final(ctl)@ == settled(old(ctl)@, left_position, right_position),
        r.position == classify(left_position, right_position),
        r.cover_state@ == (if r.position == PositionClass::Closed {
            CLOSED_STATE@
        } else {
            OPEN_STATE@
        }),
        r.wind_state@ == (if old(ctl)@.wind_locked { ON_PAYLOAD@ } else { OFF_PAYLOAD@ }),
        r.persisted == (GateState {
            left_position,
            right_position,
            wind_locked: old(ctl)@.wind_locked,
        }),
{
    proof {
        use_type_invariant(&*ctl);
    }
    ctl.current_direction = Direction::Idle;
    let position = if left_position == 0 && right_position == 0 {
        PositionClass::Closed
    } else if left_position == 255 && right_position == 255 {
        PositionClass::Open
    } else {
        PositionClass::Partial
    };
    ctl.position = position;
    let locked = ctl.wind_locked;
    let cover_state = match position {
        PositionClass::Closed => CLOSED_STATE,
        _ => OPEN_STATE,
    };
    let wind_state = if locked { ON_PAYLOAD } else { OFF_PAYLOAD };
    SettleReport {
        position,
        cover_state,
        wind_state,
        persisted: GateState { left_position, right_position, wind_locked: locked },
    }
}

/// What [`restore_wind_lock`] queues for a restored lock flag.
pub open spec fn restore_request(c: GateControlView, initial_wind_locked: bool) -> Option<
    GateCommand,
> {
    if initial_wind_locked {
        open_unless_barrier1_request(c)
    } else {
        None
    }
}

/// The motor task starts with the restored wind lock; if it was still engaged
/// when power was lost, it keeps pursuing "always open" right away - unless
/// light barrier 1 is broken, which overrides the wind lock. Opening is then
/// pursued once the barrier clears (see [`barrier1_set`]).
pub fn restore_wind_lock(ctl: &mut GateControl, initial_wind_locked: bool) -> (pending: Option<
    GateCommand,
>)
    ensures
        final(ctl)@ == (GateControlView { wind_locked: initial_wind_locked, ..old(ctl)@ }),
        pending == restore_request(old(ctl)@, initial_wind_locked),
{
    proof {
        use_type_invariant(&*ctl);
    }
    ctl.wind_locked = initial_wind_locked;
    if initial_wind_locked {
        send_open_unless_barrier1(ctl)
    } else {
        None
    }
}

/// The last direction is never idle: it starts as closing and is only ever
/// replaced by the direction of a command that starts moving the leaves.
/// Every change the inputs and the motor task make keeps it so.
pub proof fn lemma_last_direction_never_idle(c: GateControlView, cmd: GateCommand, left: u8, right: u8, flag: bool)
    requires
        c.last_direction != Direction::Idle,
    ensures
        initial_control().last_direction != Direction::Idle,
        started(c, cmd).last_direction != Direction::Idle,
        settled(c, left, right).last_direction != Direction::Idle,
        (GateControlView { wind_locked: flag, ..c }).last_direction != Direction::Idle,
        (GateControlView { barrier1_active: flag, ..c }).last_direction != Direction::Idle,
        (GateControlView { barrier2_active: flag, ..c }).last_direction != Direction::Idle,
{
}

/// Barrier 1 breaking stops the leaves in every state, wind lock or not, and
/// whatever they are doing. Barrier 1 clearing queues nothing without the wind
/// lock, and under the lock resumes opening.
pub proof fn lemma_barrier1_events(c: GateControlView)
    ensures
        barrier1_request(c, true) == Some(GateCommand::Stop),
        !c.wind_locked ==> barrier1_request(c, false) is None,
        c.wind_locked ==> barrier1_request(c, false) == Some(GateCommand::Open),
{
}

/// Wind trigger and restored lock open the leaves unless barrier 1 is broken,
/// whatever the leaves are doing, and never close or stop them. A lock
/// restored while barrier 1 is broken queues nothing, and the open follows as
/// soon as the barrier clears; a restore without the lock queues nothing.
pub proof fn lemma_wind_forces_open(c: GateControlView)
    ensures
        !c.barrier1_active ==> open_unless_barrier1_request(c) == Some(GateCommand::Open),
        c.barrier1_active ==> open_unless_barrier1_request(c) is None,
        !c.barrier1_active ==> restore_request(c, true) == Some(GateCommand::Open),
        restore_request(c, false) is None,
        c.barrier1_active ==> restore_request(c, true) is None && barrier1_request(
            GateControlView { wind_locked: true, ..c },
            false,
        ) == Some(GateCommand::Open),
{
}

/// While the wind lock is engaged, the open / close / stop / impulse inputs are ignored.
pub proof fn lemma_wind_lock_ignores_inputs(c: GateControlView)
    requires
        c.wind_locked,
    ensures
        open_request(c) is None,
        close_request(c) is None,
        stop_request(c) is None,
        impulse_request(c) is None,
{
}

/// Light barrier 1 blocks opening and closing; light barrier 2 blocks closing
/// but never opening.
pub proof fn lemma_barriers_block(c: GateControlView)
    requires
        !c.wind_locked,
    ensures
        c.barrier1_active ==> open_request(c) is None && close_request(c) is None,
        c.barrier2_active ==> close_request(c) is None,
        !c.barrier1_active ==> open_request(c) == Some(GateCommand::Open),
{
}

/// A broken barrier 1 stops the leaves whatever it is doing; a broken barrier 2
/// stops it only while closing, and barrier 2 clearing never queues anything.
pub proof fn lemma_barrier_stops(c: GateControlView)
    ensures
        c.current_direction == Direction::Closing ==> barrier2_request(c, true) == Some(GateCommand::Stop),
        c.current_direction != Direction::Closing ==> barrier2_request(c, true) is None,
        barrier2_request(c, false) is None,
        barrier2_request(c, true) != Some(GateCommand::Open),
        barrier2_request(c, true) != Some(GateCommand::Close),
{
}

/// With the wind lock off and no light barrier broken, a close input always
/// closes, whatever the leaves are doing or where they stand; it is refused
/// only for the wind lock or a broken barrier.
pub proof fn lemma_close_accepted(c: GateControlView)
    ensures
        !c.wind_locked && !c.barrier1_active && !c.barrier2_active ==> close_request(c) == Some(
            GateCommand::Close,
        ),
        close_request(c) is None <==> (c.wind_locked || c.barrier1_active || c.barrier2_active),
        close_request(c) != Some(GateCommand::Open),
        close_request(c) != Some(GateCommand::Stop),
{
}

/// With the wind lock off, a stop input always stops, whatever the leaves are
/// doing (moving either way or already at rest) and whatever the barriers say;
/// with the lock on it is ignored.
pub proof fn lemma_stop_accepted(c: GateControlView)
    ensures
        !c.wind_locked ==> stop_request(c) == Some(GateCommand::Stop),
        c.wind_locked ==> stop_request(c) is None,
{
}

/// With the wind lock off and barrier 1 clear, an open input always opens,
/// whatever the leaves are doing or where they stand, and barrier 2 never
/// blocks it; it is refused only for the wind lock or barrier 1.
pub proof fn lemma_open_accepted(c: GateControlView)
    ensures
        !c.wind_locked && !c.barrier1_active ==> open_request(c) == Some(GateCommand::Open),
        open_request(c) is None <==> (c.wind_locked || c.barrier1_active),
        open_request(c) != Some(GateCommand::Close),
        open_request(c) != Some(GateCommand::Stop),
{
}

/// What [`barrier2_set`] queues.
pub open spec fn barrier2_request(c: GateControlView, active: bool) -> Option<GateCommand> {
    if active && c.current_direction == Direction::Closing { Some(GateCommand::Stop) } else { None }
}

/// The wind lock latches: no input but the reset clears it. Barrier changes,
/// commands starting and commands settling all leave it engaged.
pub proof fn lemma_wind_latch(c: GateControlView, active: bool, cmd: GateCommand, left: u8, right: u8)
    requires
        c.wind_locked,
    ensures
        (GateControlView { barrier1_active: active, ..c }).wind_locked,
        (GateControlView { barrier2_active: active, ..c }).wind_locked,
        started(c, cmd).wind_locked,
        settled(c, left, right).wind_locked,
{
}

/// Unlocked, with no barrier broken, the impulse input cycles
/// open -> stop -> close -> stop -> open: from the closed end it opens; while
/// moving it stops; stopped mid-travel it goes back the way it came; from the
/// open end it closes.
pub proof fn lemma_impulse_cycle(c: GateControlView, l1: u8, r1: u8, l2: u8, r2: u8)
    requires
        !c.wind_locked,
        !c.barrier1_active,
        !c.barrier2_active,
        c.current_direction == Direction::Idle,
        c.position == PositionClass::Closed,
        classify(l1, r1) == PositionClass::Partial,
        classify(l2, r2) == PositionClass::Partial,
    ensures
        ({
            let opening = started(c, GateCommand::Open);
            let stopped_opening = settled(opening, l1, r1);
            let closing = started(stopped_opening, GateCommand::Close);
            let stopped_closing = settled(closing, l2, r2);
            &&& impulse_request(c) == Some(GateCommand::Open)
            &&& impulse_request(opening) == Some(GateCommand::Stop)
            &&& impulse_request(stopped_opening) == Some(GateCommand::Close)
            &&& impulse_request(closing) == Some(GateCommand::Stop)
            &&& impulse_request(stopped_closing) == Some(GateCommand::Open)
        }),
{
}

/// Idle at the open end, an impulse closes; idle at the closed end, it opens.
pub proof fn lemma_impulse_at_ends(c: GateControlView)
    requires
        !c.wind_locked,
        !c.barrier1_active,
        !c.barrier2_active,
        c.current_direction == Direction::Idle,
    ensures
        c.position == PositionClass::Open ==> impulse_request(c) == Some(GateCommand::Close),
        c.position == PositionClass::Closed ==> impulse_request(c) == Some(GateCommand::Open),
{
}

/// The coarse position is closed exactly when both leaves are fully closed and
/// open exactly when both are fully open.
pub proof fn lemma_classify(left: u8, right: u8)
    ensures
        (classify(left, right) == PositionClass::Closed) <==> (left == 0 && right == 0),
        (classify(left, right) == PositionClass::Open) <==> (left == 255 && right == 255),
{
}

} // verus!
