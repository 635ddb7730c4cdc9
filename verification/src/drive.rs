//! Running both leaves through one command, as a state machine the motor task
//! steps through: it waits for the returned time, and calls
//! [`GateDrive::timer_elapsed`] when the wait completes or
//! [`GateDrive::interrupt`] when a new command arrives first.
//!
//! * Opening: the leaf that needs less time waits for the other to catch up
//!   before starting, so both reach fully open at the same time.
//! * Closing: both leaves start together, so the one that needs less time
//!   arrives - and stops - before the other.
use vstd::prelude::*;
use crate::gate::{classify, GateCommand, PositionClass};
use crate::motor::{
    lemma_full_close_run_reaches_closed, lemma_full_open_run_reaches_open, Motor, MotorSettings,
    MotorView, motor_from_settings,
};

verus! {

/// Where a run stands. `left_longer` / `left_sooner` say which leaf plays the
/// first role of the run.
#[derive(Clone, Copy, Debug, PartialEq, Eq, Structural)]
pub enum DrivePhase {
    Idle,
    /// The leaf needing more time to open is running; the other waits for the stagger.
    OpenStagger { left_longer: bool },
    /// Both leaves are opening; waiting for the shorter run to complete.
    OpenBoth { left_longer: bool },
    /// Both leaves are closing; waiting for the sooner one to arrive.
    CloseFirst { left_sooner: bool, extra_ms: u64 },
    /// The sooner leaf has stopped; waiting for the later one.
    CloseLast { left_sooner: bool },
}

/// What the motor task does next.
#[derive(Clone, Copy, Debug, PartialEq, Eq, Structural)]
pub enum DriveStep {
    /// Wait this many milliseconds (or until a new command interrupts).
    Wait(u64),
    /// The command is done; both leaves are at rest.
    Finished,
}

pub ghost struct GateDriveView {
    pub left: MotorView,
    pub right: MotorView,
    pub phase: DrivePhase,
}

pub struct GateDrive {
    left: Motor,
    right: Motor,
    phase: DrivePhase,
}

impl View for GateDrive {
    type V = GateDriveView;

    closed spec fn view(&self) -> GateDriveView {
        GateDriveView { left: self.left@, right: self.right@, phase: self.phase }
    }
}

impl GateDriveView {
    pub open spec fn leaf(self, left: bool) -> MotorView {
        if left { self.left } else { self.right }
    }

    pub open spec fn with_leaf(self, left: bool, m: MotorView) -> GateDriveView {
        if left {
            GateDriveView { left: m, ..self }
        } else {
            GateDriveView { right: m, ..self }
        }
    }

    pub open spec fn both_idle(self) -> bool {
        self.left.is_idle() && self.right.is_idle()
    }

    /// No leaf is closing.
    pub open spec fn none_closing(self) -> bool {
        !self.left.close_relay && !self.right.close_relay
    }

    /// No leaf is opening.
    pub open spec fn none_opening(self) -> bool {
        !self.left.open_relay && !self.right.open_relay
    }

    /// Both motors are well formed, leaves that have no part in the current
    /// phase are at rest, and no leaf ever runs against the direction of the
    /// command being carried out.
    pub open spec fn wf(self) -> bool {
        &&& self.left.wf()
        &&& self.right.wf()
        &&& match self.phase {
            DrivePhase::Idle => self.both_idle(),
            DrivePhase::OpenStagger { left_longer } => self.leaf(!left_longer).is_idle() && self.none_closing(),
            DrivePhase::OpenBoth { .. } => self.none_closing(),
            DrivePhase::CloseFirst { .. } => self.none_opening(),
            DrivePhase::CloseLast { left_sooner } => self.leaf(left_sooner).is_idle() && self.none_opening(),
        }
    }

    pub open spec fn clock_ok(self, now_us: u64) -> bool {
        self.left.clock_ok(now_us) && self.right.clock_ok(now_us)
    }

    pub open spec fn is_idle(self) -> bool {
        self.phase == DrivePhase::Idle
    }

    /// Starting `cmd` from rest.
    pub open spec fn begin(self, cmd: GateCommand, now_us: u64) -> (GateDriveView, DriveStep) {
        match cmd {
            GateCommand::Open => {
                let l = self.left.remaining_open_ms();
                let r = self.right.remaining_open_ms();
                let left_longer = l >= r;
                let stagger = if left_longer { l - r } else { r - l };
                let v = self.with_leaf(left_longer, self.leaf(left_longer).started_open(now_us));
                (
                    GateDriveView { phase: DrivePhase::OpenStagger { left_longer }, ..v },
                    DriveStep::Wait(stagger as u64),
                )
            },
            GateCommand::Close => {
                let left = self.left.started_close(now_us);
                let right = self.right.started_close(now_us);
                let l = left.remaining_close_ms();
                let r = right.remaining_close_ms();
                let left_sooner = l <= r;
                let sooner_ms = if left_sooner { l } else { r };
                let extra = if left_sooner { r - l } else { l - r };
                (
                    GateDriveView {
                        left,
                        right,
                        phase: DrivePhase::CloseFirst { left_sooner, extra_ms: extra as u64 },
                    },
                    DriveStep::Wait(sooner_ms as u64),
                )
            },
            GateCommand::Stop => (
                GateDriveView {
                    left: self.left.settled(now_us),
                    right: self.right.settled(now_us),
                    phase: DrivePhase::Idle,
                },
                DriveStep::Finished,
            ),
        }
    }

    /// The wait returned by the previous step completed.
    pub open spec fn timer_elapsed(self, now_us: u64) -> (GateDriveView, DriveStep) {
        match self.phase {
            DrivePhase::OpenStagger { left_longer } => {
                let shorter = self.leaf(!left_longer).started_open(now_us);
                let v = self.with_leaf(!left_longer, shorter);
                (
                    GateDriveView { phase: DrivePhase::OpenBoth { left_longer }, ..v },
                    DriveStep::Wait(shorter.remaining_open_ms() as u64),
                )
            },
            DrivePhase::CloseFirst { left_sooner, extra_ms } => {
                let v = self.with_leaf(left_sooner, self.leaf(left_sooner).settled(now_us));
                (
                    GateDriveView { phase: DrivePhase::CloseLast { left_sooner }, ..v },
                    DriveStep::Wait(extra_ms),
                )
            },
            _ => (self.stopped(now_us), DriveStep::Finished),
        }
    }

    /// Both leaves brought to rest.
    pub open spec fn stopped(self, now_us: u64) -> GateDriveView {
        GateDriveView {
            left: self.left.settled(now_us),
            right: self.right.settled(now_us),
            phase: DrivePhase::Idle,
        }
    }
}

pub open spec fn drive_from_settings(left: MotorSettings, right: MotorSettings) -> GateDriveView {
    GateDriveView {
        left: motor_from_settings(left),
        right: motor_from_settings(right),
        phase: DrivePhase::Idle,
    }
}

impl GateDrive {
    pub fn new(left: MotorSettings, right: MotorSettings) -> (d: GateDrive)
        ensures
            d@ == drive_from_settings(left, right),
            d@.wf(),
    {
        GateDrive { left: Motor::new(left), right: Motor::new(right), phase: DrivePhase::Idle }
    }

    pub fn left(&self) -> (m: &Motor)
        ensures
            m@ == self@.left,
    {
        &self.left
    }

    pub fn right(&self) -> (m: &Motor)
        ensures
            m@ == self@.right,
    {
        &self.right
    }

    pub fn phase(&self) -> (p: DrivePhase)
        ensures
            p == self@.phase,
    {
        self.phase
    }

    fn leaf_start_open(&mut self, left: bool, now_us: u64)
        requires
            old(self)@.leaf(left).wf(),
            old(self)@.leaf(left).clock_ok(now_us),
        ensures
            final(self)@ == old(self)@.with_leaf(left, old(self)@.leaf(left).started_open(now_us)),
    {
        if left {
            self.left.start_open(now_us);
        } else {
            self.right.start_open(now_us);
        }
    }

    fn leaf_stop(&mut self, left: bool, now_us: u64)
        requires
            old(self)@.leaf(left).wf(),
            old(self)@.leaf(left).clock_ok(now_us),
        ensures
            final(self)@ == old(self)@.with_leaf(left, old(self)@.leaf(left).settled(now_us)),
    {
        if left {
            self.left.stop(now_us);
        } else {
            self.right.stop(now_us);
        }
    }

    fn leaf_remaining_open(&self, left: bool) -> (ms: u64)
        requires
            self@.leaf(left).wf(),
        ensures
            ms == self@.leaf(left).remaining_open_ms(),
    {
        if left {
            self.left.remaining_open()
        } else {
            self.right.remaining_open()
        }
    }

    /// Starts `cmd` with both leaves at rest.
    pub fn begin(&mut self, cmd: GateCommand, now_us: u64) -> (step: DriveStep)
        requires
            old(self)@.wf(),
            old(self)@.is_idle(),
        ensures
            (final(self)@, step) == old(self)@.begin(cmd, now_us),
            final(self)@.wf(),
            final(self)@.clock_ok(now_us),
    {
        proof {
            lemma_settled_started(self@.left, now_us);
            lemma_settled_started(self@.right, now_us);
        }
        match cmd {
            GateCommand::Open => {
                let l = self.left.remaining_open();
                let r = self.right.remaining_open();
                let left_longer = l >= r;
                let stagger = if left_longer { l - r } else { r - l };
                self.leaf_start_open(left_longer, now_us);
                self.phase = DrivePhase::OpenStagger { left_longer };
                DriveStep::Wait(stagger)
            },
            GateCommand::Close => {
                self.left.start_close(now_us);
                self.right.start_close(now_us);
                let l = self.left.remaining_close();
                let r = self.right.remaining_close();
                let left_sooner = l <= r;
                let sooner_ms = if left_sooner { l } else { r };
                let extra = if left_sooner { r - l } else { l - r };
                self.phase = DrivePhase::CloseFirst { left_sooner, extra_ms: extra };
                DriveStep::Wait(sooner_ms)
            },
            GateCommand::Stop => {
                self.left.stop(now_us);
                self.right.stop(now_us);
                self.phase = DrivePhase::Idle;
                DriveStep::Finished
            },
        }
    }

    /// The wait returned by the previous step completed without interruption.
    pub fn timer_elapsed(&mut self, now_us: u64) -> (step: DriveStep)
        requires
            old(self)@.wf(),
            !old(self)@.is_idle(),
            old(self)@.clock_ok(now_us),
        ensures
            (final(self)@, step) == old(self)@.timer_elapsed(now_us),
            final(self)@.wf(),
            final(self)@.clock_ok(now_us),
            step == DriveStep::Finished <==> final(self)@.is_idle(),
    {
        proof {
            lemma_settled_started(self@.left, now_us);
            lemma_settled_started(self@.right, now_us);
        }
        match self.phase {
            DrivePhase::OpenStagger { left_longer } => {
                self.leaf_start_open(!left_longer, now_us);
                let wait = self.leaf_remaining_open(!left_longer);
                self.phase = DrivePhase::OpenBoth { left_longer };
                DriveStep::Wait(wait)
            },
            DrivePhase::CloseFirst { left_sooner, extra_ms } => {
                self.leaf_stop(left_sooner, now_us);
                self.phase = DrivePhase::CloseLast { left_sooner };
                DriveStep::Wait(extra_ms)
            },
            _ => {
                self.left.stop(now_us);
                self.right.stop(now_us);
                self.phase = DrivePhase::Idle;
                DriveStep::Finished
            },
        }
    }

    /// A new command arrived before the wait completed: both leaves stop where they are.
    pub fn interrupt(&mut self, now_us: u64)
        requires
            old(self)@.wf(),
            old(self)@.clock_ok(now_us),
        ensures
            final(self)@ == old(self)@.stopped(now_us),
            final(self)@.wf(),
            final(self)@.both_idle(),
    {
        self.left.stop(now_us);
        self.right.stop(now_us);
        self.phase = DrivePhase::Idle;
    }
}

/// Settling or starting a motor leaves it well formed and happy with the same clock reading.
pub proof fn lemma_settled_started(m: MotorView, now_us: u64)
    requires
        m.wf(),
        m.clock_ok(now_us),
    ensures
        m.settled(now_us).wf(),
        m.settled(now_us).is_idle(),
        m.settled(now_us).clock_ok(now_us),
        m.started_open(now_us).wf(),
        m.started_open(now_us).clock_ok(now_us),
        m.started_close(now_us).wf(),
        m.started_close(now_us).clock_ok(now_us),
        m.is_idle() ==> m.settled(now_us) == m,
{
}

/// At rest, no relay of either leaf is energized.
pub proof fn lemma_idle_drive_releases_relays(v: GateDriveView)
    requires
        v.wf(),
        v.is_idle(),
    ensures
        !v.left.open_relay && !v.left.close_relay,
        !v.right.open_relay && !v.right.close_relay,
{
}

/// An uninterrupted opening run staggers the leaves so they arrive together:
/// the first wait is the difference of the two opening times and the second
/// is the shorter one, so the leaf started first runs exactly its own time.
pub proof fn lemma_open_run_ends_together(v: GateDriveView, t0: u64, t1: u64)
    requires
        v.wf(),
        v.is_idle(),
        t0 <= t1,
    ensures
        ({
            let l = v.left.remaining_open_ms();
            let r = v.right.remaining_open_ms();
            let (v1, s1) = v.begin(GateCommand::Open, t0);
            let (v2, s2) = v1.timer_elapsed(t1);
            &&& s1 matches DriveStep::Wait(a)
            &&& s2 matches DriveStep::Wait(b)
            &&& a + b == (if l >= r { l } else { r })
            &&& b == (if l >= r { r } else { l })
        }),
{
    lemma_settled_started(v.left, t0);
    lemma_settled_started(v.right, t0);
    lemma_settled_started(v.left, t1);
    lemma_settled_started(v.right, t1);
    let l = v.left.remaining_open_ms();
    let r = v.right.remaining_open_ms();
    assert(0 <= l <= 255_000 && 0 <= r <= 255_000) by (nonlinear_arith)
        requires
            v.left.duration_ms <= 255_000, v.right.duration_ms <= 255_000,
            l == (v.left.duration_ms as int) * (255 - (if v.left.position >= 20 { v.left.position - 20 } else { 0int })) / 255,
            r == (v.right.duration_ms as int) * (255 - (if v.right.position >= 20 { v.right.position - 20 } else { 0int })) / 255,
            v.left.position <= 255, v.right.position <= 255;
    let (v1, s1) = v.begin(GateCommand::Open, t0);
    let left_longer = l >= r;
    assert(v1.leaf(!left_longer) == v.leaf(!left_longer));
    assert(v1.leaf(!left_longer).started_open(t1).position == v.leaf(!left_longer).position);
}

/// An uninterrupted closing run starts both leaves together; the sooner one is
/// stopped after its own closing time and the later one after its own.
pub proof fn lemma_close_run_timing(v: GateDriveView, t0: u64, t1: u64)
    requires
        v.wf(),
        v.is_idle(),
        t0 <= t1,
    ensures
        ({
            let l = v.left.remaining_close_ms();
            let r = v.right.remaining_close_ms();
            let (v1, s1) = v.begin(GateCommand::Close, t0);
            let (v2, s2) = v1.timer_elapsed(t1);
            &&& s1 matches DriveStep::Wait(a)
            &&& s2 matches DriveStep::Wait(b)
            &&& a == (if l <= r { l } else { r })
            &&& a + b == (if l <= r { r } else { l })
        }),
{
    lemma_settled_started(v.left, t0);
    lemma_settled_started(v.right, t0);
    let l = v.left.remaining_close_ms();
    let r = v.right.remaining_close_ms();
    assert(0 <= l <= 255_000 && 0 <= r <= 255_000) by (nonlinear_arith)
        requires
            v.left.duration_ms <= 255_000, v.right.duration_ms <= 255_000,
            l == (v.left.duration_ms as int) * (if v.left.position + 20 <= 255 { v.left.position + 20 } else { 255int }) / 255,
            r == (v.right.duration_ms as int) * (if v.right.position + 20 <= 255 { v.right.position + 20 } else { 255int }) / 255,
            v.left.position >= 0, v.right.position >= 0;
    assert(v.left.started_close(t0).position == v.left.position);
    assert(v.right.started_close(t0).position == v.right.position);
}

/// An opening run that no command interrupts, with each wait lasting at least
/// as long as asked, finishes after its third step with both leaves fully open.
pub proof fn lemma_open_run_opens_fully(v: GateDriveView, t0: u64, t1: u64, t2: u64)
    requires
        v.wf(),
        v.is_idle(),
        t0 <= t1 <= t2,
        v.begin(GateCommand::Open, t0).1 matches DriveStep::Wait(a) && t1 - t0 >= a * 1000,
        v.begin(GateCommand::Open, t0).0.timer_elapsed(t1).1 matches DriveStep::Wait(b) && t2 - t1
            >= b * 1000,
    ensures
        ({
            let v3 = v.begin(GateCommand::Open, t0).0.timer_elapsed(t1).0.timer_elapsed(t2);
            &&& v3.1 == DriveStep::Finished
            &&& v3.0.is_idle()
            &&& v3.0.left.position == 255
            &&& v3.0.right.position == 255
            &&& classify(v3.0.left.position, v3.0.right.position) == PositionClass::Open
        }),
{
    lemma_open_run_ends_together(v, t0, t1);
    lemma_settled_started(v.left, t0);
    lemma_settled_started(v.right, t0);
    let l = v.left.remaining_open_ms();
    let r = v.right.remaining_open_ms();
    let longer = l >= r;
    let (v1, s1) = v.begin(GateCommand::Open, t0);
    let (v2, s2) = v1.timer_elapsed(t1);
    assert(v1.leaf(!longer) == v.leaf(!longer));
    assert(v2.leaf(longer) == v.leaf(longer).started_open(t0));
    assert(v2.leaf(!longer) == v.leaf(!longer).started_open(t1));
    lemma_full_open_run_reaches_open(v.leaf(longer), t0, t2);
    lemma_full_open_run_reaches_open(v.leaf(!longer), t1, t2);
}

/// A closing run that no command interrupts, with each wait lasting at least
/// as long as asked, finishes after its third step with both leaves fully closed.
pub proof fn lemma_close_run_closes_fully(v: GateDriveView, t0: u64, t1: u64, t2: u64)
    requires
        v.wf(),
        v.is_idle(),
        t0 <= t1 <= t2,
        v.begin(GateCommand::Close, t0).1 matches DriveStep::Wait(a) && t1 - t0 >= a * 1000,
        v.begin(GateCommand::Close, t0).0.timer_elapsed(t1).1 matches DriveStep::Wait(b) && t2 - t1
            >= b * 1000,
    ensures
        ({
            let v3 = v.begin(GateCommand::Close, t0).0.timer_elapsed(t1).0.timer_elapsed(t2);
            &&& v3.1 == DriveStep::Finished
            &&& v3.0.is_idle()
            &&& v3.0.left.position == 0
            &&& v3.0.right.position == 0
            &&& classify(v3.0.left.position, v3.0.right.position) == PositionClass::Closed
        }),
{
    lemma_close_run_timing(v, t0, t1);
    lemma_settled_started(v.left, t0);
    lemma_settled_started(v.right, t0);
    let l = v.left.remaining_close_ms();
    let r = v.right.remaining_close_ms();
    let sooner = l <= r;
    let (v1, s1) = v.begin(GateCommand::Close, t0);
    let (v2, s2) = v1.timer_elapsed(t1);
    assert(v.left.started_close(t0).position == v.left.position);
    assert(v.right.started_close(t0).position == v.right.position);
    assert(v1.leaf(sooner) == v.leaf(sooner).started_close(t0));
    assert(v2.leaf(sooner) == v.leaf(sooner).started_close(t0).settled(t1));
    assert(v2.leaf(!sooner) == v.leaf(!sooner).started_close(t0));
    lemma_full_close_run_reaches_closed(v.leaf(sooner), t0, t1);
    lemma_full_close_run_reaches_closed(v.leaf(!sooner), t0, t2);
}

/// A run never drives a leaf against the command: while opening no close
/// relay is energized, and while closing no open relay is.
pub proof fn lemma_runs_follow_command(v: GateDriveView)
    requires
        v.wf(),
    ensures
        (v.phase is OpenStagger || v.phase is OpenBoth) ==> v.none_closing(),
        (v.phase is CloseFirst || v.phase is CloseLast) ==> v.none_opening(),
{
}

} // verus!
