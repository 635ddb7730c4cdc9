//! One gate leaf: a pair of relays (open / close) and a position estimate
//! derived from how long a relay has been energized.
//!
//! * `position` = 0..255, 0 = closed, 255 = open
//! * `duration` = time needed to travel the full 0..255 range
//!
//! Time is passed in explicitly as microseconds since boot (the tick count of
//! a 1 MHz monotonic clock); the caller reads the clock and mirrors the relay
//! levels onto the output pins after every call.
use vstd::prelude::*;

verus! {

/// How much a start command overshoots its target end (0 or 255) by, applied
/// to the position used for the run-time calculation only. Compensates for
/// mechanical backlash/drift so the leaf reliably reaches the physical end
/// stop instead of stopping just short of it.
pub const SLACK: u8 = 20;

/// Static configuration of one leaf.
#[derive(Clone, Copy, Debug, PartialEq, Eq, Structural)]
pub struct MotorSettings {
    /// Seconds needed to travel the full 0..255 range.
    pub duration: u8,
    /// 0..255, restored from flash so a reboot resumes where it left off.
    pub initial_position: u8,
}

/// Which relay is currently energized, and since when (microseconds since boot).
#[derive(Clone, Copy, Debug, PartialEq, Eq, Structural)]
pub enum MotorState {
    Idle,
    Opening(u64),
    Closing(u64),
}

/// Mathematical picture of a [`Motor`].
pub ghost struct MotorView {
    pub open_relay: bool,
    pub close_relay: bool,
    pub position: u8,
    pub duration_ms: nat,
    pub state: MotorState,
}

pub struct Motor {
    open_relay: bool,
    close_relay: bool,
    position: u8,
    duration_ms: u64,
    state: MotorState,
}

/// Whole milliseconds between two readings of the microsecond clock.
pub open spec fn elapsed_ms(now_us: u64, start_us: u64) -> int {
    (now_us - start_us) / 1000
}

/// Position units (out of 255) covered in `elapsed` milliseconds, capped at a full travel.
pub open spec fn travelled(elapsed: int, duration_ms: nat) -> int {
    let t = elapsed * 255 / (duration_ms as int);
    if t < 255 { t } else { 255 }
}

/// Travel time in milliseconds for a leaf of the given settings.
pub open spec fn duration_ms_of(duration_secs: u8) -> nat {
    if duration_secs == 0 { 1000 } else { (duration_secs as nat) * 1000 }
}

impl MotorView {
    /// Well-formedness: a sane travel time, and the relays always agree with the
    /// state - in particular never both energized at once.
    pub open spec fn wf(self) -> bool {
        &&& 1000 <= self.duration_ms <= 255_000
        &&& match self.state {
            MotorState::Idle => !self.open_relay && !self.close_relay,
            MotorState::Opening(_) => self.open_relay && !self.close_relay,
            MotorState::Closing(_) => !self.open_relay && self.close_relay,
        }
    }

    /// The clock reading `now_us` is not earlier than the start of the current run.
    pub open spec fn clock_ok(self, now_us: u64) -> bool {
        match self.state {
            MotorState::Idle => true,
            MotorState::Opening(start) => start <= now_us,
            MotorState::Closing(start) => start <= now_us,
        }
    }

    pub open spec fn is_idle(self) -> bool {
        self.state == MotorState::Idle
    }

    /// Position once the time spent in the current run is accounted for.
    pub open spec fn settled_position(self, now_us: u64) -> u8 {
        match self.state {
            MotorState::Idle => self.position,
            MotorState::Opening(start) => {
                let p = self.position + travelled(elapsed_ms(now_us, start), self.duration_ms);
                if p < 255 { p as u8 } else { 255 }
            },
            MotorState::Closing(start) => {
                let p = self.position - travelled(elapsed_ms(now_us, start), self.duration_ms);
                if p > 0 { p as u8 } else { 0 }
            },
        }
    }

    /// The motor after bringing the position up to date and releasing both relays.
    pub open spec fn settled(self, now_us: u64) -> MotorView {
        MotorView {
            open_relay: false,
            close_relay: false,
            position: self.settled_position(now_us),
            duration_ms: self.duration_ms,
            state: MotorState::Idle,
        }
    }

    /// Milliseconds still needed to reach fully open, biased by [`SLACK`].
    pub open spec fn remaining_open_ms(self) -> int {
        let biased: int = if self.position >= SLACK { self.position - SLACK } else { 0 };
        (self.duration_ms as int) * (255 - biased) / 255
    }

    /// Milliseconds still needed to reach fully closed, biased by [`SLACK`].
    pub open spec fn remaining_close_ms(self) -> int {
        let biased: int = if self.position + SLACK <= 255 { self.position + SLACK } else { 255 };
        (self.duration_ms as int) * biased / 255
    }

    /// Effect of a start-open command at `now_us`.
    pub open spec fn started_open(self, now_us: u64) -> MotorView {
        let s = self.settled(now_us);
        if s.position == 255 {
            s
        } else {
            MotorView { open_relay: true, close_relay: false, state: MotorState::Opening(now_us), ..s }
        }
    }

    /// Effect of a start-close command at `now_us`.
    pub open spec fn started_close(self, now_us: u64) -> MotorView {
        let s = self.settled(now_us);
        if s.position == 0 {
            s
        } else {
            MotorView { open_relay: false, close_relay: true, state: MotorState::Closing(now_us), ..s }
        }
    }
}

/// The motor a leaf starts with.
pub open spec fn motor_from_settings(settings: MotorSettings) -> MotorView {
    MotorView {
        open_relay: false,
        close_relay: false,
        position: settings.initial_position,
        duration_ms: duration_ms_of(settings.duration),
        state: MotorState::Idle,
    }
}

impl View for Motor {
    type V = MotorView;

    closed spec fn view(&self) -> MotorView {
        MotorView {
            open_relay: self.open_relay,
            close_relay: self.close_relay,
            position: self.position,
            duration_ms: self.duration_ms as nat,
            state: self.state,
        }
    }
}

impl Motor {
    /// A leaf at rest at its restored position. A zero travel time is invalid and
    /// is treated as one second.
    pub fn new(settings: MotorSettings) -> (m: Motor)
        ensures
            m@ == motor_from_settings(settings),
            m@.wf(),
    {
        let secs: u64 = if settings.duration == 0 { 1 } else { settings.duration as u64 };
        Motor {
            open_relay: false,
            close_relay: false,
            position: settings.initial_position,
            duration_ms: secs * 1000,
            state: MotorState::Idle,
        }
    }

    /// Current position, 0..255 (0 = closed, 255 = open). Always up to date
    /// while idle; call after a command completes/is interrupted.
    pub fn position(&self) -> (p: u8)
        ensures
            p == self@.position,
    {
        self.position
    }

    /// Level the open relay must be driven to.
    pub fn open_relay(&self) -> (on: bool)
        ensures
            on == self@.open_relay,
    {
        self.open_relay
    }

    /// Level the close relay must be driven to.
    pub fn close_relay(&self) -> (on: bool)
        ensures
            on == self@.close_relay,
    {
        self.close_relay
    }

    pub fn state(&self) -> (s: MotorState)
        ensures
            s == self@.state,
    {
        self.state
    }

    pub fn is_idle(&self) -> (b: bool)
        ensures
            b == self@.is_idle(),
    {
        match self.state {
            MotorState::Idle => true,
            _ => false,
        }
    }

    /// Brings `position` up to date with whatever relay has been energized
    /// since the last state change, and releases both relays.
    fn settle(&mut self, now_us: u64)
        requires
            old(self)@.wf(),
            old(self)@.clock_ok(now_us),
        ensures
            final(self)@ == old(self)@.settled(now_us),
            final(self)@.wf(),
    {
        let (start, opening) = match self.state {
            MotorState::Idle => return,
            MotorState::Opening(start) => (start, true),
            MotorState::Closing(start) => (start, false),
        };
        let elapsed: u64 = (now_us - start) / 1000;
        assert(elapsed * 255 <= u64::MAX) by (nonlinear_arith)
            requires elapsed == (now_us - start) / 1000, start <= now_us;
        let scaled: u64 = elapsed * 255 / self.duration_ms;
        let travelled: u8 = if scaled < 255 { scaled as u8 } else { 255 };
        self.position = if opening {
            self.position.saturating_add(travelled)
        } else {
            self.position.saturating_sub(travelled)
        };
        self.open_relay = false;
        self.close_relay = false;
        self.state = MotorState::Idle;
    }

    /// Time still needed to reach fully open (255) from the current position,
    /// biased by [`SLACK`] so the leaf overruns the calculated target a bit.
    pub fn remaining_open(&self) -> (ms: u64)
        requires
            self@.wf(),
        ensures
            ms == self@.remaining_open_ms(),
    {
        let biased: u8 = self.position.saturating_sub(SLACK);
        let factor: u64 = (255 - biased) as u64;
        assert(self.duration_ms * factor <= 255_000 * 255) by (nonlinear_arith)
            requires self.duration_ms <= 255_000, factor <= 255;
        self.duration_ms * factor / 255
    }

    /// Time still needed to reach fully closed (0) from the current position,
    /// biased by [`SLACK`] so the leaf overruns the calculated target a bit.
    pub fn remaining_close(&self) -> (ms: u64)
        requires
            self@.wf(),
        ensures
            ms == self@.remaining_close_ms(),
    {
        let biased: u8 = self.position.saturating_add(SLACK);
        let factor: u64 = biased as u64;
        assert(self.duration_ms * factor <= 255_000 * 255) by (nonlinear_arith)
            requires self.duration_ms <= 255_000, factor <= 255;
        self.duration_ms * factor / 255
    }

    /// Settles, then energizes the open relay unless the leaf is already fully open.
    pub fn start_open(&mut self, now_us: u64)
        requires
            old(self)@.wf(),
            old(self)@.clock_ok(now_us),
        ensures
            final(self)@ == old(self)@.started_open(now_us),
            final(self)@.wf(),
    {
        self.settle(now_us);
        if self.position == 255 {
            return;
        }
        self.open_relay = true;
        self.close_relay = false;
        self.state = MotorState::Opening(now_us);
    }

    /// Settles, then energizes the close relay unless the leaf is already fully closed.
    pub fn start_close(&mut self, now_us: u64)
        requires
            old(self)@.wf(),
            old(self)@.clock_ok(now_us),
        ensures
            final(self)@ == old(self)@.started_close(now_us),
            final(self)@.wf(),
    {
        self.settle(now_us);
        if self.position == 0 {
            return;
        }
        self.open_relay = false;
        self.close_relay = true;
        self.state = MotorState::Closing(now_us);
    }

    /// Releases both relays, keeping the position up to date.
    pub fn stop(&mut self, now_us: u64)
        requires
            old(self)@.wf(),
            old(self)@.clock_ok(now_us),
        ensures
            final(self)@ == old(self)@.settled(now_us),
            final(self)@.wf(),
    {
        self.settle(now_us);
    }
}

/// The relays of a well-formed motor are never both energized.
pub proof fn lemma_relays_exclusive(m: MotorView)
    requires
        m.wf(),
    ensures
        !(m.open_relay && m.close_relay),
{
}

/// Settling never moves a leaf against its direction of travel, and leaves an idle leaf alone.
pub proof fn lemma_settle_follows_direction(m: MotorView, now_us: u64)
    requires
        m.wf(),
        m.clock_ok(now_us),
    ensures
        m.state is Opening ==> m.settled_position(now_us) >= m.position,
        m.state is Closing ==> m.settled_position(now_us) <= m.position,
        m.state is Idle ==> m.settled_position(now_us) == m.position,
{
    match m.state {
        MotorState::Idle => {},
        MotorState::Opening(start) => {
            lemma_travelled_nonneg(elapsed_ms(now_us, start), m.duration_ms);
        },
        MotorState::Closing(start) => {
            lemma_travelled_nonneg(elapsed_ms(now_us, start), m.duration_ms);
        },
    }
}

proof fn lemma_travelled_nonneg(elapsed: int, duration_ms: nat)
    requires
        elapsed >= 0,
        duration_ms >= 1,
    ensures
        0 <= travelled(elapsed, duration_ms) <= 255,
{
    assert(elapsed * 255 / (duration_ms as int) >= 0) by (nonlinear_arith)
        requires elapsed >= 0, duration_ms >= 1;
}

/// `rem` whole milliseconds of travel, for a run whose time was computed as
/// `floor(duration * k / 255)`, cover at least `k - 1` position units (all 255
/// when `k` is 255).
proof fn lemma_travel_covers(duration_ms: nat, k: int, rem: int, elapsed: int)
    requires
        1000 <= duration_ms,
        0 <= k <= 255,
        rem == (duration_ms as int) * k / 255,
        elapsed >= rem,
    ensures
        travelled(elapsed, duration_ms) >= k - 1,
        k == 255 ==> travelled(elapsed, duration_ms) == 255,
{
    let d = duration_ms as int;
    assert(rem * 255 >= d * k - 254) by (nonlinear_arith)
        requires rem == d * k / 255, d >= 0, k >= 0;
    assert(elapsed * 255 >= d * k - 254) by (nonlinear_arith)
        requires rem * 255 >= d * k - 254, elapsed >= rem;
    assert(elapsed * 255 / d >= k - 1) by (nonlinear_arith)
        requires elapsed * 255 >= d * k - 254, d >= 1000, k >= 0;
    if k == 255 {
        assert(rem == d) by (nonlinear_arith)
            requires rem == d * k / 255, k == 255;
        assert(elapsed * 255 / d >= 255) by (nonlinear_arith)
            requires elapsed >= d, d >= 1000;
    }
}

/// Running a leaf at rest for (at least) its remaining opening time, measured
/// on the microsecond clock, brings it fully open: the slack makes up for the
/// rounding of the run time.
pub proof fn lemma_full_open_run_reaches_open(m: MotorView, t0: u64, t1: u64)
    requires
        m.wf(),
        m.is_idle(),
        t0 <= t1,
        t1 - t0 >= m.remaining_open_ms() * 1000,
    ensures
        m.started_open(t0).settled(t1).position == 255,
{
    let p = m.position;
    if p != 255 {
        let k: int = 255 - (if p >= SLACK { p - SLACK } else { 0 });
        let e = elapsed_ms(t1, t0);
        assert(e >= m.remaining_open_ms());
        lemma_travel_covers(m.duration_ms, k, m.remaining_open_ms(), e);
    }
}

/// Running a leaf at rest for (at least) its remaining closing time brings it fully closed.
pub proof fn lemma_full_close_run_reaches_closed(m: MotorView, t0: u64, t1: u64)
    requires
        m.wf(),
        m.is_idle(),
        t0 <= t1,
        t1 - t0 >= m.remaining_close_ms() * 1000,
    ensures
        m.started_close(t0).settled(t1).position == 0,
{
    let p = m.position;
    if p != 0 {
        let k: int = if p + SLACK <= 255 { p + SLACK } else { 255 };
        let e = elapsed_ms(t1, t0);
        assert(e >= m.remaining_close_ms());
        lemma_travel_covers(m.duration_ms, k, m.remaining_close_ms(), e);
    }
}

/// A leaf further open needs no more time to open fully and no less time to close fully.
pub proof fn lemma_remaining_monotone(m1: MotorView, m2: MotorView)
    requires
        m1.duration_ms == m2.duration_ms,
        m1.position <= m2.position,
    ensures
        m2.remaining_open_ms() <= m1.remaining_open_ms(),
        m1.remaining_close_ms() <= m2.remaining_close_ms(),
{
    let d = m1.duration_ms as int;
    let a1: int = 255 - (if m1.position >= SLACK { m1.position - SLACK } else { 0 });
    let a2: int = 255 - (if m2.position >= SLACK { m2.position - SLACK } else { 0 });
    assert(d * a2 / 255 <= d * a1 / 255) by (nonlinear_arith)
        requires a2 <= a1, d >= 0;
    let c1: int = if m1.position + SLACK <= 255 { m1.position + SLACK } else { 255 };
    let c2: int = if m2.position + SLACK <= 255 { m2.position + SLACK } else { 255 };
    assert(d * c1 / 255 <= d * c2 / 255) by (nonlinear_arith)
        requires c1 <= c2, d >= 0;
}

} // verus!
