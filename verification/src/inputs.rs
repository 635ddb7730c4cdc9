//! Decisions of the GPIO input watchers, one sample at a time. The caller
//! polls the (active-low) pin, feeds the level in, and acts on the answer.
//!
//! - [`EdgeDetector`]: fires once per press - the push button, the radio
//!   remote, the wind guard pulse and its reset input.
//! - [`LevelTracker`]: reports the initial level and every change - the two
//!   light barriers and the spare input.
//! - [`ContactButton`]: flips a contact state on every press of the BOOT button.
use vstd::prelude::*;

verus! {

/// Delay between two samples of an edge-triggered input, in milliseconds.
pub const POLL_INTERVAL_MS: u64 = 50;
/// Pause after a press fires before sampling again, in milliseconds.
pub const DEBOUNCE_MS: u64 = 200;
/// Delay between two samples of a level-tracked input, in milliseconds.
pub const LEVEL_POLL_INTERVAL_MS: u64 = 20;

pub struct EdgeDetector {
    last_low: bool,
}

impl View for EdgeDetector {
    type V = bool;

    /// Whether the pin was low at the previous sample.
    closed spec fn view(&self) -> bool {
        self.last_low
    }
}

impl EdgeDetector {
    /// Before the first sample the pin counts as released.
    pub fn new() -> (d: EdgeDetector)
        ensures
            d@ == false,
    {
        EdgeDetector { last_low: false }
    }

    /// Feeds one sample; true exactly when the pin went from released to pressed.
    pub fn sample(&mut self, is_low: bool) -> (fire: bool)
        ensures
            fire == (is_low && !old(self)@),
            final(self)@ == is_low,
    {
        let fire = is_low && !self.last_low;
        self.last_low = is_low;
        fire
    }
}

pub struct LevelTracker {
    last_active: bool,
}

impl View for LevelTracker {
    type V = bool;

    /// The last level reported.
    closed spec fn view(&self) -> bool {
        self.last_active
    }
}

impl LevelTracker {
    /// Starts tracking at the first sampled level; the caller reports that level once.
    pub fn new(initial_active: bool) -> (t: LevelTracker)
        ensures
            t@ == initial_active,
    {
        LevelTracker { last_active: initial_active }
    }

    /// Feeds one sample; returns the new level when it differs from the last one reported.
    pub fn sample(&mut self, active: bool) -> (changed: Option<bool>)
        ensures
            changed == (if active != old(self)@ { Some(active) } else { None }),
            final(self)@ == active,
    {
        if active != self.last_active {
            self.last_active = active;
            Some(active)
        } else {
            None
        }
    }
}

pub ghost struct ContactButtonView {
    /// The pin level was high (released) at the previous sample.
    pub last_high: bool,
    pub contact: bool,
}

/// The BOOT button toggling a contact-sensor state on each press.
pub struct ContactButton {
    last_high: bool,
    contact: bool,
}

impl View for ContactButton {
    type V = ContactButtonView;

    closed spec fn view(&self) -> ContactButtonView {
        ContactButtonView { last_high: self.last_high, contact: self.contact }
    }
}

impl ContactButton {
    pub fn new() -> (b: ContactButton)
        ensures
            b@ == (ContactButtonView { last_high: true, contact: false }),
    {
        ContactButton { last_high: true, contact: false }
    }

    /// Feeds one sample; on a press returns the toggled contact state to publish.
    pub fn sample(&mut self, is_low: bool) -> (published: Option<bool>)
        ensures
            is_low && old(self)@.last_high ==> published == Some(!old(self)@.contact)
                && final(self)@.contact == !old(self)@.contact,
            !(is_low && old(self)@.last_high) ==> published is None && final(self)@.contact
                == old(self)@.contact,
            final(self)@.last_high == !is_low,
    {
        let mut published = None;
        if is_low && self.last_high {
            self.contact = !self.contact;
            published = Some(self.contact);
        }
        self.last_high = !is_low;
        published
    }
}

/// However long a pin is held, an edge detector fires once for it: after a
/// press has fired, further low samples do not fire again until it is released.
pub proof fn lemma_edge_fires_once_per_press(last_low: bool, samples: Seq<bool>)
    requires
        samples.len() >= 1,
        forall|i: int| 0 <= i < samples.len() ==> samples[i],
    ensures
        edge_fires(last_low, samples) == (if last_low { 0nat } else { 1nat }),
    decreases samples.len(),
{
    assert(samples[0]);
    let rest = samples.drop_first();
    if samples.len() > 1 {
        assert forall|i: int| 0 <= i < rest.len() implies rest[i] by {
            assert(rest[i] == samples[i + 1]);
        }
        lemma_edge_fires_once_per_press(true, rest);
    } else {
        assert(edge_fires(samples[0], rest) == 0);
    }
}

/// How many times an edge detector starting at `last_low` fires over `samples`.
pub open spec fn edge_fires(last_low: bool, samples: Seq<bool>) -> nat
    decreases samples.len(),
{
    if samples.len() == 0 {
        0
    } else {
        let fire: nat = if samples[0] && !last_low { 1 } else { 0 };
        fire + edge_fires(samples[0], samples.drop_first())
    }
}

} // verus!
