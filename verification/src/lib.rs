//! Core logic of a button-driven badge firmware: a paginated menu, a
//! dispatch table from menu index to program, a tick-driven navigation
//! state machine with a dirty-flag gate on redraws, a blinking-output
//! demo, and a serial command responder.
//!
//! Everything here is plain-value logic. The hardware edges (display
//! driver, GPIO sampling, USB transport) live outside the library and
//! hand in booleans and bytes, taking back drawing and output commands.

use vstd::prelude::*;

pub mod blinky;
pub mod dispatch;
pub mod menu;
pub mod navigator;
pub mod serial;

verus! {

/// Which screen/program owns the display. Exactly one is current at any
/// time; `Menu` is the navigation screen, `NotFound` the fallback for a
/// selection with no installed program.
#[derive(Clone, Copy, Debug, PartialEq, Eq, Structural)]
pub enum ProgramState {
    Menu,
    Lynix,
    Ccnb,
    Socials,
    Info,
    Blinky,
    NotFound,
}

/// One sample of the four push-buttons, taken once per tick. `true`
/// means the button's signal is asserted during this tick.
#[derive(Clone, Copy, Debug, PartialEq, Eq, Structural)]
pub struct Buttons {
    pub up: bool,
    pub down: bool,
    pub a: bool,
    pub b: bool,
}

impl Buttons {
    /// A tick on which no button is asserted.
    pub open spec fn spec_none(self) -> bool {
        !self.up && !self.down && !self.a && !self.b
    }

    /// The sample with every button released.
    pub fn released() -> (b: Buttons)
        ensures b.spec_none(),
    {
        Buttons { up: false, down: false, a: false, b: false }
    }
}

/// Optional edge filter over the raw level samples. The state machine
/// itself is level-triggered: a button held across several ticks acts
/// on each of them, so a slow human press repeats when the ticks are
/// fast. Feeding the samples through this filter first turns them
/// into press edges — a button acts only on the tick its level rises —
/// which debounces held buttons at the cost of one tick of latency on
/// re-press.
pub struct EdgeFilter {
    pub previous: Buttons,
}

impl EdgeFilter {
    /// A fresh filter; the first asserted sample of each button counts
    /// as an edge.
    pub fn new() -> (f: EdgeFilter)
        ensures
            f.previous.spec_none(),
    {
        EdgeFilter { previous: Buttons::released() }
    }

    /// Reduces one level sample to its rising edges: a button comes out
    /// asserted exactly when it is asserted now and was not on the
    /// previous tick.
    pub fn filter(&mut self, sample: Buttons) -> (edges: Buttons)
        ensures
            final(self).previous == sample,
            edges.up == (sample.up && !old(self).previous.up),
            edges.down == (sample.down && !old(self).previous.down),
            edges.a == (sample.a && !old(self).previous.a),
            edges.b == (sample.b && !old(self).previous.b),
    {
        let edges = Buttons {
            up: sample.up && !self.previous.up,
            down: sample.down && !self.previous.down,
            a: sample.a && !self.previous.a,
            b: sample.b && !self.previous.b,
        };
        self.previous = sample;
        edges
    }
}

} // verus!
