//! The blinking-output demo. Its whole per-tick behavior is one
//! decision: invert the output signal. The caller applies the level to
//! the pin and paces the ticks at the fixed half-period.

use vstd::prelude::*;

verus! {

/// Half-period of the demo's output signal, in milliseconds: the level
/// holds this long between two consecutive ticks.
pub const BLINK_HALF_PERIOD_MS: u32 = 250;

/// One tick of the demo: the output level is inverted, so two
/// consecutive ticks take a low signal high and back low again.
pub fn handle_blinky_program(level: bool) -> (next_level: bool)
    ensures
        next_level == !level,
{
    !level
}

} // verus!
