//! Turning transitions of the button line into press and release events.

use vstd::prelude::*;

verus! {

/// One transition of the input line.
#[derive(Clone, Copy, Debug, PartialEq, Eq, Structural)]
pub enum InputEvent {
    /// The line went high.
    Pressed,
    /// The line went low.
    Released,
}

/// Classifies a transition by the level read right after it.
pub fn edge_event(level_high: bool) -> (r: InputEvent)
    ensures
        r == (if level_high { InputEvent::Pressed } else { InputEvent::Released }),
{
    if level_high {
        InputEvent::Pressed
    } else {
        InputEvent::Released
    }
}

} // verus!
