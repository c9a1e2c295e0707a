//! Engine states as the statistics frames carry them, and how the device
//! page names them.

use crate::gate::GateMode;
use vstd::prelude::*;

verus! {

/// No engine is loaded.
pub const STATE_OFF: u32 = 0;

/// The engine is loading its SoundFonts.
pub const STATE_STARTING: u32 = 1;

/// The engine plays.
pub const STATE_LIVE: u32 = 2;

/// The engine was unloaded after a quiet spell and reloads on the next event.
pub const STATE_PAUSED: u32 = 3;

pub open spec fn state_label(state: u32) -> Seq<char> {
    if state == STATE_STARTING {
        "Loading soundfonts\u{2026}"@
    } else if state == STATE_LIVE {
        "Ready"@
    } else if state == STATE_PAUSED {
        "Paused after a quiet spell"@
    } else {
        "No engine loaded"@
    }
}

pub fn state_text(state: u32) -> (s: &'static str)
    ensures
        s@ == state_label(state),
{
    if state == STATE_STARTING {
        "Loading soundfonts\u{2026}"
    } else if state == STATE_LIVE {
        "Ready"
    } else if state == STATE_PAUSED {
        "Paused after a quiet spell"
    } else {
        "No engine loaded"
    }
}

/// Each `GateMode` is carried in the frames as its wire code.
pub proof fn law_gate_modes_are_frame_states(m: GateMode)
    ensures
        m == GateMode::Off ==> m.wire_code() == STATE_OFF,
        m == GateMode::Starting ==> m.wire_code() == STATE_STARTING,
        m == GateMode::Live ==> m.wire_code() == STATE_LIVE,
        m == GateMode::Idle ==> m.wire_code() == STATE_PAUSED,
{
}

} // verus!
