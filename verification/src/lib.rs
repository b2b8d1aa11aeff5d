//! A verified model of a minimal Wayland compositor core: seats, keyboard
//! focus and grab handling, an XKB-style keymap state machine, the shell
//! surface lifecycle, and the per-frame dispatch pipeline.

use vstd::prelude::*;

pub mod command;
pub mod compositor;
pub mod config;
pub mod event;
pub mod keyboard;
pub mod keyset;
pub mod logging;
pub mod registry;
pub mod render;
pub mod seat;
pub mod serial;
pub mod setup;
pub mod shell;
pub mod textutil;
pub mod xkb;
pub mod xkbglue;

verus! {

/// The version of this library, as shown in the output's monitor model.
pub fn version() -> (r: String)
    ensures
        r@ == "0.1.0"@,
{
    String::from_str("0.1.0")
}

} // verus!
