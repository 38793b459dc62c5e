//! The three-valued appearance mode and its wire encoding.

use vstd::prelude::*;

verus! {

/// The colour scheme the desktop asks applications to use.
#[derive(Debug, PartialEq, Eq, Structural, Clone, Copy, Hash)]
pub enum Mode {
    /// No preference was expressed.
    Default,
    /// A dark appearance is preferred.
    Dark,
    /// A light appearance is preferred.
    Light,
}

impl Default for Mode {
    fn default() -> (mode: Mode)
        ensures
            mode == Mode::Default,
    {
        Mode::Default
    }
}

/// The mode that a wire integer stands for: 1 is dark, 2 is light and every
/// other number, 0 included, is "no preference".
pub open spec fn decode(raw: int) -> Mode {
    if raw == 1 {
        Mode::Dark
    } else if raw == 2 {
        Mode::Light
    } else {
        Mode::Default
    }
}

/// Decodes the unsigned integer that the settings service sends.
pub fn mode_from_u32(mode: u32) -> (decoded: Mode)
    ensures
        decoded == decode(mode as int),
        mode == 1 ==> decoded == Mode::Dark,
        mode == 2 ==> decoded == Mode::Light,
        mode != 1 && mode != 2 ==> decoded == Mode::Default,
{
    match mode {
        1 => Mode::Dark,
        2 => Mode::Light,
        _ => Mode::Default,
    }
}

} // verus!
