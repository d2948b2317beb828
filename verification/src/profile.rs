//! What distinguishes one revision of the controller from another.

use crate::interface::Level;
use vstd::prelude::*;

verus! {

/// The capabilities of a controller revision. The driver is one state
/// machine for all revisions; where they differ, it consults these.
#[derive(Clone, Copy, Debug, PartialEq, Eq, Structural)]
pub struct Profile {
    /// The controller has a waveform table register and stages the steps
    /// of an update in display update control 2.
    pub supports_lut: bool,
    /// The controller can refresh a part of the panel.
    pub supports_partial_refresh: bool,
    /// The chromatic RAM bank takes a set bit for "not coloured", so a
    /// chromatic plane is sent with every bit flipped.
    pub chromatic_inverted: bool,
    /// The level of the busy pin while the controller is at work.
    pub busy_level: Level,
}

impl Profile {
    /// The first revision: no waveform table, no partial refresh, a
    /// chromatic bank of inverted polarity.
    pub fn legacy() -> (r: Profile)
        ensures
            r == (Profile {
                supports_lut: false,
                supports_partial_refresh: false,
                chromatic_inverted: true,
                busy_level: Level::High,
            }),
    {
        Profile {
            supports_lut: false,
            supports_partial_refresh: false,
            chromatic_inverted: true,
            busy_level: Level::High,
        }
    }

    /// The fourth revision: waveform tables and partial refresh, and a
    /// chromatic bank that takes the plane as it is.
    pub fn v4() -> (r: Profile)
        ensures
            r == (Profile {
                supports_lut: true,
                supports_partial_refresh: true,
                chromatic_inverted: false,
                busy_level: Level::High,
            }),
    {
        Profile {
            supports_lut: true,
            supports_partial_refresh: true,
            chromatic_inverted: false,
            busy_level: Level::High,
        }
    }
}

} // verus!
