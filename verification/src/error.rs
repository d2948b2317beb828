//! The ways in which an operation of the driver is refused.

use vstd::prelude::*;

verus! {

/// Why the driver did not carry out an operation. A refused operation
/// leaves driver and bus untouched.
#[derive(Clone, Copy, Debug, PartialEq, Eq, Structural)]
pub enum Error {
    /// The controller has not been initialised, or sleeps.
    NotReady,
    /// The controller revision lacks the feature.
    Unsupported,
    /// The rectangle of a partial update cannot be addressed.
    InvalidGeometry,
    /// The buffer does not hold exactly the pixels of the area it is
    /// written to.
    InvalidBufferLength,
    /// The busy pin stayed active for the whole time allowed.
    PanelTimeout,
}

} // verus!
