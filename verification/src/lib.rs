//! Protocol core of the driver for a 2.13" three-colour e-paper panel
//! (122 x 250 pixels, black/white plus one chromatic plane).
//!
//! The crate performs no I/O. Every operation of the driver appends the bus
//! operations it stands for to a [`interface::DisplayInterface`], in the
//! order in which they have to reach the controller; whoever owns the serial
//! bus and the pins carries them out.
//!
//! - [`command`], [`bits`], [`color`], [`constants`]: the opcodes of the
//!   controller, its bit-packed arguments and its waveform tables;
//! - [`interface`]: the framing of commands and data on the bus, and the
//!   wait for the busy pin;
//! - [`profile`]: what differs between controller revisions;
//! - [`epd`]: the driver;
//! - [`model`]: the driver as a state machine, over which its contracts
//!   and laws are stated;
//! - [`panel`]: a model of the controller's RAM, and what reaches it.

pub mod bits;
pub mod color;
pub mod command;
pub mod constants;
pub mod epd;
pub mod error;
pub mod interface;
pub mod model;
pub mod panel;
pub mod profile;
