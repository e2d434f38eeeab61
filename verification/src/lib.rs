//! Status-line fragments for the batteries of a machine, in the markup that
//! polybar reads from a custom module.
//!
//! The crate holds the rules only: which colour a charge level gets, how a
//! critically low battery blinks, which glyphs stand beside the number, how
//! the fragments of several batteries join into one line, and how long to
//! wait before the next line. Reading the power supply, printing and sleeping
//! are left to the caller, who feeds in plain [`reading::Reading`] values.

use vstd::prelude::*;

pub mod battery;
pub mod blink;
pub mod decimal;
pub mod icon;
pub mod levels;
pub mod palette;
pub mod poll;
pub mod reading;

verus! {

/// Options of the battery module. It takes none so far.
#[derive(Clone, Copy, Debug, Default)]
pub struct BatteryArgs {}

} // verus!
