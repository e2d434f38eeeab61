//! What is read from one battery: its charge and what the supply does.

use vstd::prelude::*;
use crate::levels::PERCENT_MAX;

verus! {

/// What the power supply reports of a battery.
#[derive(Clone, Copy, Debug, PartialEq, Eq, Structural)]
pub enum ChargeState {
    /// The controller does not say.
    Unknown,
    /// A charger feeds the battery.
    Charging,
    /// The battery feeds the machine.
    Discharging,
    /// The battery is drained.
    Empty,
    /// The battery is full and on a charger.
    Full,
}

impl ChargeState {
    /// Whether a charger is feeding the battery. Only `Charging` counts: a
    /// battery reported as `Full` is treated like one that is not charging.
    pub open spec fn is_charging(self) -> bool {
        self == ChargeState::Charging
    }

    /// Whether a charger is feeding the battery.
    pub fn charging(self) -> (b: bool)
        ensures
            b == self.is_charging(),
    {
        match self {
            ChargeState::Charging => true,
            _ => false,
        }
    }
}

/// One reading of a battery.
#[derive(Clone, Copy, Debug, PartialEq, Eq, Structural)]
pub struct Reading {
    /// The charge in percent of the full charge.
    pub percent: u32,
    /// What the supply does.
    pub state: ChargeState,
}

impl Reading {
    /// Whether the charge lies on the scale from 0 to 100 percent.
    pub open spec fn on_scale(self) -> bool {
        self.percent <= PERCENT_MAX
    }

    /// A reading from a raw percentage, which may overshoot: anything above
    /// a full charge counts as a full charge.
    pub fn clamped(percent: u32, state: ChargeState) -> (reading: Reading)
        ensures
            reading.on_scale(),
            reading.percent == (if percent <= PERCENT_MAX {
                percent
            } else {
                PERCENT_MAX
            }),
            reading.state == state,
    {
        if percent <= PERCENT_MAX {
            Reading { percent, state }
        } else {
            Reading { percent: PERCENT_MAX, state }
        }
    }
}

} // verus!
