//! The charge levels, in percent, at which the display changes.

use vstd::prelude::*;

verus! {

/// The top of the scale: a full charge.
pub const PERCENT_MAX: u32 = 100;

/// At or above this level a charging battery is shown as plugged in rather
/// than as charging.
pub const BAT_FULL: u32 = 98;

/// Highest level that is still shown in the "good" colour.
pub const BAT_GOOD: u32 = 90;

/// Highest level that is shown in the warning colour.
pub const BAT_WARN: u32 = 40;

/// Highest level that counts as critical.
pub const BAT_CRIT: u32 = 20;

/// The four levels ascend, critical, warning, good, full, and lie on the
/// scale.
pub proof fn lemma_levels_ascend()
    ensures
        0 < BAT_CRIT < BAT_WARN < BAT_GOOD < BAT_FULL <= PERCENT_MAX,
{
}

} // verus!
