//! The blink phase of one battery and the rule that picks its colour.
//!
//! A battery that is critically low and not charging blinks: on one tick its
//! text is drawn in the critical colour, on the next in the background
//! colour, and so on. Anything else, a charger above all, stops the blinking
//! at once.

use vstd::prelude::*;
use crate::levels::{BAT_CRIT, BAT_GOOD, BAT_WARN};
use crate::palette::{in_palette, lemma_hex_shape, Color};

verus! {

/// Where a battery stands in its blink cycle.
#[derive(Clone, Copy, Debug, PartialEq, Eq, Structural)]
pub enum Blink {
    /// Not blinking.
    Disabled,
    /// Blinking; the next tick draws the text.
    Show,
    /// Blinking; the next tick hides the text.
    Hide,
}

/// Whether a battery at `percent` blinks: it is critically low and no
/// charger feeds it.
pub open spec fn alarmed(percent: nat, charging: bool) -> bool {
    percent <= BAT_CRIT && !charging
}

/// The colour of one tick.
///
/// In the critical band the text is hidden exactly when the battery blinks
/// and the phase is `Hide`; above it the level alone decides.
pub open spec fn color_of(percent: nat, charging: bool, phase: Blink) -> Color {
    if percent <= BAT_CRIT {
        if !charging && phase == Blink::Hide {
            Color::Background
        } else {
            Color::Critical
        }
    } else if percent <= BAT_WARN {
        Color::Warn
    } else if percent <= BAT_GOOD {
        Color::Good
    } else {
        Color::Full
    }
}

/// The phase after one tick.
///
/// A blinking battery leaves `Hide` for `Show` and comes to `Hide` from
/// `Show` and from `Disabled`, which starts the cycle as `Show` would.
pub open spec fn next_blink(percent: nat, charging: bool, phase: Blink) -> Blink {
    if alarmed(percent, charging) {
        if phase == Blink::Hide {
            Blink::Show
        } else {
            Blink::Hide
        }
    } else {
        Blink::Disabled
    }
}

/// One tick of the display of a battery: the colour to draw it in now and
/// the phase to keep for the next tick.
pub fn compute_color(percent: u32, is_charging: bool, phase: Blink) -> (out: (Color, Blink))
    ensures
        out.0 == color_of(percent as nat, is_charging, phase),
        out.1 == next_blink(percent as nat, is_charging, phase),
{
    if percent <= BAT_CRIT {
        if is_charging {
            (Color::Critical, Blink::Disabled)
        } else {
            let active = match phase {
                Blink::Disabled => Blink::Show,
                other => other,
            };
            match active {
                Blink::Hide => (Color::Background, Blink::Show),
                _ => (Color::Critical, Blink::Hide),
            }
        }
    } else if percent <= BAT_WARN {
        (Color::Warn, Blink::Disabled)
    } else if percent <= BAT_GOOD {
        (Color::Good, Blink::Disabled)
    } else {
        (Color::Full, Blink::Disabled)
    }
}

/// The phase after `ticks` ticks at one level and supply.
pub open spec fn phase_after(percent: nat, charging: bool, phase: Blink, ticks: nat) -> Blink
    decreases ticks,
{
    if ticks == 0 {
        phase
    } else {
        next_blink(percent, charging, phase_after(percent, charging, phase, (ticks - 1) as nat))
    }
}

/// Whether a phase counts as blinking.
pub open spec fn blinking(phase: Blink) -> bool {
    phase != Blink::Disabled
}

/// A tick is defined for every level, supply and earlier phase: its colour
/// is one of the five of the palette, and a charging battery does not blink
/// after it.
pub proof fn lemma_tick_in_palette(percent: nat, charging: bool, phase: Blink)
    ensures
        in_palette(color_of(percent, charging, phase).hex_view()),
        charging ==> next_blink(percent, charging, phase) == Blink::Disabled,
{
    lemma_hex_shape(color_of(percent, charging, phase));
}

/// After a tick a battery blinks exactly when it is critically low and not
/// charging; in particular a charging battery never blinks.
pub proof fn lemma_blinks_iff_alarmed(percent: nat, charging: bool, phase: Blink)
    ensures
        blinking(next_blink(percent, charging, phase)) <==> alarmed(percent, charging),
        charging ==> next_blink(percent, charging, phase) == Blink::Disabled,
        percent > BAT_CRIT ==> next_blink(percent, charging, phase) == Blink::Disabled,
{
}

/// Above the critical band nothing oscillates. The colour does not depend
/// on the phase and is neither the critical one nor the background; one
/// tick brings the phase to `Disabled`; and so does any number of ticks at
/// the same level, each of them in the colour of the first.
pub proof fn lemma_steady_above_critical(percent: nat, charging: bool, phase: Blink, ticks: nat)
    requires
        percent > BAT_CRIT,
    ensures
        next_blink(percent, charging, phase) == Blink::Disabled,
        forall|other: Blink| color_of(percent, charging, other) == color_of(percent, charging, phase),
        color_of(percent, charging, phase) != Color::Critical,
        color_of(percent, charging, phase) != Color::Background,
        ticks >= 1 ==> phase_after(percent, charging, phase, ticks) == Blink::Disabled,
        color_of(percent, charging, phase_after(percent, charging, phase, ticks)) == color_of(
            percent,
            charging,
            phase,
        ),
    decreases ticks,
{
    if ticks >= 1 {
        lemma_steady_above_critical(percent, charging, phase, (ticks - 1) as nat);
    }
}

/// A critically low battery on a charger is drawn in the critical colour and
/// does not blink, whatever its phase was.
pub proof fn lemma_charger_stops_blinking(percent: nat, phase: Blink)
    requires
        percent <= BAT_CRIT,
    ensures
        color_of(percent, true, phase) == Color::Critical,
        next_blink(percent, true, phase) == Blink::Disabled,
{
}

/// A critically low battery without a charger alternates. The first tick
/// after `Disabled` is the visible one that `Show` would give; a visible
/// tick is followed by a hidden one and a hidden tick by a visible one; and
/// two ticks bring a blinking phase back to itself.
pub proof fn lemma_blink_alternates(percent: nat, phase: Blink)
    requires
        percent <= BAT_CRIT,
    ensures
        color_of(percent, false, Blink::Disabled) == Color::Critical,
        next_blink(percent, false, Blink::Disabled) == next_blink(percent, false, Blink::Show),
        color_of(percent, false, phase) == Color::Critical ==> color_of(
            percent,
            false,
            next_blink(percent, false, phase),
        ) == Color::Background,
        color_of(percent, false, phase) == Color::Background ==> color_of(
            percent,
            false,
            next_blink(percent, false, phase),
        ) == Color::Critical,
        blinking(phase) ==> next_blink(percent, false, next_blink(percent, false, phase)) == phase,
{
}

/// The whole run of a blink: a critically low battery without a charger
/// that starts from `Disabled`, or from `Show`, draws its text on every
/// tick with an even number of ticks before it and hides it on every other.
pub proof fn lemma_blink_sequence(percent: nat, phase: Blink, ticks: nat)
    requires
        percent <= BAT_CRIT,
        phase != Blink::Hide,
    ensures
        ticks >= 1 ==> phase_after(percent, false, phase, ticks) == (if ticks % 2 == 1 {
            Blink::Hide
        } else {
            Blink::Show
        }),
        color_of(percent, false, phase_after(percent, false, phase, ticks)) == (if ticks % 2 == 0 {
            Color::Critical
        } else {
            Color::Background
        }),
    decreases ticks,
{
    if ticks >= 1 {
        lemma_blink_sequence(percent, phase, (ticks - 1) as nat);
    }
}

} // verus!
