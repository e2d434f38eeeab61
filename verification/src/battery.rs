//! One battery of the status line: its latest reading, its blink phase, and
//! the fragment that shows it.

use vstd::prelude::*;
use crate::blink::{alarmed, blinking, color_of, compute_color, next_blink, Blink};
use crate::decimal::{decimal, push_decimal};
use crate::icon::{icon_view, render_icon};
use crate::palette::{color_end, color_end_view, Color};
use crate::reading::{ChargeState, Reading};

verus! {

/// What a [`PolybarBat`] holds, as plain values.
pub struct BatteryView {
    /// The charge in percent, as last read.
    pub percent: nat,
    /// The supply state, as last read.
    pub state: ChargeState,
    /// The blink phase.
    pub blink: Blink,
}

impl BatteryView {
    /// The colour of the next fragment.
    pub open spec fn color(self) -> Color {
        color_of(self.percent, self.state.is_charging(), self.blink)
    }

    /// The battery after a fragment was rendered: the reading stays and the
    /// blink phase moves on.
    pub open spec fn rendered(self) -> BatteryView {
        BatteryView {
            blink: next_blink(self.percent, self.state.is_charging(), self.blink),
            ..self
        }
    }

    /// The battery after an attempt to read it anew: a reading replaces the
    /// one held, a failure leaves it; the blink phase stays either way.
    pub open spec fn refreshed(self, outcome: Option<Reading>) -> BatteryView {
        match outcome {
            Some(reading) => BatteryView {
                percent: reading.percent as nat,
                state: reading.state,
                ..self
            },
            None => self,
        }
    }

    /// The next fragment: colour start, the charge in decimal, `%`, the icon
    /// part, colour end.
    pub open spec fn fragment(self) -> Seq<char> {
        self.color().start_view() + decimal(self.percent) + seq!['%'] + icon_view(
            self.percent,
            self.state,
        ) + color_end_view()
    }
}

/// One battery of the status line.
#[derive(Clone, Copy, Debug)]
pub struct PolybarBat {
    inner: Reading,
    blink: Blink,
}

impl View for PolybarBat {
    type V = BatteryView;

    closed spec fn view(&self) -> BatteryView {
        BatteryView {
            percent: self.inner.percent as nat,
            state: self.inner.state,
            blink: self.blink,
        }
    }
}

impl PolybarBat {
    /// A battery with its first reading. It does not blink yet.
    pub fn new(inner: Reading) -> (bat: PolybarBat)
        ensures
            bat@ == (BatteryView {
                percent: inner.percent as nat,
                state: inner.state,
                blink: Blink::Disabled,
            }),
    {
        PolybarBat { inner, blink: Blink::Disabled }
    }

    /// Takes in the outcome of reading the battery anew. A failed read,
    /// `None`, is passed over: the reading held before stays on display.
    pub fn refresh(&mut self, outcome: Option<Reading>)
        ensures
            final(self)@ == old(self)@.refreshed(outcome),
    {
        match outcome {
            Some(reading) => {
                self.inner = reading;
            },
            None => {},
        }
    }

    /// The charge in percent, as last read.
    pub fn percent(&self) -> (percent: u32)
        ensures
            percent == self@.percent,
    {
        self.inner.percent
    }

    /// The supply state, as last read.
    pub fn state(&self) -> (state: ChargeState)
        ensures
            state == self@.state,
    {
        self.inner.state
    }

    /// The blink phase.
    pub fn blink(&self) -> (phase: Blink)
        ensures
            phase == self@.blink,
    {
        self.blink
    }

    /// Whether the battery is blinking.
    pub fn blink_enabled(&self) -> (enabled: bool)
        ensures
            enabled == blinking(self@.blink),
    {
        match self.blink {
            Blink::Disabled => false,
            _ => true,
        }
    }

    /// Picks the colour of the next fragment, moves the blink phase on, and
    /// returns the markup that starts the colour.
    pub fn render_color(&mut self) -> (markup: String)
        ensures
            markup@ == old(self)@.color().start_view(),
            final(self)@ == old(self)@.rendered(),
    {
        let (color, phase) = compute_color(self.inner.percent, self.inner.state.charging(), self.blink);
        self.blink = phase;
        color.start()
    }

    /// The icon part of the fragment: a space, the battery glyph, and the
    /// mark of a battery on a charger.
    pub fn render_icon(&self) -> (markup: String)
        ensures
            markup@ == icon_view(self@.percent, self@.state),
    {
        render_icon(self.inner.percent, self.inner.state)
    }

    /// Renders the fragment of this battery and moves its blink phase on.
    pub fn render(&mut self) -> (fragment: String)
        ensures
            fragment@ == old(self)@.fragment(),
            final(self)@ == old(self)@.rendered(),
    {
        let mut fragment = self.render_color();
        push_decimal(&mut fragment, self.inner.percent);
        fragment.append("%");
        let icon = self.render_icon();
        fragment.append(icon.as_str());
        fragment.append(color_end());
        proof {
            reveal_strlit("%");
            assert("%"@ =~= seq!['%']);
        }
        fragment
    }
}

/// Rendering leaves the reading alone, and afterwards the battery blinks
/// exactly when that reading is critically low and not charging.
pub proof fn lemma_rendered_blinks_iff_alarmed(bat: BatteryView)
    ensures
        bat.rendered().percent == bat.percent,
        bat.rendered().state == bat.state,
        blinking(bat.rendered().blink) <==> alarmed(bat.percent, bat.state.is_charging()),
{
}

/// Reading a battery anew never touches its blink phase, and a failed read
/// touches nothing.
pub proof fn lemma_refresh_keeps_phase(bat: BatteryView, outcome: Option<Reading>)
    ensures
        bat.refreshed(outcome).blink == bat.blink,
        outcome is None ==> bat.refreshed(outcome) == bat,
        outcome matches Some(reading) ==> bat.refreshed(outcome).percent == reading.percent
            && bat.refreshed(outcome).state == reading.state,
{
}

} // verus!
