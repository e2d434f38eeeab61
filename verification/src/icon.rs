//! The glyphs that stand beside the number: a battery drawn more or less
//! full, and a mark for a battery on a charger.
//!
//! The glyphs are code points of the Font Awesome icon font.

use vstd::prelude::*;
use crate::levels::BAT_FULL;
use crate::reading::ChargeState;

verus! {

/// Number of battery glyphs; each stands for a band of twenty percent.
pub const ICON_COUNT: usize = 5;

/// The mark behind the battery glyph.
#[derive(Clone, Copy, Debug, PartialEq, Eq, Structural)]
pub enum Suffix {
    /// Nothing: the battery is not on a charger.
    Absent,
    /// A plug: the battery is full, or charging and nearly full.
    Plugged,
    /// A charging mark: the battery is charging and not yet nearly full.
    Charging,
}

/// The band that a charge falls into: a fifth of the scale each, with
/// everything from 80 percent up, and anything beyond 100, in the last.
pub open spec fn icon_bucket(percent: nat) -> nat {
    if percent / 20 < ICON_COUNT - 1 {
        percent / 20
    } else {
        (ICON_COUNT - 1) as nat
    }
}

/// The battery glyph of a band, from empty (band 0) to full (band 4).
pub open spec fn icon_glyph(bucket: nat) -> char
    recommends
        bucket < ICON_COUNT,
{
    if bucket == 0 {
        '\u{f244}'
    } else if bucket == 1 {
        '\u{f243}'
    } else if bucket == 2 {
        '\u{f242}'
    } else if bucket == 3 {
        '\u{f241}'
    } else {
        '\u{f240}'
    }
}

/// The mark that a charge and a supply state call for.
pub open spec fn suffix_of(percent: nat, state: ChargeState) -> Suffix {
    if state == ChargeState::Full || (state == ChargeState::Charging && percent >= BAT_FULL) {
        Suffix::Plugged
    } else if state == ChargeState::Charging {
        Suffix::Charging
    } else {
        Suffix::Absent
    }
}

impl Suffix {
    /// The text of the mark: a space and the glyph, or nothing.
    pub open spec fn text_view(self) -> Seq<char> {
        match self {
            Suffix::Absent => Seq::<char>::empty(),
            Suffix::Plugged => seq![' ', '\u{f1e6}'],
            Suffix::Charging => seq![' ', '\u{f5e7}'],
        }
    }

    /// The text of the mark: a space and the glyph, or nothing.
    pub fn text(self) -> (s: &'static str)
        ensures
            s@ == self.text_view(),
    {
        proof {
            reveal_strlit("");
            reveal_strlit(" \u{f1e6}");
            reveal_strlit(" \u{f5e7}");
        }
        let s = match self {
            Suffix::Absent => "",
            Suffix::Plugged => " \u{f1e6}",
            Suffix::Charging => " \u{f5e7}",
        };
        assert(s@ =~= self.text_view());
        s
    }
}

/// The icon part of a fragment: a space, the battery glyph of the charge's
/// band, and the mark for the supply state.
pub open spec fn icon_view(percent: nat, state: ChargeState) -> Seq<char> {
    seq![' ', icon_glyph(icon_bucket(percent))] + suffix_of(percent, state).text_view()
}

/// The band that a charge falls into, as an index among the battery glyphs.
pub fn icon_index(percent: u32) -> (idx: usize)
    ensures
        idx == icon_bucket(percent as nat),
        idx < ICON_COUNT,
{
    let mut idx: usize = (percent / 20) as usize;
    if idx >= ICON_COUNT {
        idx = ICON_COUNT - 1;
    }
    idx
}

/// A space and the battery glyph with the given index; an index past the
/// last glyph gets the last.
pub fn icon_text(idx: usize) -> (s: &'static str)
    ensures
        s@ == seq![' ', icon_glyph(idx as nat)],
{
    proof {
        reveal_strlit(" \u{f244}");
        reveal_strlit(" \u{f243}");
        reveal_strlit(" \u{f242}");
        reveal_strlit(" \u{f241}");
        reveal_strlit(" \u{f240}");
    }
    let s = match idx {
        0 => " \u{f244}",
        1 => " \u{f243}",
        2 => " \u{f242}",
        3 => " \u{f241}",
        _ => " \u{f240}",
    };
    assert(s@ =~= seq![' ', icon_glyph(idx as nat)]);
    s
}

/// The mark that a charge and a supply state call for.
pub fn icon_suffix(percent: u32, state: ChargeState) -> (suffix: Suffix)
    ensures
        suffix == suffix_of(percent as nat, state),
{
    match state {
        ChargeState::Full => Suffix::Plugged,
        ChargeState::Charging => if percent >= BAT_FULL {
            Suffix::Plugged
        } else {
            Suffix::Charging
        },
        _ => Suffix::Absent,
    }
}

/// The icon part of a fragment.
pub fn render_icon(percent: u32, state: ChargeState) -> (s: String)
    ensures
        s@ == icon_view(percent as nat, state),
{
    let mut s = String::from_str(icon_text(icon_index(percent)));
    s.append(icon_suffix(percent, state).text());
    s
}

/// The bands are fifths of the scale: a charge of at most 100 percent lies
/// in band `b` exactly when it is at least `20 * b` and, below the last
/// band, less than `20 * (b + 1)`.
pub proof fn lemma_icon_bands(percent: nat)
    ensures
        icon_bucket(percent) < ICON_COUNT,
        20 * icon_bucket(percent) <= percent,
        icon_bucket(percent) < 4 ==> percent < 20 * (icon_bucket(percent) + 1),
        icon_bucket(percent) == 4 <==> percent >= 80,
{
}

/// A battery that is not on a charger gets no mark, and a marked battery
/// is charging or full.
pub proof fn lemma_suffix_needs_charger(percent: nat, state: ChargeState)
    ensures
        suffix_of(percent, state) != Suffix::Absent <==> (state == ChargeState::Charging || state
            == ChargeState::Full),
{
}

} // verus!
