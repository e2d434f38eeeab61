//! The five colours of the display and the markup that switches to them.

use vstd::prelude::*;

verus! {

/// A foreground colour of the status line.
#[derive(Clone, Copy, Debug, PartialEq, Eq, Structural)]
pub enum Color {
    /// Nearly or fully charged.
    Full,
    /// Comfortable charge.
    Good,
    /// Low charge.
    Warn,
    /// Critically low charge.
    Critical,
    /// The bar's own background: text in it cannot be seen.
    Background,
}

impl Color {
    /// The colour as `#` and six hexadecimal digits.
    pub open spec fn hex_view(self) -> Seq<char> {
        match self {
            Color::Full => "#2ecc71"@,
            Color::Good => "#5f87ff"@,
            Color::Warn => "#ff5f87"@,
            Color::Critical => "#d81860"@,
            Color::Background => "#101010"@,
        }
    }

    /// The markup that makes this colour the foreground: `%{F`, the colour, `}`.
    pub open spec fn start_view(self) -> Seq<char> {
        "%{F"@ + self.hex_view() + "}"@
    }

    /// The colour as `#` and six hexadecimal digits.
    pub fn hex(self) -> (s: &'static str)
        ensures
            s@ == self.hex_view(),
    {
        match self {
            Color::Full => "#2ecc71",
            Color::Good => "#5f87ff",
            Color::Warn => "#ff5f87",
            Color::Critical => "#d81860",
            Color::Background => "#101010",
        }
    }

    /// The markup that makes this colour the foreground.
    pub fn start(self) -> (s: String)
        ensures
            s@ == self.start_view(),
    {
        let mut s = String::from_str("%{F");
        s.append(self.hex());
        s.append("}");
        s
    }
}

/// Whether `hex` names one of the five colours of the palette.
pub open spec fn in_palette(hex: Seq<char>) -> bool {
    ||| hex == "#2ecc71"@
    ||| hex == "#5f87ff"@
    ||| hex == "#ff5f87"@
    ||| hex == "#d81860"@
    ||| hex == "#101010"@
}

/// Whether `c` is a digit of lower-case hexadecimal notation.
pub open spec fn is_hex_digit(c: char) -> bool {
    ('0' <= c <= '9') || ('a' <= c <= 'f')
}

/// Every colour is written as one of the five palette entries: `#` and six
/// hexadecimal digits.
pub proof fn lemma_hex_shape(color: Color)
    ensures
        in_palette(color.hex_view()),
        color.hex_view().len() == 7,
        color.hex_view()[0] == '#',
        forall|i: int| 1 <= i < 7 ==> is_hex_digit(#[trigger] color.hex_view()[i]),
{
    reveal_strlit("#2ecc71");
    reveal_strlit("#5f87ff");
    reveal_strlit("#ff5f87");
    reveal_strlit("#d81860");
    reveal_strlit("#101010");
}

/// No two colours are written alike. In particular hidden text, in the
/// background colour, differs from text in the critical colour.
pub proof fn lemma_hex_distinct(a: Color, b: Color)
    ensures
        a.hex_view() == b.hex_view() <==> a == b,
{
    reveal_strlit("#2ecc71");
    reveal_strlit("#5f87ff");
    reveal_strlit("#ff5f87");
    reveal_strlit("#d81860");
    reveal_strlit("#101010");
    if a != b {
        assert(a.hex_view()[1] != b.hex_view()[1]);
    }
}

/// The markup that ends a coloured stretch.
pub open spec fn color_end_view() -> Seq<char> {
    "%{F-}"@
}

/// The markup that ends a coloured stretch.
pub fn color_end() -> (s: &'static str)
    ensures
        s@ == color_end_view(),
{
    "%{F-}"
}

} // verus!
