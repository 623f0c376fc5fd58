//! Color values: hexadecimal codes, highlight colors, fill percentages and
//! stripe patterns.

use vstd::prelude::*;
use crate::error::RudocxStyleError;
use crate::text::{decimal, owned, push_str, str_eq, format_u32};

verus! {

pub open spec fn is_hex_digit(c: char) -> bool {
    ('0' <= c && c <= '9') || ('a' <= c && c <= 'f') || ('A' <= c && c <= 'F')
}

/// Exactly six hexadecimal digits.
pub open spec fn is_hex_code(s: Seq<char>) -> bool {
    s.len() == 6 && forall|i: int| 0 <= i < 6 ==> is_hex_digit(#[trigger] s[i])
}

/// The color that stands in for an invalid code.
pub open spec fn fallback_hex() -> Seq<char> {
    "FFFFFF"@
}

/// A color code of six hexadecimal digits, without the leading `#`.
#[derive(Debug, Clone, PartialEq)]
pub struct HexColor {
    pub value: String,
}

impl View for HexColor {
    type V = Seq<char>;

    open spec fn view(&self) -> Seq<char> {
        self.value@
    }
}

impl Default for HexColor {
    fn default() -> (r: HexColor)
        ensures
            r@ == fallback_hex(),
    {
        HexColor { value: owned("FFFFFF") }
    }
}

impl HexColor {
    /// Takes `color` when it is six hexadecimal digits; any other text gives the
    /// fallback `FFFFFF`.
    pub fn new(color: &str) -> (r: HexColor)
        ensures
            r@ == (if is_hex_code(color@) {
                color@
            } else {
                fallback_hex()
            }),
    {
        match check_hex(color) {
            Ok(_) => HexColor { value: owned(color) },
            Err(_) => HexColor { value: owned("FFFFFF") },
        }
    }

    /// The code as a string.
    pub fn value(&self) -> (r: String)
        ensures
            r@ == self@,
    {
        self.value.clone()
    }

    /// Replaces the code by `value` when it is six hexadecimal digits; otherwise
    /// fails and keeps the code.
    pub fn change_value(&mut self, value: &str) -> (r: Result<(), RudocxStyleError>)
        ensures
            r is Ok <==> is_hex_code(value@),
            r is Ok ==> final(self)@ == value@,
            r matches Err(e) ==> (e matches RudocxStyleError::InvalidHex(s) && s@ == value@),
            r is Err ==> *final(self) == *old(self),
    {
        match check_hex(value) {
            Ok(_) => {
                self.value = owned(value);
                Ok(())
            },
            Err(e) => Err(e),
        }
    }
}

/// Succeeds when `value` is six hexadecimal digits.
pub fn check_hex(value: &str) -> (r: Result<(), RudocxStyleError>)
    ensures
        r is Ok <==> is_hex_code(value@),
        r matches Err(e) ==> (e matches RudocxStyleError::InvalidHex(s) && s@ == value@),
{
    if value.unicode_len() != 6 {
        return Err(RudocxStyleError::InvalidHex(owned(value)));
    }
    let mut i: usize = 0;
    while i < 6
        invariant
            value@.len() == 6,
            i <= 6,
            forall|j: int| 0 <= j < i ==> is_hex_digit(#[trigger] value@[j]),
        decreases 6 - i,
    {
        let c = value.get_char(i);
        if !(('0' <= c && c <= '9') || ('a' <= c && c <= 'f') || ('A' <= c && c <= 'F')) {
            return Err(RudocxStyleError::InvalidHex(owned(value)));
        }
        i += 1;
    }
    Ok(())
}

/// A highlight color out of the fixed palette; `None` is no highlight.
#[derive(Debug, Clone, PartialEq, Eq, Structural)]
pub struct HLColor {
    pub value: Option<HighlightPalette>,
}

impl HLColor {
    pub fn new(color: HighlightPalette) -> (r: HLColor)
        ensures
            r.value == Some(color),
    {
        HLColor { value: Some(color) }
    }

    /// The markup name of the color, or the empty string for no highlight.
    pub fn value(&self) -> (r: String)
        ensures
            r@ == (match self.value {
                Some(v) => v.spec_wire(),
                None => Seq::empty(),
            }),
    {
        match self.value {
            Some(v) => owned(v.wire()),
            None => String::new(),
        }
    }

    /// Sets the color; this cannot fail.
    pub fn change_value(&mut self, value: Option<HighlightPalette>) -> (r: Result<
        (),
        RudocxStyleError,
    >)
        ensures
            r is Ok,
            final(self).value == value,
    {
        self.value = value;
        Ok(())
    }
}

/// The colors that a highlight can take.
#[derive(Debug, Clone, Copy, PartialEq, Eq, Structural)]
pub enum HighlightPalette {
    Yellow,
    DarkYellow,
    Green,
    DarkGreen,
    Cyan,
    DarkCyan,
    Magenta,
    DarkMagenta,
    Blue,
    DarkBlue,
    Red,
    DarkRed,
    Black,
    White,
}

impl HighlightPalette {
    /// The name of the value in the markup.
    pub open spec fn spec_wire(self) -> Seq<char> {
        match self {
            HighlightPalette::Yellow => "yellow"@,
            HighlightPalette::DarkYellow => "darkYellow"@,
            HighlightPalette::Green => "green"@,
            HighlightPalette::DarkGreen => "darkGreen"@,
            HighlightPalette::Cyan => "cyan"@,
            HighlightPalette::DarkCyan => "darkCyan"@,
            HighlightPalette::Magenta => "magenta"@,
            HighlightPalette::DarkMagenta => "darkMagenta"@,
            HighlightPalette::Blue => "blue"@,
            HighlightPalette::DarkBlue => "darkBlue"@,
            HighlightPalette::Red => "red"@,
            HighlightPalette::DarkRed => "darkRed"@,
            HighlightPalette::Black => "black"@,
            HighlightPalette::White => "white"@,
        }
    }

    /// The value that a markup name denotes; an unknown name gives `White`.
    pub open spec fn spec_from_wire(s: Seq<char>) -> HighlightPalette {
        if s == "yellow"@ {
            HighlightPalette::Yellow
        } else if s == "darkYellow"@ {
            HighlightPalette::DarkYellow
        } else if s == "green"@ {
            HighlightPalette::Green
        } else if s == "darkGreen"@ {
            HighlightPalette::DarkGreen
        } else if s == "cyan"@ {
            HighlightPalette::Cyan
        } else if s == "darkCyan"@ {
            HighlightPalette::DarkCyan
        } else if s == "magenta"@ {
            HighlightPalette::Magenta
        } else if s == "darkMagenta"@ {
            HighlightPalette::DarkMagenta
        } else if s == "blue"@ {
            HighlightPalette::Blue
        } else if s == "darkBlue"@ {
            HighlightPalette::DarkBlue
        } else if s == "red"@ {
            HighlightPalette::Red
        } else if s == "darkRed"@ {
            HighlightPalette::DarkRed
        } else if s == "black"@ {
            HighlightPalette::Black
        } else if s == "white"@ {
            HighlightPalette::White
        } else {
            HighlightPalette::White
        }
    }

    /// The name of the value in the markup.
    pub fn wire(&self) -> (r: &'static str)
        ensures
            r@ == self.spec_wire(),
    {
        match self {
            HighlightPalette::Yellow => "yellow",
            HighlightPalette::DarkYellow => "darkYellow",
            HighlightPalette::Green => "green",
            HighlightPalette::DarkGreen => "darkGreen",
            HighlightPalette::Cyan => "cyan",
            HighlightPalette::DarkCyan => "darkCyan",
            HighlightPalette::Magenta => "magenta",
            HighlightPalette::DarkMagenta => "darkMagenta",
            HighlightPalette::Blue => "blue",
            HighlightPalette::DarkBlue => "darkBlue",
            HighlightPalette::Red => "red",
            HighlightPalette::DarkRed => "darkRed",
            HighlightPalette::Black => "black",
            HighlightPalette::White => "white",
        }
    }

    /// The value that a markup name denotes; an unknown name gives `White`.
    pub fn from_wire(s: &str) -> (r: HighlightPalette)
        ensures
            r == HighlightPalette::spec_from_wire(s@),
    {
        if str_eq(s, "yellow") {
            HighlightPalette::Yellow
        } else if str_eq(s, "darkYellow") {
            HighlightPalette::DarkYellow
        } else if str_eq(s, "green") {
            HighlightPalette::Green
        } else if str_eq(s, "darkGreen") {
            HighlightPalette::DarkGreen
        } else if str_eq(s, "cyan") {
            HighlightPalette::Cyan
        } else if str_eq(s, "darkCyan") {
            HighlightPalette::DarkCyan
        } else if str_eq(s, "magenta") {
            HighlightPalette::Magenta
        } else if str_eq(s, "darkMagenta") {
            HighlightPalette::DarkMagenta
        } else if str_eq(s, "blue") {
            HighlightPalette::Blue
        } else if str_eq(s, "darkBlue") {
            HighlightPalette::DarkBlue
        } else if str_eq(s, "red") {
            HighlightPalette::Red
        } else if str_eq(s, "darkRed") {
            HighlightPalette::DarkRed
        } else if str_eq(s, "black") {
            HighlightPalette::Black
        } else if str_eq(s, "white") {
            HighlightPalette::White
        } else {
            HighlightPalette::White
        }
    }

    /// Reading back the name of a value gives the value.
    pub proof fn lemma_wire_round_trip(self)
        ensures
            HighlightPalette::spec_from_wire(self.spec_wire()) == self,
    {
        broadcast use vstd::string::group_string_axioms;

        reveal_strlit("yellow");
        reveal_strlit("darkYellow");
        reveal_strlit("green");
        reveal_strlit("darkGreen");
        reveal_strlit("cyan");
        reveal_strlit("darkCyan");
        reveal_strlit("magenta");
        reveal_strlit("darkMagenta");
        reveal_strlit("blue");
        reveal_strlit("darkBlue");
        reveal_strlit("red");
        reveal_strlit("darkRed");
        reveal_strlit("black");
        reveal_strlit("white");
        match self {
            HighlightPalette::Yellow => {
                assert("yellow"@.len() == 6);
            },
            HighlightPalette::DarkYellow => {
                assert("darkYellow"@.len() == 10);
            },
            HighlightPalette::Green => {
                assert("green"@.len() == 5);
            },
            HighlightPalette::DarkGreen => {
                assert("darkGreen"@.len() == 9);
            },
            HighlightPalette::Cyan => {
                assert("cyan"@.len() == 4);
            },
            HighlightPalette::DarkCyan => {
                assert("darkCyan"@.len() == 8);
            },
            HighlightPalette::Magenta => {
                assert("magenta"@.len() == 7);
            },
            HighlightPalette::DarkMagenta => {
                assert("darkMagenta"@.len() == 11);
            },
            HighlightPalette::Blue => {
                assert("blue"@.len() == 4);
                assert("blue"@[0] != "cyan"@[0]);
            },
            HighlightPalette::DarkBlue => {
                assert("darkBlue"@.len() == 8);
                assert("darkBlue"@[4] != "darkCyan"@[4]);
            },
            HighlightPalette::Red => {
                assert("red"@.len() == 3);
            },
            HighlightPalette::DarkRed => {
                assert("darkRed"@.len() == 7);
                assert("darkRed"@[0] != "magenta"@[0]);
            },
            HighlightPalette::Black => {
                assert("black"@.len() == 5);
                assert("black"@[0] != "green"@[0]);
            },
            HighlightPalette::White => {
                assert("white"@.len() == 5);
                assert("white"@[0] != "green"@[0]);
                assert("white"@[0] != "black"@[0]);
            },
        }
    }
}

/// The fill string of a percentage: `pct` and the number.
pub open spec fn percent_fill(n: nat) -> Seq<char> {
    "pct"@ + decimal(n)
}

/// A shading fill given as a percentage, written `pct` and the number.
#[derive(Debug, Clone, PartialEq)]
pub struct PercentFill {
    pub fill: String,
}

impl View for PercentFill {
    type V = Seq<char>;

    open spec fn view(&self) -> Seq<char> {
        self.fill@
    }
}

impl Default for PercentFill {
    fn default() -> (r: PercentFill)
        ensures
            r@ == percent_fill(100),
    {
        PercentFill::new(100)
    }
}

fn percent_string(n: u8) -> (r: String)
    ensures
        r@ == percent_fill(n as nat),
{
    let mut s = owned("pct");
    let digits = format_u32(n as u32);
    push_str(&mut s, digits.as_str());
    s
}

impl PercentFill {
    /// A fill of `n` percent; a number above one hundred gives one hundred.
    pub fn new(n: u8) -> (r: PercentFill)
        ensures
            r@ == percent_fill(if n > 100 {
                100
            } else {
                n as nat
            }),
    {
        if n > 100 {
            return PercentFill { fill: percent_string(100) };
        }
        PercentFill { fill: percent_string(n) }
    }

    pub fn value(&self) -> (r: String)
        ensures
            r@ == self@,
    {
        self.fill.clone()
    }

    /// Sets the fill to `n` percent; fails on a number above one hundred and
    /// keeps the fill.
    pub fn change_value(&mut self, n: u8) -> (r: Result<(), RudocxStyleError>)
        ensures
            r is Ok <==> n <= 100,
            r is Ok ==> final(self)@ == percent_fill(n as nat),
            r is Err ==> r == Err::<(), RudocxStyleError>(RudocxStyleError::InvalidPercentage(n))
                && *final(self) == *old(self),
    {
        if n > 100 {
            return Err(RudocxStyleError::InvalidPercentage(n));
        }
        self.fill = percent_string(n);
        Ok(())
    }
}

/// A shading fill given as a stripe pattern.
#[derive(Debug, Clone, Copy, PartialEq, Eq, Structural)]
pub struct StripePattern {
    pub pattern: StripePatternValues,
}

impl StripePattern {
    pub fn new(pattern: StripePatternValues) -> (r: StripePattern)
        ensures
            r.pattern == pattern,
    {
        StripePattern { pattern }
    }
}

/// The stripe patterns of a shading.
#[derive(Debug, Clone, Copy, PartialEq, Eq, Structural)]
pub enum StripePatternValues {
    Horizontal,
    Vertical,
    Diagonal,
    ReverseDiagonal,
    HorizontalCross,
    DiagonalCross,
    ThinHorzontal,
    ThinVertical,
    ThinDiagonal,
    ThinReverseDiagonal,
    ThinHorizontalCross,
    ThinDiagCross,
    SmallGrid,
    LargeGrid,
    DottedGrid,
    Clear,
}

impl StripePatternValues {
    /// The name of the value in the markup.
    pub open spec fn spec_wire(self) -> Seq<char> {
        match self {
            StripePatternValues::Horizontal => "horzStripe"@,
            StripePatternValues::Vertical => "vertStripe"@,
            StripePatternValues::Diagonal => "diagStripe"@,
            StripePatternValues::ReverseDiagonal => "reverseDiagStripe"@,
            StripePatternValues::HorizontalCross => "horzCross"@,
            StripePatternValues::DiagonalCross => "diagCross"@,
            StripePatternValues::ThinHorzontal => "thinHorzStripe"@,
            StripePatternValues::ThinVertical => "thinVertStripe"@,
            StripePatternValues::ThinDiagonal => "thinDiagStripe"@,
            StripePatternValues::ThinReverseDiagonal => "thinReverseDiagStripe"@,
            StripePatternValues::ThinHorizontalCross => "thinHorzCross"@,
            StripePatternValues::ThinDiagCross => "thinDiagCross"@,
            StripePatternValues::SmallGrid => "smGrid"@,
            StripePatternValues::LargeGrid => "lgGrid"@,
            StripePatternValues::DottedGrid => "dotGrid"@,
            StripePatternValues::Clear => "clear"@,
        }
    }

    /// The value that a markup name denotes; an unknown name gives `Clear`.
    pub open spec fn spec_from_wire(s: Seq<char>) -> StripePatternValues {
        if s == "horzStripe"@ {
            StripePatternValues::Horizontal
        } else if s == "vertStripe"@ {
            StripePatternValues::Vertical
        } else if s == "diagStripe"@ {
            StripePatternValues::Diagonal
        } else if s == "reverseDiagStripe"@ {
            StripePatternValues::ReverseDiagonal
        } else if s == "horzCross"@ {
            StripePatternValues::HorizontalCross
        } else if s == "diagCross"@ {
            StripePatternValues::DiagonalCross
        } else if s == "thinHorzStripe"@ {
            StripePatternValues::ThinHorzontal
        } else if s == "thinVertStripe"@ {
            StripePatternValues::ThinVertical
        } else if s == "thinDiagStripe"@ {
            StripePatternValues::ThinDiagonal
        } else if s == "thinReverseDiagStripe"@ {
            StripePatternValues::ThinReverseDiagonal
        } else if s == "thinHorzCross"@ {
            StripePatternValues::ThinHorizontalCross
        } else if s == "thinDiagCross"@ {
            StripePatternValues::ThinDiagCross
        } else if s == "smGrid"@ {
            StripePatternValues::SmallGrid
        } else if s == "lgGrid"@ {
            StripePatternValues::LargeGrid
        } else if s == "dotGrid"@ {
            StripePatternValues::DottedGrid
        } else if s == "clear"@ {
            StripePatternValues::Clear
        } else {
            StripePatternValues::Clear
        }
    }

    /// The name of the value in the markup.
    pub fn wire(&self) -> (r: &'static str)
        ensures
            r@ == self.spec_wire(),
    {
        match self {
            StripePatternValues::Horizontal => "horzStripe",
            StripePatternValues::Vertical => "vertStripe",
            StripePatternValues::Diagonal => "diagStripe",
            StripePatternValues::ReverseDiagonal => "reverseDiagStripe",
            StripePatternValues::HorizontalCross => "horzCross",
            StripePatternValues::DiagonalCross => "diagCross",
            StripePatternValues::ThinHorzontal => "thinHorzStripe",
            StripePatternValues::ThinVertical => "thinVertStripe",
            StripePatternValues::ThinDiagonal => "thinDiagStripe",
            StripePatternValues::ThinReverseDiagonal => "thinReverseDiagStripe",
            StripePatternValues::ThinHorizontalCross => "thinHorzCross",
            StripePatternValues::ThinDiagCross => "thinDiagCross",
            StripePatternValues::SmallGrid => "smGrid",
            StripePatternValues::LargeGrid => "lgGrid",
            StripePatternValues::DottedGrid => "dotGrid",
            StripePatternValues::Clear => "clear",
        }
    }

    /// The value that a markup name denotes; an unknown name gives `Clear`.
    pub fn from_wire(s: &str) -> (r: StripePatternValues)
        ensures
            r == StripePatternValues::spec_from_wire(s@),
    {
        if str_eq(s, "horzStripe") {
            StripePatternValues::Horizontal
        } else if str_eq(s, "vertStripe") {
            StripePatternValues::Vertical
        } else if str_eq(s, "diagStripe") {
            StripePatternValues::Diagonal
        } else if str_eq(s, "reverseDiagStripe") {
            StripePatternValues::ReverseDiagonal
        } else if str_eq(s, "horzCross") {
            StripePatternValues::HorizontalCross
        } else if str_eq(s, "diagCross") {
            StripePatternValues::DiagonalCross
        } else if str_eq(s, "thinHorzStripe") {
            StripePatternValues::ThinHorzontal
        } else if str_eq(s, "thinVertStripe") {
            StripePatternValues::ThinVertical
        } else if str_eq(s, "thinDiagStripe") {
            StripePatternValues::ThinDiagonal
        } else if str_eq(s, "thinReverseDiagStripe") {
            StripePatternValues::ThinReverseDiagonal
        } else if str_eq(s, "thinHorzCross") {
            StripePatternValues::ThinHorizontalCross
        } else if str_eq(s, "thinDiagCross") {
            StripePatternValues::ThinDiagCross
        } else if str_eq(s, "smGrid") {
            StripePatternValues::SmallGrid
        } else if str_eq(s, "lgGrid") {
            StripePatternValues::LargeGrid
        } else if str_eq(s, "dotGrid") {
            StripePatternValues::DottedGrid
        } else if str_eq(s, "clear") {
            StripePatternValues::Clear
        } else {
            StripePatternValues::Clear
        }
    }

    /// Reading back the name of a value gives the value.
    pub proof fn lemma_wire_round_trip(self)
        ensures
            StripePatternValues::spec_from_wire(self.spec_wire()) == self,
    {
        broadcast use vstd::string::group_string_axioms;

        reveal_strlit("horzStripe");
        reveal_strlit("vertStripe");
        reveal_strlit("diagStripe");
        reveal_strlit("reverseDiagStripe");
        reveal_strlit("horzCross");
        reveal_strlit("diagCross");
        reveal_strlit("thinHorzStripe");
        reveal_strlit("thinVertStripe");
        reveal_strlit("thinDiagStripe");
        reveal_strlit("thinReverseDiagStripe");
        reveal_strlit("thinHorzCross");
        reveal_strlit("thinDiagCross");
        reveal_strlit("smGrid");
        reveal_strlit("lgGrid");
        reveal_strlit("dotGrid");
        reveal_strlit("clear");
        match self {
            StripePatternValues::Horizontal => {
                assert("horzStripe"@.len() == 10);
            },
            StripePatternValues::Vertical => {
                assert("vertStripe"@.len() == 10);
                assert("vertStripe"@[0] != "horzStripe"@[0]);
            },
            StripePatternValues::Diagonal => {
                assert("diagStripe"@.len() == 10);
                assert("diagStripe"@[0] != "horzStripe"@[0]);
                assert("diagStripe"@[0] != "vertStripe"@[0]);
            },
            StripePatternValues::ReverseDiagonal => {
                assert("reverseDiagStripe"@.len() == 17);
            },
            StripePatternValues::HorizontalCross => {
                assert("horzCross"@.len() == 9);
            },
            StripePatternValues::DiagonalCross => {
                assert("diagCross"@.len() == 9);
                assert("diagCross"@[0] != "horzCross"@[0]);
            },
            StripePatternValues::ThinHorzontal => {
                assert("thinHorzStripe"@.len() == 14);
            },
            StripePatternValues::ThinVertical => {
                assert("thinVertStripe"@.len() == 14);
                assert("thinVertStripe"@[4] != "thinHorzStripe"@[4]);
            },
            StripePatternValues::ThinDiagonal => {
                assert("thinDiagStripe"@.len() == 14);
                assert("thinDiagStripe"@[4] != "thinHorzStripe"@[4]);
                assert("thinDiagStripe"@[4] != "thinVertStripe"@[4]);
            },
            StripePatternValues::ThinReverseDiagonal => {
                assert("thinReverseDiagStripe"@.len() == 21);
            },
            StripePatternValues::ThinHorizontalCross => {
                assert("thinHorzCross"@.len() == 13);
            },
            StripePatternValues::ThinDiagCross => {
                assert("thinDiagCross"@.len() == 13);
                assert("thinDiagCross"@[4] != "thinHorzCross"@[4]);
            },
            StripePatternValues::SmallGrid => {
                assert("smGrid"@.len() == 6);
            },
            StripePatternValues::LargeGrid => {
                assert("lgGrid"@.len() == 6);
                assert("lgGrid"@[0] != "smGrid"@[0]);
            },
            StripePatternValues::DottedGrid => {
                assert("dotGrid"@.len() == 7);
            },
            StripePatternValues::Clear => {
                assert("clear"@.len() == 5);
            },
        }
    }
}

} // verus!
