//! The formatting of a run: underline, vertical alignment, fonts and the record
//! that holds them.

use vstd::prelude::*;
use crate::color::{HLColor, HexColor};
use crate::error::RudocxStyleError;
use crate::text::{owned, str_eq};

verus! {

/// An underline; `None` is no underline.
#[derive(Debug, Clone, Copy, PartialEq, Eq, Structural)]
pub struct Underline {
    pub value: Option<UnderlineStyle>,
}

impl Default for Underline {
    fn default() -> (r: Underline)
        ensures
            r.value is None,
    {
        Underline { value: None }
    }
}

/// The text that `Underline::value` gives for no underline.
pub open spec fn no_underline() -> Seq<char> {
    "None"@
}

impl Underline {
    pub fn new(style: UnderlineStyle) -> (r: Underline)
        ensures
            r.value == Some(style),
    {
        Underline { value: Some(style) }
    }

    /// The markup name of the style, or `None` for no underline.
    pub fn value(&self) -> (r: String)
        ensures
            r@ == (match self.value {
                Some(v) => v.spec_wire(),
                None => no_underline(),
            }),
    {
        match self.value {
            Some(v) => owned(v.wire()),
            None => owned("None"),
        }
    }

    /// Sets the style; this cannot fail.
    pub fn change_value(&mut self, value: Option<UnderlineStyle>) -> (r: Result<
        (),
        RudocxStyleError,
    >)
        ensures
            r is Ok,
            final(self).value == value,
    {
        self.value = value;
        Ok(())
    }
}

/// The styles of an underline.
#[derive(Debug, Clone, Copy, PartialEq, Eq, Structural)]
pub enum UnderlineStyle {
    Single,
    Words,
    Double,
    Thick,
    Dotted,
    DottedHeavy,
    Dash,
    DashedHeavy,
    DashLong,
    DashLongHeavy,
    DotDash,
    DashDotHeavy,
    DotDotDash,
    DashDotDotHeavy,
    Wave,
    WavyHeavy,
    WavyDouble,
}

impl UnderlineStyle {
    /// The name of the value in the markup.
    pub open spec fn spec_wire(self) -> Seq<char> {
        match self {
            UnderlineStyle::Single => "single"@,
            UnderlineStyle::Words => "words"@,
            UnderlineStyle::Double => "double"@,
            UnderlineStyle::Thick => "thick"@,
            UnderlineStyle::Dotted => "dotted"@,
            UnderlineStyle::DottedHeavy => "dottedHeavy"@,
            UnderlineStyle::Dash => "dash"@,
            UnderlineStyle::DashedHeavy => "dashedHeavy"@,
            UnderlineStyle::DashLong => "dashLong"@,
            UnderlineStyle::DashLongHeavy => "dashLongHeavy"@,
            UnderlineStyle::DotDash => "dotDash"@,
            UnderlineStyle::DashDotHeavy => "dashDotHeavy"@,
            UnderlineStyle::DotDotDash => "dotDotDash"@,
            UnderlineStyle::DashDotDotHeavy => "dashDotDotHeavy"@,
            UnderlineStyle::Wave => "wave"@,
            UnderlineStyle::WavyHeavy => "wavyHeavy"@,
            UnderlineStyle::WavyDouble => "wavyDouble"@,
        }
    }

    /// The value that a markup name denotes; an unknown name gives `Single`.
    pub open spec fn spec_from_wire(s: Seq<char>) -> UnderlineStyle {
        if s == "single"@ {
            UnderlineStyle::Single
        } else if s == "words"@ {
            UnderlineStyle::Words
        } else if s == "double"@ {
            UnderlineStyle::Double
        } else if s == "thick"@ {
            UnderlineStyle::Thick
        } else if s == "dotted"@ {
            UnderlineStyle::Dotted
        } else if s == "dottedHeavy"@ {
            UnderlineStyle::DottedHeavy
        } else if s == "dash"@ {
            UnderlineStyle::Dash
        } else if s == "dashedHeavy"@ {
            UnderlineStyle::DashedHeavy
        } else if s == "dashLong"@ {
            UnderlineStyle::DashLong
        } else if s == "dashLongHeavy"@ {
            UnderlineStyle::DashLongHeavy
        } else if s == "dotDash"@ {
            UnderlineStyle::DotDash
        } else if s == "dashDotHeavy"@ {
            UnderlineStyle::DashDotHeavy
        } else if s == "dotDotDash"@ {
            UnderlineStyle::DotDotDash
        } else if s == "dashDotDotHeavy"@ {
            UnderlineStyle::DashDotDotHeavy
        } else if s == "wave"@ {
            UnderlineStyle::Wave
        } else if s == "wavyHeavy"@ {
            UnderlineStyle::WavyHeavy
        } else if s == "wavyDouble"@ {
            UnderlineStyle::WavyDouble
        } else {
            UnderlineStyle::Single
        }
    }

    /// The name of the value in the markup.
    pub fn wire(&self) -> (r: &'static str)
        ensures
            r@ == self.spec_wire(),
    {
        match self {
            UnderlineStyle::Single => "single",
            UnderlineStyle::Words => "words",
            UnderlineStyle::Double => "double",
            UnderlineStyle::Thick => "thick",
            UnderlineStyle::Dotted => "dotted",
            UnderlineStyle::DottedHeavy => "dottedHeavy",
            UnderlineStyle::Dash => "dash",
            UnderlineStyle::DashedHeavy => "dashedHeavy",
            UnderlineStyle::DashLong => "dashLong",
            UnderlineStyle::DashLongHeavy => "dashLongHeavy",
            UnderlineStyle::DotDash => "dotDash",
            UnderlineStyle::DashDotHeavy => "dashDotHeavy",
            UnderlineStyle::DotDotDash => "dotDotDash",
            UnderlineStyle::DashDotDotHeavy => "dashDotDotHeavy",
            UnderlineStyle::Wave => "wave",
            UnderlineStyle::WavyHeavy => "wavyHeavy",
            UnderlineStyle::WavyDouble => "wavyDouble",
        }
    }

    /// The value that a markup name denotes; an unknown name gives `Single`.
    pub fn from_wire(s: &str) -> (r: UnderlineStyle)
        ensures
            r == UnderlineStyle::spec_from_wire(s@),
    {
        if str_eq(s, "single") {
            UnderlineStyle::Single
        } else if str_eq(s, "words") {
            UnderlineStyle::Words
        } else if str_eq(s, "double") {
            UnderlineStyle::Double
        } else if str_eq(s, "thick") {
            UnderlineStyle::Thick
        } else if str_eq(s, "dotted") {
            UnderlineStyle::Dotted
        } else if str_eq(s, "dottedHeavy") {
            UnderlineStyle::DottedHeavy
        } else if str_eq(s, "dash") {
            UnderlineStyle::Dash
        } else if str_eq(s, "dashedHeavy") {
            UnderlineStyle::DashedHeavy
        } else if str_eq(s, "dashLong") {
            UnderlineStyle::DashLong
        } else if str_eq(s, "dashLongHeavy") {
            UnderlineStyle::DashLongHeavy
        } else if str_eq(s, "dotDash") {
            UnderlineStyle::DotDash
        } else if str_eq(s, "dashDotHeavy") {
            UnderlineStyle::DashDotHeavy
        } else if str_eq(s, "dotDotDash") {
            UnderlineStyle::DotDotDash
        } else if str_eq(s, "dashDotDotHeavy") {
            UnderlineStyle::DashDotDotHeavy
        } else if str_eq(s, "wave") {
            UnderlineStyle::Wave
        } else if str_eq(s, "wavyHeavy") {
            UnderlineStyle::WavyHeavy
        } else if str_eq(s, "wavyDouble") {
            UnderlineStyle::WavyDouble
        } else {
            UnderlineStyle::Single
        }
    }

    /// Reading back the name of a value gives the value.
    pub proof fn lemma_wire_round_trip(self)
        ensures
            UnderlineStyle::spec_from_wire(self.spec_wire()) == self,
    {
        broadcast use vstd::string::group_string_axioms;

        reveal_strlit("single");
        reveal_strlit("words");
        reveal_strlit("double");
        reveal_strlit("thick");
        reveal_strlit("dotted");
        reveal_strlit("dottedHeavy");
        reveal_strlit("dash");
        reveal_strlit("dashedHeavy");
        reveal_strlit("dashLong");
        reveal_strlit("dashLongHeavy");
        reveal_strlit("dotDash");
        reveal_strlit("dashDotHeavy");
        reveal_strlit("dotDotDash");
        reveal_strlit("dashDotDotHeavy");
        reveal_strlit("wave");
        reveal_strlit("wavyHeavy");
        reveal_strlit("wavyDouble");
        match self {
            UnderlineStyle::Single => {
                assert("single"@.len() == 6);
            },
            UnderlineStyle::Words => {
                assert("words"@.len() == 5);
            },
            UnderlineStyle::Double => {
                assert("double"@.len() == 6);
                assert("double"@[0] != "single"@[0]);
            },
            UnderlineStyle::Thick => {
                assert("thick"@.len() == 5);
                assert("thick"@[0] != "words"@[0]);
            },
            UnderlineStyle::Dotted => {
                assert("dotted"@.len() == 6);
                assert("dotted"@[0] != "single"@[0]);
                assert("dotted"@[2] != "double"@[2]);
            },
            UnderlineStyle::DottedHeavy => {
                assert("dottedHeavy"@.len() == 11);
            },
            UnderlineStyle::Dash => {
                assert("dash"@.len() == 4);
            },
            UnderlineStyle::DashedHeavy => {
                assert("dashedHeavy"@.len() == 11);
                assert("dashedHeavy"@[1] != "dottedHeavy"@[1]);
            },
            UnderlineStyle::DashLong => {
                assert("dashLong"@.len() == 8);
            },
            UnderlineStyle::DashLongHeavy => {
                assert("dashLongHeavy"@.len() == 13);
            },
            UnderlineStyle::DotDash => {
                assert("dotDash"@.len() == 7);
            },
            UnderlineStyle::DashDotHeavy => {
                assert("dashDotHeavy"@.len() == 12);
            },
            UnderlineStyle::DotDotDash => {
                assert("dotDotDash"@.len() == 10);
            },
            UnderlineStyle::DashDotDotHeavy => {
                assert("dashDotDotHeavy"@.len() == 15);
            },
            UnderlineStyle::Wave => {
                assert("wave"@.len() == 4);
                assert("wave"@[0] != "dash"@[0]);
            },
            UnderlineStyle::WavyHeavy => {
                assert("wavyHeavy"@.len() == 9);
            },
            UnderlineStyle::WavyDouble => {
                assert("wavyDouble"@.len() == 10);
                assert("wavyDouble"@[0] != "dotDotDash"@[0]);
            },
        }
    }
}

/// The vertical position of the text of a run.
#[derive(Debug, Clone, Copy, PartialEq, Eq, Structural)]
pub struct VerticalAlign {
    pub value: AlignValues,
}

impl Default for VerticalAlign {
    fn default() -> (r: VerticalAlign)
        ensures
            r.value == AlignValues::Baseline,
    {
        VerticalAlign { value: AlignValues::Baseline }
    }
}

impl VerticalAlign {
    pub fn new(value: AlignValues) -> (r: VerticalAlign)
        ensures
            r.value == value,
    {
        VerticalAlign { value }
    }

    /// The markup name of the position.
    pub fn value(&self) -> (r: String)
        ensures
            r@ == self.value.spec_wire(),
    {
        owned(self.value.wire())
    }
}

/// The vertical positions of a run's text.
#[derive(Debug, Clone, Copy, PartialEq, Eq, Structural)]
pub enum AlignValues {
    Baseline,
    Superscript,
    Subscript,
}

impl AlignValues {
    /// The name of the value in the markup.
    pub open spec fn spec_wire(self) -> Seq<char> {
        match self {
            AlignValues::Baseline => "baseline"@,
            AlignValues::Superscript => "superscript"@,
            AlignValues::Subscript => "subscript"@,
        }
    }

    /// The value that a markup name denotes; an unknown name gives `Baseline`.
    pub open spec fn spec_from_wire(s: Seq<char>) -> AlignValues {
        if s == "baseline"@ {
            AlignValues::Baseline
        } else if s == "superscript"@ {
            AlignValues::Superscript
        } else if s == "subscript"@ {
            AlignValues::Subscript
        } else {
            AlignValues::Baseline
        }
    }

    /// The name of the value in the markup.
    pub fn wire(&self) -> (r: &'static str)
        ensures
            r@ == self.spec_wire(),
    {
        match self {
            AlignValues::Baseline => "baseline",
            AlignValues::Superscript => "superscript",
            AlignValues::Subscript => "subscript",
        }
    }

    /// The value that a markup name denotes; an unknown name gives `Baseline`.
    pub fn from_wire(s: &str) -> (r: AlignValues)
        ensures
            r == AlignValues::spec_from_wire(s@),
    {
        if str_eq(s, "baseline") {
            AlignValues::Baseline
        } else if str_eq(s, "superscript") {
            AlignValues::Superscript
        } else if str_eq(s, "subscript") {
            AlignValues::Subscript
        } else {
            AlignValues::Baseline
        }
    }

    /// Reading back the name of a value gives the value.
    pub proof fn lemma_wire_round_trip(self)
        ensures
            AlignValues::spec_from_wire(self.spec_wire()) == self,
    {
        broadcast use vstd::string::group_string_axioms;

        reveal_strlit("baseline");
        reveal_strlit("superscript");
        reveal_strlit("subscript");
        match self {
            AlignValues::Baseline => {
                assert("baseline"@.len() == 8);
            },
            AlignValues::Superscript => {
                assert("superscript"@.len() == 11);
            },
            AlignValues::Subscript => {
                assert("subscript"@.len() == 9);
            },
        }
    }
}

/// The fonts of a run, one per script, and the hint that names the one that
/// counts.
#[derive(Debug, Clone, PartialEq)]
pub struct FontSet {
    pub ascii: Option<String>,
    pub hi_ansi: Option<String>,
    pub east_asia: Option<String>,
    pub cs: Option<String>,
    pub ascii_theme: Option<String>,
    pub hi_ansi_theme: Option<String>,
    pub east_asia_theme: Option<String>,
    pub cs_theme: Option<String>,
    pub hint: FontType,
}

/// A font set seen through the characters of its names.
pub ghost struct FontSetView {
    pub ascii: Option<Seq<char>>,
    pub hi_ansi: Option<Seq<char>>,
    pub east_asia: Option<Seq<char>>,
    pub cs: Option<Seq<char>>,
    pub ascii_theme: Option<Seq<char>>,
    pub hi_ansi_theme: Option<Seq<char>>,
    pub east_asia_theme: Option<Seq<char>>,
    pub cs_theme: Option<Seq<char>>,
    pub hint: FontType,
}

pub open spec fn opt_view(s: Option<String>) -> Option<Seq<char>> {
    match s {
        Some(v) => Some(v@),
        None => None,
    }
}

impl View for FontSet {
    type V = FontSetView;

    open spec fn view(&self) -> FontSetView {
        FontSetView {
            ascii: opt_view(self.ascii),
            hi_ansi: opt_view(self.hi_ansi),
            east_asia: opt_view(self.east_asia),
            cs: opt_view(self.cs),
            ascii_theme: opt_view(self.ascii_theme),
            hi_ansi_theme: opt_view(self.hi_ansi_theme),
            east_asia_theme: opt_view(self.east_asia_theme),
            cs_theme: opt_view(self.cs_theme),
            hint: self.hint,
        }
    }
}

impl FontSetView {
    /// No font in any slot and the hint left to the consumer.
    pub open spec fn is_empty(self) -> bool {
        self.ascii is None && self.hi_ansi is None && self.east_asia is None && self.cs is None && self.ascii_theme is None && self.hi_ansi_theme is None && self.east_asia_theme is None && self.cs_theme is None && self.hint == FontType::Default
    }

    /// No slot holds a font.
    pub open spec fn slots_empty(self) -> bool {
        self.ascii is None && self.hi_ansi is None && self.east_asia is None && self.cs is None && self.ascii_theme is None && self.hi_ansi_theme is None && self.east_asia_theme is None && self.cs_theme is None
    }

    /// The slot that a font type names; `Default` names none.
    pub open spec fn slot(self, t: FontType) -> Option<Seq<char>> {
        match t {
            FontType::Ascii => self.ascii,
            FontType::HiAnsi => self.hi_ansi,
            FontType::EastAsia => self.east_asia,
            FontType::Cs => self.cs,
            FontType::AsciiTheme => self.ascii_theme,
            FontType::HiAnsiTheme => self.hi_ansi_theme,
            FontType::EastAsiaTheme => self.east_asia_theme,
            FontType::CsTheme => self.cs_theme,
            FontType::Default => None,
        }
    }

    /// This set with the slot of `t` replaced by `value`.
    pub open spec fn with_slot(self, t: FontType, value: Option<Seq<char>>) -> FontSetView {
        match t {
            FontType::Ascii => FontSetView { ascii: value, ..self },
            FontType::HiAnsi => FontSetView { hi_ansi: value, ..self },
            FontType::EastAsia => FontSetView { east_asia: value, ..self },
            FontType::Cs => FontSetView { cs: value, ..self },
            FontType::AsciiTheme => FontSetView { ascii_theme: value, ..self },
            FontType::HiAnsiTheme => FontSetView { hi_ansi_theme: value, ..self },
            FontType::EastAsiaTheme => FontSetView { east_asia_theme: value, ..self },
            FontType::CsTheme => FontSetView { cs_theme: value, ..self },
            FontType::Default => self,
        }
    }

    /// What resolving the hint gives: the font of the hinted slot.
    pub open spec fn hint_result(self) -> Result<Seq<char>, FontType> {
        if self.hint == FontType::Default {
            Err(FontType::Default)
        } else {
            match self.slot(self.hint) {
                Some(v) => Ok(v),
                None => Err(self.hint),
            }
        }
    }
}

impl Default for FontSet {
    fn default() -> (r: FontSet)
        ensures
            r@.is_empty(),
    {
        FontSet {
            ascii: None,
            hi_ansi: None,
            east_asia: None,
            cs: None,
            ascii_theme: None,
            hi_ansi_theme: None,
            east_asia_theme: None,
            cs_theme: None,
            hint: FontType::Default,
        }
    }
}

impl FontSet {
    /// A font set with `value` in the slot of `font_type`; the hint stays with the
    /// consumer. `Default` names no slot and fails.
    pub fn new(value: String, font_type: FontType) -> (r: Result<FontSet, RudocxStyleError>)
        ensures
            r is Ok <==> font_type != FontType::Default,
            r matches Ok(f) ==> f@ == FontSet::default_view().with_slot(font_type, Some(value@)),
            r matches Err(e) ==> e is PropertyNotSet,
    {
        let mut f = FontSet::default();
        match font_type {
            FontType::Ascii => f.ascii = Some(value),
            FontType::HiAnsi => f.hi_ansi = Some(value),
            FontType::EastAsia => f.east_asia = Some(value),
            FontType::Cs => f.cs = Some(value),
            FontType::AsciiTheme => f.ascii_theme = Some(value),
            FontType::HiAnsiTheme => f.hi_ansi_theme = Some(value),
            FontType::EastAsiaTheme => f.east_asia_theme = Some(value),
            FontType::CsTheme => f.cs_theme = Some(value),
            FontType::Default => {
                return Err(RudocxStyleError::PropertyNotSet(owned("FontSet. Default is fallback.")));
            },
        }
        Ok(f)
    }

    /// The empty font set.
    pub open spec fn default_view() -> FontSetView {
        FontSetView {
            ascii: None,
            hi_ansi: None,
            east_asia: None,
            cs: None,
            ascii_theme: None,
            hi_ansi_theme: None,
            east_asia_theme: None,
            cs_theme: None,
            hint: FontType::Default,
        }
    }

    fn is_empty(&self) -> (r: bool)
        ensures
            r == self@.is_empty(),
    {
        self.ascii.is_none() && self.hi_ansi.is_none() && self.east_asia.is_none() && self.cs.is_none() && self.ascii_theme.is_none() && self.hi_ansi_theme.is_none() && self.east_asia_theme.is_none() && self.cs_theme.is_none() && self.hint == FontType::Default
    }

    /// The font that the hint names; fails on an empty set, on a `Default` hint and
    /// on a hint whose slot is empty.
    pub fn value(&self) -> (r: Result<String, RudocxStyleError>)
        ensures
            self@.is_empty() ==> (r matches Err(e) && e is EmptyFontSet),
            !self@.is_empty() ==> (match self@.hint_result() {
                Ok(v) => r matches Ok(s) && s@ == v,
                Err(FontType::Default) => r matches Err(e) && e is Undefined,
                Err(t) => r matches Err(e) && e == RudocxStyleError::HintPointsNone(t),
            }),
    {
        if self.is_empty() {
            return Err(RudocxStyleError::EmptyFontSet);
        }
        self.get_hint()
    }

    /// The font that the hint names; fails on a `Default` hint and on a hint whose
    /// slot is empty.
    pub fn get_hint(&self) -> (r: Result<String, RudocxStyleError>)
        ensures
            match self@.hint_result() {
                Ok(v) => r matches Ok(s) && s@ == v,
                Err(FontType::Default) => r matches Err(e) && e is Undefined,
                Err(t) => r matches Err(e) && e == RudocxStyleError::HintPointsNone(t),
            },
    {
        let slot = match self.hint {
            FontType::Ascii => &self.ascii,
            FontType::HiAnsi => &self.hi_ansi,
            FontType::EastAsia => &self.east_asia,
            FontType::Cs => &self.cs,
            FontType::AsciiTheme => &self.ascii_theme,
            FontType::HiAnsiTheme => &self.hi_ansi_theme,
            FontType::EastAsiaTheme => &self.east_asia_theme,
            FontType::CsTheme => &self.cs_theme,
            FontType::Default => {
                return Err(
                    RudocxStyleError::Undefined(
                        owned("Default hint is fallback. Value must come from the consumer."),
                    ),
                );
            },
        };
        match slot {
            Some(s) => Ok(s.clone()),
            None => Err(RudocxStyleError::HintPointsNone(self.hint)),
        }
    }

    pub fn get_hint_value(&self) -> (r: FontType)
        ensures
            r == self.hint,
    {
        self.hint
    }

    /// Sets the hint; this cannot fail.
    pub fn set_hint_value(&mut self, value: FontType) -> (r: Result<(), RudocxStyleError>)
        ensures
            r is Ok,
            final(self)@ == (FontSetView { hint: value, ..old(self)@ }),
    {
        self.hint = value;
        Ok(())
    }

    /// Puts `value` in the slot of `font_type`. Fails on an empty set, which has
    /// no value to change; on `Default`, which names no slot; and on a change
    /// that would leave every slot empty. The set is then unchanged.
    pub fn change_value(&mut self, value: Option<String>, font_type: FontType) -> (r: Result<
        (),
        RudocxStyleError,
    >)
        ensures
            r is Ok <==> !old(self)@.is_empty() && font_type != FontType::Default
                && !old(self)@.with_slot(font_type, opt_view(value)).slots_empty(),
            r is Ok ==> final(self)@ == old(self)@.with_slot(font_type, opt_view(value)),
            r is Err ==> *final(self) == *old(self),
            old(self)@.is_empty() ==> (r matches Err(e) && e is PropertyNotSet),
            !old(self)@.is_empty() && font_type == FontType::Default ==> (r matches Err(e)
                && e is Undefined),
            !old(self)@.is_empty() && font_type != FontType::Default && old(self)@.with_slot(
                font_type,
                opt_view(value),
            ).slots_empty() ==> (r matches Err(e) && e is EmptyFontSet),
    {
        if self.is_empty() {
            return Err(RudocxStyleError::PropertyNotSet(owned("FontSet contains no values")));
        }
        match font_type {
            FontType::Ascii => {
                if value.is_none() && self.hi_ansi.is_none() && self.east_asia.is_none() && self.cs.is_none() && self.ascii_theme.is_none() && self.hi_ansi_theme.is_none() && self.east_asia_theme.is_none() && self.cs_theme.is_none() {
                    return Err(RudocxStyleError::EmptyFontSet);
                }
                self.ascii = value;
            },
            FontType::HiAnsi => {
                if value.is_none() && self.ascii.is_none() && self.east_asia.is_none() && self.cs.is_none() && self.ascii_theme.is_none() && self.hi_ansi_theme.is_none() && self.east_asia_theme.is_none() && self.cs_theme.is_none() {
                    return Err(RudocxStyleError::EmptyFontSet);
                }
                self.hi_ansi = value;
            },
            FontType::EastAsia => {
                if value.is_none() && self.ascii.is_none() && self.hi_ansi.is_none() && self.cs.is_none() && self.ascii_theme.is_none() && self.hi_ansi_theme.is_none() && self.east_asia_theme.is_none() && self.cs_theme.is_none() {
                    return Err(RudocxStyleError::EmptyFontSet);
                }
                self.east_asia = value;
            },
            FontType::Cs => {
                if value.is_none() && self.ascii.is_none() && self.hi_ansi.is_none() && self.east_asia.is_none() && self.ascii_theme.is_none() && self.hi_ansi_theme.is_none() && self.east_asia_theme.is_none() && self.cs_theme.is_none() {
                    return Err(RudocxStyleError::EmptyFontSet);
                }
                self.cs = value;
            },
            FontType::AsciiTheme => {
                if value.is_none() && self.ascii.is_none() && self.hi_ansi.is_none() && self.east_asia.is_none() && self.cs.is_none() && self.hi_ansi_theme.is_none() && self.east_asia_theme.is_none() && self.cs_theme.is_none() {
                    return Err(RudocxStyleError::EmptyFontSet);
                }
                self.ascii_theme = value;
            },
            FontType::HiAnsiTheme => {
                if value.is_none() && self.ascii.is_none() && self.hi_ansi.is_none() && self.east_asia.is_none() && self.cs.is_none() && self.ascii_theme.is_none() && self.east_asia_theme.is_none() && self.cs_theme.is_none() {
                    return Err(RudocxStyleError::EmptyFontSet);
                }
                self.hi_ansi_theme = value;
            },
            FontType::EastAsiaTheme => {
                if value.is_none() && self.ascii.is_none() && self.hi_ansi.is_none() && self.east_asia.is_none() && self.cs.is_none() && self.ascii_theme.is_none() && self.hi_ansi_theme.is_none() && self.cs_theme.is_none() {
                    return Err(RudocxStyleError::EmptyFontSet);
                }
                self.east_asia_theme = value;
            },
            FontType::CsTheme => {
                if value.is_none() && self.ascii.is_none() && self.hi_ansi.is_none() && self.east_asia.is_none() && self.cs.is_none() && self.ascii_theme.is_none() && self.hi_ansi_theme.is_none() && self.east_asia_theme.is_none() {
                    return Err(RudocxStyleError::EmptyFontSet);
                }
                self.cs_theme = value;
            },
            FontType::Default => {
                return Err(
                    RudocxStyleError::Undefined(
                        owned("Default hint is fallback. Value must come from the consumer."),
                    ),
                );
            },
        }
        Ok(())
    }
}

/// The script slots of a font set; `Default` leaves the choice to the consumer.
#[derive(Debug, Clone, Copy, PartialEq, Eq, Structural)]
pub enum FontType {
    Ascii,
    HiAnsi,
    EastAsia,
    Cs,
    AsciiTheme,
    HiAnsiTheme,
    EastAsiaTheme,
    CsTheme,
    Default,
}

impl FontType {
    /// The name of the value in the markup.
    pub open spec fn spec_wire(self) -> Seq<char> {
        match self {
            FontType::Ascii => "ascii"@,
            FontType::HiAnsi => "hAnsi"@,
            FontType::EastAsia => "eastAsia"@,
            FontType::Cs => "cs"@,
            FontType::AsciiTheme => "asciiTheme"@,
            FontType::HiAnsiTheme => "hiAnsiTheme"@,
            FontType::EastAsiaTheme => "eastAsiaTheme"@,
            FontType::CsTheme => "csTheme"@,
            FontType::Default => "default"@,
        }
    }

    /// The value that a markup name denotes; an unknown name gives `Default`.
    pub open spec fn spec_from_wire(s: Seq<char>) -> FontType {
        if s == "ascii"@ {
            FontType::Ascii
        } else if s == "hAnsi"@ {
            FontType::HiAnsi
        } else if s == "eastAsia"@ {
            FontType::EastAsia
        } else if s == "cs"@ {
            FontType::Cs
        } else if s == "asciiTheme"@ {
            FontType::AsciiTheme
        } else if s == "hiAnsiTheme"@ {
            FontType::HiAnsiTheme
        } else if s == "eastAsiaTheme"@ {
            FontType::EastAsiaTheme
        } else if s == "csTheme"@ {
            FontType::CsTheme
        } else if s == "default"@ {
            FontType::Default
        } else {
            FontType::Default
        }
    }

    /// The name of the value in the markup.
    pub fn wire(&self) -> (r: &'static str)
        ensures
            r@ == self.spec_wire(),
    {
        match self {
            FontType::Ascii => "ascii",
            FontType::HiAnsi => "hAnsi",
            FontType::EastAsia => "eastAsia",
            FontType::Cs => "cs",
            FontType::AsciiTheme => "asciiTheme",
            FontType::HiAnsiTheme => "hiAnsiTheme",
            FontType::EastAsiaTheme => "eastAsiaTheme",
            FontType::CsTheme => "csTheme",
            FontType::Default => "default",
        }
    }

    /// The value that a markup name denotes; an unknown name gives `Default`.
    pub fn from_wire(s: &str) -> (r: FontType)
        ensures
            r == FontType::spec_from_wire(s@),
    {
        if str_eq(s, "ascii") {
            FontType::Ascii
        } else if str_eq(s, "hAnsi") {
            FontType::HiAnsi
        } else if str_eq(s, "eastAsia") {
            FontType::EastAsia
        } else if str_eq(s, "cs") {
            FontType::Cs
        } else if str_eq(s, "asciiTheme") {
            FontType::AsciiTheme
        } else if str_eq(s, "hiAnsiTheme") {
            FontType::HiAnsiTheme
        } else if str_eq(s, "eastAsiaTheme") {
            FontType::EastAsiaTheme
        } else if str_eq(s, "csTheme") {
            FontType::CsTheme
        } else if str_eq(s, "default") {
            FontType::Default
        } else {
            FontType::Default
        }
    }

    /// Reading back the name of a value gives the value.
    pub proof fn lemma_wire_round_trip(self)
        ensures
            FontType::spec_from_wire(self.spec_wire()) == self,
    {
        broadcast use vstd::string::group_string_axioms;

        reveal_strlit("ascii");
        reveal_strlit("hAnsi");
        reveal_strlit("eastAsia");
        reveal_strlit("cs");
        reveal_strlit("asciiTheme");
        reveal_strlit("hiAnsiTheme");
        reveal_strlit("eastAsiaTheme");
        reveal_strlit("csTheme");
        reveal_strlit("default");
        match self {
            FontType::Ascii => {
                assert("ascii"@.len() == 5);
            },
            FontType::HiAnsi => {
                assert("hAnsi"@.len() == 5);
                assert("hAnsi"@[0] != "ascii"@[0]);
            },
            FontType::EastAsia => {
                assert("eastAsia"@.len() == 8);
            },
            FontType::Cs => {
                assert("cs"@.len() == 2);
            },
            FontType::AsciiTheme => {
                assert("asciiTheme"@.len() == 10);
            },
            FontType::HiAnsiTheme => {
                assert("hiAnsiTheme"@.len() == 11);
            },
            FontType::EastAsiaTheme => {
                assert("eastAsiaTheme"@.len() == 13);
            },
            FontType::CsTheme => {
                assert("csTheme"@.len() == 7);
            },
            FontType::Default => {
                assert("default"@.len() == 7);
                assert("default"@[0] != "csTheme"@[0]);
            },
        }
    }
}

/// The formatting of a run. Each flag is off and each optional value absent by
/// default; a record equal to that has no formatting.
#[derive(Debug, Clone, PartialEq)]
pub struct RunProperties {
    pub bold: bool,
    pub italic: bool,
    pub underline: Option<Underline>,
    pub color: Option<HexColor>,
    pub size: Option<u32>,
    pub font: Option<FontSet>,
    pub highlight: Option<HLColor>,
    pub strike: bool,
    pub dstrike: bool,
    pub valign: Option<VerticalAlign>,
    pub spacing: Option<u32>,
}

/// Run formatting seen through the characters of its strings.
pub ghost struct RunPropertiesView {
    pub bold: bool,
    pub italic: bool,
    pub underline: Option<Underline>,
    pub color: Option<Seq<char>>,
    pub size: Option<u32>,
    pub font: Option<FontSetView>,
    pub highlight: Option<HLColor>,
    pub strike: bool,
    pub dstrike: bool,
    pub valign: Option<VerticalAlign>,
    pub spacing: Option<u32>,
}

impl View for RunProperties {
    type V = RunPropertiesView;

    open spec fn view(&self) -> RunPropertiesView {
        RunPropertiesView {
            bold: self.bold,
            italic: self.italic,
            underline: self.underline,
            color: match self.color {
                Some(c) => Some(c@),
                None => None,
            },
            size: self.size,
            font: match self.font {
                Some(f) => Some(f@),
                None => None,
            },
            highlight: self.highlight,
            strike: self.strike,
            dstrike: self.dstrike,
            valign: self.valign,
            spacing: self.spacing,
        }
    }
}

impl RunPropertiesView {
    /// The record with every flag off and every value absent.
    pub open spec fn empty() -> RunPropertiesView {
        RunPropertiesView {
            bold: false,
            italic: false,
            underline: None,
            color: None,
            size: None,
            font: None,
            highlight: None,
            strike: false,
            dstrike: false,
            valign: None,
            spacing: None,
        }
    }
}

impl Default for RunProperties {
    fn default() -> (r: RunProperties)
        ensures
            r@ == RunPropertiesView::empty(),
            r == (RunProperties {
                bold: false,
                italic: false,
                underline: None,
                color: None,
                size: None,
                font: None,
                highlight: None,
                strike: false,
                dstrike: false,
                valign: None,
                spacing: None,
            }),
    {
        RunProperties {
            bold: false,
            italic: false,
            underline: None,
            color: None,
            size: None,
            font: None,
            highlight: None,
            strike: false,
            dstrike: false,
            valign: None,
            spacing: None,
        }
    }
}

impl RunProperties {
    pub fn new(
        bold: bool,
        italic: bool,
        underline: Option<Underline>,
        color: Option<HexColor>,
        size: Option<u32>,
        font: Option<FontSet>,
        highlight: Option<HLColor>,
        strike: bool,
        dstrike: bool,
        valign: Option<VerticalAlign>,
        spacing: Option<u32>,
    ) -> (r: RunProperties)
        ensures
            r == (RunProperties {
                bold,
                italic,
                underline,
                color,
                size,
                font,
                highlight,
                strike,
                dstrike,
                valign,
                spacing,
            }),
    {
        RunProperties {
            bold,
            italic,
            underline,
            color,
            size,
            font,
            highlight,
            strike,
            dstrike,
            valign,
            spacing,
        }
    }

    /// Whether any field differs from the default.
    pub fn has_formatting(&self) -> (r: bool)
        ensures
            r == (self@ != RunPropertiesView::empty()),
    {
        self.bold || self.italic || self.underline.is_some() || self.color.is_some()
            || self.size.is_some() || self.font.is_some() || self.highlight.is_some() || self.strike
            || self.dstrike || self.valign.is_some() || self.spacing.is_some()
    }
}

/// Whether `value` names one of the installed `fonts`: fails when no font was
/// found at all, and when `value` is not among them.
pub fn check_installed(value: &str, fonts: &Vec<String>) -> (r: Result<(), RudocxStyleError>)
    ensures
        fonts@.len() == 0 ==> (r matches Err(e) && e is SystemFontsNotFound),
        fonts@.len() > 0 ==> (r is Ok <==> exists|i: int| 0 <= i < fonts@.len() && #[trigger] fonts@[i]@ == value@),
        fonts@.len() > 0 && r is Err ==> (r matches Err(e) && e matches RudocxStyleError::FontNotInstalled(s) && s@ == value@),
{
    if fonts.len() == 0 {
        return Err(RudocxStyleError::SystemFontsNotFound);
    }
    let mut i: usize = 0;
    while i < fonts.len()
        invariant
            i <= fonts.len(),
            forall|j: int| 0 <= j < i ==> #[trigger] fonts@[j]@ != value@,
        decreases fonts.len() - i,
    {
        if str_eq(fonts[i].as_str(), value) {
            return Ok(());
        }
        i += 1;
    }
    Err(RudocxStyleError::FontNotInstalled(owned(value)))
}

} // verus!
