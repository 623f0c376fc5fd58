//! The formatting of a paragraph: its leaf values, the record that holds them
//! and a builder for that record.

use vstd::prelude::*;
use crate::color::{HexColor, PercentFill, StripePattern, StripePatternValues, percent_fill};
use crate::error::RudocxStyleError;
use crate::run_properties::{RunProperties, RunPropertiesView};
use crate::text::{owned, parse_unsigned, parse_unsigned_str, str_eq};
use vstd::string::StrSliceExecFns;

verus! {

/// The vertical alignment of characters on a line.
#[derive(Debug, Clone, Copy, PartialEq, Eq, Structural)]
pub struct ParagraphTextAlign {
    pub val: ParagraphTextAlignValues,
}

impl ParagraphTextAlign {
    pub fn new(val: ParagraphTextAlignValues) -> (r: ParagraphTextAlign)
        ensures
            r.val == val,
    {
        ParagraphTextAlign { val }
    }

    pub fn change_value(&mut self, val: ParagraphTextAlignValues)
        ensures
            final(self).val == val,
    {
        self.val = val;
    }

    /// The markup name of the value.
    pub fn value(&self) -> (r: String)
        ensures
            r@ == self.val.spec_wire(),
    {
        owned(self.val.wire())
    }
}

/// The vertical alignments of characters on a line.
#[derive(Debug, Clone, Copy, PartialEq, Eq, Structural)]
pub enum ParagraphTextAlignValues {
    Top,
    Center,
    Baseline,
    Bottom,
    Auto,
}

impl ParagraphTextAlignValues {
    /// The name of the value in the markup.
    pub open spec fn spec_wire(self) -> Seq<char> {
        match self {
            ParagraphTextAlignValues::Top => "top"@,
            ParagraphTextAlignValues::Center => "center"@,
            ParagraphTextAlignValues::Baseline => "baseline"@,
            ParagraphTextAlignValues::Bottom => "bottom"@,
            ParagraphTextAlignValues::Auto => "auto"@,
        }
    }

    /// The value that a markup name denotes; an unknown name gives `Auto`.
    pub open spec fn spec_from_wire(s: Seq<char>) -> ParagraphTextAlignValues {
        if s == "top"@ {
            ParagraphTextAlignValues::Top
        } else if s == "center"@ {
            ParagraphTextAlignValues::Center
        } else if s == "baseline"@ {
            ParagraphTextAlignValues::Baseline
        } else if s == "bottom"@ {
            ParagraphTextAlignValues::Bottom
        } else if s == "auto"@ {
            ParagraphTextAlignValues::Auto
        } else {
            ParagraphTextAlignValues::Auto
        }
    }

    /// The name of the value in the markup.
    pub fn wire(&self) -> (r: &'static str)
        ensures
            r@ == self.spec_wire(),
    {
        match self {
            ParagraphTextAlignValues::Top => "top",
            ParagraphTextAlignValues::Center => "center",
            ParagraphTextAlignValues::Baseline => "baseline",
            ParagraphTextAlignValues::Bottom => "bottom",
            ParagraphTextAlignValues::Auto => "auto",
        }
    }

    /// The value that a markup name denotes; an unknown name gives `Auto`.
    pub fn from_wire(s: &str) -> (r: ParagraphTextAlignValues)
        ensures
            r == ParagraphTextAlignValues::spec_from_wire(s@),
    {
        if str_eq(s, "top") {
            ParagraphTextAlignValues::Top
        } else if str_eq(s, "center") {
            ParagraphTextAlignValues::Center
        } else if str_eq(s, "baseline") {
            ParagraphTextAlignValues::Baseline
        } else if str_eq(s, "bottom") {
            ParagraphTextAlignValues::Bottom
        } else if str_eq(s, "auto") {
            ParagraphTextAlignValues::Auto
        } else {
            ParagraphTextAlignValues::Auto
        }
    }

    /// Reading back the name of a value gives the value.
    pub proof fn lemma_wire_round_trip(self)
        ensures
            ParagraphTextAlignValues::spec_from_wire(self.spec_wire()) == self,
    {
        broadcast use vstd::string::group_string_axioms;

        reveal_strlit("top");
        reveal_strlit("center");
        reveal_strlit("baseline");
        reveal_strlit("bottom");
        reveal_strlit("auto");
        match self {
            ParagraphTextAlignValues::Top => {
                assert("top"@.len() == 3);
            },
            ParagraphTextAlignValues::Center => {
                assert("center"@.len() == 6);
            },
            ParagraphTextAlignValues::Baseline => {
                assert("baseline"@.len() == 8);
            },
            ParagraphTextAlignValues::Bottom => {
                assert("bottom"@.len() == 6);
                assert("bottom"@[0] != "center"@[0]);
            },
            ParagraphTextAlignValues::Auto => {
                assert("auto"@.len() == 4);
            },
        }
    }
}
/// The direction in which the text of a paragraph flows.
#[derive(Debug, Clone, Copy, PartialEq, Eq, Structural)]
pub struct ParagraphTextDir {
    pub val: ParagraphTextDirValues,
}

impl ParagraphTextDir {
    pub fn new(val: ParagraphTextDirValues) -> (r: ParagraphTextDir)
        ensures
            r.val == val,
    {
        ParagraphTextDir { val }
    }

    pub fn change_value(&mut self, val: ParagraphTextDirValues)
        ensures
            final(self).val == val,
    {
        self.val = val;
    }

    /// The markup name of the value.
    pub fn value(&self) -> (r: String)
        ensures
            r@ == self.val.spec_wire(),
    {
        owned(self.val.wire())
    }
}

/// The directions of text flow.
#[derive(Debug, Clone, Copy, PartialEq, Eq, Structural)]
pub enum ParagraphTextDirValues {
    LrTb,
    TbRlTbLr,
    BtLr,
    TbLrTbRl,
    TbRl,
    Lr,
    LrTbBidi,
}

impl ParagraphTextDirValues {
    /// The name of the value in the markup.
    pub open spec fn spec_wire(self) -> Seq<char> {
        match self {
            ParagraphTextDirValues::LrTb => "lrTb"@,
            ParagraphTextDirValues::TbRlTbLr => "tbRlTbLr"@,
            ParagraphTextDirValues::BtLr => "btLr"@,
            ParagraphTextDirValues::TbLrTbRl => "tbLrTbRl"@,
            ParagraphTextDirValues::TbRl => "tbRl"@,
            ParagraphTextDirValues::Lr => "lr"@,
            ParagraphTextDirValues::LrTbBidi => "lrTbBidi"@,
        }
    }

    /// The value that a markup name denotes; an unknown name gives `LrTb`.
    pub open spec fn spec_from_wire(s: Seq<char>) -> ParagraphTextDirValues {
        if s == "lrTb"@ {
            ParagraphTextDirValues::LrTb
        } else if s == "tbRlTbLr"@ {
            ParagraphTextDirValues::TbRlTbLr
        } else if s == "btLr"@ {
            ParagraphTextDirValues::BtLr
        } else if s == "tbLrTbRl"@ {
            ParagraphTextDirValues::TbLrTbRl
        } else if s == "tbRl"@ {
            ParagraphTextDirValues::TbRl
        } else if s == "lr"@ {
            ParagraphTextDirValues::Lr
        } else if s == "lrTbBidi"@ {
            ParagraphTextDirValues::LrTbBidi
        } else {
            ParagraphTextDirValues::LrTb
        }
    }

    /// The name of the value in the markup.
    pub fn wire(&self) -> (r: &'static str)
        ensures
            r@ == self.spec_wire(),
    {
        match self {
            ParagraphTextDirValues::LrTb => "lrTb",
            ParagraphTextDirValues::TbRlTbLr => "tbRlTbLr",
            ParagraphTextDirValues::BtLr => "btLr",
            ParagraphTextDirValues::TbLrTbRl => "tbLrTbRl",
            ParagraphTextDirValues::TbRl => "tbRl",
            ParagraphTextDirValues::Lr => "lr",
            ParagraphTextDirValues::LrTbBidi => "lrTbBidi",
        }
    }

    /// The value that a markup name denotes; an unknown name gives `LrTb`.
    pub fn from_wire(s: &str) -> (r: ParagraphTextDirValues)
        ensures
            r == ParagraphTextDirValues::spec_from_wire(s@),
    {
        if str_eq(s, "lrTb") {
            ParagraphTextDirValues::LrTb
        } else if str_eq(s, "tbRlTbLr") {
            ParagraphTextDirValues::TbRlTbLr
        } else if str_eq(s, "btLr") {
            ParagraphTextDirValues::BtLr
        } else if str_eq(s, "tbLrTbRl") {
            ParagraphTextDirValues::TbLrTbRl
        } else if str_eq(s, "tbRl") {
            ParagraphTextDirValues::TbRl
        } else if str_eq(s, "lr") {
            ParagraphTextDirValues::Lr
        } else if str_eq(s, "lrTbBidi") {
            ParagraphTextDirValues::LrTbBidi
        } else {
            ParagraphTextDirValues::LrTb
        }
    }

    /// Reading back the name of a value gives the value.
    pub proof fn lemma_wire_round_trip(self)
        ensures
            ParagraphTextDirValues::spec_from_wire(self.spec_wire()) == self,
    {
        broadcast use vstd::string::group_string_axioms;

        reveal_strlit("lrTb");
        reveal_strlit("tbRlTbLr");
        reveal_strlit("btLr");
        reveal_strlit("tbLrTbRl");
        reveal_strlit("tbRl");
        reveal_strlit("lr");
        reveal_strlit("lrTbBidi");
        match self {
            ParagraphTextDirValues::LrTb => {
                assert("lrTb"@.len() == 4);
            },
            ParagraphTextDirValues::TbRlTbLr => {
                assert("tbRlTbLr"@.len() == 8);
            },
            ParagraphTextDirValues::BtLr => {
                assert("btLr"@.len() == 4);
                assert("btLr"@[0] != "lrTb"@[0]);
            },
            ParagraphTextDirValues::TbLrTbRl => {
                assert("tbLrTbRl"@.len() == 8);
                assert("tbLrTbRl"@[2] != "tbRlTbLr"@[2]);
            },
            ParagraphTextDirValues::TbRl => {
                assert("tbRl"@.len() == 4);
                assert("tbRl"@[0] != "lrTb"@[0]);
                assert("tbRl"@[0] != "btLr"@[0]);
            },
            ParagraphTextDirValues::Lr => {
                assert("lr"@.len() == 2);
            },
            ParagraphTextDirValues::LrTbBidi => {
                assert("lrTbBidi"@.len() == 8);
                assert("lrTbBidi"@[0] != "tbRlTbLr"@[0]);
                assert("lrTbBidi"@[0] != "tbLrTbRl"@[0]);
            },
        }
    }
}
/// The horizontal alignment of a paragraph.
#[derive(Debug, Clone, Copy, PartialEq, Eq, Structural)]
pub struct ParagraphJustification {
    pub val: ParagraphJustificationValues,
}

impl ParagraphJustification {
    pub fn new(val: ParagraphJustificationValues) -> (r: ParagraphJustification)
        ensures
            r.val == val,
    {
        ParagraphJustification { val }
    }

    pub fn change_value(&mut self, val: ParagraphJustificationValues)
        ensures
            final(self).val == val,
    {
        self.val = val;
    }

    /// The markup name of the value.
    pub fn value(&self) -> (r: String)
        ensures
            r@ == self.val.spec_wire(),
    {
        owned(self.val.wire())
    }
}

/// The horizontal alignments of a paragraph.
#[derive(Debug, Clone, Copy, PartialEq, Eq, Structural)]
pub enum ParagraphJustificationValues {
    Left,
    Center,
    Right,
    Both,
    MediumKashida,
    DistributedKashida,
    NumTab,
    HighKashida,
    LowKashida,
    ThaiDistributed,
}

impl ParagraphJustificationValues {
    /// The name of the value in the markup.
    pub open spec fn spec_wire(self) -> Seq<char> {
        match self {
            ParagraphJustificationValues::Left => "left"@,
            ParagraphJustificationValues::Center => "center"@,
            ParagraphJustificationValues::Right => "right"@,
            ParagraphJustificationValues::Both => "both"@,
            ParagraphJustificationValues::MediumKashida => "mediumKashida"@,
            ParagraphJustificationValues::DistributedKashida => "distributedKashida"@,
            ParagraphJustificationValues::NumTab => "numTab"@,
            ParagraphJustificationValues::HighKashida => "highKashida"@,
            ParagraphJustificationValues::LowKashida => "lowKashida"@,
            ParagraphJustificationValues::ThaiDistributed => "thaiDistributed"@,
        }
    }

    /// The value that a markup name denotes; an unknown name gives `Left`.
    pub open spec fn spec_from_wire(s: Seq<char>) -> ParagraphJustificationValues {
        if s == "left"@ {
            ParagraphJustificationValues::Left
        } else if s == "center"@ {
            ParagraphJustificationValues::Center
        } else if s == "right"@ {
            ParagraphJustificationValues::Right
        } else if s == "both"@ {
            ParagraphJustificationValues::Both
        } else if s == "mediumKashida"@ {
            ParagraphJustificationValues::MediumKashida
        } else if s == "distributedKashida"@ {
            ParagraphJustificationValues::DistributedKashida
        } else if s == "numTab"@ {
            ParagraphJustificationValues::NumTab
        } else if s == "highKashida"@ {
            ParagraphJustificationValues::HighKashida
        } else if s == "lowKashida"@ {
            ParagraphJustificationValues::LowKashida
        } else if s == "thaiDistributed"@ {
            ParagraphJustificationValues::ThaiDistributed
        } else {
            ParagraphJustificationValues::Left
        }
    }

    /// The name of the value in the markup.
    pub fn wire(&self) -> (r: &'static str)
        ensures
            r@ == self.spec_wire(),
    {
        match self {
            ParagraphJustificationValues::Left => "left",
            ParagraphJustificationValues::Center => "center",
            ParagraphJustificationValues::Right => "right",
            ParagraphJustificationValues::Both => "both",
            ParagraphJustificationValues::MediumKashida => "mediumKashida",
            ParagraphJustificationValues::DistributedKashida => "distributedKashida",
            ParagraphJustificationValues::NumTab => "numTab",
            ParagraphJustificationValues::HighKashida => "highKashida",
            ParagraphJustificationValues::LowKashida => "lowKashida",
            ParagraphJustificationValues::ThaiDistributed => "thaiDistributed",
        }
    }

    /// The value that a markup name denotes; an unknown name gives `Left`.
    pub fn from_wire(s: &str) -> (r: ParagraphJustificationValues)
        ensures
            r == ParagraphJustificationValues::spec_from_wire(s@),
    {
        if str_eq(s, "left") {
            ParagraphJustificationValues::Left
        } else if str_eq(s, "center") {
            ParagraphJustificationValues::Center
        } else if str_eq(s, "right") {
            ParagraphJustificationValues::Right
        } else if str_eq(s, "both") {
            ParagraphJustificationValues::Both
        } else if str_eq(s, "mediumKashida") {
            ParagraphJustificationValues::MediumKashida
        } else if str_eq(s, "distributedKashida") {
            ParagraphJustificationValues::DistributedKashida
        } else if str_eq(s, "numTab") {
            ParagraphJustificationValues::NumTab
        } else if str_eq(s, "highKashida") {
            ParagraphJustificationValues::HighKashida
        } else if str_eq(s, "lowKashida") {
            ParagraphJustificationValues::LowKashida
        } else if str_eq(s, "thaiDistributed") {
            ParagraphJustificationValues::ThaiDistributed
        } else {
            ParagraphJustificationValues::Left
        }
    }

    /// Reading back the name of a value gives the value.
    pub proof fn lemma_wire_round_trip(self)
        ensures
            ParagraphJustificationValues::spec_from_wire(self.spec_wire()) == self,
    {
        broadcast use vstd::string::group_string_axioms;

        reveal_strlit("left");
        reveal_strlit("center");
        reveal_strlit("right");
        reveal_strlit("both");
        reveal_strlit("mediumKashida");
        reveal_strlit("distributedKashida");
        reveal_strlit("numTab");
        reveal_strlit("highKashida");
        reveal_strlit("lowKashida");
        reveal_strlit("thaiDistributed");
        match self {
            ParagraphJustificationValues::Left => {
                assert("left"@.len() == 4);
            },
            ParagraphJustificationValues::Center => {
                assert("center"@.len() == 6);
            },
            ParagraphJustificationValues::Right => {
                assert("right"@.len() == 5);
            },
            ParagraphJustificationValues::Both => {
                assert("both"@.len() == 4);
                assert("both"@[0] != "left"@[0]);
            },
            ParagraphJustificationValues::MediumKashida => {
                assert("mediumKashida"@.len() == 13);
            },
            ParagraphJustificationValues::DistributedKashida => {
                assert("distributedKashida"@.len() == 18);
            },
            ParagraphJustificationValues::NumTab => {
                assert("numTab"@.len() == 6);
                assert("numTab"@[0] != "center"@[0]);
            },
            ParagraphJustificationValues::HighKashida => {
                assert("highKashida"@.len() == 11);
            },
            ParagraphJustificationValues::LowKashida => {
                assert("lowKashida"@.len() == 10);
            },
            ParagraphJustificationValues::ThaiDistributed => {
                assert("thaiDistributed"@.len() == 15);
            },
        }
    }
}
/// How tightly text boxes wrap the lines of a paragraph.
#[derive(Debug, Clone, Copy, PartialEq, Eq, Structural)]
pub struct ParagraphTBoxTightWrap {
    pub val: ParagraphTBoxTightWrapValues,
}

impl ParagraphTBoxTightWrap {
    pub fn new(val: ParagraphTBoxTightWrapValues) -> (r: ParagraphTBoxTightWrap)
        ensures
            r.val == val,
    {
        ParagraphTBoxTightWrap { val }
    }

    pub fn change_value(&mut self, val: ParagraphTBoxTightWrapValues)
        ensures
            final(self).val == val,
    {
        self.val = val;
    }

    /// The markup name of the value.
    pub fn value(&self) -> (r: String)
        ensures
            r@ == self.val.spec_wire(),
    {
        owned(self.val.wire())
    }
}

/// The tight-wrap settings of text boxes.
#[derive(Debug, Clone, Copy, PartialEq, Eq, Structural)]
pub enum ParagraphTBoxTightWrapValues {
    AllLines,
    FirstAndLastLine,
    FirstLineOnly,
    LastLineOnly,
    NoWrap,
}

impl ParagraphTBoxTightWrapValues {
    /// The name of the value in the markup.
    pub open spec fn spec_wire(self) -> Seq<char> {
        match self {
            ParagraphTBoxTightWrapValues::AllLines => "allLines"@,
            ParagraphTBoxTightWrapValues::FirstAndLastLine => "firstAndLastLine"@,
            ParagraphTBoxTightWrapValues::FirstLineOnly => "firstLineOnly"@,
            ParagraphTBoxTightWrapValues::LastLineOnly => "lastLineOnly"@,
            ParagraphTBoxTightWrapValues::NoWrap => "none"@,
        }
    }

    /// The value that a markup name denotes; an unknown name gives `NoWrap`.
    pub open spec fn spec_from_wire(s: Seq<char>) -> ParagraphTBoxTightWrapValues {
        if s == "allLines"@ {
            ParagraphTBoxTightWrapValues::AllLines
        } else if s == "firstAndLastLine"@ {
            ParagraphTBoxTightWrapValues::FirstAndLastLine
        } else if s == "firstLineOnly"@ {
            ParagraphTBoxTightWrapValues::FirstLineOnly
        } else if s == "lastLineOnly"@ {
            ParagraphTBoxTightWrapValues::LastLineOnly
        } else if s == "none"@ {
            ParagraphTBoxTightWrapValues::NoWrap
        } else {
            ParagraphTBoxTightWrapValues::NoWrap
        }
    }

    /// The name of the value in the markup.
    pub fn wire(&self) -> (r: &'static str)
        ensures
            r@ == self.spec_wire(),
    {
        match self {
            ParagraphTBoxTightWrapValues::AllLines => "allLines",
            ParagraphTBoxTightWrapValues::FirstAndLastLine => "firstAndLastLine",
            ParagraphTBoxTightWrapValues::FirstLineOnly => "firstLineOnly",
            ParagraphTBoxTightWrapValues::LastLineOnly => "lastLineOnly",
            ParagraphTBoxTightWrapValues::NoWrap => "none",
        }
    }

    /// The value that a markup name denotes; an unknown name gives `NoWrap`.
    pub fn from_wire(s: &str) -> (r: ParagraphTBoxTightWrapValues)
        ensures
            r == ParagraphTBoxTightWrapValues::spec_from_wire(s@),
    {
        if str_eq(s, "allLines") {
            ParagraphTBoxTightWrapValues::AllLines
        } else if str_eq(s, "firstAndLastLine") {
            ParagraphTBoxTightWrapValues::FirstAndLastLine
        } else if str_eq(s, "firstLineOnly") {
            ParagraphTBoxTightWrapValues::FirstLineOnly
        } else if str_eq(s, "lastLineOnly") {
            ParagraphTBoxTightWrapValues::LastLineOnly
        } else if str_eq(s, "none") {
            ParagraphTBoxTightWrapValues::NoWrap
        } else {
            ParagraphTBoxTightWrapValues::NoWrap
        }
    }

    /// Reading back the name of a value gives the value.
    pub proof fn lemma_wire_round_trip(self)
        ensures
            ParagraphTBoxTightWrapValues::spec_from_wire(self.spec_wire()) == self,
    {
        broadcast use vstd::string::group_string_axioms;

        reveal_strlit("allLines");
        reveal_strlit("firstAndLastLine");
        reveal_strlit("firstLineOnly");
        reveal_strlit("lastLineOnly");
        reveal_strlit("none");
        match self {
            ParagraphTBoxTightWrapValues::AllLines => {
                assert("allLines"@.len() == 8);
            },
            ParagraphTBoxTightWrapValues::FirstAndLastLine => {
                assert("firstAndLastLine"@.len() == 16);
            },
            ParagraphTBoxTightWrapValues::FirstLineOnly => {
                assert("firstLineOnly"@.len() == 13);
            },
            ParagraphTBoxTightWrapValues::LastLineOnly => {
                assert("lastLineOnly"@.len() == 12);
            },
            ParagraphTBoxTightWrapValues::NoWrap => {
                assert("none"@.len() == 4);
            },
        }
    }
}
/// The line styles of a paragraph border; `None` is an absent side.
#[derive(Debug, Clone, Copy, PartialEq, Eq, Structural)]
pub enum ParagraphBorderStyle {
    Single,
    Double,
    Dashed,
    Nil,
}

impl ParagraphBorderStyle {
    /// The name of the value in the markup.
    pub open spec fn spec_wire(self) -> Seq<char> {
        match self {
            ParagraphBorderStyle::Single => "single"@,
            ParagraphBorderStyle::Double => "double"@,
            ParagraphBorderStyle::Dashed => "dashed"@,
            ParagraphBorderStyle::Nil => "nil"@,
        }
    }

    /// The value that a markup name denotes; an unknown name gives `Nil`.
    pub open spec fn spec_from_wire(s: Seq<char>) -> ParagraphBorderStyle {
        if s == "single"@ {
            ParagraphBorderStyle::Single
        } else if s == "double"@ {
            ParagraphBorderStyle::Double
        } else if s == "dashed"@ {
            ParagraphBorderStyle::Dashed
        } else if s == "nil"@ {
            ParagraphBorderStyle::Nil
        } else {
            ParagraphBorderStyle::Nil
        }
    }

    /// The name of the value in the markup.
    pub fn wire(&self) -> (r: &'static str)
        ensures
            r@ == self.spec_wire(),
    {
        match self {
            ParagraphBorderStyle::Single => "single",
            ParagraphBorderStyle::Double => "double",
            ParagraphBorderStyle::Dashed => "dashed",
            ParagraphBorderStyle::Nil => "nil",
        }
    }

    /// The value that a markup name denotes; an unknown name gives `Nil`.
    pub fn from_wire(s: &str) -> (r: ParagraphBorderStyle)
        ensures
            r == ParagraphBorderStyle::spec_from_wire(s@),
    {
        if str_eq(s, "single") {
            ParagraphBorderStyle::Single
        } else if str_eq(s, "double") {
            ParagraphBorderStyle::Double
        } else if str_eq(s, "dashed") {
            ParagraphBorderStyle::Dashed
        } else if str_eq(s, "nil") {
            ParagraphBorderStyle::Nil
        } else {
            ParagraphBorderStyle::Nil
        }
    }

    /// Reading back the name of a value gives the value.
    pub proof fn lemma_wire_round_trip(self)
        ensures
            ParagraphBorderStyle::spec_from_wire(self.spec_wire()) == self,
    {
        broadcast use vstd::string::group_string_axioms;

        reveal_strlit("single");
        reveal_strlit("double");
        reveal_strlit("dashed");
        reveal_strlit("nil");
        match self {
            ParagraphBorderStyle::Single => {
                assert("single"@.len() == 6);
            },
            ParagraphBorderStyle::Double => {
                assert("double"@.len() == 6);
                assert("double"@[0] != "single"@[0]);
            },
            ParagraphBorderStyle::Dashed => {
                assert("dashed"@.len() == 6);
                assert("dashed"@[0] != "single"@[0]);
                assert("dashed"@[1] != "double"@[1]);
            },
            ParagraphBorderStyle::Nil => {
                assert("nil"@.len() == 3);
            },
        }
    }
}

/// One side of a paragraph border.
#[derive(Debug, Clone, PartialEq)]
pub struct ParagraphBorderSide {
    pub val: ParagraphBorderStyle,
    pub sz: Option<u8>,
    pub space: Option<u8>,
    pub color: Option<HexColor>,
}

pub ghost struct ParagraphBorderSideView {
    pub val: ParagraphBorderStyle,
    pub sz: Option<u8>,
    pub space: Option<u8>,
    pub color: Option<Seq<char>>,
}

pub open spec fn color_view(c: Option<HexColor>) -> Option<Seq<char>> {
    match c {
        Some(v) => Some(v@),
        None => None,
    }
}

impl View for ParagraphBorderSide {
    type V = ParagraphBorderSideView;

    open spec fn view(&self) -> ParagraphBorderSideView {
        ParagraphBorderSideView {
            val: self.val,
            sz: self.sz,
            space: self.space,
            color: color_view(self.color),
        }
    }
}

impl Default for ParagraphBorderSide {
    /// A single line of size four in the fallback color.
    fn default() -> (r: ParagraphBorderSide)
        ensures
            r@ == (ParagraphBorderSideView {
                val: ParagraphBorderStyle::Single,
                sz: Some(4),
                space: None,
                color: Some("FFFFFF"@),
            }),
    {
        ParagraphBorderSide {
            val: ParagraphBorderStyle::Single,
            sz: Some(4),
            space: None,
            color: Some(HexColor::new("FFFFFF")),
        }
    }
}

impl ParagraphBorderSide {
    pub fn new(
        val: ParagraphBorderStyle,
        sz: Option<u8>,
        space: Option<u8>,
        color: Option<HexColor>,
    ) -> (r: ParagraphBorderSide)
        ensures
            r == (ParagraphBorderSide { val, sz, space, color }),
    {
        ParagraphBorderSide { val, sz, space, color }
    }
}

/// The sides of a paragraph border; an absent side is not drawn.
#[derive(Debug, Clone, PartialEq)]
pub struct ParagraphBorder {
    pub top: Option<ParagraphBorderSide>,
    pub bottom: Option<ParagraphBorderSide>,
    pub left: Option<ParagraphBorderSide>,
    pub right: Option<ParagraphBorderSide>,
    pub between: Option<ParagraphBorderSide>,
}

pub ghost struct ParagraphBorderView {
    pub top: Option<ParagraphBorderSideView>,
    pub bottom: Option<ParagraphBorderSideView>,
    pub left: Option<ParagraphBorderSideView>,
    pub right: Option<ParagraphBorderSideView>,
    pub between: Option<ParagraphBorderSideView>,
}

pub open spec fn side_view(s: Option<ParagraphBorderSide>) -> Option<ParagraphBorderSideView> {
    match s {
        Some(v) => Some(v@),
        None => None,
    }
}

impl View for ParagraphBorder {
    type V = ParagraphBorderView;

    open spec fn view(&self) -> ParagraphBorderView {
        ParagraphBorderView {
            top: side_view(self.top),
            bottom: side_view(self.bottom),
            left: side_view(self.left),
            right: side_view(self.right),
            between: side_view(self.between),
        }
    }
}

impl Default for ParagraphBorder {
    /// The default side on top, bottom, left and right; none between.
    fn default() -> (r: ParagraphBorder)
        ensures
            r.top is Some && r.bottom is Some && r.left is Some && r.right is Some,
            r.between is None,
            r.top matches Some(s) && s@ == (ParagraphBorderSideView {
                val: ParagraphBorderStyle::Single,
                sz: Some(4),
                space: None,
                color: Some("FFFFFF"@),
            }),
    {
        ParagraphBorder {
            top: Some(ParagraphBorderSide::default()),
            bottom: Some(ParagraphBorderSide::default()),
            left: Some(ParagraphBorderSide::default()),
            right: Some(ParagraphBorderSide::default()),
            between: None,
        }
    }
}

impl ParagraphBorder {
    pub fn new(
        top: Option<ParagraphBorderSide>,
        bottom: Option<ParagraphBorderSide>,
        left: Option<ParagraphBorderSide>,
        right: Option<ParagraphBorderSide>,
        between: Option<ParagraphBorderSide>,
    ) -> (r: ParagraphBorder)
        ensures
            r == (ParagraphBorder { top, bottom, left, right, between }),
    {
        ParagraphBorder { top, bottom, left, right, between }
    }
}

/// The indentation of a paragraph, in twentieths of a point and in hundredths of
/// a character. A hanging indent and a first-line indent exclude each other.
#[derive(Debug, Clone, Copy, PartialEq, Eq, Structural)]
pub struct ParagraphIndentation {
    pub left: Option<i32>,
    pub left_chars: Option<i32>,
    pub right: Option<i32>,
    pub right_chars: Option<i32>,
    pub first_line: Option<i32>,
    pub first_line_chars: Option<i32>,
    pub hanging: Option<i32>,
    pub hanging_chars: Option<i32>,
}

impl Default for ParagraphIndentation {
    fn default() -> (r: ParagraphIndentation)
        ensures
            r.left is None,
            r.left_chars is None,
            r.right is None,
            r.right_chars is None,
            r.first_line is None,
            r.first_line_chars is None,
            r.hanging is None,
            r.hanging_chars is None,
    {
        ParagraphIndentation {
            left: None,
            left_chars: None,
            right: None,
            right_chars: None,
            first_line: None,
            first_line_chars: None,
            hanging: None,
            hanging_chars: None,
        }
    }
}

impl ParagraphIndentation {
    /// At most one of the hanging and the first-line indents is set.
    pub open spec fn exclusive(self) -> bool {
        !(self.hanging is Some && self.first_line is Some)
    }

    /// Fails when both `hanging` and `first_line` are set.
    pub fn new(
        left: Option<i32>,
        left_chars: Option<i32>,
        right: Option<i32>,
        right_chars: Option<i32>,
        first_line: Option<i32>,
        first_line_chars: Option<i32>,
        hanging: Option<i32>,
        hanging_chars: Option<i32>,
    ) -> (r: Result<ParagraphIndentation, RudocxStyleError>)
        ensures
            r is Err <==> (hanging is Some && first_line is Some),
            r matches Err(e) ==> (e matches RudocxStyleError::MutuallyExclusive(a, b) && a@
                == "hanging"@ && b@ == "firstLine"@),
            r matches Ok(i) ==> i == (ParagraphIndentation {
                left,
                left_chars,
                right,
                right_chars,
                first_line,
                first_line_chars,
                hanging,
                hanging_chars,
            }),
    {
        if hanging.is_some() && first_line.is_some() {
            return Err(mutually_exclusive());
        }
        Ok(ParagraphIndentation {
            left,
            left_chars,
            right,
            right_chars,
            first_line,
            first_line_chars,
            hanging,
            hanging_chars,
        })
    }

    pub fn change_left(&mut self, left: Option<i32>)
        ensures
            *final(self) == (ParagraphIndentation { left, ..*old(self) }),
    {
        self.left = left;
    }

    pub fn change_left_chars(&mut self, left_chars: Option<i32>)
        ensures
            *final(self) == (ParagraphIndentation { left_chars, ..*old(self) }),
    {
        self.left_chars = left_chars;
    }

    pub fn change_right(&mut self, right: Option<i32>)
        ensures
            *final(self) == (ParagraphIndentation { right, ..*old(self) }),
    {
        self.right = right;
    }

    pub fn change_right_chars(&mut self, right_chars: Option<i32>)
        ensures
            *final(self) == (ParagraphIndentation { right_chars, ..*old(self) }),
    {
        self.right_chars = right_chars;
    }

    /// Sets the first line indent; fails and changes nothing when that
    /// would set it beside a hanging indent.
    pub fn change_first_line(&mut self, first_line: Option<i32>) -> (r: Result<(), RudocxStyleError>)
        ensures
            r is Err <==> (first_line is Some && old(self).hanging is Some),
            r is Ok ==> *final(self) == (ParagraphIndentation { first_line, ..*old(self) }),
            r is Err ==> *final(self) == *old(self),
            r matches Err(e) ==> (e matches RudocxStyleError::MutuallyExclusive(a, b) && a@
                == "hanging"@ && b@ == "firstLine"@),
    {
        if first_line.is_some() && self.hanging.is_some() {
            return Err(mutually_exclusive());
        }
        self.first_line = first_line;
        Ok(())
    }

    pub fn change_first_line_chars(&mut self, first_line_chars: Option<i32>)
        ensures
            *final(self) == (ParagraphIndentation { first_line_chars, ..*old(self) }),
    {
        self.first_line_chars = first_line_chars;
    }

    /// Sets the hanging indent; fails and changes nothing when that
    /// would set it beside a first line indent.
    pub fn change_hanging(&mut self, hanging: Option<i32>) -> (r: Result<(), RudocxStyleError>)
        ensures
            r is Err <==> (hanging is Some && old(self).first_line is Some),
            r is Ok ==> *final(self) == (ParagraphIndentation { hanging, ..*old(self) }),
            r is Err ==> *final(self) == *old(self),
            r matches Err(e) ==> (e matches RudocxStyleError::MutuallyExclusive(a, b) && a@
                == "hanging"@ && b@ == "firstLine"@),
    {
        if hanging.is_some() && self.first_line.is_some() {
            return Err(mutually_exclusive());
        }
        self.hanging = hanging;
        Ok(())
    }

    pub fn change_hanging_chars(&mut self, hanging_chars: Option<i32>)
        ensures
            *final(self) == (ParagraphIndentation { hanging_chars, ..*old(self) }),
    {
        self.hanging_chars = hanging_chars;
    }
}

fn mutually_exclusive() -> (r: RudocxStyleError)
    ensures
        r matches RudocxStyleError::MutuallyExclusive(a, b) && a@ == "hanging"@ && b@
            == "firstLine"@,
{
    RudocxStyleError::MutuallyExclusive(owned("hanging"), owned("firstLine"))
}

/// A reference to a numbering definition and the level within it.
#[derive(Debug, Clone, Copy, PartialEq, Eq, Structural)]
pub struct ParagraphNumberingProperties {
    pub ilvl: u8,
    pub num_id: u32,
}

impl ParagraphNumberingProperties {
    pub fn new(ilvl: u8, num_id: u32) -> (r: ParagraphNumberingProperties)
        ensures
            r.ilvl == ilvl && r.num_id == num_id,
    {
        ParagraphNumberingProperties { ilvl, num_id }
    }

    pub fn change_ilvl(&mut self, ilvl: u8)
        ensures
            *final(self) == (ParagraphNumberingProperties { ilvl, ..*old(self) }),
    {
        self.ilvl = ilvl;
    }

    pub fn change_num_id(&mut self, num_id: u32)
        ensures
            *final(self) == (ParagraphNumberingProperties { num_id, ..*old(self) }),
    {
        self.num_id = num_id;
    }
}

/// The pattern of a paragraph shading.
#[derive(Debug, Clone, PartialEq)]
pub enum ParagraphShadingValues {
    /// A solid fill.
    Clear,
    Percentage(PercentFill),
    Pattern(StripePattern),
    Nil,
}

pub ghost enum ParagraphShadingValuesView {
    Clear,
    Percentage(Seq<char>),
    Pattern(StripePattern),
    Nil,
}

impl View for ParagraphShadingValues {
    type V = ParagraphShadingValuesView;

    open spec fn view(&self) -> ParagraphShadingValuesView {
        match self {
            ParagraphShadingValues::Clear => ParagraphShadingValuesView::Clear,
            ParagraphShadingValues::Percentage(p) => ParagraphShadingValuesView::Percentage(p@),
            ParagraphShadingValues::Pattern(s) => ParagraphShadingValuesView::Pattern(*s),
            ParagraphShadingValues::Nil => ParagraphShadingValuesView::Nil,
        }
    }
}

impl ParagraphShadingValuesView {
    /// The name of the pattern in the markup.
    pub open spec fn spec_wire(self) -> Seq<char> {
        match self {
            ParagraphShadingValuesView::Clear => "clear"@,
            ParagraphShadingValuesView::Percentage(p) => p,
            ParagraphShadingValuesView::Pattern(s) => s.pattern.spec_wire(),
            ParagraphShadingValuesView::Nil => "nil"@,
        }
    }

    /// What a markup name denotes: `clear`, `nil`, a percentage after `pct`, or a
    /// stripe pattern. `pct` followed by anything but a number fails.
    pub open spec fn spec_from_wire(s: Seq<char>) -> Option<ParagraphShadingValuesView> {
        if s == "clear"@ {
            Some(ParagraphShadingValuesView::Clear)
        } else if s == "nil"@ {
            Some(ParagraphShadingValuesView::Nil)
        } else if s.len() >= 3 && s.subrange(0, 3) == "pct"@ {
            match parse_unsigned(s.subrange(3, s.len() as int), 255) {
                Some(n) => Some(
                    ParagraphShadingValuesView::Percentage(
                        percent_fill(
                            if n > 100 {
                                100
                            } else {
                                n as nat
                            },
                        ),
                    ),
                ),
                None => None,
            }
        } else {
            Some(
                ParagraphShadingValuesView::Pattern(
                    StripePattern { pattern: StripePatternValues::spec_from_wire(s) },
                ),
            )
        }
    }
}

impl ParagraphShadingValues {
    /// The name of the pattern in the markup.
    pub fn wire(&self) -> (r: String)
        ensures
            r@ == self@.spec_wire(),
    {
        match self {
            ParagraphShadingValues::Clear => owned("clear"),
            ParagraphShadingValues::Percentage(p) => p.value(),
            ParagraphShadingValues::Pattern(s) => owned(s.pattern.wire()),
            ParagraphShadingValues::Nil => owned("nil"),
        }
    }

    /// Reads a markup name; fails with `InvalidShading` on `pct` followed by
    /// anything but a number.
    pub fn from_wire(s: &str) -> (r: Result<ParagraphShadingValues, RudocxStyleError>)
        ensures
            match ParagraphShadingValuesView::spec_from_wire(s@) {
                Some(v) => r matches Ok(x) && x@ == v,
                None => r matches Err(e) && e matches RudocxStyleError::InvalidShading(t) && t@
                    == s@,
            },
    {
        if str_eq(s, "clear") {
            return Ok(ParagraphShadingValues::Clear);
        }
        if str_eq(s, "nil") {
            return Ok(ParagraphShadingValues::Nil);
        }
        let n = s.unicode_len();
        if n >= 3 && str_eq(s.substring_char(0, 3), "pct") {
            match parse_unsigned_str(s.substring_char(3, n), 255) {
                Some(p) => Ok(ParagraphShadingValues::Percentage(PercentFill::new(p as u8))),
                None => Err(RudocxStyleError::InvalidShading(owned(s))),
            }
        } else {
            Ok(
                ParagraphShadingValues::Pattern(
                    StripePattern::new(StripePatternValues::from_wire(s)),
                ),
            )
        }
    }
}

/// The shading of a paragraph: its pattern, the fill behind it and the color of
/// the pattern, which a solid fill ignores.
#[derive(Debug, Clone, PartialEq)]
pub struct ParagraphShading {
    pub val: ParagraphShadingValues,
    pub fill: Option<HexColor>,
    pub color: Option<HexColor>,
}

pub ghost struct ParagraphShadingView {
    pub val: ParagraphShadingValuesView,
    pub fill: Option<Seq<char>>,
    pub color: Option<Seq<char>>,
}

impl View for ParagraphShading {
    type V = ParagraphShadingView;

    open spec fn view(&self) -> ParagraphShadingView {
        ParagraphShadingView {
            val: self.val@,
            fill: color_view(self.fill),
            color: color_view(self.color),
        }
    }
}

impl Default for ParagraphShading {
    /// A solid yellow fill.
    fn default() -> (r: ParagraphShading)
        ensures
            r@ == (ParagraphShadingView {
                val: ParagraphShadingValuesView::Clear,
                fill: Some("FFF700"@),
                color: None,
            }),
    {
        let fill = HexColor { value: owned("FFF700") };
        ParagraphShading { val: ParagraphShadingValues::Clear, fill: Some(fill), color: None }
    }
}

impl ParagraphShading {
    pub fn new(val: ParagraphShadingValues, fill: HexColor, color: HexColor) -> (r: ParagraphShading)
        ensures
            r == (ParagraphShading { val, fill: Some(fill), color: Some(color) }),
    {
        ParagraphShading { val, fill: Some(fill), color: Some(color) }
    }

    /// The markup name of the pattern.
    pub fn value(&self) -> (r: String)
        ensures
            r@ == self.val@.spec_wire(),
    {
        self.val.wire()
    }

    pub fn change_value(&mut self, val: ParagraphShadingValues)
        ensures
            *final(self) == (ParagraphShading { val, ..*old(self) }),
    {
        self.val = val;
    }

    pub fn change_fill(&mut self, fill: HexColor)
        ensures
            *final(self) == (ParagraphShading { fill: Some(fill), ..*old(self) }),
    {
        self.fill = Some(fill);
    }

    pub fn change_color(&mut self, color: HexColor)
        ensures
            *final(self) == (ParagraphShading { color: Some(color), ..*old(self) }),
    {
        self.color = Some(color);
    }
}

/// The space before and after a paragraph and between its lines.
#[derive(Debug, Clone, Copy, PartialEq, Eq, Structural)]
pub struct ParagraphSpacing {
    pub before: Option<u32>,
    pub after: Option<u32>,
    pub line: Option<u32>,
    pub line_rule: Option<LineRule>,
    pub before_autospacing: Option<bool>,
    pub after_autospacing: Option<bool>,
}

impl ParagraphSpacing {
    pub fn new(
        before: Option<u32>,
        after: Option<u32>,
        line: Option<u32>,
        line_rule: Option<LineRule>,
        before_autospacing: Option<bool>,
        after_autospacing: Option<bool>,
    ) -> (r: ParagraphSpacing)
        ensures
            r == (ParagraphSpacing { before, after, line, line_rule, before_autospacing, after_autospacing }),
    {
        ParagraphSpacing { before, after, line, line_rule, before_autospacing, after_autospacing }
    }

    pub fn change_before(&mut self, before: Option<u32>)
        ensures
            *final(self) == (ParagraphSpacing { before, ..*old(self) }),
    {
        self.before = before;
    }

    pub fn change_after(&mut self, after: Option<u32>)
        ensures
            *final(self) == (ParagraphSpacing { after, ..*old(self) }),
    {
        self.after = after;
    }

    pub fn change_line(&mut self, line: Option<u32>)
        ensures
            *final(self) == (ParagraphSpacing { line, ..*old(self) }),
    {
        self.line = line;
    }

    pub fn change_line_rule(&mut self, line_rule: Option<LineRule>)
        ensures
            *final(self) == (ParagraphSpacing { line_rule, ..*old(self) }),
    {
        self.line_rule = line_rule;
    }

    pub fn change_before_autospacing(&mut self, before_autospacing: Option<bool>)
        ensures
            *final(self) == (ParagraphSpacing { before_autospacing, ..*old(self) }),
    {
        self.before_autospacing = before_autospacing;
    }

    pub fn change_after_autospacing(&mut self, after_autospacing: Option<bool>)
        ensures
            *final(self) == (ParagraphSpacing { after_autospacing, ..*old(self) }),
    {
        self.after_autospacing = after_autospacing;
    }
}

/// How the line spacing value is read.
#[derive(Debug, Clone, Copy, PartialEq, Eq, Structural)]
pub enum LineRule {
    Auto,
    AtLeast,
    Exact,
}

impl LineRule {
    /// The name of the value in the markup.
    pub open spec fn spec_wire(self) -> Seq<char> {
        match self {
            LineRule::Auto => "auto"@,
            LineRule::AtLeast => "atLeast"@,
            LineRule::Exact => "exact"@,
        }
    }

    /// The value that a markup name denotes; an unknown name gives `Auto`.
    pub open spec fn spec_from_wire(s: Seq<char>) -> LineRule {
        if s == "auto"@ {
            LineRule::Auto
        } else if s == "atLeast"@ {
            LineRule::AtLeast
        } else if s == "exact"@ {
            LineRule::Exact
        } else {
            LineRule::Auto
        }
    }

    /// The name of the value in the markup.
    pub fn wire(&self) -> (r: &'static str)
        ensures
            r@ == self.spec_wire(),
    {
        match self {
            LineRule::Auto => "auto",
            LineRule::AtLeast => "atLeast",
            LineRule::Exact => "exact",
        }
    }

    /// The value that a markup name denotes; an unknown name gives `Auto`.
    pub fn from_wire(s: &str) -> (r: LineRule)
        ensures
            r == LineRule::spec_from_wire(s@),
    {
        if str_eq(s, "auto") {
            LineRule::Auto
        } else if str_eq(s, "atLeast") {
            LineRule::AtLeast
        } else if str_eq(s, "exact") {
            LineRule::Exact
        } else {
            LineRule::Auto
        }
    }

    /// Reading back the name of a value gives the value.
    pub proof fn lemma_wire_round_trip(self)
        ensures
            LineRule::spec_from_wire(self.spec_wire()) == self,
    {
        broadcast use vstd::string::group_string_axioms;

        reveal_strlit("auto");
        reveal_strlit("atLeast");
        reveal_strlit("exact");
        match self {
            LineRule::Auto => {
                assert("auto"@.len() == 4);
            },
            LineRule::AtLeast => {
                assert("atLeast"@.len() == 7);
            },
            LineRule::Exact => {
                assert("exact"@.len() == 5);
            },
        }
    }
}

/// A custom tab stop: its kind, its position and the character that leads to it.
#[derive(Debug, Clone, Copy, PartialEq, Eq, Structural)]
pub struct ParagraphTab {
    pub val: ParagraphTabValues,
    pub pos: i32,
    pub leader: Option<ParagraphTabLeaders>,
}

impl ParagraphTab {
    pub fn new(val: ParagraphTabValues, pos: i32, leader: Option<ParagraphTabLeaders>) -> (r:
        ParagraphTab)
        ensures
            r == (ParagraphTab { val, pos, leader }),
    {
        ParagraphTab { val, pos, leader }
    }

    /// The markup name of the kind of stop.
    pub fn value(&self) -> (r: String)
        ensures
            r@ == self.val.spec_wire(),
    {
        owned(self.val.wire())
    }

    pub fn change_value(&mut self, val: ParagraphTabValues)
        ensures
            *final(self) == (ParagraphTab { val, ..*old(self) }),
    {
        self.val = val;
    }

    pub fn change_pos(&mut self, pos: i32)
        ensures
            *final(self) == (ParagraphTab { pos, ..*old(self) }),
    {
        self.pos = pos;
    }

    pub fn change_leader(&mut self, leader: Option<ParagraphTabLeaders>)
        ensures
            *final(self) == (ParagraphTab { leader, ..*old(self) }),
    {
        self.leader = leader;
    }
}

/// The kinds of tab stop.
#[derive(Debug, Clone, Copy, PartialEq, Eq, Structural)]
pub enum ParagraphTabValues {
    Clear,
    Left,
    Center,
    Right,
    Decimal,
    Bar,
    Num,
}

impl ParagraphTabValues {
    /// The name of the value in the markup.
    pub open spec fn spec_wire(self) -> Seq<char> {
        match self {
            ParagraphTabValues::Clear => "clear"@,
            ParagraphTabValues::Left => "left"@,
            ParagraphTabValues::Center => "center"@,
            ParagraphTabValues::Right => "right"@,
            ParagraphTabValues::Decimal => "decimal"@,
            ParagraphTabValues::Bar => "bar"@,
            ParagraphTabValues::Num => "num"@,
        }
    }

    /// The value that a markup name denotes; an unknown name gives `Clear`.
    pub open spec fn spec_from_wire(s: Seq<char>) -> ParagraphTabValues {
        if s == "clear"@ {
            ParagraphTabValues::Clear
        } else if s == "left"@ {
            ParagraphTabValues::Left
        } else if s == "center"@ {
            ParagraphTabValues::Center
        } else if s == "right"@ {
            ParagraphTabValues::Right
        } else if s == "decimal"@ {
            ParagraphTabValues::Decimal
        } else if s == "bar"@ {
            ParagraphTabValues::Bar
        } else if s == "num"@ {
            ParagraphTabValues::Num
        } else {
            ParagraphTabValues::Clear
        }
    }

    /// The name of the value in the markup.
    pub fn wire(&self) -> (r: &'static str)
        ensures
            r@ == self.spec_wire(),
    {
        match self {
            ParagraphTabValues::Clear => "clear",
            ParagraphTabValues::Left => "left",
            ParagraphTabValues::Center => "center",
            ParagraphTabValues::Right => "right",
            ParagraphTabValues::Decimal => "decimal",
            ParagraphTabValues::Bar => "bar",
            ParagraphTabValues::Num => "num",
        }
    }

    /// The value that a markup name denotes; an unknown name gives `Clear`.
    pub fn from_wire(s: &str) -> (r: ParagraphTabValues)
        ensures
            r == ParagraphTabValues::spec_from_wire(s@),
    {
        if str_eq(s, "clear") {
            ParagraphTabValues::Clear
        } else if str_eq(s, "left") {
            ParagraphTabValues::Left
        } else if str_eq(s, "center") {
            ParagraphTabValues::Center
        } else if str_eq(s, "right") {
            ParagraphTabValues::Right
        } else if str_eq(s, "decimal") {
            ParagraphTabValues::Decimal
        } else if str_eq(s, "bar") {
            ParagraphTabValues::Bar
        } else if str_eq(s, "num") {
            ParagraphTabValues::Num
        } else {
            ParagraphTabValues::Clear
        }
    }

    /// Reading back the name of a value gives the value.
    pub proof fn lemma_wire_round_trip(self)
        ensures
            ParagraphTabValues::spec_from_wire(self.spec_wire()) == self,
    {
        broadcast use vstd::string::group_string_axioms;

        reveal_strlit("clear");
        reveal_strlit("left");
        reveal_strlit("center");
        reveal_strlit("right");
        reveal_strlit("decimal");
        reveal_strlit("bar");
        reveal_strlit("num");
        match self {
            ParagraphTabValues::Clear => {
                assert("clear"@.len() == 5);
            },
            ParagraphTabValues::Left => {
                assert("left"@.len() == 4);
            },
            ParagraphTabValues::Center => {
                assert("center"@.len() == 6);
            },
            ParagraphTabValues::Right => {
                assert("right"@.len() == 5);
                assert("right"@[0] != "clear"@[0]);
            },
            ParagraphTabValues::Decimal => {
                assert("decimal"@.len() == 7);
            },
            ParagraphTabValues::Bar => {
                assert("bar"@.len() == 3);
            },
            ParagraphTabValues::Num => {
                assert("num"@.len() == 3);
                assert("num"@[0] != "bar"@[0]);
            },
        }
    }
}

/// The characters that lead to a tab stop.
#[derive(Debug, Clone, Copy, PartialEq, Eq, Structural)]
pub enum ParagraphTabLeaders {
    NoLeader,
    Dot,
    Heavy,
    Hyphen,
    MiddleDot,
}

impl ParagraphTabLeaders {
    /// The name of the value in the markup.
    pub open spec fn spec_wire(self) -> Seq<char> {
        match self {
            ParagraphTabLeaders::NoLeader => "none"@,
            ParagraphTabLeaders::Dot => "dot"@,
            ParagraphTabLeaders::Heavy => "heavy"@,
            ParagraphTabLeaders::Hyphen => "hyphen"@,
            ParagraphTabLeaders::MiddleDot => "middleDot"@,
        }
    }

    /// The value that a markup name denotes; an unknown name gives `NoLeader`.
    pub open spec fn spec_from_wire(s: Seq<char>) -> ParagraphTabLeaders {
        if s == "none"@ {
            ParagraphTabLeaders::NoLeader
        } else if s == "dot"@ {
            ParagraphTabLeaders::Dot
        } else if s == "heavy"@ {
            ParagraphTabLeaders::Heavy
        } else if s == "hyphen"@ {
            ParagraphTabLeaders::Hyphen
        } else if s == "middleDot"@ {
            ParagraphTabLeaders::MiddleDot
        } else {
            ParagraphTabLeaders::NoLeader
        }
    }

    /// The name of the value in the markup.
    pub fn wire(&self) -> (r: &'static str)
        ensures
            r@ == self.spec_wire(),
    {
        match self {
            ParagraphTabLeaders::NoLeader => "none",
            ParagraphTabLeaders::Dot => "dot",
            ParagraphTabLeaders::Heavy => "heavy",
            ParagraphTabLeaders::Hyphen => "hyphen",
            ParagraphTabLeaders::MiddleDot => "middleDot",
        }
    }

    /// The value that a markup name denotes; an unknown name gives `NoLeader`.
    pub fn from_wire(s: &str) -> (r: ParagraphTabLeaders)
        ensures
            r == ParagraphTabLeaders::spec_from_wire(s@),
    {
        if str_eq(s, "none") {
            ParagraphTabLeaders::NoLeader
        } else if str_eq(s, "dot") {
            ParagraphTabLeaders::Dot
        } else if str_eq(s, "heavy") {
            ParagraphTabLeaders::Heavy
        } else if str_eq(s, "hyphen") {
            ParagraphTabLeaders::Hyphen
        } else if str_eq(s, "middleDot") {
            ParagraphTabLeaders::MiddleDot
        } else {
            ParagraphTabLeaders::NoLeader
        }
    }

    /// Reading back the name of a value gives the value.
    pub proof fn lemma_wire_round_trip(self)
        ensures
            ParagraphTabLeaders::spec_from_wire(self.spec_wire()) == self,
    {
        broadcast use vstd::string::group_string_axioms;

        reveal_strlit("none");
        reveal_strlit("dot");
        reveal_strlit("heavy");
        reveal_strlit("hyphen");
        reveal_strlit("middleDot");
        match self {
            ParagraphTabLeaders::NoLeader => {
                assert("none"@.len() == 4);
            },
            ParagraphTabLeaders::Dot => {
                assert("dot"@.len() == 3);
            },
            ParagraphTabLeaders::Heavy => {
                assert("heavy"@.len() == 5);
            },
            ParagraphTabLeaders::Hyphen => {
                assert("hyphen"@.len() == 6);
            },
            ParagraphTabLeaders::MiddleDot => {
                assert("middleDot"@.len() == 9);
            },
        }
    }
}

/// The formatting of a paragraph. Each flag is off and each optional value
/// absent by default; a record equal to that has no formatting.
#[derive(Debug, Clone, PartialEq)]
pub struct ParagraphProperties {
    pub keep_next: bool,
    pub keep_lines: bool,
    pub page_break_before: bool,
    pub window_control: bool,
    pub suppress_line_numbers: bool,
    pub paragraph_borders: Option<ParagraphBorder>,
    pub shading: Option<ParagraphShading>,
    pub tabs: Option<Vec<ParagraphTab>>,
    pub numbering_properties: Option<ParagraphNumberingProperties>,
    pub suppress_auto_hyphens: bool,
    pub word_wrap: bool,
    pub topline_punct: bool,
    pub autospace_de: bool,
    pub autospace_dn: bool,
    pub bidi: bool,
    pub snap_to_grid: bool,
    pub spacing: Option<ParagraphSpacing>,
    pub ind: Option<ParagraphIndentation>,
    pub contextual_spacing: bool,
    pub mirror_indents: bool,
    pub suppress_overlap: bool,
    pub jc: Option<ParagraphJustification>,
    pub text_direction: Option<ParagraphTextDir>,
    pub text_alignment: Option<ParagraphTextAlign>,
    pub textbox_tight_wrap: Option<ParagraphTBoxTightWrap>,
    pub outline_level: Option<u8>,
    pub default_run_properties: Option<RunProperties>,
}

#[verifier::opaque]
pub open spec fn borders_view(b: Option<ParagraphBorder>) -> Option<ParagraphBorderView> {
    match b {
        Some(x) => Some(x@),
        None => None,
    }
}

#[verifier::opaque]
pub open spec fn shading_view(s: Option<ParagraphShading>) -> Option<ParagraphShadingView> {
    match s {
        Some(x) => Some(x@),
        None => None,
    }
}

#[verifier::opaque]
pub open spec fn tabs_view(t: Option<Vec<ParagraphTab>>) -> Option<Seq<ParagraphTab>> {
    match t {
        Some(x) => Some(x@),
        None => None,
    }
}

#[verifier::opaque]
pub open spec fn run_properties_view(p: Option<RunProperties>) -> Option<RunPropertiesView> {
    match p {
        Some(x) => Some(x@),
        None => None,
    }
}

/// Paragraph formatting seen through the characters of its strings.
pub ghost struct ParagraphPropertiesView {
    pub keep_next: bool,
    pub keep_lines: bool,
    pub page_break_before: bool,
    pub window_control: bool,
    pub suppress_line_numbers: bool,
    pub paragraph_borders: Option<ParagraphBorderView>,
    pub shading: Option<ParagraphShadingView>,
    pub tabs: Option<Seq<ParagraphTab>>,
    pub numbering_properties: Option<ParagraphNumberingProperties>,
    pub suppress_auto_hyphens: bool,
    pub word_wrap: bool,
    pub topline_punct: bool,
    pub autospace_de: bool,
    pub autospace_dn: bool,
    pub bidi: bool,
    pub snap_to_grid: bool,
    pub spacing: Option<ParagraphSpacing>,
    pub ind: Option<ParagraphIndentation>,
    pub contextual_spacing: bool,
    pub mirror_indents: bool,
    pub suppress_overlap: bool,
    pub jc: Option<ParagraphJustification>,
    pub text_direction: Option<ParagraphTextDir>,
    pub text_alignment: Option<ParagraphTextAlign>,
    pub textbox_tight_wrap: Option<ParagraphTBoxTightWrap>,
    pub outline_level: Option<u8>,
    pub default_run_properties: Option<RunPropertiesView>,
}

impl View for ParagraphProperties {
    type V = ParagraphPropertiesView;

    open spec fn view(&self) -> ParagraphPropertiesView {
        ParagraphPropertiesView {
            keep_next: self.keep_next,
            keep_lines: self.keep_lines,
            page_break_before: self.page_break_before,
            window_control: self.window_control,
            suppress_line_numbers: self.suppress_line_numbers,
            paragraph_borders: borders_view(self.paragraph_borders),
            shading: shading_view(self.shading),
            tabs: tabs_view(self.tabs),
            numbering_properties: self.numbering_properties,
            suppress_auto_hyphens: self.suppress_auto_hyphens,
            word_wrap: self.word_wrap,
            topline_punct: self.topline_punct,
            autospace_de: self.autospace_de,
            autospace_dn: self.autospace_dn,
            bidi: self.bidi,
            snap_to_grid: self.snap_to_grid,
            spacing: self.spacing,
            ind: self.ind,
            contextual_spacing: self.contextual_spacing,
            mirror_indents: self.mirror_indents,
            suppress_overlap: self.suppress_overlap,
            jc: self.jc,
            text_direction: self.text_direction,
            text_alignment: self.text_alignment,
            textbox_tight_wrap: self.textbox_tight_wrap,
            outline_level: self.outline_level,
            default_run_properties: run_properties_view(self.default_run_properties),
        }
    }
}

impl ParagraphPropertiesView {
    /// The record with every flag off and every value absent.
    pub open spec fn empty() -> ParagraphPropertiesView {
        ParagraphPropertiesView {
            keep_next: false,
            keep_lines: false,
            page_break_before: false,
            window_control: false,
            suppress_line_numbers: false,
            paragraph_borders: None,
            shading: None,
            tabs: None,
            numbering_properties: None,
            suppress_auto_hyphens: false,
            word_wrap: false,
            topline_punct: false,
            autospace_de: false,
            autospace_dn: false,
            bidi: false,
            snap_to_grid: false,
            spacing: None,
            ind: None,
            contextual_spacing: false,
            mirror_indents: false,
            suppress_overlap: false,
            jc: None,
            text_direction: None,
            text_alignment: None,
            textbox_tight_wrap: None,
            outline_level: None,
            default_run_properties: None,
        }
    }
}

impl Default for ParagraphProperties {
    fn default() -> (r: ParagraphProperties)
        ensures
            r@ == ParagraphPropertiesView::empty(),
    {
        proof {
            reveal(borders_view);
            reveal(shading_view);
            reveal(tabs_view);
            reveal(run_properties_view);
        }
        ParagraphProperties {
            keep_next: false,
            keep_lines: false,
            page_break_before: false,
            window_control: false,
            suppress_line_numbers: false,
            paragraph_borders: None,
            shading: None,
            tabs: None,
            numbering_properties: None,
            suppress_auto_hyphens: false,
            word_wrap: false,
            topline_punct: false,
            autospace_de: false,
            autospace_dn: false,
            bidi: false,
            snap_to_grid: false,
            spacing: None,
            ind: None,
            contextual_spacing: false,
            mirror_indents: false,
            suppress_overlap: false,
            jc: None,
            text_direction: None,
            text_alignment: None,
            textbox_tight_wrap: None,
            outline_level: None,
            default_run_properties: None,
        }
    }
}

impl ParagraphProperties {
    /// A builder that starts from the default record.
    pub fn builder() -> (r: ParagraphPropertiesBuilder)
        ensures
            r.inner@ == ParagraphPropertiesView::empty(),
    {
        ParagraphPropertiesBuilder::new()
    }

    /// Whether any field differs from the default.
    pub fn has_formatting(&self) -> (r: bool)
        ensures
            r == (self@ != ParagraphPropertiesView::empty()),
    {
        proof {
            reveal(borders_view);
            reveal(shading_view);
            reveal(tabs_view);
            reveal(run_properties_view);
        }
        self.keep_next || self.keep_lines || self.page_break_before || self.window_control || self.suppress_line_numbers || self.paragraph_borders.is_some() || self.shading.is_some() || self.tabs.is_some() || self.numbering_properties.is_some() || self.suppress_auto_hyphens || self.word_wrap || self.topline_punct || self.autospace_de || self.autospace_dn || self.bidi || self.snap_to_grid || self.spacing.is_some() || self.ind.is_some() || self.contextual_spacing || self.mirror_indents || self.suppress_overlap || self.jc.is_some() || self.text_direction.is_some() || self.text_alignment.is_some() || self.textbox_tight_wrap.is_some() || self.outline_level.is_some() || self.default_run_properties.is_some()
    }
}

/// Builds a paragraph formatting record one field at a time.
pub struct ParagraphPropertiesBuilder {
    pub inner: ParagraphProperties,
}

impl ParagraphPropertiesBuilder {
    pub fn new() -> (r: ParagraphPropertiesBuilder)
        ensures
            r.inner@ == ParagraphPropertiesView::empty(),
    {
        ParagraphPropertiesBuilder { inner: ParagraphProperties::default() }
    }

    pub fn build(self) -> (r: ParagraphProperties)
        ensures
            r == self.inner,
    {
        self.inner
    }

    pub fn keep_next(self, v: bool) -> (r: ParagraphPropertiesBuilder)
        ensures
            r.inner == (ParagraphProperties { keep_next: v, ..self.inner }),
    {
        let mut b = self;
        b.inner.keep_next = v;
        b
    }

    pub fn keep_lines(self, v: bool) -> (r: ParagraphPropertiesBuilder)
        ensures
            r.inner == (ParagraphProperties { keep_lines: v, ..self.inner }),
    {
        let mut b = self;
        b.inner.keep_lines = v;
        b
    }

    pub fn page_break_before(self, v: bool) -> (r: ParagraphPropertiesBuilder)
        ensures
            r.inner == (ParagraphProperties { page_break_before: v, ..self.inner }),
    {
        let mut b = self;
        b.inner.page_break_before = v;
        b
    }

    pub fn window_control(self, v: bool) -> (r: ParagraphPropertiesBuilder)
        ensures
            r.inner == (ParagraphProperties { window_control: v, ..self.inner }),
    {
        let mut b = self;
        b.inner.window_control = v;
        b
    }

    pub fn supress_line_numbers(self, v: bool) -> (r: ParagraphPropertiesBuilder)
        ensures
            r.inner == (ParagraphProperties { suppress_line_numbers: v, ..self.inner }),
    {
        let mut b = self;
        b.inner.suppress_line_numbers = v;
        b
    }

    pub fn borders(self, v: Option<ParagraphBorder>) -> (r: ParagraphPropertiesBuilder)
        ensures
            r.inner == (ParagraphProperties { paragraph_borders: v, ..self.inner }),
    {
        let mut b = self;
        b.inner.paragraph_borders = v;
        b
    }

    pub fn shading(self, v: Option<ParagraphShading>) -> (r: ParagraphPropertiesBuilder)
        ensures
            r.inner == (ParagraphProperties { shading: v, ..self.inner }),
    {
        let mut b = self;
        b.inner.shading = v;
        b
    }

    pub fn tabs(self, v: Option<Vec<ParagraphTab>>) -> (r: ParagraphPropertiesBuilder)
        ensures
            r.inner == (ParagraphProperties { tabs: v, ..self.inner }),
    {
        let mut b = self;
        b.inner.tabs = v;
        b
    }

    pub fn numbering_properties(self, v: Option<ParagraphNumberingProperties>) -> (r: ParagraphPropertiesBuilder)
        ensures
            r.inner == (ParagraphProperties { numbering_properties: v, ..self.inner }),
    {
        let mut b = self;
        b.inner.numbering_properties = v;
        b
    }

    pub fn suppress_auto_hyphens(self, v: bool) -> (r: ParagraphPropertiesBuilder)
        ensures
            r.inner == (ParagraphProperties { suppress_auto_hyphens: v, ..self.inner }),
    {
        let mut b = self;
        b.inner.suppress_auto_hyphens = v;
        b
    }

    pub fn word_wrap(self, v: bool) -> (r: ParagraphPropertiesBuilder)
        ensures
            r.inner == (ParagraphProperties { word_wrap: v, ..self.inner }),
    {
        let mut b = self;
        b.inner.word_wrap = v;
        b
    }

    pub fn topline_punct(self, v: bool) -> (r: ParagraphPropertiesBuilder)
        ensures
            r.inner == (ParagraphProperties { topline_punct: v, ..self.inner }),
    {
        let mut b = self;
        b.inner.topline_punct = v;
        b
    }

    pub fn autospace_de(self, v: bool) -> (r: ParagraphPropertiesBuilder)
        ensures
            r.inner == (ParagraphProperties { autospace_de: v, ..self.inner }),
    {
        let mut b = self;
        b.inner.autospace_de = v;
        b
    }

    pub fn autospace_dn(self, v: bool) -> (r: ParagraphPropertiesBuilder)
        ensures
            r.inner == (ParagraphProperties { autospace_dn: v, ..self.inner }),
    {
        let mut b = self;
        b.inner.autospace_dn = v;
        b
    }

    pub fn bidi(self, v: bool) -> (r: ParagraphPropertiesBuilder)
        ensures
            r.inner == (ParagraphProperties { bidi: v, ..self.inner }),
    {
        let mut b = self;
        b.inner.bidi = v;
        b
    }

    pub fn snap_to_grid(self, v: bool) -> (r: ParagraphPropertiesBuilder)
        ensures
            r.inner == (ParagraphProperties { snap_to_grid: v, ..self.inner }),
    {
        let mut b = self;
        b.inner.snap_to_grid = v;
        b
    }

    pub fn spacing(self, v: Option<ParagraphSpacing>) -> (r: ParagraphPropertiesBuilder)
        ensures
            r.inner == (ParagraphProperties { spacing: v, ..self.inner }),
    {
        let mut b = self;
        b.inner.spacing = v;
        b
    }

    pub fn ind(self, v: Option<ParagraphIndentation>) -> (r: ParagraphPropertiesBuilder)
        ensures
            r.inner == (ParagraphProperties { ind: v, ..self.inner }),
    {
        let mut b = self;
        b.inner.ind = v;
        b
    }

    pub fn contextual_spacing(self, v: bool) -> (r: ParagraphPropertiesBuilder)
        ensures
            r.inner == (ParagraphProperties { contextual_spacing: v, ..self.inner }),
    {
        let mut b = self;
        b.inner.contextual_spacing = v;
        b
    }

    pub fn mirror_indents(self, v: bool) -> (r: ParagraphPropertiesBuilder)
        ensures
            r.inner == (ParagraphProperties { mirror_indents: v, ..self.inner }),
    {
        let mut b = self;
        b.inner.mirror_indents = v;
        b
    }

    pub fn suppress_overlap(self, v: bool) -> (r: ParagraphPropertiesBuilder)
        ensures
            r.inner == (ParagraphProperties { suppress_overlap: v, ..self.inner }),
    {
        let mut b = self;
        b.inner.suppress_overlap = v;
        b
    }

    pub fn jc(self, v: Option<ParagraphJustification>) -> (r: ParagraphPropertiesBuilder)
        ensures
            r.inner == (ParagraphProperties { jc: v, ..self.inner }),
    {
        let mut b = self;
        b.inner.jc = v;
        b
    }

    pub fn text_direction(self, v: Option<ParagraphTextDir>) -> (r: ParagraphPropertiesBuilder)
        ensures
            r.inner == (ParagraphProperties { text_direction: v, ..self.inner }),
    {
        let mut b = self;
        b.inner.text_direction = v;
        b
    }

    pub fn text_alignment(self, v: Option<ParagraphTextAlign>) -> (r: ParagraphPropertiesBuilder)
        ensures
            r.inner == (ParagraphProperties { text_alignment: v, ..self.inner }),
    {
        let mut b = self;
        b.inner.text_alignment = v;
        b
    }

    pub fn textbox_tight_wrap(self, v: Option<ParagraphTBoxTightWrap>) -> (r: ParagraphPropertiesBuilder)
        ensures
            r.inner == (ParagraphProperties { textbox_tight_wrap: v, ..self.inner }),
    {
        let mut b = self;
        b.inner.textbox_tight_wrap = v;
        b
    }

    pub fn outline_level(self, v: Option<u8>) -> (r: ParagraphPropertiesBuilder)
        ensures
            r.inner == (ParagraphProperties { outline_level: v, ..self.inner }),
    {
        let mut b = self;
        b.inner.outline_level = v;
        b
    }

    pub fn default_run_properties(self, v: Option<RunProperties>) -> (r: ParagraphPropertiesBuilder)
        ensures
            r.inner == (ParagraphProperties { default_run_properties: v, ..self.inner }),
    {
        let mut b = self;
        b.inner.default_run_properties = v;
        b
    }
}

} // verus!
