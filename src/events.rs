//! The XML events that the decoder reads and the encoder writes, and the element
//! names they carry.

use vstd::prelude::*;
use crate::text::str_eq;

verus! {

/// One attribute of an element, its value already unescaped.
#[derive(Debug, Clone, PartialEq)]
pub struct XmlAttribute {
    pub key: String,
    pub value: String,
}

/// The name and attributes of an element.
#[derive(Debug, Clone, PartialEq)]
pub struct XmlTag {
    pub name: String,
    pub attributes: Vec<XmlAttribute>,
}

/// One event of an XML stream.
#[derive(Debug, Clone, PartialEq)]
pub enum XmlEvent {
    /// An element opens.
    Start(XmlTag),
    /// A self-closing element.
    Empty(XmlTag),
    /// Text between tags, already unescaped.
    Text(String),
    /// An element closes.
    End(String),
}

pub ghost struct XmlTagView {
    pub name: Seq<char>,
    pub attributes: Seq<(Seq<char>, Seq<char>)>,
}

pub ghost enum XmlEventView {
    Start(XmlTagView),
    Empty(XmlTagView),
    Text(Seq<char>),
    End(Seq<char>),
}

pub open spec fn attrs_view(a: Seq<XmlAttribute>) -> Seq<(Seq<char>, Seq<char>)> {
    a.map_values(|x: XmlAttribute| (x.key@, x.value@))
}

impl View for XmlTag {
    type V = XmlTagView;

    open spec fn view(&self) -> XmlTagView {
        XmlTagView { name: self.name@, attributes: attrs_view(self.attributes@) }
    }
}

impl View for XmlEvent {
    type V = XmlEventView;

    open spec fn view(&self) -> XmlEventView {
        match self {
            XmlEvent::Start(t) => XmlEventView::Start(t@),
            XmlEvent::Empty(t) => XmlEventView::Empty(t@),
            XmlEvent::Text(s) => XmlEventView::Text(s@),
            XmlEvent::End(s) => XmlEventView::End(s@),
        }
    }
}

pub open spec fn events_view(e: Seq<XmlEvent>) -> Seq<XmlEventView> {
    e.map_values(|x: XmlEvent| x@)
}

/// The value of the first attribute named `key`.
pub open spec fn attr_of(attrs: Seq<(Seq<char>, Seq<char>)>, key: Seq<char>) -> Option<Seq<char>>
    decreases attrs.len(),
{
    if attrs.len() == 0 {
        None
    } else if attrs[0].0 == key {
        Some(attrs[0].1)
    } else {
        attr_of(attrs.drop_first(), key)
    }
}

/// The value of the first attribute named `key`.
pub fn find_attr<'a>(attrs: &'a Vec<XmlAttribute>, key: &str) -> (r: Option<&'a String>)
    ensures
        match attr_of(attrs_view(attrs@), key@) {
            Some(v) => r matches Some(s) && s@ == v,
            None => r is None,
        },
{
    let ghost all = attrs_view(attrs@);
    let mut i: usize = 0;
    assert(all.subrange(0, all.len() as int) =~= all);
    while i < attrs.len()
        invariant
            i <= attrs.len(),
            all == attrs_view(attrs@),
            attr_of(all, key@) == attr_of(all.subrange(i as int, all.len() as int), key@),
        decreases attrs.len() - i,
    {
        let ghost rest = all.subrange(i as int, all.len() as int);
        assert(rest.drop_first() =~= all.subrange(i + 1, all.len() as int));
        if str_eq(attrs[i].key.as_str(), key) {
            return Some(&attrs[i].value);
        }
        i += 1;
    }
    None
}

/// The elements that the decoder and the encoder know; `Other` is any other.
#[derive(Debug, Clone, Copy, PartialEq, Eq, Structural)]
pub enum Tag {
    Document,
    Body,
    Paragraph,
    ParagraphProps,
    Run,
    RunProps,
    Text,
    Hyperlink,
    Bold,
    Italic,
    Underline,
    Color,
    Size,
    Fonts,
    Highlight,
    Strike,
    DStrike,
    VertAlign,
    Spacing,
    KeepNext,
    KeepLines,
    PageBreakBefore,
    WindowControl,
    SuppressLineNumbers,
    SuppressAutoHyphens,
    WordWrap,
    ToplinePunct,
    AutospaceDe,
    AutospaceDn,
    Bidi,
    SnapToGrid,
    ContextualSpacing,
    MirrorIndents,
    SuppressOverlap,
    Borders,
    BorderTop,
    BorderLeft,
    BorderBottom,
    BorderRight,
    BorderBetween,
    Shading,
    Tabs,
    Tab,
    NumberingProperties,
    Ilvl,
    NumId,
    Ind,
    Jc,
    TextDirection,
    TextFlow,
    TextAlignment,
    TextboxTightWrap,
    OutlineLevel,
    Other,
}

impl Tag {
    /// The name of the value in the markup.
    pub open spec fn spec_wire(self) -> Seq<char> {
        match self {
            Tag::Document => "w:document"@,
            Tag::Body => "w:body"@,
            Tag::Paragraph => "w:p"@,
            Tag::ParagraphProps => "w:pPr"@,
            Tag::Run => "w:r"@,
            Tag::RunProps => "w:rPr"@,
            Tag::Text => "w:t"@,
            Tag::Hyperlink => "w:hyperlink"@,
            Tag::Bold => "w:b"@,
            Tag::Italic => "w:i"@,
            Tag::Underline => "w:u"@,
            Tag::Color => "w:color"@,
            Tag::Size => "w:sz"@,
            Tag::Fonts => "w:rFonts"@,
            Tag::Highlight => "w:highlight"@,
            Tag::Strike => "w:strike"@,
            Tag::DStrike => "w:dstrike"@,
            Tag::VertAlign => "w:vertAlign"@,
            Tag::Spacing => "w:spacing"@,
            Tag::KeepNext => "w:keepNext"@,
            Tag::KeepLines => "w:keepLines"@,
            Tag::PageBreakBefore => "w:pageBreakBefore"@,
            Tag::WindowControl => "w:windowControl"@,
            Tag::SuppressLineNumbers => "w:suppressLineNumbers"@,
            Tag::SuppressAutoHyphens => "w:suppressAutoHyphens"@,
            Tag::WordWrap => "w:wordWrap"@,
            Tag::ToplinePunct => "w:toplinePunct"@,
            Tag::AutospaceDe => "w:autoSpaceDE"@,
            Tag::AutospaceDn => "w:autoSpaceDN"@,
            Tag::Bidi => "w:bidi"@,
            Tag::SnapToGrid => "w:snapToGrid"@,
            Tag::ContextualSpacing => "w:contextualSpacing"@,
            Tag::MirrorIndents => "w:mirrorIndents"@,
            Tag::SuppressOverlap => "w:suppressOverlap"@,
            Tag::Borders => "w:pBdr"@,
            Tag::BorderTop => "w:top"@,
            Tag::BorderLeft => "w:left"@,
            Tag::BorderBottom => "w:bottom"@,
            Tag::BorderRight => "w:right"@,
            Tag::BorderBetween => "w:between"@,
            Tag::Shading => "w:shd"@,
            Tag::Tabs => "w:tabs"@,
            Tag::Tab => "w:tab"@,
            Tag::NumberingProperties => "w:numPr"@,
            Tag::Ilvl => "w:ilvl"@,
            Tag::NumId => "w:numId"@,
            Tag::Ind => "w:ind"@,
            Tag::Jc => "w:jc"@,
            Tag::TextDirection => "w:textDirection"@,
            Tag::TextFlow => "w:textFlow"@,
            Tag::TextAlignment => "w:textAlignment"@,
            Tag::TextboxTightWrap => "w:textboxTightWrap"@,
            Tag::OutlineLevel => "w:outlineLvl"@,
            Tag::Other => ""@,
        }
    }

    /// The value that a markup name denotes; an unknown name gives `Other`.
    pub open spec fn spec_from_wire(s: Seq<char>) -> Tag {
        if s == "w:document"@ {
            Tag::Document
        } else if s == "w:body"@ {
            Tag::Body
        } else if s == "w:p"@ {
            Tag::Paragraph
        } else if s == "w:pPr"@ {
            Tag::ParagraphProps
        } else if s == "w:r"@ {
            Tag::Run
        } else if s == "w:rPr"@ {
            Tag::RunProps
        } else if s == "w:t"@ {
            Tag::Text
        } else if s == "w:hyperlink"@ {
            Tag::Hyperlink
        } else if s == "w:b"@ {
            Tag::Bold
        } else if s == "w:i"@ {
            Tag::Italic
        } else if s == "w:u"@ {
            Tag::Underline
        } else if s == "w:color"@ {
            Tag::Color
        } else if s == "w:sz"@ {
            Tag::Size
        } else if s == "w:rFonts"@ {
            Tag::Fonts
        } else if s == "w:highlight"@ {
            Tag::Highlight
        } else if s == "w:strike"@ {
            Tag::Strike
        } else if s == "w:dstrike"@ {
            Tag::DStrike
        } else if s == "w:vertAlign"@ {
            Tag::VertAlign
        } else if s == "w:spacing"@ {
            Tag::Spacing
        } else if s == "w:keepNext"@ {
            Tag::KeepNext
        } else if s == "w:keepLines"@ {
            Tag::KeepLines
        } else if s == "w:pageBreakBefore"@ {
            Tag::PageBreakBefore
        } else if s == "w:windowControl"@ {
            Tag::WindowControl
        } else if s == "w:suppressLineNumbers"@ {
            Tag::SuppressLineNumbers
        } else if s == "w:suppressAutoHyphens"@ {
            Tag::SuppressAutoHyphens
        } else if s == "w:wordWrap"@ {
            Tag::WordWrap
        } else if s == "w:toplinePunct"@ {
            Tag::ToplinePunct
        } else if s == "w:autoSpaceDE"@ {
            Tag::AutospaceDe
        } else if s == "w:autoSpaceDN"@ {
            Tag::AutospaceDn
        } else if s == "w:bidi"@ {
            Tag::Bidi
        } else if s == "w:snapToGrid"@ {
            Tag::SnapToGrid
        } else if s == "w:contextualSpacing"@ {
            Tag::ContextualSpacing
        } else if s == "w:mirrorIndents"@ {
            Tag::MirrorIndents
        } else if s == "w:suppressOverlap"@ {
            Tag::SuppressOverlap
        } else if s == "w:pBdr"@ {
            Tag::Borders
        } else if s == "w:top"@ {
            Tag::BorderTop
        } else if s == "w:left"@ {
            Tag::BorderLeft
        } else if s == "w:bottom"@ {
            Tag::BorderBottom
        } else if s == "w:right"@ {
            Tag::BorderRight
        } else if s == "w:between"@ {
            Tag::BorderBetween
        } else if s == "w:shd"@ {
            Tag::Shading
        } else if s == "w:tabs"@ {
            Tag::Tabs
        } else if s == "w:tab"@ {
            Tag::Tab
        } else if s == "w:numPr"@ {
            Tag::NumberingProperties
        } else if s == "w:ilvl"@ {
            Tag::Ilvl
        } else if s == "w:numId"@ {
            Tag::NumId
        } else if s == "w:ind"@ {
            Tag::Ind
        } else if s == "w:jc"@ {
            Tag::Jc
        } else if s == "w:textDirection"@ {
            Tag::TextDirection
        } else if s == "w:textFlow"@ {
            Tag::TextFlow
        } else if s == "w:textAlignment"@ {
            Tag::TextAlignment
        } else if s == "w:textboxTightWrap"@ {
            Tag::TextboxTightWrap
        } else if s == "w:outlineLvl"@ {
            Tag::OutlineLevel
        } else if s == ""@ {
            Tag::Other
        } else {
            Tag::Other
        }
    }

    /// The name of the value in the markup.
    pub fn wire(&self) -> (r: &'static str)
        ensures
            r@ == self.spec_wire(),
    {
        match self {
            Tag::Document => "w:document",
            Tag::Body => "w:body",
            Tag::Paragraph => "w:p",
            Tag::ParagraphProps => "w:pPr",
            Tag::Run => "w:r",
            Tag::RunProps => "w:rPr",
            Tag::Text => "w:t",
            Tag::Hyperlink => "w:hyperlink",
            Tag::Bold => "w:b",
            Tag::Italic => "w:i",
            Tag::Underline => "w:u",
            Tag::Color => "w:color",
            Tag::Size => "w:sz",
            Tag::Fonts => "w:rFonts",
            Tag::Highlight => "w:highlight",
            Tag::Strike => "w:strike",
            Tag::DStrike => "w:dstrike",
            Tag::VertAlign => "w:vertAlign",
            Tag::Spacing => "w:spacing",
            Tag::KeepNext => "w:keepNext",
            Tag::KeepLines => "w:keepLines",
            Tag::PageBreakBefore => "w:pageBreakBefore",
            Tag::WindowControl => "w:windowControl",
            Tag::SuppressLineNumbers => "w:suppressLineNumbers",
            Tag::SuppressAutoHyphens => "w:suppressAutoHyphens",
            Tag::WordWrap => "w:wordWrap",
            Tag::ToplinePunct => "w:toplinePunct",
            Tag::AutospaceDe => "w:autoSpaceDE",
            Tag::AutospaceDn => "w:autoSpaceDN",
            Tag::Bidi => "w:bidi",
            Tag::SnapToGrid => "w:snapToGrid",
            Tag::ContextualSpacing => "w:contextualSpacing",
            Tag::MirrorIndents => "w:mirrorIndents",
            Tag::SuppressOverlap => "w:suppressOverlap",
            Tag::Borders => "w:pBdr",
            Tag::BorderTop => "w:top",
            Tag::BorderLeft => "w:left",
            Tag::BorderBottom => "w:bottom",
            Tag::BorderRight => "w:right",
            Tag::BorderBetween => "w:between",
            Tag::Shading => "w:shd",
            Tag::Tabs => "w:tabs",
            Tag::Tab => "w:tab",
            Tag::NumberingProperties => "w:numPr",
            Tag::Ilvl => "w:ilvl",
            Tag::NumId => "w:numId",
            Tag::Ind => "w:ind",
            Tag::Jc => "w:jc",
            Tag::TextDirection => "w:textDirection",
            Tag::TextFlow => "w:textFlow",
            Tag::TextAlignment => "w:textAlignment",
            Tag::TextboxTightWrap => "w:textboxTightWrap",
            Tag::OutlineLevel => "w:outlineLvl",
            Tag::Other => "",
        }
    }

    /// The value that a markup name denotes; an unknown name gives `Other`.
    pub fn from_wire(s: &str) -> (r: Tag)
        ensures
            r == Tag::spec_from_wire(s@),
    {
        if str_eq(s, "w:document") {
            Tag::Document
        } else if str_eq(s, "w:body") {
            Tag::Body
        } else if str_eq(s, "w:p") {
            Tag::Paragraph
        } else if str_eq(s, "w:pPr") {
            Tag::ParagraphProps
        } else if str_eq(s, "w:r") {
            Tag::Run
        } else if str_eq(s, "w:rPr") {
            Tag::RunProps
        } else if str_eq(s, "w:t") {
            Tag::Text
        } else if str_eq(s, "w:hyperlink") {
            Tag::Hyperlink
        } else if str_eq(s, "w:b") {
            Tag::Bold
        } else if str_eq(s, "w:i") {
            Tag::Italic
        } else if str_eq(s, "w:u") {
            Tag::Underline
        } else if str_eq(s, "w:color") {
            Tag::Color
        } else if str_eq(s, "w:sz") {
            Tag::Size
        } else if str_eq(s, "w:rFonts") {
            Tag::Fonts
        } else if str_eq(s, "w:highlight") {
            Tag::Highlight
        } else if str_eq(s, "w:strike") {
            Tag::Strike
        } else if str_eq(s, "w:dstrike") {
            Tag::DStrike
        } else if str_eq(s, "w:vertAlign") {
            Tag::VertAlign
        } else if str_eq(s, "w:spacing") {
            Tag::Spacing
        } else if str_eq(s, "w:keepNext") {
            Tag::KeepNext
        } else if str_eq(s, "w:keepLines") {
            Tag::KeepLines
        } else if str_eq(s, "w:pageBreakBefore") {
            Tag::PageBreakBefore
        } else if str_eq(s, "w:windowControl") {
            Tag::WindowControl
        } else if str_eq(s, "w:suppressLineNumbers") {
            Tag::SuppressLineNumbers
        } else if str_eq(s, "w:suppressAutoHyphens") {
            Tag::SuppressAutoHyphens
        } else if str_eq(s, "w:wordWrap") {
            Tag::WordWrap
        } else if str_eq(s, "w:toplinePunct") {
            Tag::ToplinePunct
        } else if str_eq(s, "w:autoSpaceDE") {
            Tag::AutospaceDe
        } else if str_eq(s, "w:autoSpaceDN") {
            Tag::AutospaceDn
        } else if str_eq(s, "w:bidi") {
            Tag::Bidi
        } else if str_eq(s, "w:snapToGrid") {
            Tag::SnapToGrid
        } else if str_eq(s, "w:contextualSpacing") {
            Tag::ContextualSpacing
        } else if str_eq(s, "w:mirrorIndents") {
            Tag::MirrorIndents
        } else if str_eq(s, "w:suppressOverlap") {
            Tag::SuppressOverlap
        } else if str_eq(s, "w:pBdr") {
            Tag::Borders
        } else if str_eq(s, "w:top") {
            Tag::BorderTop
        } else if str_eq(s, "w:left") {
            Tag::BorderLeft
        } else if str_eq(s, "w:bottom") {
            Tag::BorderBottom
        } else if str_eq(s, "w:right") {
            Tag::BorderRight
        } else if str_eq(s, "w:between") {
            Tag::BorderBetween
        } else if str_eq(s, "w:shd") {
            Tag::Shading
        } else if str_eq(s, "w:tabs") {
            Tag::Tabs
        } else if str_eq(s, "w:tab") {
            Tag::Tab
        } else if str_eq(s, "w:numPr") {
            Tag::NumberingProperties
        } else if str_eq(s, "w:ilvl") {
            Tag::Ilvl
        } else if str_eq(s, "w:numId") {
            Tag::NumId
        } else if str_eq(s, "w:ind") {
            Tag::Ind
        } else if str_eq(s, "w:jc") {
            Tag::Jc
        } else if str_eq(s, "w:textDirection") {
            Tag::TextDirection
        } else if str_eq(s, "w:textFlow") {
            Tag::TextFlow
        } else if str_eq(s, "w:textAlignment") {
            Tag::TextAlignment
        } else if str_eq(s, "w:textboxTightWrap") {
            Tag::TextboxTightWrap
        } else if str_eq(s, "w:outlineLvl") {
            Tag::OutlineLevel
        } else if str_eq(s, "") {
            Tag::Other
        } else {
            Tag::Other
        }
    }

    /// Reading back the name of a value gives the value.
    pub proof fn lemma_wire_round_trip(self)
        ensures
            Tag::spec_from_wire(self.spec_wire()) == self,
    {
        broadcast use vstd::string::group_string_axioms;

        reveal_strlit("w:document");
        reveal_strlit("w:body");
        reveal_strlit("w:p");
        reveal_strlit("w:pPr");
        reveal_strlit("w:r");
        reveal_strlit("w:rPr");
        reveal_strlit("w:t");
        reveal_strlit("w:hyperlink");
        reveal_strlit("w:b");
        reveal_strlit("w:i");
        reveal_strlit("w:u");
        reveal_strlit("w:color");
        reveal_strlit("w:sz");
        reveal_strlit("w:rFonts");
        reveal_strlit("w:highlight");
        reveal_strlit("w:strike");
        reveal_strlit("w:dstrike");
        reveal_strlit("w:vertAlign");
        reveal_strlit("w:spacing");
        reveal_strlit("w:keepNext");
        reveal_strlit("w:keepLines");
        reveal_strlit("w:pageBreakBefore");
        reveal_strlit("w:windowControl");
        reveal_strlit("w:suppressLineNumbers");
        reveal_strlit("w:suppressAutoHyphens");
        reveal_strlit("w:wordWrap");
        reveal_strlit("w:toplinePunct");
        reveal_strlit("w:autoSpaceDE");
        reveal_strlit("w:autoSpaceDN");
        reveal_strlit("w:bidi");
        reveal_strlit("w:snapToGrid");
        reveal_strlit("w:contextualSpacing");
        reveal_strlit("w:mirrorIndents");
        reveal_strlit("w:suppressOverlap");
        reveal_strlit("w:pBdr");
        reveal_strlit("w:top");
        reveal_strlit("w:left");
        reveal_strlit("w:bottom");
        reveal_strlit("w:right");
        reveal_strlit("w:between");
        reveal_strlit("w:shd");
        reveal_strlit("w:tabs");
        reveal_strlit("w:tab");
        reveal_strlit("w:numPr");
        reveal_strlit("w:ilvl");
        reveal_strlit("w:numId");
        reveal_strlit("w:ind");
        reveal_strlit("w:jc");
        reveal_strlit("w:textDirection");
        reveal_strlit("w:textFlow");
        reveal_strlit("w:textAlignment");
        reveal_strlit("w:textboxTightWrap");
        reveal_strlit("w:outlineLvl");
        reveal_strlit("");
        match self {
            Tag::Document => {
                assert("w:document"@.len() == 10);
            },
            Tag::Body => {
                assert("w:body"@.len() == 6);
            },
            Tag::Paragraph => {
                assert("w:p"@.len() == 3);
            },
            Tag::ParagraphProps => {
                assert("w:pPr"@.len() == 5);
            },
            Tag::Run => {
                assert("w:r"@.len() == 3);
                assert("w:r"@[2] != "w:p"@[2]);
            },
            Tag::RunProps => {
                assert("w:rPr"@.len() == 5);
                assert("w:rPr"@[2] != "w:pPr"@[2]);
            },
            Tag::Text => {
                assert("w:t"@.len() == 3);
                assert("w:t"@[2] != "w:p"@[2]);
                assert("w:t"@[2] != "w:r"@[2]);
            },
            Tag::Hyperlink => {
                assert("w:hyperlink"@.len() == 11);
            },
            Tag::Bold => {
                assert("w:b"@.len() == 3);
                assert("w:b"@[2] != "w:p"@[2]);
                assert("w:b"@[2] != "w:r"@[2]);
                assert("w:b"@[2] != "w:t"@[2]);
            },
            Tag::Italic => {
                assert("w:i"@.len() == 3);
                assert("w:i"@[2] != "w:p"@[2]);
                assert("w:i"@[2] != "w:r"@[2]);
                assert("w:i"@[2] != "w:t"@[2]);
                assert("w:i"@[2] != "w:b"@[2]);
            },
            Tag::Underline => {
                assert("w:u"@.len() == 3);
                assert("w:u"@[2] != "w:p"@[2]);
                assert("w:u"@[2] != "w:r"@[2]);
                assert("w:u"@[2] != "w:t"@[2]);
                assert("w:u"@[2] != "w:b"@[2]);
                assert("w:u"@[2] != "w:i"@[2]);
            },
            Tag::Color => {
                assert("w:color"@.len() == 7);
            },
            Tag::Size => {
                assert("w:sz"@.len() == 4);
            },
            Tag::Fonts => {
                assert("w:rFonts"@.len() == 8);
            },
            Tag::Highlight => {
                assert("w:highlight"@.len() == 11);
                assert("w:highlight"@[3] != "w:hyperlink"@[3]);
            },
            Tag::Strike => {
                assert("w:strike"@.len() == 8);
                assert("w:strike"@[2] != "w:rFonts"@[2]);
            },
            Tag::DStrike => {
                assert("w:dstrike"@.len() == 9);
            },
            Tag::VertAlign => {
                assert("w:vertAlign"@.len() == 11);
                assert("w:vertAlign"@[2] != "w:hyperlink"@[2]);
                assert("w:vertAlign"@[2] != "w:highlight"@[2]);
            },
            Tag::Spacing => {
                assert("w:spacing"@.len() == 9);
                assert("w:spacing"@[2] != "w:dstrike"@[2]);
            },
            Tag::KeepNext => {
                assert("w:keepNext"@.len() == 10);
                assert("w:keepNext"@[2] != "w:document"@[2]);
            },
            Tag::KeepLines => {
                assert("w:keepLines"@.len() == 11);
                assert("w:keepLines"@[2] != "w:hyperlink"@[2]);
                assert("w:keepLines"@[2] != "w:highlight"@[2]);
                assert("w:keepLines"@[2] != "w:vertAlign"@[2]);
            },
            Tag::PageBreakBefore => {
                assert("w:pageBreakBefore"@.len() == 17);
            },
            Tag::WindowControl => {
                assert("w:windowControl"@.len() == 15);
            },
            Tag::SuppressLineNumbers => {
                assert("w:suppressLineNumbers"@.len() == 21);
            },
            Tag::SuppressAutoHyphens => {
                assert("w:suppressAutoHyphens"@.len() == 21);
                assert("w:suppressAutoHyphens"@[10] != "w:suppressLineNumbers"@[10]);
            },
            Tag::WordWrap => {
                assert("w:wordWrap"@.len() == 10);
                assert("w:wordWrap"@[2] != "w:document"@[2]);
                assert("w:wordWrap"@[2] != "w:keepNext"@[2]);
            },
            Tag::ToplinePunct => {
                assert("w:toplinePunct"@.len() == 14);
            },
            Tag::AutospaceDe => {
                assert("w:autoSpaceDE"@.len() == 13);
            },
            Tag::AutospaceDn => {
                assert("w:autoSpaceDN"@.len() == 13);
                assert("w:autoSpaceDN"@[12] != "w:autoSpaceDE"@[12]);
            },
            Tag::Bidi => {
                assert("w:bidi"@.len() == 6);
                assert("w:bidi"@[3] != "w:body"@[3]);
            },
            Tag::SnapToGrid => {
                assert("w:snapToGrid"@.len() == 12);
            },
            Tag::ContextualSpacing => {
                assert("w:contextualSpacing"@.len() == 19);
            },
            Tag::MirrorIndents => {
                assert("w:mirrorIndents"@.len() == 15);
                assert("w:mirrorIndents"@[2] != "w:windowControl"@[2]);
            },
            Tag::SuppressOverlap => {
                assert("w:suppressOverlap"@.len() == 17);
                assert("w:suppressOverlap"@[2] != "w:pageBreakBefore"@[2]);
            },
            Tag::Borders => {
                assert("w:pBdr"@.len() == 6);
                assert("w:pBdr"@[2] != "w:body"@[2]);
                assert("w:pBdr"@[2] != "w:bidi"@[2]);
            },
            Tag::BorderTop => {
                assert("w:top"@.len() == 5);
                assert("w:top"@[2] != "w:pPr"@[2]);
                assert("w:top"@[2] != "w:rPr"@[2]);
            },
            Tag::BorderLeft => {
                assert("w:left"@.len() == 6);
                assert("w:left"@[2] != "w:body"@[2]);
                assert("w:left"@[2] != "w:bidi"@[2]);
                assert("w:left"@[2] != "w:pBdr"@[2]);
            },
            Tag::BorderBottom => {
                assert("w:bottom"@.len() == 8);
                assert("w:bottom"@[2] != "w:rFonts"@[2]);
                assert("w:bottom"@[2] != "w:strike"@[2]);
            },
            Tag::BorderRight => {
                assert("w:right"@.len() == 7);
                assert("w:right"@[2] != "w:color"@[2]);
            },
            Tag::BorderBetween => {
                assert("w:between"@.len() == 9);
                assert("w:between"@[2] != "w:dstrike"@[2]);
                assert("w:between"@[2] != "w:spacing"@[2]);
            },
            Tag::Shading => {
                assert("w:shd"@.len() == 5);
                assert("w:shd"@[2] != "w:pPr"@[2]);
                assert("w:shd"@[2] != "w:rPr"@[2]);
                assert("w:shd"@[2] != "w:top"@[2]);
            },
            Tag::Tabs => {
                assert("w:tabs"@.len() == 6);
                assert("w:tabs"@[2] != "w:body"@[2]);
                assert("w:tabs"@[2] != "w:bidi"@[2]);
                assert("w:tabs"@[2] != "w:pBdr"@[2]);
                assert("w:tabs"@[2] != "w:left"@[2]);
            },
            Tag::Tab => {
                assert("w:tab"@.len() == 5);
                assert("w:tab"@[2] != "w:pPr"@[2]);
                assert("w:tab"@[2] != "w:rPr"@[2]);
                assert("w:tab"@[3] != "w:top"@[3]);
                assert("w:tab"@[2] != "w:shd"@[2]);
            },
            Tag::NumberingProperties => {
                assert("w:numPr"@.len() == 7);
                assert("w:numPr"@[2] != "w:color"@[2]);
                assert("w:numPr"@[2] != "w:right"@[2]);
            },
            Tag::Ilvl => {
                assert("w:ilvl"@.len() == 6);
                assert("w:ilvl"@[2] != "w:body"@[2]);
                assert("w:ilvl"@[2] != "w:bidi"@[2]);
                assert("w:ilvl"@[2] != "w:pBdr"@[2]);
                assert("w:ilvl"@[2] != "w:left"@[2]);
                assert("w:ilvl"@[2] != "w:tabs"@[2]);
            },
            Tag::NumId => {
                assert("w:numId"@.len() == 7);
                assert("w:numId"@[2] != "w:color"@[2]);
                assert("w:numId"@[2] != "w:right"@[2]);
                assert("w:numId"@[5] != "w:numPr"@[5]);
            },
            Tag::Ind => {
                assert("w:ind"@.len() == 5);
                assert("w:ind"@[2] != "w:pPr"@[2]);
                assert("w:ind"@[2] != "w:rPr"@[2]);
                assert("w:ind"@[2] != "w:top"@[2]);
                assert("w:ind"@[2] != "w:shd"@[2]);
                assert("w:ind"@[2] != "w:tab"@[2]);
            },
            Tag::Jc => {
                assert("w:jc"@.len() == 4);
                assert("w:jc"@[2] != "w:sz"@[2]);
            },
            Tag::TextDirection => {
                assert("w:textDirection"@.len() == 15);
                assert("w:textDirection"@[2] != "w:windowControl"@[2]);
                assert("w:textDirection"@[2] != "w:mirrorIndents"@[2]);
            },
            Tag::TextFlow => {
                assert("w:textFlow"@.len() == 10);
                assert("w:textFlow"@[2] != "w:document"@[2]);
                assert("w:textFlow"@[2] != "w:keepNext"@[2]);
                assert("w:textFlow"@[2] != "w:wordWrap"@[2]);
            },
            Tag::TextAlignment => {
                assert("w:textAlignment"@.len() == 15);
                assert("w:textAlignment"@[2] != "w:windowControl"@[2]);
                assert("w:textAlignment"@[2] != "w:mirrorIndents"@[2]);
                assert("w:textAlignment"@[6] != "w:textDirection"@[6]);
            },
            Tag::TextboxTightWrap => {
                assert("w:textboxTightWrap"@.len() == 18);
            },
            Tag::OutlineLevel => {
                assert("w:outlineLvl"@.len() == 12);
                assert("w:outlineLvl"@[2] != "w:snapToGrid"@[2]);
            },
            Tag::Other => {
                assert(""@.len() == 0);
            },
        }
    }
}

} // verus!
