//! The decoder: a state machine that turns a stream of XML events into a
//! document. Each step is stated as a function on views; the executable decoder
//! is proved to follow it.

use vstd::prelude::*;
use crate::color::{HLColor, HexColor, HighlightPalette, fallback_hex, is_hex_code};
use crate::error::RudocxError;
use crate::events::{Tag, XmlAttribute, XmlEvent, XmlEventView, attr_of, attrs_view, events_view, find_attr};
use crate::model::{
    Document, Hyperlink, HyperlinkView, Paragraph, ParagraphChild, ParagraphChildView,
    ParagraphView, Run, RunView, children_view, empty_paragraph, paragraphs_view, plain_run,
    runs_view,
};
use crate::paragraph_properties::{
    LineRule, ParagraphBorder, ParagraphBorderSide, ParagraphBorderSideView, ParagraphBorderStyle,
    ParagraphBorderView, ParagraphIndentation, ParagraphJustification,
    ParagraphJustificationValues, ParagraphNumberingProperties, ParagraphProperties,
    ParagraphPropertiesView, ParagraphShading, ParagraphShadingValues, ParagraphShadingValuesView,
    ParagraphShadingView, ParagraphSpacing, ParagraphTBoxTightWrap, ParagraphTBoxTightWrapValues,
    ParagraphTab, ParagraphTabLeaders, ParagraphTabValues, ParagraphTextAlign,
    ParagraphTextAlignValues, ParagraphTextDir, ParagraphTextDirValues, borders_view, color_view, run_properties_view, shading_view, tabs_view,
};
use crate::run_properties::{
    AlignValues, FontSet, FontSetView, FontType, RunProperties, RunPropertiesView,
    Underline, UnderlineStyle, VerticalAlign,
};
use crate::text::{lemma_parse_unsigned_range, owned, parse_i32_str, parse_signed, parse_unsigned, parse_unsigned_str, push_str, str_eq};

verus! {

pub type Attrs = Seq<(Seq<char>, Seq<char>)>;

/// Why decoding fails: a value that must be a number is not one, or a shading
/// value names no pattern.
pub ghost enum DecodeFault {
    Number,
    Shading,
}

/// The error that the library reports for a decoding fault.
pub open spec fn fault_of(f: DecodeFault, e: RudocxError) -> bool {
    match f {
        DecodeFault::Number => e is NumParseError,
        DecodeFault::Shading => e matches RudocxError::RunPropertyError(s) && s is InvalidShading,
    }
}

/// A boolean marker is on unless its `w:val` says `off`, `0` or `false`.
pub open spec fn flag_of(attrs: Attrs) -> bool {
    match attr_of(attrs, "w:val"@) {
        Some(v) => !(v == "off"@ || v == "0"@ || v == "false"@),
        None => true,
    }
}

/// Reads a boolean marker's `w:val`.
fn flag(attrs: &Vec<XmlAttribute>) -> (r: bool)
    ensures
        r == flag_of(attrs_view(attrs@)),
{
    match find_attr(attrs, "w:val") {
        Some(v) => !(str_eq(v.as_str(), "off") || str_eq(v.as_str(), "0") || str_eq(
            v.as_str(),
            "false",
        )),
        None => true,
    }
}

/// The attribute `key` read as an unsigned number of at most `max`; a value that
/// is not one fails.
pub open spec fn uint_attr_of(attrs: Attrs, key: Seq<char>, max: int) -> Result<Option<int>, DecodeFault> {
    match attr_of(attrs, key) {
        Some(v) => match parse_unsigned(v, max) {
            Some(n) => Ok(Some(n)),
            None => Err(DecodeFault::Number),
        },
        None => Ok(None),
    }
}

/// The attribute `key` read as an `i32`; a value that is not one fails.
pub open spec fn int_attr_of(attrs: Attrs, key: Seq<char>) -> Result<Option<int>, DecodeFault> {
    match attr_of(attrs, key) {
        Some(v) => match parse_signed(v) {
            Some(n) => Ok(Some(n)),
            None => Err(DecodeFault::Number),
        },
        None => Ok(None),
    }
}

fn num_error(v: &String) -> (r: RudocxError)
    ensures
        r matches RudocxError::NumParseError(s) && s@ == v@,
{
    RudocxError::NumParseError(v.clone())
}

fn uint_attr(attrs: &Vec<XmlAttribute>, key: &str, max: u32) -> (r: Result<Option<u32>, RudocxError>)
    ensures
        match uint_attr_of(attrs_view(attrs@), key@, max as int) {
            Ok(Some(n)) => r == Ok::<Option<u32>, RudocxError>(Some(n as u32)),
            Ok(None) => r == Ok::<Option<u32>, RudocxError>(None),
            Err(f) => r matches Err(e) && fault_of(f, e),
        },
        r matches Ok(Some(v)) ==> v <= max,
        uint_attr_of(attrs_view(attrs@), key@, max as int) matches Ok(Some(n)) ==> 0 <= n <= max,
{
    proof {
        if let Some(v) = attr_of(attrs_view(attrs@), key@) {
            lemma_parse_unsigned_range(v, max as int);
        }
    }
    match find_attr(attrs, key) {
        Some(v) => match parse_unsigned_str(v.as_str(), max) {
            Some(n) => Ok(Some(n)),
            None => Err(num_error(v)),
        },
        None => Ok(None),
    }
}

fn int_attr(attrs: &Vec<XmlAttribute>, key: &str) -> (r: Result<Option<i32>, RudocxError>)
    ensures
        match int_attr_of(attrs_view(attrs@), key@) {
            Ok(Some(n)) => r == Ok::<Option<i32>, RudocxError>(Some(n as i32)),
            Ok(None) => r == Ok::<Option<i32>, RudocxError>(None),
            Err(f) => r matches Err(e) && fault_of(f, e),
        },
{
    match find_attr(attrs, key) {
        Some(v) => match parse_i32_str(v.as_str()) {
            Some(n) => Ok(Some(n)),
            None => Err(num_error(v)),
        },
        None => Ok(None),
    }
}

/// The attribute that holds the font of a slot.
pub open spec fn font_attr_key(t: FontType) -> Seq<char> {
    match t {
        FontType::Ascii => "w:ascii"@,
        FontType::HiAnsi => "w:hAnsi"@,
        FontType::EastAsia => "w:eastAsia"@,
        FontType::Cs => "w:cs"@,
        FontType::AsciiTheme => "w:asciiTheme"@,
        FontType::HiAnsiTheme => "w:hiAnsiTheme"@,
        FontType::EastAsiaTheme => "w:eastAsiaTheme"@,
        FontType::CsTheme => "w:csTheme"@,
        FontType::Default => "w:hint"@,
    }
}

/// The attribute that holds the font of a slot.
pub fn font_attr_name(t: FontType) -> (r: &'static str)
    ensures
        r@ == font_attr_key(t),
{
    match t {
        FontType::Ascii => "w:ascii",
        FontType::HiAnsi => "w:hAnsi",
        FontType::EastAsia => "w:eastAsia",
        FontType::Cs => "w:cs",
        FontType::AsciiTheme => "w:asciiTheme",
        FontType::HiAnsiTheme => "w:hiAnsiTheme",
        FontType::EastAsiaTheme => "w:eastAsiaTheme",
        FontType::CsTheme => "w:csTheme",
        FontType::Default => "w:hint",
    }
}

/// A font marker names at least one slot or the hint.
pub open spec fn names_fonts(attrs: Attrs) -> bool {
    attr_of(attrs, "w:hint"@) is Some || attr_of(attrs, "w:ascii"@) is Some || attr_of(attrs, "w:hAnsi"@) is Some || attr_of(attrs, "w:eastAsia"@) is Some || attr_of(attrs, "w:cs"@) is Some || attr_of(attrs, "w:asciiTheme"@) is Some || attr_of(attrs, "w:hiAnsiTheme"@) is Some || attr_of(attrs, "w:eastAsiaTheme"@) is Some || attr_of(attrs, "w:csTheme"@) is Some
}

/// The font set after a font marker: the hint and each slot that the marker
/// names are set.
pub open spec fn fonts_of(base: FontSetView, attrs: Attrs) -> FontSetView {
    FontSetView {
        hint: match attr_of(attrs, "w:hint"@) {
            Some(v) => FontType::spec_from_wire(v),
            None => base.hint,
        },
        ascii: match attr_of(attrs, "w:ascii"@) {
            Some(x) => Some(x),
            None => base.ascii,
        },
        hi_ansi: match attr_of(attrs, "w:hAnsi"@) {
            Some(x) => Some(x),
            None => base.hi_ansi,
        },
        east_asia: match attr_of(attrs, "w:eastAsia"@) {
            Some(x) => Some(x),
            None => base.east_asia,
        },
        cs: match attr_of(attrs, "w:cs"@) {
            Some(x) => Some(x),
            None => base.cs,
        },
        ascii_theme: match attr_of(attrs, "w:asciiTheme"@) {
            Some(x) => Some(x),
            None => base.ascii_theme,
        },
        hi_ansi_theme: match attr_of(attrs, "w:hiAnsiTheme"@) {
            Some(x) => Some(x),
            None => base.hi_ansi_theme,
        },
        east_asia_theme: match attr_of(attrs, "w:eastAsiaTheme"@) {
            Some(x) => Some(x),
            None => base.east_asia_theme,
        },
        cs_theme: match attr_of(attrs, "w:csTheme"@) {
            Some(x) => Some(x),
            None => base.cs_theme,
        },
    }
}

/// The run formatting after a run-level marker; a number that does not parse
/// fails.
#[verifier::opaque]
pub open spec fn run_marker(p: RunPropertiesView, tag: Tag, attrs: Attrs) -> Result<RunPropertiesView, DecodeFault> {
    let val = attr_of(attrs, "w:val"@);
    match tag {
        Tag::Bold => Ok(RunPropertiesView { bold: flag_of(attrs), ..p }),
        Tag::Italic => Ok(RunPropertiesView { italic: flag_of(attrs), ..p }),
        Tag::Strike => Ok(RunPropertiesView { strike: flag_of(attrs), ..p }),
        Tag::DStrike => Ok(RunPropertiesView { dstrike: flag_of(attrs), ..p }),
        Tag::Underline => Ok(
            match val {
                Some(v) => RunPropertiesView {
                    underline: Some(Underline { value: Some(UnderlineStyle::spec_from_wire(v)) }),
                    ..p
                },
                None => p,
            },
        ),
        Tag::Color => Ok(
            match val {
                Some(v) => RunPropertiesView {
                    color: Some(
                        if is_hex_code(v) {
                            v
                        } else {
                            fallback_hex()
                        },
                    ),
                    ..p
                },
                None => p,
            },
        ),
        Tag::Size => match uint_attr_of(attrs, "w:val"@, 0xffff_ffff) {
            Ok(Some(n)) => Ok(RunPropertiesView { size: Some(n as u32), ..p }),
            Ok(None) => Ok(p),
            Err(e) => Err(e),
        },
        Tag::Spacing => match uint_attr_of(attrs, "w:val"@, 0xffff_ffff) {
            Ok(Some(n)) => Ok(RunPropertiesView { spacing: Some(n as u32), ..p }),
            Ok(None) => Ok(p),
            Err(e) => Err(e),
        },
        Tag::Fonts => Ok(
            if names_fonts(attrs) {
                RunPropertiesView {
                    font: Some(
                        fonts_of(
                            match p.font {
                                Some(f) => f,
                                None => FontSet::default_view(),
                            },
                            attrs,
                        ),
                    ),
                    ..p
                }
            } else {
                p
            },
        ),
        Tag::Highlight => Ok(
            match val {
                Some(v) => RunPropertiesView {
                    highlight: Some(HLColor { value: Some(HighlightPalette::spec_from_wire(v)) }),
                    ..p
                },
                None => p,
            },
        ),
        Tag::VertAlign => Ok(
            match val {
                Some(v) => RunPropertiesView {
                    valign: Some(VerticalAlign { value: AlignValues::spec_from_wire(v) }),
                    ..p
                },
                None => p,
            },
        ),
        _ => Ok(p),
    }
}

/// Applies a run-level marker to `p`.
fn apply_run_marker(p: &mut RunProperties, tag: Tag, attrs: &Vec<XmlAttribute>) -> (r: Result<
    (),
    RudocxError,
>)
    ensures
        match run_marker(old(p)@, tag, attrs_view(attrs@)) {
            Ok(v) => r is Ok && final(p)@ == v,
            Err(f) => r matches Err(e) && fault_of(f, e),
        },
{
    proof {
        reveal(run_marker);
    }
    match tag {
        Tag::Bold => {
            p.bold = flag(attrs);
            Ok(())
        },
        Tag::Italic => {
            p.italic = flag(attrs);
            Ok(())
        },
        Tag::Strike => {
            p.strike = flag(attrs);
            Ok(())
        },
        Tag::DStrike => {
            p.dstrike = flag(attrs);
            Ok(())
        },
        Tag::Underline => {
            if let Some(v) = find_attr(attrs, "w:val") {
                p.underline = Some(Underline::new(UnderlineStyle::from_wire(v.as_str())));
            }
            Ok(())
        },
        Tag::Color => {
            if let Some(v) = find_attr(attrs, "w:val") {
                p.color = Some(HexColor::new(v.as_str()));
            }
            Ok(())
        },
        Tag::Size => match uint_attr(attrs, "w:val", 0xffff_ffff) {
            Ok(Some(n)) => {
                p.size = Some(n);
                Ok(())
            },
            Ok(None) => Ok(()),
            Err(e) => Err(e),
        },
        Tag::Spacing => match uint_attr(attrs, "w:val", 0xffff_ffff) {
            Ok(Some(n)) => {
                p.spacing = Some(n);
                Ok(())
            },
            Ok(None) => Ok(()),
            Err(e) => Err(e),
        },
        Tag::Fonts => {
            apply_fonts(p, attrs);
            Ok(())
        },
        Tag::Highlight => {
            if let Some(v) = find_attr(attrs, "w:val") {
                p.highlight = Some(HLColor::new(HighlightPalette::from_wire(v.as_str())));
            }
            Ok(())
        },
        Tag::VertAlign => {
            if let Some(v) = find_attr(attrs, "w:val") {
                p.valign = Some(VerticalAlign::new(AlignValues::from_wire(v.as_str())));
            }
            Ok(())
        },
        _ => Ok(()),
    }
}

fn apply_fonts(p: &mut RunProperties, attrs: &Vec<XmlAttribute>)
    ensures
        final(p)@ == (if names_fonts(attrs_view(attrs@)) {
            RunPropertiesView {
                font: Some(
                    fonts_of(
                        match old(p)@.font {
                            Some(f) => f,
                            None => FontSet::default_view(),
                        },
                        attrs_view(attrs@),
                    ),
                ),
                ..old(p)@
            }
        } else {
            old(p)@
        }),
{
    let hint = find_attr(attrs, "w:hint");
    let ascii = find_attr(attrs, "w:ascii");
    let hi_ansi = find_attr(attrs, "w:hAnsi");
    let east_asia = find_attr(attrs, "w:eastAsia");
    let cs = find_attr(attrs, "w:cs");
    let ascii_theme = find_attr(attrs, "w:asciiTheme");
    let hi_ansi_theme = find_attr(attrs, "w:hiAnsiTheme");
    let east_asia_theme = find_attr(attrs, "w:eastAsiaTheme");
    let cs_theme = find_attr(attrs, "w:csTheme");
    if !(hint.is_some() || ascii.is_some() || hi_ansi.is_some() || east_asia.is_some() || cs.is_some() || ascii_theme.is_some() || hi_ansi_theme.is_some() || east_asia_theme.is_some() || cs_theme.is_some()) {
        return;
    }
    let base = match p.font.take() {
        Some(f) => f,
        None => FontSet::default(),
    };
    p.font = Some(fonts_from(base, attrs));
}

fn fonts_from(base: FontSet, attrs: &Vec<XmlAttribute>) -> (r: FontSet)
    ensures
        r@ == fonts_of(base@, attrs_view(attrs@)),
{
    let mut set = base;
    if let Some(v) = find_attr(attrs, "w:hint") {
        set.hint = FontType::from_wire(v.as_str());
    }
    if let Some(x) = find_attr(attrs, "w:ascii") {
        set.ascii = Some(x.clone());
    }
    if let Some(x) = find_attr(attrs, "w:hAnsi") {
        set.hi_ansi = Some(x.clone());
    }
    if let Some(x) = find_attr(attrs, "w:eastAsia") {
        set.east_asia = Some(x.clone());
    }
    if let Some(x) = find_attr(attrs, "w:cs") {
        set.cs = Some(x.clone());
    }
    if let Some(x) = find_attr(attrs, "w:asciiTheme") {
        set.ascii_theme = Some(x.clone());
    }
    if let Some(x) = find_attr(attrs, "w:hiAnsiTheme") {
        set.hi_ansi_theme = Some(x.clone());
    }
    if let Some(x) = find_attr(attrs, "w:eastAsiaTheme") {
        set.east_asia_theme = Some(x.clone());
    }
    if let Some(x) = find_attr(attrs, "w:csTheme") {
        set.cs_theme = Some(x.clone());
    }
    set
}

/// A color attribute as `HexColor::new` reads it.
pub open spec fn hex_of(v: Seq<char>) -> Seq<char> {
    if is_hex_code(v) {
        v
    } else {
        fallback_hex()
    }
}

pub open spec fn opt_hex(v: Option<Seq<char>>) -> Option<Seq<char>> {
    match v {
        Some(x) => Some(hex_of(x)),
        None => None,
    }
}

/// A text flag: on unless it says `off`, `0` or `false`.
pub open spec fn text_flag(v: Seq<char>) -> bool {
    !(v == "off"@ || v == "0"@ || v == "false"@)
}

fn text_flag_of(v: &String) -> (r: bool)
    ensures
        r == text_flag(v@),
{
    !(str_eq(v.as_str(), "off") || str_eq(v.as_str(), "0") || str_eq(v.as_str(), "false"))
}

pub open spec fn ok_value(r: Result<Option<int>, DecodeFault>) -> Option<int> {
    match r {
        Ok(Some(n)) => Some(n),
        _ => None,
    }
}

pub open spec fn as_i32(v: Option<int>) -> Option<i32> {
    match v {
        Some(n) => Some(n as i32),
        None => None,
    }
}

pub open spec fn as_u32(v: Option<int>) -> Option<u32> {
    match v {
        Some(n) => Some(n as u32),
        None => None,
    }
}

pub open spec fn as_u8(v: Option<int>) -> Option<u8> {
    match v {
        Some(n) => Some(n as u8),
        None => None,
    }
}

/// The indentation that an `ind` marker gives; a value that is not a number fails.
pub open spec fn ind_of(attrs: Attrs) -> Result<ParagraphIndentation, DecodeFault> {
    if int_attr_of(attrs, "w:left"@) is Ok && int_attr_of(attrs, "w:leftChars"@) is Ok && int_attr_of(attrs, "w:right"@) is Ok && int_attr_of(attrs, "w:rightChars"@) is Ok && int_attr_of(attrs, "w:firstLine"@) is Ok && int_attr_of(attrs, "w:firstLineChars"@) is Ok && int_attr_of(attrs, "w:hanging"@) is Ok && int_attr_of(attrs, "w:hangingChars"@) is Ok {
        Ok(
            ParagraphIndentation {
                left: as_i32(ok_value(int_attr_of(attrs, "w:left"@))),
                left_chars: as_i32(ok_value(int_attr_of(attrs, "w:leftChars"@))),
                right: as_i32(ok_value(int_attr_of(attrs, "w:right"@))),
                right_chars: as_i32(ok_value(int_attr_of(attrs, "w:rightChars"@))),
                first_line: as_i32(ok_value(int_attr_of(attrs, "w:firstLine"@))),
                first_line_chars: as_i32(ok_value(int_attr_of(attrs, "w:firstLineChars"@))),
                hanging: as_i32(ok_value(int_attr_of(attrs, "w:hanging"@))),
                hanging_chars: as_i32(ok_value(int_attr_of(attrs, "w:hangingChars"@))),
            },
        )
    } else {
        Err(DecodeFault::Number)
    }
}

fn read_ind(attrs: &Vec<XmlAttribute>) -> (r: Result<ParagraphIndentation, RudocxError>)
    ensures
        match ind_of(attrs_view(attrs@)) {
            Ok(i) => r == Ok::<ParagraphIndentation, RudocxError>(i),
            Err(f) => r matches Err(e) && fault_of(f, e),
        },
{
    let left = match int_attr(attrs, "w:left") {
        Ok(v) => v,
        Err(e) => return Err(e),
    };
    let left_chars = match int_attr(attrs, "w:leftChars") {
        Ok(v) => v,
        Err(e) => return Err(e),
    };
    let right = match int_attr(attrs, "w:right") {
        Ok(v) => v,
        Err(e) => return Err(e),
    };
    let right_chars = match int_attr(attrs, "w:rightChars") {
        Ok(v) => v,
        Err(e) => return Err(e),
    };
    let first_line = match int_attr(attrs, "w:firstLine") {
        Ok(v) => v,
        Err(e) => return Err(e),
    };
    let first_line_chars = match int_attr(attrs, "w:firstLineChars") {
        Ok(v) => v,
        Err(e) => return Err(e),
    };
    let hanging = match int_attr(attrs, "w:hanging") {
        Ok(v) => v,
        Err(e) => return Err(e),
    };
    let hanging_chars = match int_attr(attrs, "w:hangingChars") {
        Ok(v) => v,
        Err(e) => return Err(e),
    };
    Ok(ParagraphIndentation { left, left_chars, right, right_chars, first_line, first_line_chars, hanging, hanging_chars })
}

/// The spacing that a paragraph `spacing` marker gives.
pub open spec fn spacing_of(attrs: Attrs) -> Result<ParagraphSpacing, DecodeFault> {
    let before = uint_attr_of(attrs, "w:before"@, 0xffff_ffff);
    let after = uint_attr_of(attrs, "w:after"@, 0xffff_ffff);
    let line = uint_attr_of(attrs, "w:line"@, 0xffff_ffff);
    if before is Ok && after is Ok && line is Ok {
        Ok(
            ParagraphSpacing {
                before: as_u32(ok_value(before)),
                after: as_u32(ok_value(after)),
                line: as_u32(ok_value(line)),
                line_rule: match attr_of(attrs, "w:lineRule"@) {
                    Some(v) => Some(LineRule::spec_from_wire(v)),
                    None => None,
                },
                before_autospacing: match attr_of(attrs, "w:beforeAutospacing"@) {
                    Some(v) => Some(text_flag(v)),
                    None => None,
                },
                after_autospacing: match attr_of(attrs, "w:afterAutospacing"@) {
                    Some(v) => Some(text_flag(v)),
                    None => None,
                },
            },
        )
    } else {
        Err(DecodeFault::Number)
    }
}

fn read_spacing(attrs: &Vec<XmlAttribute>) -> (r: Result<ParagraphSpacing, RudocxError>)
    ensures
        match spacing_of(attrs_view(attrs@)) {
            Ok(s) => r == Ok::<ParagraphSpacing, RudocxError>(s),
            Err(f) => r matches Err(e) && fault_of(f, e),
        },
{
    let before = match uint_attr(attrs, "w:before", 0xffff_ffff) {
        Ok(v) => v,
        Err(e) => return Err(e),
    };
    let after = match uint_attr(attrs, "w:after", 0xffff_ffff) {
        Ok(v) => v,
        Err(e) => return Err(e),
    };
    let line = match uint_attr(attrs, "w:line", 0xffff_ffff) {
        Ok(v) => v,
        Err(e) => return Err(e),
    };
    let line_rule = match find_attr(attrs, "w:lineRule") {
        Some(v) => Some(LineRule::from_wire(v.as_str())),
        None => None,
    };
    let before_autospacing = match find_attr(attrs, "w:beforeAutospacing") {
        Some(v) => Some(text_flag_of(v)),
        None => None,
    };
    let after_autospacing = match find_attr(attrs, "w:afterAutospacing") {
        Some(v) => Some(text_flag_of(v)),
        None => None,
    };
    Ok(ParagraphSpacing { before, after, line, line_rule, before_autospacing, after_autospacing })
}

/// The side that a border marker gives: style `single` unless `w:val` says
/// otherwise, and the size, space and color it names.
pub open spec fn side_of(attrs: Attrs) -> Result<ParagraphBorderSideView, DecodeFault> {
    let sz = uint_attr_of(attrs, "w:sz"@, 255);
    let space = uint_attr_of(attrs, "w:space"@, 255);
    if sz is Ok && space is Ok {
        Ok(
            ParagraphBorderSideView {
                val: match attr_of(attrs, "w:val"@) {
                    Some(v) => ParagraphBorderStyle::spec_from_wire(v),
                    None => ParagraphBorderStyle::Single,
                },
                sz: as_u8(ok_value(sz)),
                space: as_u8(ok_value(space)),
                color: opt_hex(attr_of(attrs, "w:color"@)),
            },
        )
    } else {
        Err(DecodeFault::Number)
    }
}

fn read_hex(attrs: &Vec<XmlAttribute>, key: &str) -> (r: Option<HexColor>)
    ensures
        color_view(r) == opt_hex(attr_of(attrs_view(attrs@), key@)),
{
    match find_attr(attrs, key) {
        Some(v) => Some(HexColor::new(v.as_str())),
        None => None,
    }
}

fn read_side(attrs: &Vec<XmlAttribute>) -> (r: Result<ParagraphBorderSide, RudocxError>)
    ensures
        match side_of(attrs_view(attrs@)) {
            Ok(s) => r matches Ok(x) && x@ == s,
            Err(f) => r matches Err(e) && fault_of(f, e),
        },
{
    let sz = match uint_attr(attrs, "w:sz", 255) {
        Ok(v) => v,
        Err(e) => return Err(e),
    };
    let space = match uint_attr(attrs, "w:space", 255) {
        Ok(v) => v,
        Err(e) => return Err(e),
    };
    let val = match find_attr(attrs, "w:val") {
        Some(v) => ParagraphBorderStyle::from_wire(v.as_str()),
        None => ParagraphBorderStyle::Single,
    };
    let sz = match sz {
        Some(n) => Some(n as u8),
        None => None,
    };
    let space = match space {
        Some(n) => Some(n as u8),
        None => None,
    };
    Ok(ParagraphBorderSide { val, sz, space, color: read_hex(attrs, "w:color") })
}

/// The shading that a `shd` marker gives: a solid fill unless `w:val` names
/// another; a `pct` value that is not a number fails.
pub open spec fn shading_of(attrs: Attrs) -> Result<ParagraphShadingView, DecodeFault> {
    let val = match attr_of(attrs, "w:val"@) {
        Some(v) => ParagraphShadingValuesView::spec_from_wire(v),
        None => Some(ParagraphShadingValuesView::Clear),
    };
    match val {
        Some(v) => Ok(
            ParagraphShadingView {
                val: v,
                fill: opt_hex(attr_of(attrs, "w:fill"@)),
                color: opt_hex(attr_of(attrs, "w:color"@)),
            },
        ),
        None => Err(DecodeFault::Shading),
    }
}

fn read_shading(attrs: &Vec<XmlAttribute>) -> (r: Result<ParagraphShading, RudocxError>)
    ensures
        match shading_of(attrs_view(attrs@)) {
            Ok(s) => r matches Ok(x) && x@ == s,
            Err(f) => r matches Err(e) && fault_of(f, e),
        },
{
    let val = match find_attr(attrs, "w:val") {
        Some(v) => match ParagraphShadingValues::from_wire(v.as_str()) {
            Ok(x) => x,
            Err(e) => return Err(RudocxError::RunPropertyError(e)),
        },
        None => ParagraphShadingValues::Clear,
    };
    Ok(ParagraphShading { val, fill: read_hex(attrs, "w:fill"), color: read_hex(attrs, "w:color") })
}

/// The tab stop that a `tab` marker gives; a missing position is zero.
pub open spec fn tab_of(attrs: Attrs) -> Result<ParagraphTab, DecodeFault> {
    match int_attr_of(attrs, "w:pos"@) {
        Ok(pos) => Ok(
            ParagraphTab {
                val: match attr_of(attrs, "w:val"@) {
                    Some(v) => ParagraphTabValues::spec_from_wire(v),
                    None => ParagraphTabValues::Clear,
                },
                pos: match pos {
                    Some(n) => n as i32,
                    None => 0,
                },
                leader: match attr_of(attrs, "w:leader"@) {
                    Some(v) => Some(ParagraphTabLeaders::spec_from_wire(v)),
                    None => None,
                },
            },
        ),
        Err(e) => Err(e),
    }
}

fn read_tab(attrs: &Vec<XmlAttribute>) -> (r: Result<ParagraphTab, RudocxError>)
    ensures
        match tab_of(attrs_view(attrs@)) {
            Ok(t) => r == Ok::<ParagraphTab, RudocxError>(t),
            Err(f) => r matches Err(e) && fault_of(f, e),
        },
{
    let pos = match int_attr(attrs, "w:pos") {
        Ok(Some(n)) => n,
        Ok(None) => 0,
        Err(e) => return Err(e),
    };
    let val = match find_attr(attrs, "w:val") {
        Some(v) => ParagraphTabValues::from_wire(v.as_str()),
        None => ParagraphTabValues::Clear,
    };
    let leader = match find_attr(attrs, "w:leader") {
        Some(v) => Some(ParagraphTabLeaders::from_wire(v.as_str())),
        None => None,
    };
    Ok(ParagraphTab { val, pos, leader })
}

/// The boolean markers of a paragraph.
pub open spec fn is_paragraph_flag(tag: Tag) -> bool {
    tag == Tag::KeepNext || tag == Tag::KeepLines || tag == Tag::PageBreakBefore || tag == Tag::WindowControl || tag == Tag::SuppressLineNumbers || tag == Tag::SuppressAutoHyphens || tag == Tag::WordWrap || tag == Tag::ToplinePunct || tag == Tag::AutospaceDe || tag == Tag::AutospaceDn || tag == Tag::Bidi || tag == Tag::SnapToGrid || tag == Tag::ContextualSpacing || tag == Tag::MirrorIndents || tag == Tag::SuppressOverlap
}

fn paragraph_flag_tag(tag: Tag) -> (r: bool)
    ensures
        r == is_paragraph_flag(tag),
{
    match tag {
        Tag::KeepNext | Tag::KeepLines | Tag::PageBreakBefore | Tag::WindowControl | Tag::SuppressLineNumbers | Tag::SuppressAutoHyphens | Tag::WordWrap | Tag::ToplinePunct | Tag::AutospaceDe | Tag::AutospaceDn | Tag::Bidi | Tag::SnapToGrid | Tag::ContextualSpacing | Tag::MirrorIndents | Tag::SuppressOverlap => true,
        _ => false,
    }
}

/// The paragraph formatting after a boolean marker.
pub open spec fn flag_marker(pp: ParagraphPropertiesView, tag: Tag, attrs: Attrs) -> ParagraphPropertiesView {
    match tag {
        Tag::KeepNext => ParagraphPropertiesView { keep_next: flag_of(attrs), ..pp },
        Tag::KeepLines => ParagraphPropertiesView { keep_lines: flag_of(attrs), ..pp },
        Tag::PageBreakBefore => ParagraphPropertiesView { page_break_before: flag_of(attrs), ..pp },
        Tag::WindowControl => ParagraphPropertiesView { window_control: flag_of(attrs), ..pp },
        Tag::SuppressLineNumbers => ParagraphPropertiesView { suppress_line_numbers: flag_of(attrs), ..pp },
        Tag::SuppressAutoHyphens => ParagraphPropertiesView { suppress_auto_hyphens: flag_of(attrs), ..pp },
        Tag::WordWrap => ParagraphPropertiesView { word_wrap: flag_of(attrs), ..pp },
        Tag::ToplinePunct => ParagraphPropertiesView { topline_punct: flag_of(attrs), ..pp },
        Tag::AutospaceDe => ParagraphPropertiesView { autospace_de: flag_of(attrs), ..pp },
        Tag::AutospaceDn => ParagraphPropertiesView { autospace_dn: flag_of(attrs), ..pp },
        Tag::Bidi => ParagraphPropertiesView { bidi: flag_of(attrs), ..pp },
        Tag::SnapToGrid => ParagraphPropertiesView { snap_to_grid: flag_of(attrs), ..pp },
        Tag::ContextualSpacing => ParagraphPropertiesView { contextual_spacing: flag_of(attrs), ..pp },
        Tag::MirrorIndents => ParagraphPropertiesView { mirror_indents: flag_of(attrs), ..pp },
        Tag::SuppressOverlap => ParagraphPropertiesView { suppress_overlap: flag_of(attrs), ..pp },
        _ => pp,
    }
}

fn set_keep_next(pp: &mut ParagraphProperties, b: bool)
    ensures
        final(pp)@ == (ParagraphPropertiesView { keep_next: b, ..old(pp)@ }),
{
    pp.keep_next = b;
}

fn set_keep_lines(pp: &mut ParagraphProperties, b: bool)
    ensures
        final(pp)@ == (ParagraphPropertiesView { keep_lines: b, ..old(pp)@ }),
{
    pp.keep_lines = b;
}

fn set_page_break_before(pp: &mut ParagraphProperties, b: bool)
    ensures
        final(pp)@ == (ParagraphPropertiesView { page_break_before: b, ..old(pp)@ }),
{
    pp.page_break_before = b;
}

fn set_window_control(pp: &mut ParagraphProperties, b: bool)
    ensures
        final(pp)@ == (ParagraphPropertiesView { window_control: b, ..old(pp)@ }),
{
    pp.window_control = b;
}

fn set_suppress_line_numbers(pp: &mut ParagraphProperties, b: bool)
    ensures
        final(pp)@ == (ParagraphPropertiesView { suppress_line_numbers: b, ..old(pp)@ }),
{
    pp.suppress_line_numbers = b;
}

fn set_suppress_auto_hyphens(pp: &mut ParagraphProperties, b: bool)
    ensures
        final(pp)@ == (ParagraphPropertiesView { suppress_auto_hyphens: b, ..old(pp)@ }),
{
    pp.suppress_auto_hyphens = b;
}

fn set_word_wrap(pp: &mut ParagraphProperties, b: bool)
    ensures
        final(pp)@ == (ParagraphPropertiesView { word_wrap: b, ..old(pp)@ }),
{
    pp.word_wrap = b;
}

fn set_topline_punct(pp: &mut ParagraphProperties, b: bool)
    ensures
        final(pp)@ == (ParagraphPropertiesView { topline_punct: b, ..old(pp)@ }),
{
    pp.topline_punct = b;
}

fn set_autospace_de(pp: &mut ParagraphProperties, b: bool)
    ensures
        final(pp)@ == (ParagraphPropertiesView { autospace_de: b, ..old(pp)@ }),
{
    pp.autospace_de = b;
}

fn set_autospace_dn(pp: &mut ParagraphProperties, b: bool)
    ensures
        final(pp)@ == (ParagraphPropertiesView { autospace_dn: b, ..old(pp)@ }),
{
    pp.autospace_dn = b;
}

fn set_bidi(pp: &mut ParagraphProperties, b: bool)
    ensures
        final(pp)@ == (ParagraphPropertiesView { bidi: b, ..old(pp)@ }),
{
    pp.bidi = b;
}

fn set_snap_to_grid(pp: &mut ParagraphProperties, b: bool)
    ensures
        final(pp)@ == (ParagraphPropertiesView { snap_to_grid: b, ..old(pp)@ }),
{
    pp.snap_to_grid = b;
}

fn set_contextual_spacing(pp: &mut ParagraphProperties, b: bool)
    ensures
        final(pp)@ == (ParagraphPropertiesView { contextual_spacing: b, ..old(pp)@ }),
{
    pp.contextual_spacing = b;
}

fn set_mirror_indents(pp: &mut ParagraphProperties, b: bool)
    ensures
        final(pp)@ == (ParagraphPropertiesView { mirror_indents: b, ..old(pp)@ }),
{
    pp.mirror_indents = b;
}

fn set_suppress_overlap(pp: &mut ParagraphProperties, b: bool)
    ensures
        final(pp)@ == (ParagraphPropertiesView { suppress_overlap: b, ..old(pp)@ }),
{
    pp.suppress_overlap = b;
}

fn apply_flag_marker(pp: &mut ParagraphProperties, tag: Tag, attrs: &Vec<XmlAttribute>)
    ensures
        final(pp)@ == flag_marker(old(pp)@, tag, attrs_view(attrs@)),
{
    let b = flag(attrs);
    match tag {
        Tag::KeepNext => set_keep_next(pp, b),
        Tag::KeepLines => set_keep_lines(pp, b),
        Tag::PageBreakBefore => set_page_break_before(pp, b),
        Tag::WindowControl => set_window_control(pp, b),
        Tag::SuppressLineNumbers => set_suppress_line_numbers(pp, b),
        Tag::SuppressAutoHyphens => set_suppress_auto_hyphens(pp, b),
        Tag::WordWrap => set_word_wrap(pp, b),
        Tag::ToplinePunct => set_topline_punct(pp, b),
        Tag::AutospaceDe => set_autospace_de(pp, b),
        Tag::AutospaceDn => set_autospace_dn(pp, b),
        Tag::Bidi => set_bidi(pp, b),
        Tag::SnapToGrid => set_snap_to_grid(pp, b),
        Tag::ContextualSpacing => set_contextual_spacing(pp, b),
        Tag::MirrorIndents => set_mirror_indents(pp, b),
        Tag::SuppressOverlap => set_suppress_overlap(pp, b),
        _ => {},
    }
}

/// The paragraph formatting after a paragraph-level marker; a number or a
/// shading that does not parse fails.
#[verifier::opaque]
pub open spec fn paragraph_marker(pp: ParagraphPropertiesView, tag: Tag, attrs: Attrs) -> Result<
    ParagraphPropertiesView,
    DecodeFault,
> {
    if is_paragraph_flag(tag) {
        Ok(flag_marker(pp, tag, attrs))
    } else {
        let val = attr_of(attrs, "w:val"@);
        match tag {
            Tag::Jc => Ok(
                match val {
                    Some(v) => ParagraphPropertiesView {
                        jc: Some(
                            ParagraphJustification {
                                val: ParagraphJustificationValues::spec_from_wire(v),
                            },
                        ),
                        ..pp
                    },
                    None => pp,
                },
            ),
            Tag::TextDirection | Tag::TextFlow => Ok(
                match val {
                    Some(v) => ParagraphPropertiesView {
                        text_direction: Some(
                            ParagraphTextDir { val: ParagraphTextDirValues::spec_from_wire(v) },
                        ),
                        ..pp
                    },
                    None => pp,
                },
            ),
            Tag::TextAlignment => Ok(
                match val {
                    Some(v) => ParagraphPropertiesView {
                        text_alignment: Some(
                            ParagraphTextAlign { val: ParagraphTextAlignValues::spec_from_wire(v) },
                        ),
                        ..pp
                    },
                    None => pp,
                },
            ),
            Tag::TextboxTightWrap => Ok(
                match val {
                    Some(v) => ParagraphPropertiesView {
                        textbox_tight_wrap: Some(
                            ParagraphTBoxTightWrap {
                                val: ParagraphTBoxTightWrapValues::spec_from_wire(v),
                            },
                        ),
                        ..pp
                    },
                    None => pp,
                },
            ),
            Tag::OutlineLevel => Ok(
                match val {
                    Some(v) => ParagraphPropertiesView {
                        outline_level: Some(
                            match parse_unsigned(v, 255) {
                                Some(n) => n as u8,
                                None => 0u8,
                            },
                        ),
                        ..pp
                    },
                    None => pp,
                },
            ),
            Tag::Ind => match ind_of(attrs) {
                Ok(i) => Ok(ParagraphPropertiesView { ind: Some(i), ..pp }),
                Err(e) => Err(e),
            },
            Tag::Spacing => match spacing_of(attrs) {
                Ok(s) => Ok(ParagraphPropertiesView { spacing: Some(s), ..pp }),
                Err(e) => Err(e),
            },
            Tag::Shading => match shading_of(attrs) {
                Ok(s) => Ok(ParagraphPropertiesView { shading: Some(s), ..pp }),
                Err(e) => Err(e),
            },
            Tag::BorderTop | Tag::BorderLeft | Tag::BorderBottom | Tag::BorderRight
            | Tag::BorderBetween => match pp.paragraph_borders {
                Some(b) => match side_of(attrs) {
                    Ok(s) => Ok(
                        ParagraphPropertiesView {
                            paragraph_borders: Some(with_side(b, tag, s)),
                            ..pp
                        },
                    ),
                    Err(e) => Err(e),
                },
                None => Ok(pp),
            },
            Tag::Tab => match pp.tabs {
                Some(t) => match tab_of(attrs) {
                    Ok(x) => Ok(ParagraphPropertiesView { tabs: Some(t.push(x)), ..pp }),
                    Err(e) => Err(e),
                },
                None => Ok(pp),
            },
            Tag::Ilvl => match pp.numbering_properties {
                Some(n) => match uint_attr_of(attrs, "w:val"@, 255) {
                    Ok(Some(v)) => Ok(
                        ParagraphPropertiesView {
                            numbering_properties: Some(
                                ParagraphNumberingProperties { ilvl: v as u8, ..n },
                            ),
                            ..pp
                        },
                    ),
                    Ok(None) => Ok(pp),
                    Err(e) => Err(e),
                },
                None => Ok(pp),
            },
            Tag::NumId => match pp.numbering_properties {
                Some(n) => match uint_attr_of(attrs, "w:val"@, 0xffff_ffff) {
                    Ok(Some(v)) => Ok(
                        ParagraphPropertiesView {
                            numbering_properties: Some(
                                ParagraphNumberingProperties { num_id: v as u32, ..n },
                            ),
                            ..pp
                        },
                    ),
                    Ok(None) => Ok(pp),
                    Err(e) => Err(e),
                },
                None => Ok(pp),
            },
            _ => Ok(pp),
        }
    }
}

/// The border with the side that `tag` names replaced by `s`.
pub open spec fn with_side(b: ParagraphBorderView, tag: Tag, s: ParagraphBorderSideView) -> ParagraphBorderView {
    match tag {
        Tag::BorderTop => ParagraphBorderView { top: Some(s), ..b },
        Tag::BorderLeft => ParagraphBorderView { left: Some(s), ..b },
        Tag::BorderBottom => ParagraphBorderView { bottom: Some(s), ..b },
        Tag::BorderRight => ParagraphBorderView { right: Some(s), ..b },
        Tag::BorderBetween => ParagraphBorderView { between: Some(s), ..b },
        _ => b,
    }
}

fn set_side(b: &mut ParagraphBorder, tag: Tag, s: ParagraphBorderSide)
    ensures
        final(b)@ == with_side(old(b)@, tag, s@),
{
    match tag {
        Tag::BorderTop => b.top = Some(s),
        Tag::BorderLeft => b.left = Some(s),
        Tag::BorderBottom => b.bottom = Some(s),
        Tag::BorderRight => b.right = Some(s),
        Tag::BorderBetween => b.between = Some(s),
        _ => {},
    }
}

fn set_jc(pp: &mut ParagraphProperties, v: Option<ParagraphJustification>)
    ensures
        final(pp)@ == (ParagraphPropertiesView { jc: v, ..old(pp)@ }),
{
    pp.jc = v;
}

fn set_text_direction(pp: &mut ParagraphProperties, v: Option<ParagraphTextDir>)
    ensures
        final(pp)@ == (ParagraphPropertiesView { text_direction: v, ..old(pp)@ }),
{
    pp.text_direction = v;
}

fn set_text_alignment(pp: &mut ParagraphProperties, v: Option<ParagraphTextAlign>)
    ensures
        final(pp)@ == (ParagraphPropertiesView { text_alignment: v, ..old(pp)@ }),
{
    pp.text_alignment = v;
}

fn set_textbox_tight_wrap(pp: &mut ParagraphProperties, v: Option<ParagraphTBoxTightWrap>)
    ensures
        final(pp)@ == (ParagraphPropertiesView { textbox_tight_wrap: v, ..old(pp)@ }),
{
    pp.textbox_tight_wrap = v;
}

fn set_outline_level(pp: &mut ParagraphProperties, v: Option<u8>)
    ensures
        final(pp)@ == (ParagraphPropertiesView { outline_level: v, ..old(pp)@ }),
{
    pp.outline_level = v;
}

fn set_ind(pp: &mut ParagraphProperties, v: Option<ParagraphIndentation>)
    ensures
        final(pp)@ == (ParagraphPropertiesView { ind: v, ..old(pp)@ }),
{
    pp.ind = v;
}

fn set_spacing(pp: &mut ParagraphProperties, v: Option<ParagraphSpacing>)
    ensures
        final(pp)@ == (ParagraphPropertiesView { spacing: v, ..old(pp)@ }),
{
    pp.spacing = v;
}

fn set_numbering_properties(pp: &mut ParagraphProperties, v: Option<ParagraphNumberingProperties>)
    ensures
        final(pp)@ == (ParagraphPropertiesView { numbering_properties: v, ..old(pp)@ }),
{
    pp.numbering_properties = v;
}

fn set_shading(pp: &mut ParagraphProperties, v: ParagraphShading)
    ensures
        final(pp)@ == (ParagraphPropertiesView { shading: Some(v@), ..old(pp)@ }),
{
    proof {
        reveal(shading_view);
    }
    pp.shading = Some(v);
}

fn set_borders(pp: &mut ParagraphProperties, v: ParagraphBorder)
    ensures
        final(pp)@ == (ParagraphPropertiesView { paragraph_borders: Some(v@), ..old(pp)@ }),
{
    proof {
        reveal(borders_view);
    }
    pp.paragraph_borders = Some(v);
}

fn take_borders(pp: &mut ParagraphProperties) -> (r: Option<ParagraphBorder>)
    ensures
        old(pp)@.paragraph_borders == (match r {
            Some(b) => Some(b@),
            None => None,
        }),
        final(pp)@ == (ParagraphPropertiesView { paragraph_borders: None, ..old(pp)@ }),
{
    proof {
        reveal(borders_view);
    }
    pp.paragraph_borders.take()
}

fn set_tabs(pp: &mut ParagraphProperties, v: Vec<ParagraphTab>)
    ensures
        final(pp)@ == (ParagraphPropertiesView { tabs: Some(v@), ..old(pp)@ }),
{
    proof {
        reveal(tabs_view);
    }
    pp.tabs = Some(v);
}

fn take_tabs(pp: &mut ParagraphProperties) -> (r: Option<Vec<ParagraphTab>>)
    ensures
        old(pp)@.tabs == (match r {
            Some(t) => Some(t@),
            None => None,
        }),
        final(pp)@ == (ParagraphPropertiesView { tabs: None, ..old(pp)@ }),
{
    proof {
        reveal(tabs_view);
    }
    pp.tabs.take()
}

fn apply_jc(pp: &mut ParagraphProperties, attrs: &Vec<XmlAttribute>) -> (r: Result<(), RudocxError>)
    ensures
        match paragraph_marker(old(pp)@, Tag::Jc, attrs_view(attrs@)) {
            Ok(v) => r is Ok && final(pp)@ == v,
            Err(f) => r matches Err(e) && fault_of(f, e),
        },
{
    proof {
        reveal(paragraph_marker);
    }
    {
            if let Some(v) = find_attr(attrs, "w:val") {
                set_jc(
                    pp,
                    Some(
                        ParagraphJustification::new(
                            ParagraphJustificationValues::from_wire(v.as_str()),
                        ),
                    ),
                );
            }
            Ok(())
        }
}

fn apply_text_direction(pp: &mut ParagraphProperties, tag: Tag, attrs: &Vec<XmlAttribute>) -> (r: Result<(), RudocxError>)
    requires
        tag == Tag::TextDirection || tag == Tag::TextFlow,
    ensures
        match paragraph_marker(old(pp)@, tag, attrs_view(attrs@)) {
            Ok(v) => r is Ok && final(pp)@ == v,
            Err(f) => r matches Err(e) && fault_of(f, e),
        },
{
    proof {
        reveal(paragraph_marker);
    }
    {
            if let Some(v) = find_attr(attrs, "w:val") {
                set_text_direction(
                    pp,
                    Some(ParagraphTextDir::new(ParagraphTextDirValues::from_wire(v.as_str()))),
                );
            }
            Ok(())
        }
}

fn apply_text_alignment(pp: &mut ParagraphProperties, attrs: &Vec<XmlAttribute>) -> (r: Result<(), RudocxError>)
    ensures
        match paragraph_marker(old(pp)@, Tag::TextAlignment, attrs_view(attrs@)) {
            Ok(v) => r is Ok && final(pp)@ == v,
            Err(f) => r matches Err(e) && fault_of(f, e),
        },
{
    proof {
        reveal(paragraph_marker);
    }
    {
            if let Some(v) = find_attr(attrs, "w:val") {
                set_text_alignment(
                    pp,
                    Some(ParagraphTextAlign::new(ParagraphTextAlignValues::from_wire(v.as_str()))),
                );
            }
            Ok(())
        }
}

fn apply_textbox_tight_wrap(pp: &mut ParagraphProperties, attrs: &Vec<XmlAttribute>) -> (r: Result<(), RudocxError>)
    ensures
        match paragraph_marker(old(pp)@, Tag::TextboxTightWrap, attrs_view(attrs@)) {
            Ok(v) => r is Ok && final(pp)@ == v,
            Err(f) => r matches Err(e) && fault_of(f, e),
        },
{
    proof {
        reveal(paragraph_marker);
    }
    {
            if let Some(v) = find_attr(attrs, "w:val") {
                set_textbox_tight_wrap(
                    pp,
                    Some(
                        ParagraphTBoxTightWrap::new(
                            ParagraphTBoxTightWrapValues::from_wire(v.as_str()),
                        ),
                    ),
                );
            }
            Ok(())
        }
}

fn apply_outline_level(pp: &mut ParagraphProperties, attrs: &Vec<XmlAttribute>) -> (r: Result<(), RudocxError>)
    ensures
        match paragraph_marker(old(pp)@, Tag::OutlineLevel, attrs_view(attrs@)) {
            Ok(v) => r is Ok && final(pp)@ == v,
            Err(f) => r matches Err(e) && fault_of(f, e),
        },
{
    proof {
        reveal(paragraph_marker);
    }
    {
            if let Some(v) = find_attr(attrs, "w:val") {
                proof {
                    lemma_parse_unsigned_range(v@, 255);
                }
                set_outline_level(
                    pp,
                    Some(
                        match parse_unsigned_str(v.as_str(), 255) {
                            Some(n) => n as u8,
                            None => 0,
                        },
                    ),
                );
            }
            Ok(())
        }
}

fn apply_ind(pp: &mut ParagraphProperties, attrs: &Vec<XmlAttribute>) -> (r: Result<(), RudocxError>)
    ensures
        match paragraph_marker(old(pp)@, Tag::Ind, attrs_view(attrs@)) {
            Ok(v) => r is Ok && final(pp)@ == v,
            Err(f) => r matches Err(e) && fault_of(f, e),
        },
{
    proof {
        reveal(paragraph_marker);
    }
    match read_ind(attrs) {
            Ok(i) => {
                set_ind(pp, Some(i));
                Ok(())
            },
            Err(e) => Err(e),
        }
}

fn apply_spacing(pp: &mut ParagraphProperties, attrs: &Vec<XmlAttribute>) -> (r: Result<(), RudocxError>)
    ensures
        match paragraph_marker(old(pp)@, Tag::Spacing, attrs_view(attrs@)) {
            Ok(v) => r is Ok && final(pp)@ == v,
            Err(f) => r matches Err(e) && fault_of(f, e),
        },
{
    proof {
        reveal(paragraph_marker);
    }
    match read_spacing(attrs) {
            Ok(s) => {
                set_spacing(pp, Some(s));
                Ok(())
            },
            Err(e) => Err(e),
        }
}

fn apply_shading(pp: &mut ParagraphProperties, attrs: &Vec<XmlAttribute>) -> (r: Result<(), RudocxError>)
    ensures
        match paragraph_marker(old(pp)@, Tag::Shading, attrs_view(attrs@)) {
            Ok(v) => r is Ok && final(pp)@ == v,
            Err(f) => r matches Err(e) && fault_of(f, e),
        },
{
    proof {
        reveal(paragraph_marker);
    }
    match read_shading(attrs) {
            Ok(s) => {
                set_shading(pp, s);
                Ok(())
            },
            Err(e) => Err(e),
        }
}

fn apply_border_side(pp: &mut ParagraphProperties, tag: Tag, attrs: &Vec<XmlAttribute>) -> (r: Result<(), RudocxError>)
    requires
        tag == Tag::BorderTop || tag == Tag::BorderLeft || tag == Tag::BorderBottom || tag == Tag::BorderRight || tag == Tag::BorderBetween,
    ensures
        match paragraph_marker(old(pp)@, tag, attrs_view(attrs@)) {
            Ok(v) => r is Ok && final(pp)@ == v,
            Err(f) => r matches Err(e) && fault_of(f, e),
        },
{
    proof {
        reveal(paragraph_marker);
    }
    match take_borders(pp) {
            Some(b) => match read_side(attrs) {
                Ok(s) => {
                    let mut b = b;
                    set_side(&mut b, tag, s);
                    set_borders(pp, b);
                    Ok(())
                },
                Err(e) => Err(e),
            },
            None => Ok(()),
        }
}

fn apply_tab(pp: &mut ParagraphProperties, attrs: &Vec<XmlAttribute>) -> (r: Result<(), RudocxError>)
    ensures
        match paragraph_marker(old(pp)@, Tag::Tab, attrs_view(attrs@)) {
            Ok(v) => r is Ok && final(pp)@ == v,
            Err(f) => r matches Err(e) && fault_of(f, e),
        },
{
    proof {
        reveal(paragraph_marker);
    }
    match take_tabs(pp) {
            Some(t) => match read_tab(attrs) {
                Ok(x) => {
                    let mut t = t;
                    t.push(x);
                    set_tabs(pp, t);
                    Ok(())
                },
                Err(e) => Err(e),
            },
            None => Ok(()),
        }
}

fn apply_ilvl(pp: &mut ParagraphProperties, attrs: &Vec<XmlAttribute>) -> (r: Result<(), RudocxError>)
    ensures
        match paragraph_marker(old(pp)@, Tag::Ilvl, attrs_view(attrs@)) {
            Ok(v) => r is Ok && final(pp)@ == v,
            Err(f) => r matches Err(e) && fault_of(f, e),
        },
{
    proof {
        reveal(paragraph_marker);
    }
    match pp.numbering_properties {
            Some(n) => match uint_attr(attrs, "w:val", 255) {
                Ok(Some(v)) => {
                    set_numbering_properties(
                        pp,
                        Some(ParagraphNumberingProperties { ilvl: v as u8, num_id: n.num_id }),
                    );
                    Ok(())
                },
                Ok(None) => Ok(()),
                Err(e) => Err(e),
            },
            None => Ok(()),
        }
}

fn apply_num_id(pp: &mut ParagraphProperties, attrs: &Vec<XmlAttribute>) -> (r: Result<(), RudocxError>)
    ensures
        match paragraph_marker(old(pp)@, Tag::NumId, attrs_view(attrs@)) {
            Ok(v) => r is Ok && final(pp)@ == v,
            Err(f) => r matches Err(e) && fault_of(f, e),
        },
{
    proof {
        reveal(paragraph_marker);
    }
    match pp.numbering_properties {
            Some(n) => match uint_attr(attrs, "w:val", 0xffff_ffff) {
                Ok(Some(v)) => {
                    set_numbering_properties(
                        pp,
                        Some(ParagraphNumberingProperties { ilvl: n.ilvl, num_id: v }),
                    );
                    Ok(())
                },
                Ok(None) => Ok(()),
                Err(e) => Err(e),
            },
            None => Ok(()),
        }
}

fn apply_paragraph_marker(
    pp: &mut ParagraphProperties,
    tag: Tag,
    attrs: &Vec<XmlAttribute>,
) -> (r: Result<(), RudocxError>)
    ensures
        match paragraph_marker(old(pp)@, tag, attrs_view(attrs@)) {
            Ok(v) => r is Ok && final(pp)@ == v,
            Err(f) => r matches Err(e) && fault_of(f, e),
        },
{
    proof {
        reveal(paragraph_marker);
    }
    if paragraph_flag_tag(tag) {
        apply_flag_marker(pp, tag, attrs);
        return Ok(());
    }
    match tag {
        Tag::Jc => apply_jc(pp, attrs),
        Tag::TextDirection | Tag::TextFlow => apply_text_direction(pp, tag, attrs),
        Tag::TextAlignment => apply_text_alignment(pp, attrs),
        Tag::TextboxTightWrap => apply_textbox_tight_wrap(pp, attrs),
        Tag::OutlineLevel => apply_outline_level(pp, attrs),
        Tag::Ind => apply_ind(pp, attrs),
        Tag::Spacing => apply_spacing(pp, attrs),
        Tag::Shading => apply_shading(pp, attrs),
        Tag::BorderTop | Tag::BorderLeft | Tag::BorderBottom | Tag::BorderRight
        | Tag::BorderBetween => apply_border_side(pp, tag, attrs),
        Tag::Tab => apply_tab(pp, attrs),
        Tag::Ilvl => apply_ilvl(pp, attrs),
        Tag::NumId => apply_num_id(pp, attrs),
        _ => Ok(()),
    }
}

/// What the decoder holds between events: the finished paragraphs and the
/// paragraph, hyperlink and run being built, with the property scopes it is in.
pub ghost struct DecodeState {
    pub document: Seq<ParagraphView>,
    pub paragraph: Option<ParagraphView>,
    pub in_paragraph_properties: bool,
    pub in_default_run_properties: bool,
    pub hyperlink: Option<HyperlinkView>,
    pub run: Option<RunView>,
    pub in_run_properties: bool,
}

pub open spec fn initial_state() -> DecodeState {
    DecodeState {
        document: Seq::empty(),
        paragraph: None,
        in_paragraph_properties: false,
        in_default_run_properties: false,
        hyperlink: None,
        run: None,
        in_run_properties: false,
    }
}

/// `p` with `c` appended to its children; nothing without a paragraph.
pub open spec fn push_child(p: Option<ParagraphView>, c: ParagraphChildView) -> Option<ParagraphView> {
    match p {
        Some(x) => Some(ParagraphView { children: x.children.push(c), ..x }),
        None => None,
    }
}

/// The pending run moves to the paragraph's children.
pub open spec fn run_to_paragraph(s: DecodeState) -> DecodeState {
    match s.run {
        Some(r) => DecodeState {
            paragraph: push_child(s.paragraph, ParagraphChildView::Run(r)),
            run: None,
            ..s
        },
        None => s,
    }
}

/// The pending run moves to the open hyperlink, or to the paragraph without one.
pub open spec fn run_to_container(s: DecodeState) -> DecodeState {
    match s.run {
        Some(r) => match s.hyperlink {
            Some(h) => DecodeState {
                hyperlink: Some(HyperlinkView { runs: h.runs.push(r), ..h }),
                run: None,
                ..s
            },
            None => run_to_paragraph(s),
        },
        None => s,
    }
}

/// The open hyperlink, with the pending run as its last, moves to the
/// paragraph's children.
pub open spec fn hyperlink_to_paragraph(s: DecodeState) -> DecodeState {
    match s.hyperlink {
        Some(h) => {
            let h2 = match s.run {
                Some(r) => HyperlinkView { runs: h.runs.push(r), ..h },
                None => h,
            };
            DecodeState {
                paragraph: push_child(s.paragraph, ParagraphChildView::Hyperlink(h2)),
                hyperlink: None,
                run: None,
                ..s
            }
        },
        None => s,
    }
}

/// Closing a paragraph: the open hyperlink, then the pending run, join it, and
/// it joins the document; every scratch slot is cleared.
pub open spec fn finish_paragraph(s: DecodeState) -> DecodeState {
    let t = run_to_paragraph(hyperlink_to_paragraph(s));
    DecodeState {
        document: match t.paragraph {
            Some(p) => t.document.push(p),
            None => t.document,
        },
        paragraph: None,
        in_paragraph_properties: false,
        in_default_run_properties: false,
        hyperlink: None,
        run: None,
        in_run_properties: false,
    }
}

/// Paragraph-level properties apply inside the paragraph's own properties and
/// outside its default run properties.
pub open spec fn in_paragraph_scope(s: DecodeState) -> bool {
    s.in_paragraph_properties && !s.in_default_run_properties
}

/// The state with the paragraph's formatting replaced by `pp`, in paragraph
/// scope.
pub open spec fn paragraph_edit(s: DecodeState, pp: ParagraphPropertiesView) -> DecodeState {
    match s.paragraph {
        Some(p) => if in_paragraph_scope(s) {
            DecodeState { paragraph: Some(ParagraphView { properties: pp, ..p }), ..s }
        } else {
            s
        },
        None => s,
    }
}

/// The formatting of the paragraph being built.
pub open spec fn current_properties(s: DecodeState) -> ParagraphPropertiesView {
    match s.paragraph {
        Some(p) => p.properties,
        None => ParagraphPropertiesView::empty(),
    }
}

/// The state after an element opens.
pub open spec fn open_step(s: DecodeState, tag: Tag, attrs: Attrs) -> DecodeState {
    let pp = current_properties(s);
    match tag {
        Tag::Paragraph => DecodeState { paragraph: Some(empty_paragraph()), ..finish_paragraph(s) },
        Tag::ParagraphProps => DecodeState { in_paragraph_properties: true, ..s },
        Tag::RunProps => if s.in_paragraph_properties {
            match s.paragraph {
                Some(p) => DecodeState {
                    paragraph: Some(
                        ParagraphView {
                            properties: ParagraphPropertiesView {
                                default_run_properties: Some(RunPropertiesView::empty()),
                                ..p.properties
                            },
                            ..p
                        },
                    ),
                    in_default_run_properties: true,
                    ..s
                },
                None => s,
            }
        } else {
            DecodeState { in_run_properties: true, ..s }
        },
        Tag::Hyperlink => DecodeState {
            hyperlink: Some(
                HyperlinkView {
                    id: match attr_of(attrs, "r:id"@) {
                        Some(v) => v,
                        None => Seq::empty(),
                    },
                    runs: Seq::empty(),
                },
            ),
            ..run_to_paragraph(s)
        },
        Tag::Run => DecodeState { run: Some(plain_run(Seq::empty())), ..run_to_container(s) },
        Tag::Text => match s.run {
            Some(r) => if attr_of(attrs, "xml:space"@) == Some("preserve"@) {
                DecodeState { run: Some(RunView { space_preserve: true, ..r }), ..s }
            } else {
                s
            },
            None => s,
        },
        Tag::Borders => paragraph_edit(
            s,
            ParagraphPropertiesView {
                paragraph_borders: Some(
                    ParagraphBorderView {
                        top: None,
                        bottom: None,
                        left: None,
                        right: None,
                        between: None,
                    },
                ),
                ..pp
            },
        ),
        Tag::Tabs => paragraph_edit(s, ParagraphPropertiesView { tabs: Some(Seq::empty()), ..pp }),
        Tag::NumberingProperties => paragraph_edit(
            s,
            ParagraphPropertiesView {
                numbering_properties: Some(ParagraphNumberingProperties { ilvl: 0, num_id: 0 }),
                ..pp
            },
        ),
        _ => s,
    }
}

/// The state after a self-closing element: a property marker changes the
/// formatting whose scope the decoder is in.
pub open spec fn empty_step(s: DecodeState, tag: Tag, attrs: Attrs) -> Result<DecodeState, DecodeFault> {
    if s.in_paragraph_properties {
        match s.paragraph {
            Some(p) => if s.in_default_run_properties {
                match p.properties.default_run_properties {
                    Some(rp) => match run_marker(rp, tag, attrs) {
                        Ok(rp2) => Ok(
                            DecodeState {
                                paragraph: Some(
                                    ParagraphView {
                                        properties: ParagraphPropertiesView {
                                            default_run_properties: Some(rp2),
                                            ..p.properties
                                        },
                                        ..p
                                    },
                                ),
                                ..s
                            },
                        ),
                        Err(e) => Err(e),
                    },
                    None => Ok(s),
                }
            } else {
                match paragraph_marker(p.properties, tag, attrs) {
                    Ok(pp) => Ok(
                        DecodeState { paragraph: Some(ParagraphView { properties: pp, ..p }), ..s },
                    ),
                    Err(e) => Err(e),
                }
            },
            None => Ok(s),
        }
    } else if s.in_run_properties {
        match s.run {
            Some(r) => match run_marker(r.properties, tag, attrs) {
                Ok(rp) => Ok(DecodeState { run: Some(RunView { properties: rp, ..r }), ..s }),
                Err(e) => Err(e),
            },
            None => Ok(s),
        }
    } else {
        Ok(s)
    }
}

/// Text joins the pending run; without one it is dropped.
pub open spec fn text_step(s: DecodeState, t: Seq<char>) -> DecodeState {
    match s.run {
        Some(r) => DecodeState { run: Some(RunView { text: r.text + t, ..r }), ..s },
        None => s,
    }
}

/// The state after an element closes.
pub open spec fn close_step(s: DecodeState, tag: Tag) -> DecodeState {
    match tag {
        Tag::Paragraph => finish_paragraph(s),
        Tag::ParagraphProps => DecodeState {
            in_paragraph_properties: false,
            in_default_run_properties: false,
            ..s
        },
        Tag::RunProps => if s.in_paragraph_properties {
            DecodeState { in_default_run_properties: false, ..s }
        } else {
            DecodeState { in_run_properties: false, ..s }
        },
        Tag::Hyperlink => hyperlink_to_paragraph(s),
        Tag::Run => run_to_container(s),
        _ => s,
    }
}

pub open spec fn step(s: DecodeState, e: XmlEventView) -> Result<DecodeState, DecodeFault> {
    match e {
        XmlEventView::Start(t) => Ok(open_step(s, Tag::spec_from_wire(t.name), t.attributes)),
        XmlEventView::Empty(t) => empty_step(s, Tag::spec_from_wire(t.name), t.attributes),
        XmlEventView::Text(x) => Ok(text_step(s, x)),
        XmlEventView::End(n) => Ok(close_step(s, Tag::spec_from_wire(n))),
    }
}

/// The state after a sequence of events, or failure at the first event that
/// fails.
pub open spec fn run_events(s: DecodeState, evs: Seq<XmlEventView>) -> Result<DecodeState, DecodeFault>
    decreases evs.len(),
{
    if evs.len() == 0 {
        Ok(s)
    } else {
        match step(s, evs[0]) {
            Ok(s2) => run_events(s2, evs.drop_first()),
            Err(e) => Err(e),
        }
    }
}

/// The document that a stream of events describes: the end of the stream closes
/// whatever is still open, as a closing paragraph does.
pub open spec fn decode_model(evs: Seq<XmlEventView>) -> Result<Seq<ParagraphView>, DecodeFault> {
    match run_events(initial_state(), evs) {
        Ok(s) => Ok(finish_paragraph(s).document),
        Err(e) => Err(e),
    }
}

fn set_default_run_properties(pp: &mut ParagraphProperties, v: RunProperties)
    ensures
        final(pp)@ == (ParagraphPropertiesView { default_run_properties: Some(v@), ..old(pp)@ }),
{
    proof {
        reveal(run_properties_view);
    }
    pp.default_run_properties = Some(v);
}

fn take_default_run_properties(pp: &mut ParagraphProperties) -> (r: Option<RunProperties>)
    ensures
        old(pp)@.default_run_properties == (match r {
            Some(p) => Some(p@),
            None => None,
        }),
        final(pp)@ == (ParagraphPropertiesView { default_run_properties: None, ..old(pp)@ }),
{
    proof {
        reveal(run_properties_view);
    }
    pp.default_run_properties.take()
}

pub open spec fn opt_paragraph(p: Option<Paragraph>) -> Option<ParagraphView> {
    match p {
        Some(x) => Some(x@),
        None => None,
    }
}

pub open spec fn opt_hyperlink(h: Option<Hyperlink>) -> Option<HyperlinkView> {
    match h {
        Some(x) => Some(x@),
        None => None,
    }
}

pub open spec fn opt_run(r: Option<Run>) -> Option<RunView> {
    match r {
        Some(x) => Some(x@),
        None => None,
    }
}

fn default_marker_props(pp: &mut ParagraphProperties, tag: Tag, attrs: &Vec<XmlAttribute>) -> (r: Result<(), RudocxError>)
    ensures
        match old(pp)@.default_run_properties {
            Some(rp) => match run_marker(rp, tag, attrs_view(attrs@)) {
                Ok(rp2) => r is Ok && final(pp)@ == (ParagraphPropertiesView {
                    default_run_properties: Some(rp2),
                    ..old(pp)@
                }),
                Err(f) => r matches Err(e) && fault_of(f, e),
            },
            None => r is Ok && final(pp)@ == old(pp)@,
        },
{
    match take_default_run_properties(pp) {
        Some(rp) => {
            let mut rp = rp;
            let res = apply_run_marker(&mut rp, tag, attrs);
            set_default_run_properties(pp, rp);
            res
        },
        None => Ok(()),
    }
}

fn default_run_marker(p: &mut Paragraph, tag: Tag, attrs: &Vec<XmlAttribute>) -> (r: Result<(), RudocxError>)
    ensures
        match old(p)@.properties.default_run_properties {
            Some(rp) => match run_marker(rp, tag, attrs_view(attrs@)) {
                Ok(rp2) => r is Ok && final(p)@ == (ParagraphView {
                    properties: ParagraphPropertiesView {
                        default_run_properties: Some(rp2),
                        ..old(p)@.properties
                    },
                    ..old(p)@
                }),
                Err(f) => r matches Err(e) && fault_of(f, e),
            },
            None => r is Ok && final(p)@ == old(p)@,
        },
{
    default_marker_props(&mut p.properties, tag, attrs)
}

fn paragraph_level_marker(p: &mut Paragraph, tag: Tag, attrs: &Vec<XmlAttribute>) -> (r: Result<(), RudocxError>)
    ensures
        match paragraph_marker(old(p)@.properties, tag, attrs_view(attrs@)) {
            Ok(pp) => r is Ok && final(p)@ == (ParagraphView { properties: pp, ..old(p)@ }),
            Err(f) => r matches Err(e) && fault_of(f, e),
        },
{
    apply_paragraph_marker(&mut p.properties, tag, attrs)
}

/// The executable decoder; its view is the state that the step functions describe.
struct Decoder {
    document: Vec<Paragraph>,
    paragraph: Option<Paragraph>,
    in_paragraph_properties: bool,
    in_default_run_properties: bool,
    hyperlink: Option<Hyperlink>,
    run: Option<Run>,
    in_run_properties: bool,
}

impl View for Decoder {
    type V = DecodeState;

    closed spec fn view(&self) -> DecodeState {
        DecodeState {
            document: paragraphs_view(self.document@),
            paragraph: opt_paragraph(self.paragraph),
            in_paragraph_properties: self.in_paragraph_properties,
            in_default_run_properties: self.in_default_run_properties,
            hyperlink: opt_hyperlink(self.hyperlink),
            run: opt_run(self.run),
            in_run_properties: self.in_run_properties,
        }
    }
}

impl Decoder {
    fn new() -> (r: Decoder)
        ensures
            r@ == initial_state(),
    {
        let r = Decoder {
            document: Vec::new(),
            paragraph: None,
            in_paragraph_properties: false,
            in_default_run_properties: false,
            hyperlink: None,
            run: None,
            in_run_properties: false,
        };
        assert(r@.document =~= Seq::<ParagraphView>::empty());
        r
    }

    fn push_child(&mut self, c: ParagraphChild)
        ensures
            final(self)@ == (DecodeState { paragraph: push_child(old(self)@.paragraph, c@), ..old(self)@ }),
    {
        match self.paragraph.take() {
            Some(p) => {
                let mut p = p;
                let ghost before = p@.children;
                p.children.push(c);
                assert(p@.children =~= before.push(c@));
                self.paragraph = Some(p);
            },
            None => {},
        }
    }

    fn run_to_paragraph(&mut self)
        ensures
            final(self)@ == run_to_paragraph(old(self)@),
    {
        match self.run.take() {
            Some(r) => self.push_child(ParagraphChild::Run(r)),
            None => {},
        }
    }

    fn run_to_container(&mut self)
        ensures
            final(self)@ == run_to_container(old(self)@),
    {
        match self.run.take() {
            Some(r) => match self.hyperlink.take() {
                Some(h) => {
                    let mut h = h;
                    let ghost before = h@.runs;
                    h.runs.push(r);
                    assert(h@.runs =~= before.push(r@));
                    self.hyperlink = Some(h);
                },
                None => self.push_child(ParagraphChild::Run(r)),
            },
            None => {},
        }
    }

    fn hyperlink_to_paragraph(&mut self)
        ensures
            final(self)@ == hyperlink_to_paragraph(old(self)@),
    {
        match self.hyperlink.take() {
            Some(h) => {
                let mut h = h;
                match self.run.take() {
                    Some(r) => {
                        let ghost before = h@.runs;
                        h.runs.push(r);
                        assert(h@.runs =~= before.push(r@));
                    },
                    None => {},
                }
                self.push_child(ParagraphChild::Hyperlink(h));
            },
            None => {},
        }
    }

    fn finish_paragraph(&mut self)
        ensures
            final(self)@ == finish_paragraph(old(self)@),
    {
        self.hyperlink_to_paragraph();
        self.run_to_paragraph();
        match self.paragraph.take() {
            Some(p) => {
                let ghost before = self@.document;
                self.document.push(p);
                assert(self@.document =~= before.push(p@));
            },
            None => {},
        }
        self.in_paragraph_properties = false;
        self.in_default_run_properties = false;
        self.in_run_properties = false;
    }

    fn open(&mut self, tag: Tag, attrs: &Vec<XmlAttribute>)
        ensures
            final(self)@ == open_step(old(self)@, tag, attrs_view(attrs@)),
    {
        match tag {
            Tag::Paragraph => {
                self.finish_paragraph();
                self.paragraph = Some(Paragraph::default());
            },
            Tag::ParagraphProps => self.in_paragraph_properties = true,
            Tag::RunProps => {
                if self.in_paragraph_properties {
                    match self.paragraph.take() {
                        Some(p) => {
                            let mut p = p;
                            set_default_run_properties(&mut p.properties, RunProperties::default());
                            self.paragraph = Some(p);
                            self.in_default_run_properties = true;
                        },
                        None => {},
                    }
                } else {
                    self.in_run_properties = true;
                }
            },
            Tag::Hyperlink => {
                self.run_to_paragraph();
                let id = match find_attr(attrs, "r:id") {
                    Some(v) => v.clone(),
                    None => String::new(),
                };
                let h = Hyperlink { id, runs: Vec::new() };
                assert(h@.runs =~= Seq::<RunView>::empty());
                self.hyperlink = Some(h);
            },
            Tag::Run => {
                self.run_to_container();
                self.run = Some(Run::default());
            },
            Tag::Text => {
                let preserve = match find_attr(attrs, "xml:space") {
                    Some(v) => str_eq(v.as_str(), "preserve"),
                    None => false,
                };
                if preserve {
                    match self.run.take() {
                        Some(r) => {
                            let mut r = r;
                            r.space_preserve = true;
                            self.run = Some(r);
                        },
                        None => {},
                    }
                }
            },
            Tag::Borders | Tag::Tabs | Tag::NumberingProperties => {
                if self.in_paragraph_properties && !self.in_default_run_properties {
                    match self.paragraph.take() {
                        Some(p) => {
                            let mut p = p;
                            match tag {
                                Tag::Borders => set_borders(
                                    &mut p.properties,
                                    ParagraphBorder::new(None, None, None, None, None),
                                ),
                                Tag::Tabs => set_tabs(&mut p.properties, Vec::new()),
                                _ => set_numbering_properties(
                                    &mut p.properties,
                                    Some(ParagraphNumberingProperties::new(0, 0)),
                                ),
                            }
                            self.paragraph = Some(p);
                        },
                        None => {},
                    }
                }
            },
            _ => {},
        }
    }

    fn empty(&mut self, tag: Tag, attrs: &Vec<XmlAttribute>) -> (r: Result<(), RudocxError>)
        ensures
            match empty_step(old(self)@, tag, attrs_view(attrs@)) {
                Ok(s) => r is Ok && final(self)@ == s,
                Err(f) => r matches Err(e) && fault_of(f, e),
            },
    {
        if self.in_paragraph_properties {
            match self.paragraph.take() {
                Some(p) => {
                    let mut p = p;
                    let res = if self.in_default_run_properties {
                        default_run_marker(&mut p, tag, attrs)
                    } else {
                        paragraph_level_marker(&mut p, tag, attrs)
                    };
                    self.paragraph = Some(p);
                    res
                },
                None => Ok(()),
            }
        } else if self.in_run_properties {
            match self.run.take() {
                Some(r) => {
                    let mut r = r;
                    let res = apply_run_marker(&mut r.properties, tag, attrs);
                    self.run = Some(r);
                    res
                },
                None => Ok(()),
            }
        } else {
            Ok(())
        }
    }

    fn text(&mut self, t: &str)
        ensures
            final(self)@ == text_step(old(self)@, t@),
    {
        match self.run.take() {
            Some(r) => {
                let mut r = r;
                push_str(&mut r.text, t);
                self.run = Some(r);
            },
            None => {},
        }
    }

    fn close(&mut self, tag: Tag)
        ensures
            final(self)@ == close_step(old(self)@, tag),
    {
        match tag {
            Tag::Paragraph => self.finish_paragraph(),
            Tag::ParagraphProps => {
                self.in_paragraph_properties = false;
                self.in_default_run_properties = false;
            },
            Tag::RunProps => {
                if self.in_paragraph_properties {
                    self.in_default_run_properties = false;
                } else {
                    self.in_run_properties = false;
                }
            },
            Tag::Hyperlink => self.hyperlink_to_paragraph(),
            Tag::Run => self.run_to_container(),
            _ => {},
        }
    }

    fn handle(&mut self, ev: &XmlEvent) -> (r: Result<(), RudocxError>)
        ensures
            match step(old(self)@, ev@) {
                Ok(s) => r is Ok && final(self)@ == s,
                Err(f) => r matches Err(e) && fault_of(f, e),
            },
    {
        match ev {
            XmlEvent::Start(t) => {
                self.open(Tag::from_wire(t.name.as_str()), &t.attributes);
                Ok(())
            },
            XmlEvent::Empty(t) => self.empty(Tag::from_wire(t.name.as_str()), &t.attributes),
            XmlEvent::Text(x) => {
                self.text(x.as_str());
                Ok(())
            },
            XmlEvent::End(n) => {
                self.close(Tag::from_wire(n.as_str()));
                Ok(())
            },
        }
    }
}

/// Builds the document that a stream of events describes, in one pass. A
/// number that does not parse, or a malformed shading, fails the whole call.
pub fn decode_events(events: &Vec<XmlEvent>) -> (r: Result<Document, RudocxError>)
    ensures
        match decode_model(events_view(events@)) {
            Ok(d) => r matches Ok(doc) && doc@ == d,
            Err(f) => r matches Err(e) && fault_of(f, e),
        },
{
    let ghost evs = events_view(events@);
    let mut dec = Decoder::new();
    let mut i: usize = 0;
    assert(evs.subrange(0, evs.len() as int) =~= evs);
    while i < events.len()
        invariant
            i <= events.len(),
            evs == events_view(events@),
            evs.len() == events.len(),
            run_events(initial_state(), evs) == run_events(dec@, evs.subrange(i as int, evs.len() as int)),
        decreases events.len() - i,
    {
        let ghost rest = evs.subrange(i as int, evs.len() as int);
        assert(rest[0] == events@[i as int]@);
        assert(rest.drop_first() =~= evs.subrange(i + 1, evs.len() as int));
        match dec.handle(&events[i]) {
            Ok(()) => {},
            Err(e) => return Err(e),
        }
        i += 1;
    }
    assert(evs.subrange(i as int, evs.len() as int) =~= Seq::<XmlEventView>::empty());
    dec.finish_paragraph();
    Ok(Document { paragraphs: dec.document })
}

} // verus!
