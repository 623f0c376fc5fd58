//! The encoder: the stream of XML events that writes a document. Each part is
//! stated as a function on views; the executable encoder is proved to produce it.

use vstd::prelude::*;
use crate::decode::font_attr_key;
use crate::decode::font_attr_name;
use crate::events::{Tag, XmlAttribute, XmlEvent, XmlEventView, XmlTagView, attrs_view, events_view};
use crate::model::{
    Document, Hyperlink, HyperlinkView, Paragraph, ParagraphChild, ParagraphChildView,
    ParagraphView, Run, RunView, children_view, paragraphs_view, runs_view,
};
use crate::paragraph_properties::{
    ParagraphBorderSide, ParagraphBorderSideView, ParagraphProperties, ParagraphPropertiesView,
    ParagraphShading, ParagraphTab, borders_view, shading_view, tabs_view, run_properties_view,
};
use crate::run_properties::{FontSet, FontSetView, FontType, RunProperties, RunPropertiesView, Underline, VerticalAlign};
use crate::color::{HLColor, HexColor};
use crate::paragraph_properties::{color_view, ParagraphBorder, ParagraphBorderView, ParagraphShadingView, ParagraphNumberingProperties, ParagraphSpacing, ParagraphIndentation};
use vstd::seq_lib::lemma_concat_associative;
use crate::text::{decimal, format_i32, format_u32, owned, signed_decimal};

verus! {

pub type Attrs = Seq<(Seq<char>, Seq<char>)>;

pub open spec fn ev_start(tag: Tag, attrs: Attrs) -> XmlEventView {
    XmlEventView::Start(XmlTagView { name: tag.spec_wire(), attributes: attrs })
}

pub open spec fn ev_empty(tag: Tag, attrs: Attrs) -> XmlEventView {
    XmlEventView::Empty(XmlTagView { name: tag.spec_wire(), attributes: attrs })
}

pub open spec fn ev_end(tag: Tag) -> XmlEventView {
    XmlEventView::End(tag.spec_wire())
}

/// A marker that carries its value in `w:val`.
pub open spec fn val_event(tag: Tag, v: Seq<char>) -> XmlEventView {
    ev_empty(tag, seq![("w:val"@, v)])
}

/// A valueless marker when `b` holds, nothing otherwise.
#[verifier::opaque]
pub open spec fn flag_events(tag: Tag, b: bool) -> Seq<XmlEventView> {
    if b {
        seq![ev_empty(tag, Seq::empty())]
    } else {
        Seq::empty()
    }
}

pub open spec fn opt_attr(key: Seq<char>, v: Option<Seq<char>>) -> Attrs {
    match v {
        Some(x) => seq![(key, x)],
        None => Seq::empty(),
    }
}

pub open spec fn opt_dec(v: Option<u32>) -> Option<Seq<char>> {
    match v {
        Some(n) => Some(decimal(n as nat)),
        None => None,
    }
}

pub open spec fn opt_dec8(v: Option<u8>) -> Option<Seq<char>> {
    match v {
        Some(n) => Some(decimal(n as nat)),
        None => None,
    }
}

pub open spec fn opt_signed(v: Option<i32>) -> Option<Seq<char>> {
    match v {
        Some(n) => Some(signed_decimal(n as int)),
        None => None,
    }
}

pub open spec fn bool_text(b: bool) -> Seq<char> {
    if b {
        "true"@
    } else {
        "false"@
    }
}

pub open spec fn opt_bool(v: Option<bool>) -> Option<Seq<char>> {
    match v {
        Some(b) => Some(bool_text(b)),
        None => None,
    }
}

fn push_event(out: &mut Vec<XmlEvent>, e: XmlEvent)
    ensures
        events_view(final(out)@) == events_view(old(out)@).push(e@),
{
    let ghost before = events_view(out@);
    out.push(e);
    assert(events_view(out@) =~= before.push(e@));
}

fn push_start(out: &mut Vec<XmlEvent>, tag: Tag, attributes: Vec<XmlAttribute>)
    ensures
        events_view(final(out)@) == events_view(old(out)@).push(ev_start(tag, attrs_view(attributes@))),
{
    push_event(out, XmlEvent::Start(crate::events::XmlTag { name: owned(tag.wire()), attributes }));
}

fn push_empty(out: &mut Vec<XmlEvent>, tag: Tag, attributes: Vec<XmlAttribute>)
    ensures
        events_view(final(out)@) == events_view(old(out)@).push(ev_empty(tag, attrs_view(attributes@))),
{
    push_event(out, XmlEvent::Empty(crate::events::XmlTag { name: owned(tag.wire()), attributes }));
}

fn push_end(out: &mut Vec<XmlEvent>, tag: Tag)
    ensures
        events_view(final(out)@) == events_view(old(out)@).push(ev_end(tag)),
{
    push_event(out, XmlEvent::End(owned(tag.wire())));
}

fn push_flag(out: &mut Vec<XmlEvent>, tag: Tag, b: bool)
    ensures
        events_view(final(out)@) == events_view(old(out)@) + flag_events(tag, b),
{
    proof {
        reveal(flag_events);
    }
    if b {
        push_empty(out, tag, no_attrs());
    }
    assert(events_view(old(out)@) + Seq::<XmlEventView>::empty() =~= events_view(old(out)@));
}

fn no_attrs() -> (r: Vec<XmlAttribute>)
    ensures
        attrs_view(r@) == Seq::<(Seq<char>, Seq<char>)>::empty(),
{
    let v = Vec::new();
    assert(attrs_view(v@) =~= Seq::<(Seq<char>, Seq<char>)>::empty());
    v
}

fn one_attr(key: &str, value: String) -> (r: Vec<XmlAttribute>)
    ensures
        attrs_view(r@) == seq![(key@, value@)],
{
    let mut v = Vec::new();
    v.push(XmlAttribute { key: owned(key), value });
    assert(attrs_view(v@) =~= seq![(key@, value@)]);
    v
}

fn push_attr(attrs: &mut Vec<XmlAttribute>, key: &str, value: Option<String>)
    ensures
        attrs_view(final(attrs)@) == attrs_view(old(attrs)@) + opt_attr(key@, match value {
            Some(v) => Some(v@),
            None => None,
        }),
{
    let ghost before = attrs_view(attrs@);
    match value {
        Some(v) => {
            attrs.push(XmlAttribute { key: owned(key), value: v });
            assert(attrs_view(attrs@) =~= before + seq![(key@, attrs@.last().value@)]);
        },
        None => {
            assert(before + Seq::<(Seq<char>, Seq<char>)>::empty() =~= before);
        },
    }
}

fn push_val(out: &mut Vec<XmlEvent>, tag: Tag, v: String)
    ensures
        events_view(final(out)@) == events_view(old(out)@).push(val_event(tag, v@)),
{
    push_empty(out, tag, one_attr("w:val", v));
}

fn dec(v: Option<u32>) -> (r: Option<String>)
    ensures
        opt_view(r) == opt_dec(v),
{
    match v {
        Some(n) => Some(format_u32(n)),
        None => None,
    }
}

fn dec8(v: Option<u8>) -> (r: Option<String>)
    ensures
        opt_view(r) == opt_dec8(v),
{
    match v {
        Some(n) => Some(format_u32(n as u32)),
        None => None,
    }
}

fn signed(v: Option<i32>) -> (r: Option<String>)
    ensures
        opt_view(r) == opt_signed(v),
{
    match v {
        Some(n) => Some(format_i32(n)),
        None => None,
    }
}

fn bool_string(b: bool) -> (r: String)
    ensures
        r@ == bool_text(b),
{
    if b {
        owned("true")
    } else {
        owned("false")
    }
}

fn opt_bool_string(v: Option<bool>) -> (r: Option<String>)
    ensures
        opt_view(r) == opt_bool(v),
{
    match v {
        Some(b) => Some(bool_string(b)),
        None => None,
    }
}

pub open spec fn opt_view(v: Option<String>) -> Option<Seq<char>> {
    match v {
        Some(s) => Some(s@),
        None => None,
    }
}


/// The underline marker.
#[verifier::opaque]
pub open spec fn underline_events(u: Option<Underline>) -> Seq<XmlEventView> {
    match u {
        Some(x) => seq![val_event(Tag::Underline, match x.value {
            Some(v) => v.spec_wire(),
            None => "None"@,
        })],
        None => Seq::<XmlEventView>::empty(),
    }
}

fn write_underline_events(out: &mut Vec<XmlEvent>, u: &Option<Underline>)
    ensures
        events_view(final(out)@) == events_view(old(out)@) + underline_events(*u),
{
    proof {
        reveal(underline_events);
    }
    let ghost e0 = events_view(out@);
    match u {
        Some(x) => push_val(out, Tag::Underline, x.value()),
        None => {},
    }
    assert(events_view(out@) =~= e0 + underline_events(*u));
}

/// The color marker.
#[verifier::opaque]
pub open spec fn color_events(c: Option<Seq<char>>) -> Seq<XmlEventView> {
    match c {
        Some(x) => seq![val_event(Tag::Color, x)],
        None => Seq::<XmlEventView>::empty(),
    }
}

fn write_color_events(out: &mut Vec<XmlEvent>, c: &Option<HexColor>)
    ensures
        events_view(final(out)@) == events_view(old(out)@) + color_events(color_view(*c)),
{
    proof {
        reveal(color_events);
    }
    let ghost e0 = events_view(out@);
    match c {
        Some(x) => push_val(out, Tag::Color, x.value()),
        None => {},
    }
    assert(events_view(out@) =~= e0 + color_events(color_view(*c)));
}

/// A marker whose value is a number.
#[verifier::opaque]
pub open spec fn number_events(tag: Tag, n: Option<u32>) -> Seq<XmlEventView> {
    match n {
        Some(x) => seq![val_event(tag, decimal(x as nat))],
        None => Seq::<XmlEventView>::empty(),
    }
}

fn write_number_events(out: &mut Vec<XmlEvent>, tag: Tag, n: Option<u32>)
    ensures
        events_view(final(out)@) == events_view(old(out)@) + number_events(tag, n),
{
    proof {
        reveal(number_events);
    }
    let ghost e0 = events_view(out@);
    match n {
        Some(x) => push_val(out, tag, format_u32(x)),
        None => {},
    }
    assert(events_view(out@) =~= e0 + number_events(tag, n));
}

/// The font marker: the font that the hint names, under the attribute of its slot.
#[verifier::opaque]
pub open spec fn font_events(f: Option<FontSetView>) -> Seq<XmlEventView> {
    match f {
        Some(x) => match x.hint_result() {
            Ok(v) => seq![ev_empty(Tag::Fonts, seq![(font_attr_key(x.hint), v)])],
            Err(_) => Seq::<XmlEventView>::empty(),
        },
        None => Seq::<XmlEventView>::empty(),
    }
}

fn write_font_events(out: &mut Vec<XmlEvent>, f: &Option<FontSet>)
    ensures
        events_view(final(out)@) == events_view(old(out)@) + font_events(match *f { Some(x) => Some(x@), None => None }),
{
    proof {
        reveal(font_events);
    }
    let ghost e0 = events_view(out@);
    match f {
        Some(x) => match x.get_hint() {
            Ok(v) => push_empty(out, Tag::Fonts, one_attr(font_attr_name(x.hint), v)),
            Err(_) => {},
        },
        None => {},
    }
    assert(events_view(out@) =~= e0 + font_events(match *f { Some(x) => Some(x@), None => None }));
}

/// The highlight marker.
#[verifier::opaque]
pub open spec fn highlight_events(h: Option<HLColor>) -> Seq<XmlEventView> {
    match h {
        Some(x) => seq![val_event(Tag::Highlight, match x.value {
            Some(v) => v.spec_wire(),
            None => Seq::empty(),
        })],
        None => Seq::<XmlEventView>::empty(),
    }
}

fn write_highlight_events(out: &mut Vec<XmlEvent>, h: &Option<HLColor>)
    ensures
        events_view(final(out)@) == events_view(old(out)@) + highlight_events(*h),
{
    proof {
        reveal(highlight_events);
    }
    let ghost e0 = events_view(out@);
    match h {
        Some(x) => push_val(out, Tag::Highlight, x.value()),
        None => {},
    }
    assert(events_view(out@) =~= e0 + highlight_events(*h));
}

/// The vertical alignment marker.
#[verifier::opaque]
pub open spec fn valign_events(v: Option<VerticalAlign>) -> Seq<XmlEventView> {
    match v {
        Some(x) => seq![val_event(Tag::VertAlign, x.value.spec_wire())],
        None => Seq::<XmlEventView>::empty(),
    }
}

fn write_valign_events(out: &mut Vec<XmlEvent>, v: &Option<VerticalAlign>)
    ensures
        events_view(final(out)@) == events_view(old(out)@) + valign_events(*v),
{
    proof {
        reveal(valign_events);
    }
    let ghost e0 = events_view(out@);
    match v {
        Some(x) => push_val(out, Tag::VertAlign, x.value()),
        None => {},
    }
    assert(events_view(out@) =~= e0 + valign_events(*v));
}

/// The events of a run's formatting record: its flags, then its valued markers.
pub open spec fn rpr_events(p: RunPropertiesView) -> Seq<XmlEventView> {
    seq![ev_start(Tag::RunProps, Seq::empty())] + flag_events(Tag::Bold, p.bold) + flag_events(Tag::Italic, p.italic) + flag_events(Tag::Strike, p.strike) + flag_events(Tag::DStrike, p.dstrike) + underline_events(p.underline) + color_events(p.color) + number_events(Tag::Size, p.size) + font_events(p.font) + highlight_events(p.highlight) + valign_events(p.valign) + number_events(Tag::Spacing, p.spacing) + seq![ev_end(Tag::RunProps)]
}

fn write_run_properties(out: &mut Vec<XmlEvent>, p: &RunProperties)
    ensures
        events_view(final(out)@) == events_view(old(out)@) + rpr_events(p@),
{
    let ghost e0 = events_view(out@);
    push_start(out, Tag::RunProps, no_attrs());
    let ghost acc = seq![ev_start(Tag::RunProps, Seq::empty())];
    assert(events_view(out@) == e0 + acc);
    push_flag(out, Tag::Bold, p.bold);
    proof {
        lemma_concat_associative(e0, acc, flag_events(Tag::Bold, p@.bold));
        acc = acc + flag_events(Tag::Bold, p@.bold);
    }
    assert(events_view(out@) == e0 + acc);
    push_flag(out, Tag::Italic, p.italic);
    proof {
        lemma_concat_associative(e0, acc, flag_events(Tag::Italic, p@.italic));
        acc = acc + flag_events(Tag::Italic, p@.italic);
    }
    assert(events_view(out@) == e0 + acc);
    push_flag(out, Tag::Strike, p.strike);
    proof {
        lemma_concat_associative(e0, acc, flag_events(Tag::Strike, p@.strike));
        acc = acc + flag_events(Tag::Strike, p@.strike);
    }
    assert(events_view(out@) == e0 + acc);
    push_flag(out, Tag::DStrike, p.dstrike);
    proof {
        lemma_concat_associative(e0, acc, flag_events(Tag::DStrike, p@.dstrike));
        acc = acc + flag_events(Tag::DStrike, p@.dstrike);
    }
    assert(events_view(out@) == e0 + acc);
    write_underline_events(out, &p.underline);
    proof {
        lemma_concat_associative(e0, acc, underline_events(p@.underline));
        acc = acc + underline_events(p@.underline);
    }
    assert(events_view(out@) == e0 + acc);
    write_color_events(out, &p.color);
    proof {
        lemma_concat_associative(e0, acc, color_events(p@.color));
        acc = acc + color_events(p@.color);
    }
    assert(events_view(out@) == e0 + acc);
    write_number_events(out, Tag::Size, p.size);
    proof {
        lemma_concat_associative(e0, acc, number_events(Tag::Size, p@.size));
        acc = acc + number_events(Tag::Size, p@.size);
    }
    assert(events_view(out@) == e0 + acc);
    write_font_events(out, &p.font);
    proof {
        lemma_concat_associative(e0, acc, font_events(p@.font));
        acc = acc + font_events(p@.font);
    }
    assert(events_view(out@) == e0 + acc);
    write_highlight_events(out, &p.highlight);
    proof {
        lemma_concat_associative(e0, acc, highlight_events(p@.highlight));
        acc = acc + highlight_events(p@.highlight);
    }
    assert(events_view(out@) == e0 + acc);
    write_valign_events(out, &p.valign);
    proof {
        lemma_concat_associative(e0, acc, valign_events(p@.valign));
        acc = acc + valign_events(p@.valign);
    }
    assert(events_view(out@) == e0 + acc);
    write_number_events(out, Tag::Spacing, p.spacing);
    proof {
        lemma_concat_associative(e0, acc, number_events(Tag::Spacing, p@.spacing));
        acc = acc + number_events(Tag::Spacing, p@.spacing);
    }
    assert(events_view(out@) == e0 + acc);
    push_end(out, Tag::RunProps);
    proof {
        lemma_concat_associative(e0, acc, seq![ev_end(Tag::RunProps)]);
        acc = acc + seq![ev_end(Tag::RunProps)];
    }
    assert(events_view(out@) == e0 + acc);
}

fn push_opt_attr(attrs: &mut Vec<XmlAttribute>, key: &str, value: Option<String>, Ghost(v): Ghost<Option<Seq<char>>>)
    requires
        opt_view(value) == v,
    ensures
        attrs_view(final(attrs)@) == attrs_view(old(attrs)@) + opt_attr(key@, v),
{
    push_attr(attrs, key, value);
}

/// The attributes of a border side: its style, then color, size and space when set.
pub open spec fn side_attrs(s: ParagraphBorderSideView) -> Attrs {
    seq![("w:val"@, s.val.spec_wire())] + opt_attr("w:color"@, s.color) + opt_attr("w:sz"@, opt_dec8(s.sz))
        + opt_attr("w:space"@, opt_dec8(s.space))
}

fn side_attributes(s: &ParagraphBorderSide) -> (r: Vec<XmlAttribute>)
    ensures
        attrs_view(r@) == side_attrs(s@),
{
    let mut a = one_attr("w:val", owned(s.val.wire()));
    let color = match &s.color {
        Some(c) => Some(c.value()),
        None => None,
    };
    push_attr(&mut a, "w:color", color);
    push_attr(&mut a, "w:sz", dec8(s.sz));
    push_attr(&mut a, "w:space", dec8(s.space));
    a
}

/// One side of a border.
#[verifier::opaque]
pub open spec fn side_events(tag: Tag, s: Option<ParagraphBorderSideView>) -> Seq<XmlEventView> {
    match s {
        Some(x) => seq![ev_empty(tag, side_attrs(x))],
        None => Seq::<XmlEventView>::empty(),
    }
}

fn write_side_events(out: &mut Vec<XmlEvent>, tag: Tag, s: &Option<ParagraphBorderSide>)
    ensures
        events_view(final(out)@) == events_view(old(out)@) + side_events(tag, match *s { Some(x) => Some(x@), None => None }),
{
    proof {
        reveal(side_events);
    }
    let ghost e0 = events_view(out@);
    match s {
        Some(x) => push_empty(out, tag, side_attributes(x)),
        None => {},
    }
    assert(events_view(out@) =~= e0 + side_events(tag, match *s { Some(x) => Some(x@), None => None }));
}

/// The events of a border: its sides inside a border element.
pub open spec fn border_body(b: ParagraphBorderView) -> Seq<XmlEventView> {
    seq![ev_start(Tag::Borders, Seq::empty())] + side_events(Tag::BorderTop, b.top) + side_events(Tag::BorderBottom, b.bottom) + side_events(Tag::BorderLeft, b.left) + side_events(Tag::BorderRight, b.right) + side_events(Tag::BorderBetween, b.between) + seq![ev_end(Tag::Borders)]
}

fn write_border_body(out: &mut Vec<XmlEvent>, b: &ParagraphBorder)
    ensures
        events_view(final(out)@) == events_view(old(out)@) + border_body(b@),
{
    let ghost e0 = events_view(out@);
    let ghost acc = Seq::empty();
    assert(e0 + acc =~= e0);
    push_start(out, Tag::Borders, no_attrs());
    proof {
        lemma_concat_associative(e0, acc, seq![ev_start(Tag::Borders, Seq::empty())]);
        acc = acc + seq![ev_start(Tag::Borders, Seq::empty())];
    }
    write_side_events(out, Tag::BorderTop, &b.top);
    proof {
        lemma_concat_associative(e0, acc, side_events(Tag::BorderTop, b@.top));
        acc = acc + side_events(Tag::BorderTop, b@.top);
    }
    write_side_events(out, Tag::BorderBottom, &b.bottom);
    proof {
        lemma_concat_associative(e0, acc, side_events(Tag::BorderBottom, b@.bottom));
        acc = acc + side_events(Tag::BorderBottom, b@.bottom);
    }
    write_side_events(out, Tag::BorderLeft, &b.left);
    proof {
        lemma_concat_associative(e0, acc, side_events(Tag::BorderLeft, b@.left));
        acc = acc + side_events(Tag::BorderLeft, b@.left);
    }
    write_side_events(out, Tag::BorderRight, &b.right);
    proof {
        lemma_concat_associative(e0, acc, side_events(Tag::BorderRight, b@.right));
        acc = acc + side_events(Tag::BorderRight, b@.right);
    }
    write_side_events(out, Tag::BorderBetween, &b.between);
    proof {
        lemma_concat_associative(e0, acc, side_events(Tag::BorderBetween, b@.between));
        acc = acc + side_events(Tag::BorderBetween, b@.between);
    }
    push_end(out, Tag::Borders);
    proof {
        lemma_concat_associative(e0, acc, seq![ev_end(Tag::Borders)]);
        acc = acc + seq![ev_end(Tag::Borders)];
    }
    assert(acc =~= border_body(b@));
}

/// The border of a paragraph, if any.
#[verifier::opaque]
pub open spec fn borders_events(b: Option<ParagraphBorderView>) -> Seq<XmlEventView> {
    match b {
        Some(x) => border_body(x),
        None => Seq::<XmlEventView>::empty(),
    }
}

fn write_borders_events(out: &mut Vec<XmlEvent>, b: &Option<ParagraphBorder>)
    ensures
        events_view(final(out)@) == events_view(old(out)@) + borders_events(borders_view(*b)),
{
    proof {
        reveal(borders_events);
        reveal(borders_view);
    }
    let ghost e0 = events_view(out@);
    match b {
        Some(x) => write_border_body(out, x),
        None => {},
    }
    assert(events_view(out@) =~= e0 + borders_events(borders_view(*b)));
}

/// The attributes of a shading: its pattern, then color and fill when set.
pub open spec fn shading_attrs(s: ParagraphShadingView) -> Attrs {
    seq![("w:val"@, s.val.spec_wire())] + opt_attr("w:color"@, s.color) + opt_attr("w:fill"@, s.fill)
}

fn shading_attributes(s: &ParagraphShading) -> (r: Vec<XmlAttribute>)
    ensures
        attrs_view(r@) == shading_attrs(s@),
{
    let mut a = one_attr("w:val", s.value());
    let color = match &s.color {
        Some(c) => Some(c.value()),
        None => None,
    };
    let fill = match &s.fill {
        Some(c) => Some(c.value()),
        None => None,
    };
    push_attr(&mut a, "w:color", color);
    push_attr(&mut a, "w:fill", fill);
    a
}

/// The shading of a paragraph, if any.
#[verifier::opaque]
pub open spec fn shading_events(s: Option<ParagraphShadingView>) -> Seq<XmlEventView> {
    match s {
        Some(x) => seq![ev_empty(Tag::Shading, shading_attrs(x))],
        None => Seq::<XmlEventView>::empty(),
    }
}

fn write_shading_events(out: &mut Vec<XmlEvent>, s: &Option<ParagraphShading>)
    ensures
        events_view(final(out)@) == events_view(old(out)@) + shading_events(shading_view(*s)),
{
    proof {
        reveal(shading_events);
        reveal(shading_view);
    }
    let ghost e0 = events_view(out@);
    match s {
        Some(x) => push_empty(out, Tag::Shading, shading_attributes(x)),
        None => {},
    }
    assert(events_view(out@) =~= e0 + shading_events(shading_view(*s)));
}

/// The marker of one tab stop.
pub open spec fn tab_event(t: ParagraphTab) -> XmlEventView {
    ev_empty(
        Tag::Tab,
        seq![("w:val"@, t.val.spec_wire()), ("w:pos"@, signed_decimal(t.pos as int))] + opt_attr(
            "w:leader"@,
            match t.leader {
                Some(l) => Some(l.spec_wire()),
                None => None,
            },
        ),
    )
}

pub open spec fn tab_list(t: Seq<ParagraphTab>) -> Seq<XmlEventView> {
    t.map_values(|x: ParagraphTab| tab_event(x))
}

fn write_tab(out: &mut Vec<XmlEvent>, t: &ParagraphTab)
    ensures
        events_view(final(out)@) == events_view(old(out)@).push(tab_event(*t)),
{
    let mut a = one_attr("w:val", owned(t.val.wire()));
    let ghost a0 = attrs_view(a@);
    a.push(XmlAttribute { key: owned("w:pos"), value: format_i32(t.pos) });
    assert(attrs_view(a@) =~= a0.push(("w:pos"@, signed_decimal(t.pos as int))));
    let leader = match t.leader {
        Some(l) => Some(owned(l.wire())),
        None => None,
    };
    push_attr(&mut a, "w:leader", leader);
    assert(attrs_view(a@) =~= seq![("w:val"@, t.val.spec_wire()), ("w:pos"@, signed_decimal(t.pos as int))] + opt_attr(
        "w:leader"@,
        match t.leader {
            Some(l) => Some(l.spec_wire()),
            None => None,
        },
    ));
    push_empty(out, Tag::Tab, a);
}

fn write_tab_list(out: &mut Vec<XmlEvent>, t: &Vec<ParagraphTab>)
    ensures
        events_view(final(out)@) == events_view(old(out)@) + tab_list(t@),
{
    let ghost e0 = events_view(out@);
    let mut i: usize = 0;
    assert(tab_list(t@.subrange(0, 0)) =~= Seq::<XmlEventView>::empty());
    assert(e0 + Seq::<XmlEventView>::empty() =~= e0);
    while i < t.len()
        invariant
            i <= t.len(),
            events_view(out@) == e0 + tab_list(t@.subrange(0, i as int)),
        decreases t.len() - i,
    {
        write_tab(out, &t[i]);
        assert(tab_list(t@.subrange(0, i + 1)) =~= tab_list(t@.subrange(0, i as int)).push(tab_event(t@[i as int])));
        assert(events_view(out@) =~= e0 + tab_list(t@.subrange(0, i + 1)));
        i += 1;
    }
    assert(t@.subrange(0, t.len() as int) =~= t@);
}

/// The tab stops of a paragraph, if any.
#[verifier::opaque]
pub open spec fn tabs_events(t: Option<Seq<ParagraphTab>>) -> Seq<XmlEventView> {
    match t {
        Some(x) => seq![ev_start(Tag::Tabs, Seq::empty())] + tab_list(x) + seq![ev_end(Tag::Tabs)],
        None => Seq::<XmlEventView>::empty(),
    }
}

fn write_tabs_events(out: &mut Vec<XmlEvent>, t: &Option<Vec<ParagraphTab>>)
    ensures
        events_view(final(out)@) == events_view(old(out)@) + tabs_events(tabs_view(*t)),
{
    proof {
        reveal(tabs_events);
        reveal(tabs_view);
    }
    let ghost e0 = events_view(out@);
    match t {
        Some(x) => {
            push_start(out, Tag::Tabs, no_attrs());
            write_tab_list(out, x);
            push_end(out, Tag::Tabs);
        },
        None => {},
    }
    assert(events_view(out@) =~= e0 + tabs_events(tabs_view(*t)));
}

/// The numbering reference of a paragraph, if any.
#[verifier::opaque]
pub open spec fn numbering_events(n: Option<ParagraphNumberingProperties>) -> Seq<XmlEventView> {
    match n {
        Some(x) => seq![
            ev_start(Tag::NumberingProperties, Seq::empty()),
            val_event(Tag::Ilvl, decimal(x.ilvl as nat)),
            val_event(Tag::NumId, decimal(x.num_id as nat)),
            ev_end(Tag::NumberingProperties),
        ],
        None => Seq::<XmlEventView>::empty(),
    }
}

fn write_numbering_events(out: &mut Vec<XmlEvent>, n: Option<ParagraphNumberingProperties>)
    ensures
        events_view(final(out)@) == events_view(old(out)@) + numbering_events(n),
{
    proof {
        reveal(numbering_events);
    }
    let ghost e0 = events_view(out@);
    match n {
        Some(x) => {
            push_start(out, Tag::NumberingProperties, no_attrs());
            push_val(out, Tag::Ilvl, format_u32(x.ilvl as u32));
            push_val(out, Tag::NumId, format_u32(x.num_id));
            push_end(out, Tag::NumberingProperties);
        },
        None => {},
    }
    assert(events_view(out@) =~= e0 + numbering_events(n));
}

pub open spec fn spacing_attrs(s: ParagraphSpacing) -> Attrs {
    opt_attr("w:before"@, opt_dec(s.before)) + opt_attr("w:after"@, opt_dec(s.after)) + opt_attr("w:beforeAutospacing"@, opt_bool(s.before_autospacing)) + opt_attr("w:afterAutospacing"@, opt_bool(s.after_autospacing)) + opt_attr("w:line"@, opt_dec(s.line)) + opt_attr("w:lineRule"@, match s.line_rule { Some(l) => Some(l.spec_wire()), None => None })
}

fn spacing_attributes(s: &ParagraphSpacing) -> (r: Vec<XmlAttribute>)
    ensures
        attrs_view(r@) == spacing_attrs(*s),
{
    let mut a: Vec<XmlAttribute> = Vec::new();
    let ghost acc = Seq::<(Seq<char>, Seq<char>)>::empty();
    assert(attrs_view(a@) =~= acc);
    push_attr(&mut a, "w:before", dec(s.before));
    proof {
        lemma_concat_associative(Seq::<(Seq<char>, Seq<char>)>::empty(), acc, opt_attr("w:before"@, opt_dec(s.before)));
        acc = acc + opt_attr("w:before"@, opt_dec(s.before));
    }
    assert(attrs_view(a@) =~= acc);
    push_attr(&mut a, "w:after", dec(s.after));
    proof {
        lemma_concat_associative(Seq::<(Seq<char>, Seq<char>)>::empty(), acc, opt_attr("w:after"@, opt_dec(s.after)));
        acc = acc + opt_attr("w:after"@, opt_dec(s.after));
    }
    assert(attrs_view(a@) =~= acc);
    push_attr(&mut a, "w:beforeAutospacing", opt_bool_string(s.before_autospacing));
    proof {
        lemma_concat_associative(Seq::<(Seq<char>, Seq<char>)>::empty(), acc, opt_attr("w:beforeAutospacing"@, opt_bool(s.before_autospacing)));
        acc = acc + opt_attr("w:beforeAutospacing"@, opt_bool(s.before_autospacing));
    }
    assert(attrs_view(a@) =~= acc);
    push_attr(&mut a, "w:afterAutospacing", opt_bool_string(s.after_autospacing));
    proof {
        lemma_concat_associative(Seq::<(Seq<char>, Seq<char>)>::empty(), acc, opt_attr("w:afterAutospacing"@, opt_bool(s.after_autospacing)));
        acc = acc + opt_attr("w:afterAutospacing"@, opt_bool(s.after_autospacing));
    }
    assert(attrs_view(a@) =~= acc);
    push_attr(&mut a, "w:line", dec(s.line));
    proof {
        lemma_concat_associative(Seq::<(Seq<char>, Seq<char>)>::empty(), acc, opt_attr("w:line"@, opt_dec(s.line)));
        acc = acc + opt_attr("w:line"@, opt_dec(s.line));
    }
    assert(attrs_view(a@) =~= acc);
    push_attr(&mut a, "w:lineRule", match s.line_rule { Some(l) => Some(owned(l.wire())), None => None });
    proof {
        lemma_concat_associative(Seq::<(Seq<char>, Seq<char>)>::empty(), acc, opt_attr("w:lineRule"@, match s.line_rule { Some(l) => Some(l.spec_wire()), None => None }));
        acc = acc + opt_attr("w:lineRule"@, match s.line_rule { Some(l) => Some(l.spec_wire()), None => None });
    }
    assert(attrs_view(a@) =~= acc);
    a
}

pub open spec fn ind_attrs(i: ParagraphIndentation) -> Attrs {
    opt_attr("w:firstLine"@, opt_signed(i.first_line)) + opt_attr("w:firstLineChars"@, opt_signed(i.first_line_chars)) + opt_attr("w:right"@, opt_signed(i.right)) + opt_attr("w:rightChars"@, opt_signed(i.right_chars)) + opt_attr("w:left"@, opt_signed(i.left)) + opt_attr("w:leftChars"@, opt_signed(i.left_chars)) + opt_attr("w:hanging"@, opt_signed(i.hanging)) + opt_attr("w:hangingChars"@, opt_signed(i.hanging_chars))
}

fn ind_attributes(i: &ParagraphIndentation) -> (r: Vec<XmlAttribute>)
    ensures
        attrs_view(r@) == ind_attrs(*i),
{
    let mut a: Vec<XmlAttribute> = Vec::new();
    let ghost acc = Seq::<(Seq<char>, Seq<char>)>::empty();
    assert(attrs_view(a@) =~= acc);
    push_attr(&mut a, "w:firstLine", signed(i.first_line));
    proof {
        lemma_concat_associative(Seq::<(Seq<char>, Seq<char>)>::empty(), acc, opt_attr("w:firstLine"@, opt_signed(i.first_line)));
        acc = acc + opt_attr("w:firstLine"@, opt_signed(i.first_line));
    }
    assert(attrs_view(a@) =~= acc);
    push_attr(&mut a, "w:firstLineChars", signed(i.first_line_chars));
    proof {
        lemma_concat_associative(Seq::<(Seq<char>, Seq<char>)>::empty(), acc, opt_attr("w:firstLineChars"@, opt_signed(i.first_line_chars)));
        acc = acc + opt_attr("w:firstLineChars"@, opt_signed(i.first_line_chars));
    }
    assert(attrs_view(a@) =~= acc);
    push_attr(&mut a, "w:right", signed(i.right));
    proof {
        lemma_concat_associative(Seq::<(Seq<char>, Seq<char>)>::empty(), acc, opt_attr("w:right"@, opt_signed(i.right)));
        acc = acc + opt_attr("w:right"@, opt_signed(i.right));
    }
    assert(attrs_view(a@) =~= acc);
    push_attr(&mut a, "w:rightChars", signed(i.right_chars));
    proof {
        lemma_concat_associative(Seq::<(Seq<char>, Seq<char>)>::empty(), acc, opt_attr("w:rightChars"@, opt_signed(i.right_chars)));
        acc = acc + opt_attr("w:rightChars"@, opt_signed(i.right_chars));
    }
    assert(attrs_view(a@) =~= acc);
    push_attr(&mut a, "w:left", signed(i.left));
    proof {
        lemma_concat_associative(Seq::<(Seq<char>, Seq<char>)>::empty(), acc, opt_attr("w:left"@, opt_signed(i.left)));
        acc = acc + opt_attr("w:left"@, opt_signed(i.left));
    }
    assert(attrs_view(a@) =~= acc);
    push_attr(&mut a, "w:leftChars", signed(i.left_chars));
    proof {
        lemma_concat_associative(Seq::<(Seq<char>, Seq<char>)>::empty(), acc, opt_attr("w:leftChars"@, opt_signed(i.left_chars)));
        acc = acc + opt_attr("w:leftChars"@, opt_signed(i.left_chars));
    }
    assert(attrs_view(a@) =~= acc);
    push_attr(&mut a, "w:hanging", signed(i.hanging));
    proof {
        lemma_concat_associative(Seq::<(Seq<char>, Seq<char>)>::empty(), acc, opt_attr("w:hanging"@, opt_signed(i.hanging)));
        acc = acc + opt_attr("w:hanging"@, opt_signed(i.hanging));
    }
    assert(attrs_view(a@) =~= acc);
    push_attr(&mut a, "w:hangingChars", signed(i.hanging_chars));
    proof {
        lemma_concat_associative(Seq::<(Seq<char>, Seq<char>)>::empty(), acc, opt_attr("w:hangingChars"@, opt_signed(i.hanging_chars)));
        acc = acc + opt_attr("w:hangingChars"@, opt_signed(i.hanging_chars));
    }
    assert(attrs_view(a@) =~= acc);
    a
}

/// The spacing of a paragraph, if any.
#[verifier::opaque]
pub open spec fn spacing_events(s: Option<ParagraphSpacing>) -> Seq<XmlEventView> {
    match s {
        Some(x) => seq![ev_empty(Tag::Spacing, spacing_attrs(x))],
        None => Seq::<XmlEventView>::empty(),
    }
}

fn write_spacing_events(out: &mut Vec<XmlEvent>, s: Option<ParagraphSpacing>)
    ensures
        events_view(final(out)@) == events_view(old(out)@) + spacing_events(s),
{
    proof {
        reveal(spacing_events);
    }
    let ghost e0 = events_view(out@);
    match s {
        Some(x) => push_empty(out, Tag::Spacing, spacing_attributes(&x)),
        None => {},
    }
    assert(events_view(out@) =~= e0 + spacing_events(s));
}

/// The indentation of a paragraph, if any.
#[verifier::opaque]
pub open spec fn ind_events(i: Option<ParagraphIndentation>) -> Seq<XmlEventView> {
    match i {
        Some(x) => seq![ev_empty(Tag::Ind, ind_attrs(x))],
        None => Seq::<XmlEventView>::empty(),
    }
}

fn write_ind_events(out: &mut Vec<XmlEvent>, i: Option<ParagraphIndentation>)
    ensures
        events_view(final(out)@) == events_view(old(out)@) + ind_events(i),
{
    proof {
        reveal(ind_events);
    }
    let ghost e0 = events_view(out@);
    match i {
        Some(x) => push_empty(out, Tag::Ind, ind_attributes(&x)),
        None => {},
    }
    assert(events_view(out@) =~= e0 + ind_events(i));
}

/// A marker whose value is a markup name.
#[verifier::opaque]
pub open spec fn wire_value_events(tag: Tag, v: Option<Seq<char>>) -> Seq<XmlEventView> {
    match v {
        Some(x) => seq![val_event(tag, x)],
        None => Seq::<XmlEventView>::empty(),
    }
}

fn write_wire_value_events(out: &mut Vec<XmlEvent>, tag: Tag, v: Option<&'static str>)
    ensures
        events_view(final(out)@) == events_view(old(out)@) + wire_value_events(tag, match v { Some(x) => Some(x@), None => None }),
{
    proof {
        reveal(wire_value_events);
    }
    let ghost e0 = events_view(out@);
    match v {
        Some(x) => push_val(out, tag, owned(x)),
        None => {},
    }
    assert(events_view(out@) =~= e0 + wire_value_events(tag, match v { Some(x) => Some(x@), None => None }));
}

/// The default run formatting of a paragraph, if any.
#[verifier::opaque]
pub open spec fn default_rpr_events(p: Option<RunPropertiesView>) -> Seq<XmlEventView> {
    match p {
        Some(x) => rpr_events(x),
        None => Seq::<XmlEventView>::empty(),
    }
}

fn write_default_rpr_events(out: &mut Vec<XmlEvent>, p: &Option<RunProperties>)
    ensures
        events_view(final(out)@) == events_view(old(out)@) + default_rpr_events(run_properties_view(*p)),
{
    proof {
        reveal(default_rpr_events);
        reveal(run_properties_view);
    }
    let ghost e0 = events_view(out@);
    match p {
        Some(x) => write_run_properties(out, x),
        None => {},
    }
    assert(events_view(out@) =~= e0 + default_rpr_events(run_properties_view(*p)));
}

/// The boolean markers of a paragraph's formatting.
#[verifier::opaque]
pub open spec fn ppr_flags(pp: ParagraphPropertiesView) -> Seq<XmlEventView> {
    flag_events(Tag::KeepNext, pp.keep_next) + flag_events(Tag::KeepLines, pp.keep_lines) + flag_events(Tag::PageBreakBefore, pp.page_break_before) + flag_events(Tag::WindowControl, pp.window_control) + flag_events(Tag::SuppressLineNumbers, pp.suppress_line_numbers) + flag_events(Tag::SuppressAutoHyphens, pp.suppress_auto_hyphens) + flag_events(Tag::WordWrap, pp.word_wrap) + flag_events(Tag::ToplinePunct, pp.topline_punct) + flag_events(Tag::AutospaceDe, pp.autospace_de) + flag_events(Tag::AutospaceDn, pp.autospace_dn) + flag_events(Tag::Bidi, pp.bidi) + flag_events(Tag::SnapToGrid, pp.snap_to_grid) + flag_events(Tag::ContextualSpacing, pp.contextual_spacing) + flag_events(Tag::MirrorIndents, pp.mirror_indents) + flag_events(Tag::SuppressOverlap, pp.suppress_overlap)
}

#[verifier::rlimit(60)]
fn write_ppr_flags(out: &mut Vec<XmlEvent>, pp: &ParagraphProperties)
    ensures
        events_view(final(out)@) == events_view(old(out)@) + ppr_flags(pp@),
{
    proof {
        reveal(ppr_flags);
    }
    let ghost ppv = pp@;
    let ghost e0 = events_view(out@);
    let ghost acc = Seq::empty();
    assert(e0 + acc =~= e0);
    push_flag(out, Tag::KeepNext, pp.keep_next);
    proof {
        lemma_concat_associative(e0, acc, flag_events(Tag::KeepNext, ppv.keep_next));
        acc = acc + flag_events(Tag::KeepNext, ppv.keep_next);
    }
    push_flag(out, Tag::KeepLines, pp.keep_lines);
    proof {
        lemma_concat_associative(e0, acc, flag_events(Tag::KeepLines, ppv.keep_lines));
        acc = acc + flag_events(Tag::KeepLines, ppv.keep_lines);
    }
    push_flag(out, Tag::PageBreakBefore, pp.page_break_before);
    proof {
        lemma_concat_associative(e0, acc, flag_events(Tag::PageBreakBefore, ppv.page_break_before));
        acc = acc + flag_events(Tag::PageBreakBefore, ppv.page_break_before);
    }
    push_flag(out, Tag::WindowControl, pp.window_control);
    proof {
        lemma_concat_associative(e0, acc, flag_events(Tag::WindowControl, ppv.window_control));
        acc = acc + flag_events(Tag::WindowControl, ppv.window_control);
    }
    push_flag(out, Tag::SuppressLineNumbers, pp.suppress_line_numbers);
    proof {
        lemma_concat_associative(e0, acc, flag_events(Tag::SuppressLineNumbers, ppv.suppress_line_numbers));
        acc = acc + flag_events(Tag::SuppressLineNumbers, ppv.suppress_line_numbers);
    }
    push_flag(out, Tag::SuppressAutoHyphens, pp.suppress_auto_hyphens);
    proof {
        lemma_concat_associative(e0, acc, flag_events(Tag::SuppressAutoHyphens, ppv.suppress_auto_hyphens));
        acc = acc + flag_events(Tag::SuppressAutoHyphens, ppv.suppress_auto_hyphens);
    }
    push_flag(out, Tag::WordWrap, pp.word_wrap);
    proof {
        lemma_concat_associative(e0, acc, flag_events(Tag::WordWrap, ppv.word_wrap));
        acc = acc + flag_events(Tag::WordWrap, ppv.word_wrap);
    }
    push_flag(out, Tag::ToplinePunct, pp.topline_punct);
    proof {
        lemma_concat_associative(e0, acc, flag_events(Tag::ToplinePunct, ppv.topline_punct));
        acc = acc + flag_events(Tag::ToplinePunct, ppv.topline_punct);
    }
    push_flag(out, Tag::AutospaceDe, pp.autospace_de);
    proof {
        lemma_concat_associative(e0, acc, flag_events(Tag::AutospaceDe, ppv.autospace_de));
        acc = acc + flag_events(Tag::AutospaceDe, ppv.autospace_de);
    }
    push_flag(out, Tag::AutospaceDn, pp.autospace_dn);
    proof {
        lemma_concat_associative(e0, acc, flag_events(Tag::AutospaceDn, ppv.autospace_dn));
        acc = acc + flag_events(Tag::AutospaceDn, ppv.autospace_dn);
    }
    push_flag(out, Tag::Bidi, pp.bidi);
    proof {
        lemma_concat_associative(e0, acc, flag_events(Tag::Bidi, ppv.bidi));
        acc = acc + flag_events(Tag::Bidi, ppv.bidi);
    }
    push_flag(out, Tag::SnapToGrid, pp.snap_to_grid);
    proof {
        lemma_concat_associative(e0, acc, flag_events(Tag::SnapToGrid, ppv.snap_to_grid));
        acc = acc + flag_events(Tag::SnapToGrid, ppv.snap_to_grid);
    }
    push_flag(out, Tag::ContextualSpacing, pp.contextual_spacing);
    proof {
        lemma_concat_associative(e0, acc, flag_events(Tag::ContextualSpacing, ppv.contextual_spacing));
        acc = acc + flag_events(Tag::ContextualSpacing, ppv.contextual_spacing);
    }
    push_flag(out, Tag::MirrorIndents, pp.mirror_indents);
    proof {
        lemma_concat_associative(e0, acc, flag_events(Tag::MirrorIndents, ppv.mirror_indents));
        acc = acc + flag_events(Tag::MirrorIndents, ppv.mirror_indents);
    }
    push_flag(out, Tag::SuppressOverlap, pp.suppress_overlap);
    proof {
        lemma_concat_associative(e0, acc, flag_events(Tag::SuppressOverlap, ppv.suppress_overlap));
        acc = acc + flag_events(Tag::SuppressOverlap, ppv.suppress_overlap);
    }
    assert(acc =~= ppr_flags(ppv));
}

/// The valued markers of a paragraph's formatting.
#[verifier::opaque]
pub open spec fn ppr_values(pp: ParagraphPropertiesView) -> Seq<XmlEventView> {
    borders_events(pp.paragraph_borders) + shading_events(pp.shading) + tabs_events(pp.tabs) + numbering_events(pp.numbering_properties) + spacing_events(pp.spacing) + ind_events(pp.ind) + wire_value_events(Tag::Jc, match pp.jc { Some(x) => Some(x.val.spec_wire()), None => None }) + wire_value_events(Tag::TextDirection, match pp.text_direction { Some(x) => Some(x.val.spec_wire()), None => None }) + wire_value_events(Tag::TextAlignment, match pp.text_alignment { Some(x) => Some(x.val.spec_wire()), None => None }) + wire_value_events(Tag::TextboxTightWrap, match pp.textbox_tight_wrap { Some(x) => Some(x.val.spec_wire()), None => None }) + number_events(Tag::OutlineLevel, match pp.outline_level { Some(n) => Some(n as u32), None => None }) + default_rpr_events(pp.default_run_properties)
}

#[verifier::rlimit(60)]
fn write_ppr_values(out: &mut Vec<XmlEvent>, pp: &ParagraphProperties)
    ensures
        events_view(final(out)@) == events_view(old(out)@) + ppr_values(pp@),
{
    proof {
        reveal(ppr_values);
    }
    let ghost ppv = pp@;
    let ghost e0 = events_view(out@);
    let ghost acc = Seq::empty();
    assert(e0 + acc =~= e0);
    write_borders_events(out, &pp.paragraph_borders);
    proof {
        lemma_concat_associative(e0, acc, borders_events(ppv.paragraph_borders));
        acc = acc + borders_events(ppv.paragraph_borders);
    }
    write_shading_events(out, &pp.shading);
    proof {
        lemma_concat_associative(e0, acc, shading_events(ppv.shading));
        acc = acc + shading_events(ppv.shading);
    }
    write_tabs_events(out, &pp.tabs);
    proof {
        lemma_concat_associative(e0, acc, tabs_events(ppv.tabs));
        acc = acc + tabs_events(ppv.tabs);
    }
    write_numbering_events(out, pp.numbering_properties);
    proof {
        lemma_concat_associative(e0, acc, numbering_events(ppv.numbering_properties));
        acc = acc + numbering_events(ppv.numbering_properties);
    }
    write_spacing_events(out, pp.spacing);
    proof {
        lemma_concat_associative(e0, acc, spacing_events(ppv.spacing));
        acc = acc + spacing_events(ppv.spacing);
    }
    write_ind_events(out, pp.ind);
    proof {
        lemma_concat_associative(e0, acc, ind_events(ppv.ind));
        acc = acc + ind_events(ppv.ind);
    }
    write_wire_value_events(out, Tag::Jc, match pp.jc { Some(x) => Some(x.val.wire()), None => None });
    proof {
        lemma_concat_associative(e0, acc, wire_value_events(Tag::Jc, match ppv.jc { Some(x) => Some(x.val.spec_wire()), None => None }));
        acc = acc + wire_value_events(Tag::Jc, match ppv.jc { Some(x) => Some(x.val.spec_wire()), None => None });
    }
    write_wire_value_events(out, Tag::TextDirection, match pp.text_direction { Some(x) => Some(x.val.wire()), None => None });
    proof {
        lemma_concat_associative(e0, acc, wire_value_events(Tag::TextDirection, match ppv.text_direction { Some(x) => Some(x.val.spec_wire()), None => None }));
        acc = acc + wire_value_events(Tag::TextDirection, match ppv.text_direction { Some(x) => Some(x.val.spec_wire()), None => None });
    }
    write_wire_value_events(out, Tag::TextAlignment, match pp.text_alignment { Some(x) => Some(x.val.wire()), None => None });
    proof {
        lemma_concat_associative(e0, acc, wire_value_events(Tag::TextAlignment, match ppv.text_alignment { Some(x) => Some(x.val.spec_wire()), None => None }));
        acc = acc + wire_value_events(Tag::TextAlignment, match ppv.text_alignment { Some(x) => Some(x.val.spec_wire()), None => None });
    }
    write_wire_value_events(out, Tag::TextboxTightWrap, match pp.textbox_tight_wrap { Some(x) => Some(x.val.wire()), None => None });
    proof {
        lemma_concat_associative(e0, acc, wire_value_events(Tag::TextboxTightWrap, match ppv.textbox_tight_wrap { Some(x) => Some(x.val.spec_wire()), None => None }));
        acc = acc + wire_value_events(Tag::TextboxTightWrap, match ppv.textbox_tight_wrap { Some(x) => Some(x.val.spec_wire()), None => None });
    }
    write_number_events(out, Tag::OutlineLevel, match pp.outline_level { Some(n) => Some(n as u32), None => None });
    proof {
        lemma_concat_associative(e0, acc, number_events(Tag::OutlineLevel, match ppv.outline_level { Some(n) => Some(n as u32), None => None }));
        acc = acc + number_events(Tag::OutlineLevel, match ppv.outline_level { Some(n) => Some(n as u32), None => None });
    }
    write_default_rpr_events(out, &pp.default_run_properties);
    proof {
        lemma_concat_associative(e0, acc, default_rpr_events(ppv.default_run_properties));
        acc = acc + default_rpr_events(ppv.default_run_properties);
    }
    assert(acc =~= ppr_values(ppv));
}

/// The events of a paragraph's formatting record, in the order of the schema.
pub open spec fn ppr_events(pp: ParagraphPropertiesView) -> Seq<XmlEventView> {
    seq![ev_start(Tag::ParagraphProps, Seq::empty())] + ppr_flags(pp) + ppr_values(pp) + seq![ev_end(Tag::ParagraphProps)]
}

fn write_paragraph_properties(out: &mut Vec<XmlEvent>, pp: &ParagraphProperties)
    ensures
        events_view(final(out)@) == events_view(old(out)@) + ppr_events(pp@),
{
    let ghost e0 = events_view(out@);
    let ghost acc = Seq::empty();
    assert(e0 + acc =~= e0);
    push_start(out, Tag::ParagraphProps, no_attrs());
    proof {
        lemma_concat_associative(e0, acc, seq![ev_start(Tag::ParagraphProps, Seq::empty())]);
        acc = acc + seq![ev_start(Tag::ParagraphProps, Seq::empty())];
    }
    write_ppr_flags(out, pp);
    proof {
        lemma_concat_associative(e0, acc, ppr_flags(pp@));
        acc = acc + ppr_flags(pp@);
    }
    write_ppr_values(out, pp);
    proof {
        lemma_concat_associative(e0, acc, ppr_values(pp@));
        acc = acc + ppr_values(pp@);
    }
    push_end(out, Tag::ParagraphProps);
    proof {
        lemma_concat_associative(e0, acc, seq![ev_end(Tag::ParagraphProps)]);
        acc = acc + seq![ev_end(Tag::ParagraphProps)];
    }
    assert(acc =~= ppr_events(pp@));
}

/// The attribute that asks for spaces to be kept.
pub open spec fn space_attrs(preserve: bool) -> Attrs {
    if preserve {
        seq![("xml:space"@, "preserve"@)]
    } else {
        Seq::empty()
    }
}

/// The events of a run: its formatting when it has any, then its text, marked
/// to keep spaces when the run asks for it.
pub open spec fn run_enc(r: RunView) -> Seq<XmlEventView> {
    seq![ev_start(Tag::Run, Seq::empty())] + (if r.properties != RunPropertiesView::empty() {
        rpr_events(r.properties)
    } else {
        Seq::empty()
    }) + seq![
        ev_start(Tag::Text, space_attrs(r.space_preserve)),
        XmlEventView::Text(r.text),
        ev_end(Tag::Text),
        ev_end(Tag::Run),
    ]
}

pub open spec fn runs_enc(rs: Seq<RunView>) -> Seq<XmlEventView>
    decreases rs.len(),
{
    if rs.len() == 0 {
        Seq::empty()
    } else {
        runs_enc(rs.drop_last()) + run_enc(rs.last())
    }
}

fn write_run(out: &mut Vec<XmlEvent>, r: &Run)
    ensures
        events_view(final(out)@) == events_view(old(out)@) + run_enc(r@),
{
    let ghost e0 = events_view(out@);
    push_start(out, Tag::Run, no_attrs());
    let ghost e1 = events_view(out@);
    if r.properties.has_formatting() {
        write_run_properties(out, &r.properties);
    }
    let ghost e2 = events_view(out@);
    let attrs = if r.space_preserve {
        one_attr("xml:space", owned("preserve"))
    } else {
        no_attrs()
    };
    push_start(out, Tag::Text, attrs);
    push_event(out, XmlEvent::Text(r.text.clone()));
    push_end(out, Tag::Text);
    push_end(out, Tag::Run);
    assert(e2 =~= e1 + (if r@.properties != RunPropertiesView::empty() {
        rpr_events(r@.properties)
    } else {
        Seq::<XmlEventView>::empty()
    }));
    assert(events_view(out@) =~= e0 + run_enc(r@));
}

fn write_runs(out: &mut Vec<XmlEvent>, runs: &Vec<Run>)
    ensures
        events_view(final(out)@) == events_view(old(out)@) + runs_enc(runs_view(runs@)),
{
    let ghost e0 = events_view(out@);
    let ghost rv = runs_view(runs@);
    let mut i: usize = 0;
    assert(rv.subrange(0, 0) =~= Seq::<RunView>::empty());
    assert(e0 + Seq::<XmlEventView>::empty() =~= e0);
    while i < runs.len()
        invariant
            i <= runs.len(),
            rv == runs_view(runs@),
            rv.len() == runs.len(),
            events_view(out@) == e0 + runs_enc(rv.subrange(0, i as int)),
        decreases runs.len() - i,
    {
        let ghost before = events_view(out@);
        write_run(out, &runs[i]);
        proof {
            let next = rv.subrange(0, i + 1);
            assert(next.drop_last() =~= rv.subrange(0, i as int));
            assert(next.last() == runs@[i as int]@);
            lemma_concat_associative(e0, runs_enc(rv.subrange(0, i as int)), run_enc(runs@[i as int]@));
        }
        i += 1;
    }
    assert(rv.subrange(0, runs.len() as int) =~= rv);
}

/// The events of a hyperlink: its runs inside an element that carries its
/// relationship identifier.
pub open spec fn hyperlink_enc(h: HyperlinkView) -> Seq<XmlEventView> {
    seq![ev_start(Tag::Hyperlink, seq![("r:id"@, h.id)])] + runs_enc(h.runs) + seq![ev_end(Tag::Hyperlink)]
}

pub open spec fn child_enc(c: ParagraphChildView) -> Seq<XmlEventView> {
    match c {
        ParagraphChildView::Run(r) => run_enc(r),
        ParagraphChildView::Hyperlink(h) => hyperlink_enc(h),
    }
}

pub open spec fn children_enc(cs: Seq<ParagraphChildView>) -> Seq<XmlEventView>
    decreases cs.len(),
{
    if cs.len() == 0 {
        Seq::empty()
    } else {
        children_enc(cs.drop_last()) + child_enc(cs.last())
    }
}

fn write_child(out: &mut Vec<XmlEvent>, c: &ParagraphChild)
    ensures
        events_view(final(out)@) == events_view(old(out)@) + child_enc(c@),
{
    match c {
        ParagraphChild::Run(r) => write_run(out, r),
        ParagraphChild::Hyperlink(h) => {
            let ghost e0 = events_view(out@);
            push_start(out, Tag::Hyperlink, one_attr("r:id", h.id.clone()));
            write_runs(out, &h.runs);
            push_end(out, Tag::Hyperlink);
            assert(events_view(out@) =~= e0 + hyperlink_enc(h@));
        },
    }
}

fn write_children(out: &mut Vec<XmlEvent>, cs: &Vec<ParagraphChild>)
    ensures
        events_view(final(out)@) == events_view(old(out)@) + children_enc(children_view(cs@)),
{
    let ghost e0 = events_view(out@);
    let ghost cv = children_view(cs@);
    let mut i: usize = 0;
    assert(cv.subrange(0, 0) =~= Seq::<ParagraphChildView>::empty());
    assert(e0 + Seq::<XmlEventView>::empty() =~= e0);
    while i < cs.len()
        invariant
            i <= cs.len(),
            cv == children_view(cs@),
            cv.len() == cs.len(),
            events_view(out@) == e0 + children_enc(cv.subrange(0, i as int)),
        decreases cs.len() - i,
    {
        write_child(out, &cs[i]);
        proof {
            let next = cv.subrange(0, i + 1);
            assert(next.drop_last() =~= cv.subrange(0, i as int));
            assert(next.last() == cs@[i as int]@);
            lemma_concat_associative(e0, children_enc(cv.subrange(0, i as int)), child_enc(cs@[i as int]@));
        }
        i += 1;
    }
    assert(cv.subrange(0, cs.len() as int) =~= cv);
}

/// The events of a paragraph: its formatting when it has any, then its
/// children in order.
pub open spec fn paragraph_enc(p: ParagraphView) -> Seq<XmlEventView> {
    seq![ev_start(Tag::Paragraph, Seq::empty())] + (if p.properties != ParagraphPropertiesView::empty() {
        ppr_events(p.properties)
    } else {
        Seq::empty()
    }) + children_enc(p.children) + seq![ev_end(Tag::Paragraph)]
}

pub open spec fn paragraphs_enc(ps: Seq<ParagraphView>) -> Seq<XmlEventView>
    decreases ps.len(),
{
    if ps.len() == 0 {
        Seq::empty()
    } else {
        paragraphs_enc(ps.drop_last()) + paragraph_enc(ps.last())
    }
}

fn write_paragraph(out: &mut Vec<XmlEvent>, p: &Paragraph)
    ensures
        events_view(final(out)@) == events_view(old(out)@) + paragraph_enc(p@),
{
    let ghost e0 = events_view(out@);
    push_start(out, Tag::Paragraph, no_attrs());
    let ghost e1 = events_view(out@);
    if p.properties.has_formatting() {
        write_paragraph_properties(out, &p.properties);
    }
    let ghost e2 = events_view(out@);
    write_children(out, &p.children);
    push_end(out, Tag::Paragraph);
    assert(e2 =~= e1 + (if p@.properties != ParagraphPropertiesView::empty() {
        ppr_events(p@.properties)
    } else {
        Seq::<XmlEventView>::empty()
    }));
    assert(events_view(out@) =~= e0 + paragraph_enc(p@));
}

/// The namespaces that the document element declares.
pub open spec fn namespace_attrs() -> Attrs {
    seq![
        ("xmlns:w"@, "http://schemas.openxmlformats.org/wordprocessingml/2006/main"@),
        ("xmlns:r"@, "http://schemas.openxmlformats.org/officeDocument/2006/relationships"@),
    ]
}

/// The events of a document: its paragraphs in order inside the body and the
/// document element.
pub open spec fn doc_events(d: Seq<ParagraphView>) -> Seq<XmlEventView> {
    seq![ev_start(Tag::Document, namespace_attrs()), ev_start(Tag::Body, Seq::empty())]
        + paragraphs_enc(d) + seq![ev_end(Tag::Body), ev_end(Tag::Document)]
}

/// The stream of XML events that writes `doc`.
pub fn document_events(doc: &Document) -> (r: Vec<XmlEvent>)
    ensures
        events_view(r@) == doc_events(doc@),
{
    let mut out: Vec<XmlEvent> = Vec::new();
    let mut ns = one_attr("xmlns:w", owned("http://schemas.openxmlformats.org/wordprocessingml/2006/main"));
    let ghost a0 = attrs_view(ns@);
    ns.push(XmlAttribute {
        key: owned("xmlns:r"),
        value: owned("http://schemas.openxmlformats.org/officeDocument/2006/relationships"),
    });
    assert(attrs_view(ns@) =~= a0.push(
        ("xmlns:r"@, "http://schemas.openxmlformats.org/officeDocument/2006/relationships"@),
    ));
    assert(attrs_view(ns@) =~= namespace_attrs());
    assert(events_view(out@) =~= Seq::<XmlEventView>::empty());
    push_start(&mut out, Tag::Document, ns);
    push_start(&mut out, Tag::Body, no_attrs());
    let ghost e0 = events_view(out@);
    let ghost pv = doc@;
    let mut i: usize = 0;
    assert(pv.subrange(0, 0) =~= Seq::<ParagraphView>::empty());
    assert(e0 + Seq::<XmlEventView>::empty() =~= e0);
    while i < doc.paragraphs.len()
        invariant
            i <= doc.paragraphs.len(),
            pv == doc@,
            pv.len() == doc.paragraphs.len(),
            events_view(out@) == e0 + paragraphs_enc(pv.subrange(0, i as int)),
        decreases doc.paragraphs.len() - i,
    {
        write_paragraph(&mut out, &doc.paragraphs[i]);
        proof {
            let next = pv.subrange(0, i + 1);
            assert(next.drop_last() =~= pv.subrange(0, i as int));
            assert(next.last() == doc.paragraphs@[i as int]@);
            lemma_concat_associative(
                e0,
                paragraphs_enc(pv.subrange(0, i as int)),
                paragraph_enc(doc.paragraphs@[i as int]@),
            );
        }
        i += 1;
    }
    assert(pv.subrange(0, doc.paragraphs.len() as int) =~= pv);
    push_end(&mut out, Tag::Body);
    push_end(&mut out, Tag::Document);
    assert(events_view(out@) =~= doc_events(doc@));
    out
}

/// A run whose formatting equals the default is written with no formatting
/// element; a run with any other formatting has one right after the run opens.
pub proof fn lemma_run_formatting_omitted(r: RunView)
    ensures
        r.properties == RunPropertiesView::empty() ==> run_enc(r) == seq![
            ev_start(Tag::Run, Seq::empty()),
            ev_start(Tag::Text, space_attrs(r.space_preserve)),
            XmlEventView::Text(r.text),
            ev_end(Tag::Text),
            ev_end(Tag::Run),
        ],
        r.properties != RunPropertiesView::empty() ==> run_enc(r)[1] == ev_start(
            Tag::RunProps,
            Seq::empty(),
        ),
{
    if r.properties == RunPropertiesView::empty() {
        assert(run_enc(r) =~= seq![
            ev_start(Tag::Run, Seq::empty()),
            ev_start(Tag::Text, space_attrs(r.space_preserve)),
            XmlEventView::Text(r.text),
            ev_end(Tag::Text),
            ev_end(Tag::Run),
        ]);
    }
}

/// A paragraph whose formatting equals the default is written with no
/// formatting element; a paragraph with any other formatting has one right
/// after the paragraph opens.
pub proof fn lemma_paragraph_formatting_omitted(p: ParagraphView)
    ensures
        p.properties == ParagraphPropertiesView::empty() ==> paragraph_enc(p) == seq![
            ev_start(Tag::Paragraph, Seq::empty()),
        ] + children_enc(p.children) + seq![ev_end(Tag::Paragraph)],
        p.properties != ParagraphPropertiesView::empty() ==> paragraph_enc(p)[1] == ev_start(
            Tag::ParagraphProps,
            Seq::empty(),
        ),
{
    if p.properties == ParagraphPropertiesView::empty() {
        assert(paragraph_enc(p) =~= seq![ev_start(Tag::Paragraph, Seq::empty())] + children_enc(
            p.children,
        ) + seq![ev_end(Tag::Paragraph)]);
    }
}

/// A flag is written as a valueless marker exactly when it is on, and a value
/// that is absent writes nothing.
pub proof fn lemma_markers_written(tag: Tag, b: bool)
    ensures
        flag_events(tag, b) == (if b {
            seq![ev_empty(tag, Seq::empty())]
        } else {
            Seq::<XmlEventView>::empty()
        }),
        underline_events(None) == Seq::<XmlEventView>::empty(),
        color_events(None) == Seq::<XmlEventView>::empty(),
        number_events(tag, None) == Seq::<XmlEventView>::empty(),
        font_events(None) == Seq::<XmlEventView>::empty(),
        highlight_events(None) == Seq::<XmlEventView>::empty(),
        valign_events(None) == Seq::<XmlEventView>::empty(),
        borders_events(None) == Seq::<XmlEventView>::empty(),
        shading_events(None) == Seq::<XmlEventView>::empty(),
        tabs_events(None) == Seq::<XmlEventView>::empty(),
        numbering_events(None) == Seq::<XmlEventView>::empty(),
        spacing_events(None) == Seq::<XmlEventView>::empty(),
        ind_events(None) == Seq::<XmlEventView>::empty(),
        wire_value_events(tag, None) == Seq::<XmlEventView>::empty(),
        default_rpr_events(None) == Seq::<XmlEventView>::empty(),
{
    reveal(flag_events);
    reveal(underline_events);
    reveal(color_events);
    reveal(number_events);
    reveal(font_events);
    reveal(highlight_events);
    reveal(valign_events);
    reveal(borders_events);
    reveal(shading_events);
    reveal(tabs_events);
    reveal(numbering_events);
    reveal(spacing_events);
    reveal(ind_events);
    reveal(wire_value_events);
    reveal(default_rpr_events);
}

} // verus!
