//! Decoding what the encoder writes gives the document back.

use vstd::prelude::*;
use crate::decode::{
    DecodeFault, DecodeState, decode_model, finish_paragraph, flag_of, hyperlink_to_paragraph, initial_state,
    push_child, run_events, run_marker, run_to_container, run_to_paragraph, step,
};
use crate::encode::{
    children_enc, child_enc, color_events, doc_events, ev_empty, ev_end, ev_start, flag_events,
    font_events, highlight_events, hyperlink_enc, namespace_attrs, number_events, paragraph_enc,
    paragraphs_enc, rpr_events, run_enc, runs_enc, space_attrs, underline_events, valign_events,
};
use crate::color::is_hex_code;
use crate::events::{Tag, XmlEventView, attr_of};
use crate::encode::val_event;
use crate::text::{decimal, lemma_parse_decimal};
use crate::model::{
    HyperlinkView, ParagraphChildView, ParagraphView, RunView, empty_paragraph, plain_run,
};
use crate::paragraph_properties::ParagraphPropertiesView;
use crate::run_properties::RunPropertiesView;

verus! {

/// Run formatting that its markup reads back as: no font set, an underline and a
/// highlight that name a value, and a color of six hexadecimal digits.
pub open spec fn readable_run_properties(p: RunPropertiesView) -> bool {
    &&& p.font is None
    &&& p.underline matches Some(u) ==> u.value is Some
    &&& p.highlight matches Some(h) ==> h.value is Some
    &&& p.color matches Some(c) ==> is_hex_code(c)
}

pub open spec fn readable_runs(rs: Seq<RunView>) -> bool {
    forall|i: int| 0 <= i < rs.len() ==> readable_run_properties(#[trigger] rs[i].properties)
}

pub open spec fn readable_child(c: ParagraphChildView) -> bool {
    match c {
        ParagraphChildView::Run(r) => readable_run_properties(r.properties),
        ParagraphChildView::Hyperlink(h) => readable_runs(h.runs),
    }
}

/// A document whose paragraphs have default formatting and whose runs have
/// formatting that their markup reads back as.
pub open spec fn readable_document(d: Seq<ParagraphView>) -> bool {
    forall|i: int|
        0 <= i < d.len() ==> (#[trigger] d[i]).properties == ParagraphPropertiesView::empty()
            && forall|j: int| 0 <= j < d[i].children.len() ==> readable_child(#[trigger] d[i].children[j])
}

/// Running two sequences of events is running the first, then the second.
pub proof fn lemma_run_events_concat(s: DecodeState, a: Seq<XmlEventView>, b: Seq<XmlEventView>)
    ensures
        run_events(s, a + b) == (match run_events(s, a) {
            Ok(t) => run_events(t, b),
            Err(e) => Err(e),
        }),
    decreases a.len(),
{
    if a.len() == 0 {
        assert(a + b =~= b);
    } else {
        assert((a + b)[0] == a[0]);
        assert((a + b).drop_first() =~= a.drop_first() + b);
        if let Ok(t) = step(s, a[0]) {
            lemma_run_events_concat(t, a.drop_first(), b);
        }
    }
}

proof fn lemma_one(s: DecodeState, e: XmlEventView)
    ensures
        run_events(s, seq![e]) == step(s, e),
{
    assert(seq![e].drop_first() =~= Seq::<XmlEventView>::empty());
    if let Ok(t) = step(s, e) {
        assert(run_events(t, Seq::<XmlEventView>::empty()) == Ok::<_, DecodeFault>(t));
    }
}

proof fn lemma_none(s: DecodeState)
    ensures
        run_events(s, Seq::empty()) == Ok::<_, DecodeFault>(s),
{
}

/// Appending `b` to `a`: when `a` leads from `s` to `t`, `a + b` leads where `b`
/// leads from `t`.
proof fn lemma_then(s: DecodeState, a: Seq<XmlEventView>, t: DecodeState, b: Seq<XmlEventView>)
    requires
        run_events(s, a) == Ok::<_, DecodeFault>(t),
    ensures
        run_events(s, a + b) == run_events(t, b),
{
    lemma_run_events_concat(s, a, b);
}

proof fn lemma_tags()
    ensures
        Tag::spec_from_wire(Tag::Document.spec_wire()) == Tag::Document,
        Tag::spec_from_wire(Tag::Body.spec_wire()) == Tag::Body,
        Tag::spec_from_wire(Tag::Paragraph.spec_wire()) == Tag::Paragraph,
        Tag::spec_from_wire(Tag::Run.spec_wire()) == Tag::Run,
        Tag::spec_from_wire(Tag::RunProps.spec_wire()) == Tag::RunProps,
        Tag::spec_from_wire(Tag::Text.spec_wire()) == Tag::Text,
        Tag::spec_from_wire(Tag::Hyperlink.spec_wire()) == Tag::Hyperlink,
        Tag::spec_from_wire(Tag::Bold.spec_wire()) == Tag::Bold,
        Tag::spec_from_wire(Tag::Italic.spec_wire()) == Tag::Italic,
        Tag::spec_from_wire(Tag::Strike.spec_wire()) == Tag::Strike,
        Tag::spec_from_wire(Tag::DStrike.spec_wire()) == Tag::DStrike,
{
    Tag::Document.lemma_wire_round_trip();
    Tag::Body.lemma_wire_round_trip();
    Tag::Paragraph.lemma_wire_round_trip();
    Tag::Run.lemma_wire_round_trip();
    Tag::RunProps.lemma_wire_round_trip();
    Tag::Text.lemma_wire_round_trip();
    Tag::Hyperlink.lemma_wire_round_trip();
    Tag::Bold.lemma_wire_round_trip();
    Tag::Italic.lemma_wire_round_trip();
    Tag::Strike.lemma_wire_round_trip();
    Tag::DStrike.lemma_wire_round_trip();
}

/// The run being built, with one of its flags set.
pub open spec fn with_run_flag(s: DecodeState, tag: Tag) -> DecodeState {
    match s.run {
        Some(r) => DecodeState {
            run: Some(
                RunView {
                    properties: match tag {
                        Tag::Bold => RunPropertiesView { bold: true, ..r.properties },
                        Tag::Italic => RunPropertiesView { italic: true, ..r.properties },
                        Tag::Strike => RunPropertiesView { strike: true, ..r.properties },
                        _ => RunPropertiesView { dstrike: true, ..r.properties },
                    },
                    ..r
                },
            ),
            ..s
        },
        None => s,
    }
}

proof fn lemma_flag(s: DecodeState, tag: Tag, b: bool)
    requires
        s.in_run_properties,
        !s.in_paragraph_properties,
        s.run is Some,
        tag == Tag::Bold || tag == Tag::Italic || tag == Tag::Strike || tag == Tag::DStrike,
    ensures
        run_events(s, flag_events(tag, b)) == Ok::<_, DecodeFault>(if b {
            with_run_flag(s, tag)
        } else {
            s
        }),
{
    reveal(flag_events);
    reveal(run_marker);
    lemma_tags();
    if b {
        lemma_one(s, ev_empty(tag, Seq::empty()));
        assert(attr_of(Seq::empty(), "w:val"@) is None);
        assert(flag_of(Seq::empty()));
    } else {
        assert(run_events(s, Seq::empty()) == Ok::<_, DecodeFault>(s));
    }
}

/// The run being built, with its formatting replaced by `p`.
pub open spec fn with_run_properties(s: DecodeState, p: RunPropertiesView) -> DecodeState {
    DecodeState { run: Some(RunView { properties: p, ..s.run.unwrap() }), ..s }
}

proof fn lemma_val(s: DecodeState, tag: Tag, v: Seq<char>)
    requires
        s.in_run_properties,
        !s.in_paragraph_properties,
        s.run is Some,
    ensures
        run_events(s, seq![val_event(tag, v)]) == (match run_marker(
            s.run.unwrap().properties,
            tag,
            seq![("w:val"@, v)],
        ) {
            Ok(rp) => Ok(with_run_properties(s, rp)),
            Err(e) => Err(e),
        }),
        attr_of(seq![("w:val"@, v)], "w:val"@) == Some(v),
{
    tag.lemma_wire_round_trip();
    lemma_one(s, val_event(tag, v));
}

proof fn lemma_underline(s: DecodeState, u: Option<crate::run_properties::Underline>)
    requires
        s.in_run_properties,
        !s.in_paragraph_properties,
        s.run is Some,
        u matches Some(x) ==> x.value is Some,
        s.run.unwrap().properties.underline is None,
    ensures
        run_events(s, underline_events(u)) == Ok::<_, DecodeFault>(with_run_properties(
            s,
            RunPropertiesView { underline: u, ..s.run.unwrap().properties },
        )),
{
    reveal(underline_events);
    reveal(run_marker);
    match u {
        Some(x) => {
            let st = x.value.unwrap();
            st.lemma_wire_round_trip();
            lemma_val(s, Tag::Underline, st.spec_wire());
        },
        None => lemma_none(s),
    }
}

proof fn lemma_color(s: DecodeState, c: Option<Seq<char>>)
    requires
        s.in_run_properties,
        !s.in_paragraph_properties,
        s.run is Some,
        c matches Some(x) ==> is_hex_code(x),
        s.run.unwrap().properties.color is None,
    ensures
        run_events(s, color_events(c)) == Ok::<_, DecodeFault>(with_run_properties(
            s,
            RunPropertiesView { color: c, ..s.run.unwrap().properties },
        )),
{
    reveal(color_events);
    reveal(run_marker);
    match c {
        Some(x) => lemma_val(s, Tag::Color, x),
        None => lemma_none(s),
    }
}

proof fn lemma_number(s: DecodeState, tag: Tag, n: Option<u32>)
    requires
        s.in_run_properties,
        !s.in_paragraph_properties,
        s.run is Some,
        tag == Tag::Size || tag == Tag::Spacing,
        tag == Tag::Size ==> s.run.unwrap().properties.size is None,
        tag == Tag::Spacing ==> s.run.unwrap().properties.spacing is None,
    ensures
        run_events(s, number_events(tag, n)) == Ok::<_, DecodeFault>(with_run_properties(
            s,
            if tag == Tag::Size {
                RunPropertiesView { size: n, ..s.run.unwrap().properties }
            } else {
                RunPropertiesView { spacing: n, ..s.run.unwrap().properties }
            },
        )),
{
    reveal(number_events);
    reveal(run_marker);
    match n {
        Some(x) => {
            lemma_parse_decimal(x as nat, 0xffff_ffff);
            lemma_val(s, tag, decimal(x as nat));
        },
        None => lemma_none(s),
    }
}

proof fn lemma_highlight(s: DecodeState, h: Option<crate::color::HLColor>)
    requires
        s.in_run_properties,
        !s.in_paragraph_properties,
        s.run is Some,
        h matches Some(x) ==> x.value is Some,
        s.run.unwrap().properties.highlight is None,
    ensures
        run_events(s, highlight_events(h)) == Ok::<_, DecodeFault>(with_run_properties(
            s,
            RunPropertiesView { highlight: h, ..s.run.unwrap().properties },
        )),
{
    reveal(highlight_events);
    reveal(run_marker);
    match h {
        Some(x) => {
            let hv = x.value.unwrap();
            hv.lemma_wire_round_trip();
            lemma_val(s, Tag::Highlight, hv.spec_wire());
        },
        None => lemma_none(s),
    }
}

proof fn lemma_valign(s: DecodeState, v: Option<crate::run_properties::VerticalAlign>)
    requires
        s.in_run_properties,
        !s.in_paragraph_properties,
        s.run is Some,
        s.run.unwrap().properties.valign is None,
    ensures
        run_events(s, valign_events(v)) == Ok::<_, DecodeFault>(with_run_properties(
            s,
            RunPropertiesView { valign: v, ..s.run.unwrap().properties },
        )),
{
    reveal(valign_events);
    reveal(run_marker);
    match v {
        Some(x) => {
            x.value.lemma_wire_round_trip();
            lemma_val(s, Tag::VertAlign, x.value.spec_wire());
        },
        None => lemma_none(s),
    }
}

proof fn lemma_values(s: DecodeState, p: RunPropertiesView)
    requires
        s.in_run_properties,
        !s.in_paragraph_properties,
        s.run matches Some(r) && r.properties == (RunPropertiesView {
            bold: p.bold,
            italic: p.italic,
            strike: p.strike,
            dstrike: p.dstrike,
            ..RunPropertiesView::empty()
        }),
        readable_run_properties(p),
    ensures
        run_events(
            s,
            underline_events(p.underline) + color_events(p.color) + number_events(Tag::Size, p.size)
                + font_events(p.font) + highlight_events(p.highlight) + valign_events(p.valign)
                + number_events(Tag::Spacing, p.spacing),
        ) == Ok::<_, DecodeFault>(with_run_properties(s, p)),
{
    let q0 = s.run.unwrap().properties;
    let q1 = RunPropertiesView { underline: p.underline, ..q0 };
    let q2 = RunPropertiesView { color: p.color, ..q1 };
    let q3 = RunPropertiesView { size: p.size, ..q2 };
    let q4 = RunPropertiesView { highlight: p.highlight, ..q3 };
    let q5 = RunPropertiesView { valign: p.valign, ..q4 };
    let q6 = RunPropertiesView { spacing: p.spacing, ..q5 };
    let s1 = with_run_properties(s, q1);
    let s2 = with_run_properties(s, q2);
    let s3 = with_run_properties(s, q3);
    let s4 = with_run_properties(s, q4);
    let s5 = with_run_properties(s, q5);
    let s6 = with_run_properties(s, q6);
    lemma_underline(s, p.underline);
    lemma_color(s1, p.color);
    lemma_then(s, underline_events(p.underline), s1, color_events(p.color));
    let c1 = underline_events(p.underline) + color_events(p.color);
    lemma_number(s2, Tag::Size, p.size);
    lemma_then(s, c1, s2, number_events(Tag::Size, p.size));
    let c2 = c1 + number_events(Tag::Size, p.size);
    reveal(font_events);
    lemma_none(s3);
    assert(font_events(p.font) == Seq::<XmlEventView>::empty());
    lemma_then(s, c2, s3, font_events(p.font));
    let c3 = c2 + font_events(p.font);
    lemma_highlight(s3, p.highlight);
    lemma_then(s, c3, s3, highlight_events(p.highlight));
    let c4 = c3 + highlight_events(p.highlight);
    lemma_valign(s4, p.valign);
    lemma_then(s, c4, s4, valign_events(p.valign));
    let c5 = c4 + valign_events(p.valign);
    lemma_number(s5, Tag::Spacing, p.spacing);
    lemma_then(s, c5, s5, number_events(Tag::Spacing, p.spacing));
    assert(q6 == p);
}

proof fn lemma_rpr(s: DecodeState, p: RunPropertiesView)
    requires
        !s.in_paragraph_properties,
        !s.in_run_properties,
        s.run matches Some(r) && r.properties == RunPropertiesView::empty(),
        readable_run_properties(p),
    ensures
        run_events(s, rpr_events(p)) == Ok::<_, DecodeFault>(DecodeState {
            run: Some(RunView { properties: p, ..s.run.unwrap() }),
            ..s
        }),
{
    lemma_tags();
    let r = s.run.unwrap();
    let e0 = seq![ev_start(Tag::RunProps, Seq::empty())];
    let s1 = DecodeState { in_run_properties: true, ..s };
    lemma_one(s, e0[0]);
    assert(e0 == seq![e0[0]]);
    let f1 = flag_events(Tag::Bold, p.bold);
    let f2 = flag_events(Tag::Italic, p.italic);
    let f3 = flag_events(Tag::Strike, p.strike);
    let f4 = flag_events(Tag::DStrike, p.dstrike);
    let s2 = if p.bold { with_run_flag(s1, Tag::Bold) } else { s1 };
    lemma_flag(s1, Tag::Bold, p.bold);
    lemma_then(s, e0, s1, f1);
    let s3 = if p.italic { with_run_flag(s2, Tag::Italic) } else { s2 };
    lemma_flag(s2, Tag::Italic, p.italic);
    lemma_then(s, e0 + f1, s2, f2);
    let s4 = if p.strike { with_run_flag(s3, Tag::Strike) } else { s3 };
    lemma_flag(s3, Tag::Strike, p.strike);
    lemma_then(s, e0 + f1 + f2, s3, f3);
    let s5 = if p.dstrike { with_run_flag(s4, Tag::DStrike) } else { s4 };
    lemma_flag(s4, Tag::DStrike, p.dstrike);
    lemma_then(s, e0 + f1 + f2 + f3, s4, f4);
    let pre = e0 + f1 + f2 + f3 + f4;
    let vals = underline_events(p.underline) + color_events(p.color) + number_events(Tag::Size, p.size)
        + font_events(p.font) + highlight_events(p.highlight) + valign_events(p.valign)
        + number_events(Tag::Spacing, p.spacing);
    assert(s5.run.unwrap().properties == (RunPropertiesView {
        bold: p.bold,
        italic: p.italic,
        strike: p.strike,
        dstrike: p.dstrike,
        ..RunPropertiesView::empty()
    }));
    lemma_values(s5, p);
    let s5v = with_run_properties(s5, p);
    lemma_then(s, pre, s5, vals);
    assert(pre + vals =~= pre + underline_events(p.underline) + color_events(p.color)
        + number_events(Tag::Size, p.size) + font_events(p.font) + highlight_events(p.highlight)
        + valign_events(p.valign) + number_events(Tag::Spacing, p.spacing));
    let pre7 = pre + underline_events(p.underline) + color_events(p.color) + number_events(Tag::Size, p.size)
        + font_events(p.font) + highlight_events(p.highlight) + valign_events(p.valign)
        + number_events(Tag::Spacing, p.spacing);
    let tail = seq![ev_end(Tag::RunProps)];
    lemma_one(s5v, tail[0]);
    assert(tail == seq![tail[0]]);
    lemma_then(s, pre7, s5v, tail);
    assert(rpr_events(p) == pre7 + tail);
    let s6 = DecodeState { in_run_properties: false, ..s5v };
    assert(s6.run == Some(RunView { properties: p, ..r }));
    assert(s6 == DecodeState { run: Some(RunView { properties: p, ..r }), ..s });
}

proof fn lemma_run(s: DecodeState, r: RunView)
    requires
        s.run is None,
        !s.in_paragraph_properties,
        !s.in_run_properties,
        readable_run_properties(r.properties),
    ensures
        run_events(s, run_enc(r)) == Ok::<_, DecodeFault>(run_to_container(DecodeState { run: Some(r), ..s })),
{
    lemma_tags();
    let e0 = seq![ev_start(Tag::Run, Seq::empty())];
    lemma_one(s, e0[0]);
    assert(e0 == seq![e0[0]]);
    let s1 = DecodeState { run: Some(plain_run(Seq::empty())), ..s };
    assert(run_events(s, e0) == Ok::<_, DecodeFault>(s1));
    let mid = if r.properties != RunPropertiesView::empty() {
        rpr_events(r.properties)
    } else {
        Seq::empty()
    };
    let s2 = DecodeState {
        run: Some(RunView { properties: r.properties, ..plain_run(Seq::empty()) }),
        ..s
    };
    if r.properties != RunPropertiesView::empty() {
        lemma_rpr(s1, r.properties);
    } else {
        lemma_none(s1);
    }
    assert(run_events(s1, mid) == Ok::<_, DecodeFault>(s2));
    lemma_then(s, e0, s1, mid);
    let sa = space_attrs(r.space_preserve);
    let a = ev_start(Tag::Text, sa);
    let s3 = DecodeState {
        run: Some(RunView { properties: r.properties, space_preserve: r.space_preserve, text: Seq::empty() }),
        ..s
    };
    lemma_one(s2, a);
    if r.space_preserve {
        assert(attr_of(sa, "xml:space"@) == Some("preserve"@));
    } else {
        assert(attr_of(sa, "xml:space"@) is None);
    }
    assert(step(s2, a) == Ok::<_, DecodeFault>(s3));
    lemma_then(s, e0 + mid, s2, seq![a]);
    let b = XmlEventView::Text(r.text);
    let s4 = DecodeState { run: Some(r), ..s };
    lemma_one(s3, b);
    assert(Seq::<char>::empty() + r.text =~= r.text);
    assert(step(s3, b) == Ok::<_, DecodeFault>(s4));
    lemma_then(s, e0 + mid + seq![a], s3, seq![b]);
    let c = ev_end(Tag::Text);
    lemma_one(s4, c);
    lemma_then(s, e0 + mid + seq![a] + seq![b], s4, seq![c]);
    let d = ev_end(Tag::Run);
    lemma_one(s4, d);
    lemma_then(s, e0 + mid + seq![a] + seq![b] + seq![c], s4, seq![d]);
    assert(run_enc(r) =~= e0 + mid + seq![a] + seq![b] + seq![c] + seq![d]);
}

proof fn lemma_runs_in_hyperlink(s: DecodeState, rs: Seq<RunView>)
    requires
        s.hyperlink is Some,
        s.run is None,
        !s.in_paragraph_properties,
        !s.in_run_properties,
        readable_runs(rs),
    ensures
        run_events(s, runs_enc(rs)) == Ok::<_, DecodeFault>(DecodeState {
            hyperlink: Some(
                HyperlinkView { runs: s.hyperlink.unwrap().runs + rs, ..s.hyperlink.unwrap() },
            ),
            ..s
        }),
    decreases rs.len(),
{
    let h = s.hyperlink.unwrap();
    if rs.len() == 0 {
        assert(h.runs + rs =~= h.runs);
        lemma_none(s);
    } else {
        let init = rs.drop_last();
        assert(readable_runs(init)) by {
            assert forall|i: int| 0 <= i < init.len() implies readable_run_properties(#[trigger] init[i].properties) by {
                assert(init[i] == rs[i]);
            }
        }
        lemma_runs_in_hyperlink(s, init);
        let t = DecodeState { hyperlink: Some(HyperlinkView { runs: h.runs + init, ..h }), ..s };
        assert(readable_run_properties(rs[rs.len() - 1].properties));
        lemma_run(t, rs.last());
        lemma_then(s, runs_enc(init), t, run_enc(rs.last()));
        assert(h.runs + init + seq![rs.last()] =~= h.runs + rs);
        assert((h.runs + init).push(rs.last()) =~= h.runs + rs);
    }
}

proof fn lemma_children(s: DecodeState, cs: Seq<ParagraphChildView>)
    requires
        s.paragraph is Some,
        s.hyperlink is None,
        s.run is None,
        !s.in_paragraph_properties,
        !s.in_run_properties,
        forall|j: int| 0 <= j < cs.len() ==> readable_child(#[trigger] cs[j]),
    ensures
        run_events(s, children_enc(cs)) == Ok::<_, DecodeFault>(DecodeState {
            paragraph: Some(
                ParagraphView {
                    children: s.paragraph.unwrap().children + cs,
                    ..s.paragraph.unwrap()
                },
            ),
            ..s
        }),
    decreases cs.len(),
{
    let p = s.paragraph.unwrap();
    if cs.len() == 0 {
        assert(p.children + cs =~= p.children);
        lemma_none(s);
    } else {
        let init = cs.drop_last();
        assert forall|j: int| 0 <= j < init.len() implies readable_child(#[trigger] init[j]) by {
            assert(init[j] == cs[j]);
        }
        lemma_children(s, init);
        let p1 = ParagraphView { children: p.children + init, ..p };
        let t = DecodeState { paragraph: Some(p1), ..s };
        let c = cs.last();
        assert(readable_child(cs[cs.len() - 1]));
        let goal = DecodeState {
            paragraph: Some(ParagraphView { children: p.children + cs, ..p }),
            ..s
        };
        assert(p1.children.push(c) =~= p.children + cs);
        match c {
            ParagraphChildView::Run(r) => {
                lemma_run(t, r);
            },
            ParagraphChildView::Hyperlink(h) => {
                lemma_tags();
                let a = ev_start(Tag::Hyperlink, seq![("r:id"@, h.id)]);
                lemma_one(t, a);
                let t1 = DecodeState {
                    hyperlink: Some(HyperlinkView { id: h.id, runs: Seq::empty() }),
                    ..t
                };
                assert(step(t, a) == Ok::<_, DecodeFault>(t1));
                lemma_runs_in_hyperlink(t1, h.runs);
                assert(Seq::<RunView>::empty() + h.runs =~= h.runs);
                let t2 = DecodeState { hyperlink: Some(h), ..t };
                lemma_then(t, seq![a], t1, runs_enc(h.runs));
                let z = ev_end(Tag::Hyperlink);
                lemma_one(t2, z);
                assert(step(t2, z) == Ok::<_, DecodeFault>(hyperlink_to_paragraph(t2)));
                lemma_then(t, seq![a] + runs_enc(h.runs), t2, seq![z]);
                assert(hyperlink_enc(h) =~= seq![a] + runs_enc(h.runs) + seq![z]);
            },
        }
        lemma_then(s, children_enc(init), t, child_enc(c));
    }
}

/// Between paragraphs: nothing is being built and no scope is open.
pub open spec fn at_rest(s: DecodeState) -> bool {
    &&& s.paragraph is None
    &&& !s.in_paragraph_properties
    &&& !s.in_default_run_properties
    &&& s.hyperlink is None
    &&& s.run is None
    &&& !s.in_run_properties
}

proof fn lemma_paragraph(s: DecodeState, p: ParagraphView)
    requires
        at_rest(s),
        p.properties == ParagraphPropertiesView::empty(),
        forall|j: int| 0 <= j < p.children.len() ==> readable_child(#[trigger] p.children[j]),
    ensures
        run_events(s, paragraph_enc(p)) == Ok::<_, DecodeFault>(DecodeState { document: s.document.push(p), ..s }),
{
    lemma_tags();
    let a = ev_start(Tag::Paragraph, Seq::empty());
    lemma_one(s, a);
    assert(finish_paragraph(s) == s);
    let s1 = DecodeState { paragraph: Some(empty_paragraph()), ..s };
    assert(step(s, a) == Ok::<_, DecodeFault>(s1));
    lemma_children(s1, p.children);
    assert(Seq::<ParagraphChildView>::empty() + p.children =~= p.children);
    let s2 = DecodeState { paragraph: Some(p), ..s };
    lemma_then(s, seq![a], s1, children_enc(p.children));
    let z = ev_end(Tag::Paragraph);
    lemma_one(s2, z);
    assert(finish_paragraph(s2) == DecodeState { document: s.document.push(p), ..s });
    lemma_then(s, seq![a] + children_enc(p.children), s2, seq![z]);
    assert(paragraph_enc(p) =~= seq![a] + children_enc(p.children) + seq![z]);
}

proof fn lemma_paragraphs(s: DecodeState, ps: Seq<ParagraphView>)
    requires
        at_rest(s),
        readable_document(ps),
    ensures
        run_events(s, paragraphs_enc(ps)) == Ok::<_, DecodeFault>(DecodeState { document: s.document + ps, ..s }),
    decreases ps.len(),
{
    if ps.len() == 0 {
        assert(s.document + ps =~= s.document);
        lemma_none(s);
    } else {
        let init = ps.drop_last();
        assert(readable_document(init)) by {
            assert forall|i: int| 0 <= i < init.len() implies (#[trigger] init[i]).properties
                == ParagraphPropertiesView::empty() && forall|j: int|
                0 <= j < init[i].children.len() ==> readable_child(#[trigger] init[i].children[j]) by {
                assert(init[i] == ps[i]);
            }
        }
        lemma_paragraphs(s, init);
        let t = DecodeState { document: s.document + init, ..s };
        let last = ps.last();
        assert(last == ps[ps.len() - 1]);
        lemma_paragraph(t, last);
        lemma_then(s, paragraphs_enc(init), t, paragraph_enc(last));
        assert((s.document + init).push(last) =~= s.document + ps);
    }
}

/// Decoding the events that the encoder writes for a document gives the
/// document back, for a document whose paragraphs have default formatting and
/// whose runs have no font set, name a value for any underline and highlight,
/// and hold colors of six hexadecimal digits.
pub proof fn lemma_round_trip(d: Seq<ParagraphView>)
    requires
        readable_document(d),
    ensures
        decode_model(doc_events(d)) == Ok::<_, DecodeFault>(d),
{
    lemma_tags();
    let s = initial_state();
    let a = ev_start(Tag::Document, namespace_attrs());
    let b = ev_start(Tag::Body, Seq::empty());
    lemma_one(s, a);
    lemma_one(s, b);
    lemma_then(s, seq![a], s, seq![b]);
    assert(seq![a, b] =~= seq![a] + seq![b]);
    lemma_paragraphs(s, d);
    let t = DecodeState { document: s.document + d, ..s };
    lemma_then(s, seq![a, b], s, paragraphs_enc(d));
    let y = ev_end(Tag::Body);
    let z = ev_end(Tag::Document);
    lemma_one(t, y);
    lemma_one(t, z);
    lemma_then(t, seq![y], t, seq![z]);
    assert(seq![y, z] =~= seq![y] + seq![z]);
    lemma_then(s, seq![a, b] + paragraphs_enc(d), t, seq![y, z]);
    assert(doc_events(d) =~= seq![a, b] + paragraphs_enc(d) + seq![y, z]);
    assert(Seq::<ParagraphView>::empty() + d =~= d);
}

} // verus!
