//! The document tree: paragraphs of runs and hyperlinks.

use vstd::prelude::*;
use crate::paragraph_properties::{ParagraphProperties, ParagraphPropertiesView};
use crate::rels::{RelationshipManager, rid};
use crate::run_properties::{RunProperties, RunPropertiesView};
use crate::text::owned;

verus! {

/// A span of text with one formatting. `space_preserve` asks that leading and
/// trailing spaces survive writing.
#[derive(Debug, Clone, PartialEq)]
pub struct Run {
    pub properties: RunProperties,
    pub text: String,
    pub space_preserve: bool,
}

pub ghost struct RunView {
    pub properties: RunPropertiesView,
    pub text: Seq<char>,
    pub space_preserve: bool,
}

impl View for Run {
    type V = RunView;

    open spec fn view(&self) -> RunView {
        RunView {
            properties: self.properties@,
            text: self.text@,
            space_preserve: self.space_preserve,
        }
    }
}

/// The record of a run with no formatting.
pub open spec fn plain_properties() -> RunProperties {
    RunProperties {
        bold: false,
        italic: false,
        underline: None,
        color: None,
        size: None,
        font: None,
        highlight: None,
        strike: false,
        dstrike: false,
        valign: None,
        spacing: None,
    }
}

/// An unformatted run of `text`.
pub open spec fn plain_run(text: Seq<char>) -> RunView {
    RunView { properties: RunPropertiesView::empty(), text, space_preserve: false }
}

impl Default for Run {
    fn default() -> (r: Run)
        ensures
            r@ == plain_run(Seq::empty()),
    {
        Run { properties: RunProperties::default(), text: String::new(), space_preserve: false }
    }
}

impl From<String> for Run {
    /// An unformatted run of the text.
    fn from(s: String) -> (r: Run) {
        Run { properties: RunProperties::default(), text: s, space_preserve: false }
    }
}

impl vstd::std_specs::convert::FromSpecImpl<String> for Run {
    open spec fn obeys_from_spec() -> bool {
        true
    }

    open spec fn from_spec(s: String) -> Run {
        Run { properties: plain_properties(), text: s, space_preserve: false }
    }
}

impl Run {
    pub fn new(properties: RunProperties, text: String, space_preserve: bool) -> (r: Run)
        ensures
            r == (Run { properties, text, space_preserve }),
    {
        Run { properties, text, space_preserve }
    }

    /// An unformatted run of `text`.
    pub fn plain(text: String) -> (r: Run)
        ensures
            r@ == plain_run(text@),
    {
        Run { properties: RunProperties::default(), text, space_preserve: false }
    }
}

pub open spec fn runs_view(runs: Seq<Run>) -> Seq<RunView> {
    runs.map_values(|r: Run| r@)
}

/// A link to an outside target: the relationship identifier under which the
/// target is recorded, and the runs that show it.
#[derive(Debug, Clone, PartialEq)]
pub struct Hyperlink {
    pub id: String,
    pub runs: Vec<Run>,
}

pub ghost struct HyperlinkView {
    pub id: Seq<char>,
    pub runs: Seq<RunView>,
}

impl View for Hyperlink {
    type V = HyperlinkView;

    open spec fn view(&self) -> HyperlinkView {
        HyperlinkView { id: self.id@, runs: runs_view(self.runs@) }
    }
}

impl Default for Hyperlink {
    fn default() -> (r: Hyperlink)
        ensures
            r@.id.len() == 0,
            r@.runs.len() == 0,
    {
        Hyperlink { id: String::new(), runs: Vec::new() }
    }
}

impl Hyperlink {
    /// A hyperlink to `target` that shows `target`; the identifier is the next
    /// one of `relationship_manager`, which records the target under it.
    pub fn new(target: &str, relationship_manager: &mut RelationshipManager) -> (r: Hyperlink)
        requires
            old(relationship_manager).wf(),
            old(relationship_manager)@.counter < 0xffff_ffff,
        ensures
            final(relationship_manager).wf(),
            r@.id == rid(old(relationship_manager)@.counter + 1),
            final(relationship_manager)@.counter == old(relationship_manager)@.counter + 1,
            final(relationship_manager)@.links == old(relationship_manager)@.links.push(
                (r@.id, target@),
            ),
            r@.runs == seq![plain_run(target@)],
    {
        let id = relationship_manager.generate_rid(target);
        let mut runs = Vec::new();
        runs.push(Run::plain(owned(target)));
        let r = Hyperlink { id, runs };
        assert(r@.runs =~= seq![plain_run(target@)]);
        r
    }

    /// A hyperlink to `target` that shows `display_text`.
    pub fn new_with_text(
        target: &str,
        display_text: &str,
        relationship_manager: &mut RelationshipManager,
    ) -> (r: Hyperlink)
        requires
            old(relationship_manager).wf(),
            old(relationship_manager)@.counter < 0xffff_ffff,
        ensures
            final(relationship_manager).wf(),
            r@.id == rid(old(relationship_manager)@.counter + 1),
            final(relationship_manager)@.counter == old(relationship_manager)@.counter + 1,
            final(relationship_manager)@.links == old(relationship_manager)@.links.push(
                (r@.id, target@),
            ),
            r@.runs == seq![plain_run(display_text@)],
    {
        let id = relationship_manager.generate_rid(target);
        let mut runs = Vec::new();
        runs.push(Run::plain(owned(display_text)));
        let r = Hyperlink { id, runs };
        assert(r@.runs =~= seq![plain_run(display_text@)]);
        r
    }

    /// A hyperlink to `target` that shows `runs`.
    pub fn new_with_runs(
        target: &str,
        runs: Vec<Run>,
        relationship_manager: &mut RelationshipManager,
    ) -> (r: Hyperlink)
        requires
            old(relationship_manager).wf(),
            old(relationship_manager)@.counter < 0xffff_ffff,
        ensures
            final(relationship_manager).wf(),
            r@.id == rid(old(relationship_manager)@.counter + 1),
            final(relationship_manager)@.counter == old(relationship_manager)@.counter + 1,
            final(relationship_manager)@.links == old(relationship_manager)@.links.push(
                (r@.id, target@),
            ),
            r.runs == runs,
    {
        let id = relationship_manager.generate_rid(target);
        Hyperlink { id, runs }
    }
}

/// What a paragraph holds, in reading order.
#[derive(Debug, Clone, PartialEq)]
pub enum ParagraphChild {
    Run(Run),
    Hyperlink(Hyperlink),
}

pub ghost enum ParagraphChildView {
    Run(RunView),
    Hyperlink(HyperlinkView),
}

impl View for ParagraphChild {
    type V = ParagraphChildView;

    open spec fn view(&self) -> ParagraphChildView {
        match self {
            ParagraphChild::Run(r) => ParagraphChildView::Run(r@),
            ParagraphChild::Hyperlink(h) => ParagraphChildView::Hyperlink(h@),
        }
    }
}

pub open spec fn children_view(c: Seq<ParagraphChild>) -> Seq<ParagraphChildView> {
    c.map_values(|x: ParagraphChild| x@)
}

/// A paragraph: its formatting and its runs and hyperlinks in reading order.
#[derive(Debug, Clone, PartialEq)]
pub struct Paragraph {
    pub properties: ParagraphProperties,
    pub children: Vec<ParagraphChild>,
}

pub ghost struct ParagraphView {
    pub properties: ParagraphPropertiesView,
    pub children: Seq<ParagraphChildView>,
}

impl View for Paragraph {
    type V = ParagraphView;

    open spec fn view(&self) -> ParagraphView {
        ParagraphView { properties: self.properties@, children: children_view(self.children@) }
    }
}

/// An unformatted paragraph with nothing in it.
pub open spec fn empty_paragraph() -> ParagraphView {
    ParagraphView { properties: ParagraphPropertiesView::empty(), children: Seq::empty() }
}

impl Default for Paragraph {
    fn default() -> (r: Paragraph)
        ensures
            r@ == empty_paragraph(),
    {
        let r = Paragraph { properties: ParagraphProperties::default(), children: Vec::new() };
        assert(r@.children =~= Seq::<ParagraphChildView>::empty());
        r
    }
}

/// A document: its paragraphs in reading order.
#[derive(Debug, Clone, PartialEq)]
pub struct Document {
    pub paragraphs: Vec<Paragraph>,
}

pub open spec fn paragraphs_view(p: Seq<Paragraph>) -> Seq<ParagraphView> {
    p.map_values(|x: Paragraph| x@)
}

impl View for Document {
    type V = Seq<ParagraphView>;

    open spec fn view(&self) -> Seq<ParagraphView> {
        paragraphs_view(self.paragraphs@)
    }
}

impl Default for Document {
    fn default() -> (r: Document)
        ensures
            r@.len() == 0,
    {
        Document { paragraphs: Vec::new() }
    }
}

} // verus!
