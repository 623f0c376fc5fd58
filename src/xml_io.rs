//! The XML reader and writer of the quick-xml crate, seen through small wrappers,
//! and the two text-level operations built on them: reading a document part and
//! writing one.

use vstd::prelude::*;
use vstd::utf8::{decode_utf8, valid_utf8};
use quick_xml::events::attributes::{AttrError, Attribute, Attributes};
use quick_xml::events::{BytesEnd, BytesStart, BytesText, Event};
use quick_xml::{Reader, Writer};
use crate::decode::{DecodeFault, decode_events, decode_model, fault_of};
use crate::encode::{doc_events, document_events};
use crate::error::RudocxError;
use crate::events::{XmlAttribute, XmlEvent, XmlEventView, XmlTag, XmlTagView, attrs_view, events_view};
use crate::model::Document;

verus! {

#[verifier::external_type_specification]
#[verifier::external_body]
pub struct ExXmlError(quick_xml::Error);

#[verifier::external_type_specification]
#[verifier::external_body]
pub struct ExAttrError(AttrError);

#[verifier::external_type_specification]
#[verifier::external_body]
pub struct ExIoError(std::io::Error);

#[verifier::external_type_specification]
#[verifier::external_body]
pub struct ExFromUtf8Error(std::string::FromUtf8Error);

#[verifier::external_type_specification]
#[verifier::external_body]
#[verifier::reject_recursive_types(R)]
pub struct ExReader<R>(Reader<R>);

#[verifier::external_type_specification]
#[verifier::external_body]
#[verifier::reject_recursive_types(W)]
pub struct ExWriter<W>(Writer<W>);

#[verifier::external_type_specification]
#[verifier::external_body]
pub struct ExBytesStart<'a>(BytesStart<'a>);

#[verifier::external_type_specification]
#[verifier::external_body]
pub struct ExBytesEnd<'a>(BytesEnd<'a>);

#[verifier::external_type_specification]
#[verifier::external_body]
pub struct ExBytesText<'a>(BytesText<'a>);

#[verifier::external_type_specification]
#[verifier::external_body]
pub struct ExAttributes<'a>(Attributes<'a>);

#[verifier::external_type_specification]
#[verifier::external_body]
pub struct ExAttribute<'a>(Attribute<'a>);

/// An event as the reader hands it out, before its parts are read.
pub enum RawEvent<'a> {
    Start(BytesStart<'a>),
    Empty(BytesStart<'a>),
    Text(BytesText<'a>),
    End(BytesEnd<'a>),
    Eof,
    /// A declaration, comment, processing instruction or other event that
    /// carries no content of the document.
    Other,
}

/// The events that the XML reader finds in `text`, with declarations, comments
/// and other events that carry no content left out; `None` when it reports an
/// error, in the text or in an attribute, before the end.
pub uninterp spec fn reader_events(text: Seq<char>) -> Option<Seq<XmlEventView>>;

/// The events that a reader has still to hand out, counted as `reader_events`
/// counts them.
pub uninterp spec fn pending(r: Reader<&[u8]>) -> Option<Seq<XmlEventView>>;

/// The bytes of its text that a reader has not consumed yet.
pub uninterp spec fn unread(r: Reader<&[u8]>) -> nat;

/// The name and attributes of a start tag; `None` when an attribute is
/// malformed.
pub uninterp spec fn start_view(e: BytesStart) -> Option<XmlTagView>;

/// The unescaped content of a text event; `None` when it cannot be unescaped.
pub uninterp spec fn text_view(e: BytesText) -> Option<Seq<char>>;

/// The name of an end tag.
pub uninterp spec fn end_view(e: BytesEnd) -> Seq<char>;

/// The attributes that an attribute iterator has still to hand out; `None` when
/// one of them is malformed.
pub uninterp spec fn attrs_pending(it: Attributes) -> Option<Seq<(Seq<char>, Seq<char>)>>;

/// The bytes that an attribute iterator has not consumed yet.
pub uninterp spec fn attrs_unread(it: Attributes) -> nat;

/// The name and unescaped value of an attribute; `None` when the value cannot
/// be unescaped.
pub uninterp spec fn attr_view(a: Attribute) -> Option<(Seq<char>, Seq<char>)>;

/// `head` followed by `rest`, when both are there.
pub open spec fn prepend<T>(head: Option<T>, rest: Option<Seq<T>>) -> Option<Seq<T>> {
    match (head, rest) {
        (Some(h), Some(t)) => Some(seq![h] + t),
        _ => None,
    }
}

pub open spec fn start_event(t: Option<XmlTagView>) -> Option<XmlEventView> {
    match t {
        Some(x) => Some(XmlEventView::Start(x)),
        None => None,
    }
}

pub open spec fn empty_event(t: Option<XmlTagView>) -> Option<XmlEventView> {
    match t {
        Some(x) => Some(XmlEventView::Empty(x)),
        None => None,
    }
}

pub open spec fn text_event(t: Option<Seq<char>>) -> Option<XmlEventView> {
    match t {
        Some(x) => Some(XmlEventView::Text(x)),
        None => None,
    }
}

/// Relies on `quick_xml::Reader::from_str`: a reader over the text, with all of
/// its events still to come.
#[verifier::external_body]
fn xml_reader(text: &str) -> (r: Reader<&[u8]>)
    ensures
        pending(r) == reader_events(text@),
{
    Reader::from_str(text)
}

/// Relies on `quick_xml::Reader::read_event`: the next event of the text. Each
/// event but the end consumes at least one byte; an error means that the events
/// to come do not read.
#[verifier::external_body]
fn read_event<'a>(reader: &mut Reader<&'a [u8]>) -> (r: Result<RawEvent<'a>, quick_xml::Error>)
    ensures
        match r {
            Err(_) => pending(*old(reader)) is None,
            Ok(RawEvent::Eof) => pending(*old(reader)) == Some(Seq::<XmlEventView>::empty()),
            Ok(RawEvent::Other) => pending(*old(reader)) == pending(*final(reader)),
            Ok(RawEvent::Start(e)) => pending(*old(reader)) == prepend(
                start_event(start_view(e)),
                pending(*final(reader)),
            ),
            Ok(RawEvent::Empty(e)) => pending(*old(reader)) == prepend(
                empty_event(start_view(e)),
                pending(*final(reader)),
            ),
            Ok(RawEvent::Text(e)) => pending(*old(reader)) == prepend(
                text_event(text_view(e)),
                pending(*final(reader)),
            ),
            Ok(RawEvent::End(e)) => pending(*old(reader)) == prepend(
                Some(XmlEventView::End(end_view(e))),
                pending(*final(reader)),
            ),
        },
        r is Ok && !(r matches Ok(RawEvent::Eof)) ==> unread(*final(reader)) < unread(*old(reader)),
{
    match reader.read_event() {
        Ok(Event::Start(e)) => Ok(RawEvent::Start(e)),
        Ok(Event::Empty(e)) => Ok(RawEvent::Empty(e)),
        Ok(Event::Text(e)) => Ok(RawEvent::Text(e)),
        Ok(Event::End(e)) => Ok(RawEvent::End(e)),
        Ok(Event::Eof) => Ok(RawEvent::Eof),
        Ok(_) => Ok(RawEvent::Other),
        Err(e) => Err(e),
    }
}

/// Relies on `BytesStart::name`: the element's name, as text.
#[verifier::external_body]
fn start_name(e: &BytesStart) -> (r: String)
    ensures
        start_view(*e) matches Some(t) ==> r@ == t.name,
{
    String::from_utf8_lossy(e.name().as_ref()).into_owned()
}

/// Relies on `BytesEnd::name`: the element's name, as text.
#[verifier::external_body]
fn end_name(e: &BytesEnd) -> (r: String)
    ensures
        r@ == end_view(*e),
{
    String::from_utf8_lossy(e.name().as_ref()).into_owned()
}

/// Relies on `BytesText::unescape`: the text with its entities replaced.
#[verifier::external_body]
fn text_content(e: &BytesText) -> (r: Result<String, quick_xml::Error>)
    ensures
        r is Ok <==> text_view(*e) is Some,
        r matches Ok(t) ==> text_view(*e) == Some(t@),
{
    e.unescape().map(|t| t.into_owned())
}

/// Relies on `BytesStart::attributes`: an iterator over the attributes, with all
/// of them still to come.
#[verifier::external_body]
fn attributes<'a>(e: &'a BytesStart) -> (r: Attributes<'a>)
    ensures
        attrs_pending(r) == (match start_view(*e) {
            Some(t) => Some(t.attributes),
            None => None,
        }),
{
    e.attributes()
}

/// Relies on `Attributes::next`: the next attribute, or why it is malformed.
/// Each attribute consumes at least one byte.
#[verifier::external_body]
fn next_attribute<'a>(it: &mut Attributes<'a>) -> (r: Option<Result<Attribute<'a>, AttrError>>)
    ensures
        match r {
            None => attrs_pending(*old(it)) == Some(Seq::<(Seq<char>, Seq<char>)>::empty()),
            Some(Err(_)) => attrs_pending(*old(it)) is None,
            Some(Ok(a)) => attrs_pending(*old(it)) == prepend(attr_view(a), attrs_pending(*final(it)))
                && attrs_unread(*final(it)) < attrs_unread(*old(it)),
        },
{
    it.next()
}

/// Relies on the `key` field of `Attribute`: the attribute's name, as text.
#[verifier::external_body]
fn attribute_key(a: &Attribute) -> (r: String)
    ensures
        attr_view(*a) matches Some(kv) ==> r@ == kv.0,
{
    String::from_utf8_lossy(a.key.as_ref()).into_owned()
}

/// Relies on `Attribute::decode_and_unescape_value`: the value with its entities
/// replaced.
#[verifier::external_body]
fn attribute_value(a: &Attribute, reader: &Reader<&[u8]>) -> (r: Result<String, quick_xml::Error>)
    ensures
        r is Ok <==> attr_view(*a) is Some,
        r matches Ok(v) ==> attr_view(*a).unwrap().1 == v@,
{
    a.decode_and_unescape_value(reader.decoder()).map(|v| v.into_owned())
}

/// Reads the name and attributes of an element.
fn read_tag(e: &BytesStart, reader: &Reader<&[u8]>) -> (r: Result<XmlTag, RudocxError>)
    ensures
        match start_view(*e) {
            Some(t) => r matches Ok(x) && x@ == t,
            None => r matches Err(err) && (err is XmlError || err is XmlAttributeError),
        },
{
    let name = start_name(e);
    let mut it = attributes(e);
    let mut attrs: Vec<XmlAttribute> = Vec::new();
    let ghost whole = match start_view(*e) {
        Some(t) => Some(t.attributes),
        None => None,
    };
    assert(attrs_view(attrs@) =~= Seq::<(Seq<char>, Seq<char>)>::empty());
    assert(whole == (match attrs_pending(it) {
        Some(rest) => Some(attrs_view(attrs@) + rest),
        None => None::<Seq<(Seq<char>, Seq<char>)>>,
    })) by {
        if let Some(rest) = attrs_pending(it) {
            assert(attrs_view(attrs@) + rest =~= rest);
        }
    }
    loop
        invariant_except_break
            whole == (match attrs_pending(it) {
                Some(rest) => Some(attrs_view(attrs@) + rest),
                None => None::<Seq<(Seq<char>, Seq<char>)>>,
            }),
        invariant
            whole == (match start_view(*e) {
                Some(t) => Some(t.attributes),
                None => None,
            }),
            start_view(*e) matches Some(t) ==> name@ == t.name,
        ensures
            whole == Some(attrs_view(attrs@)),
        decreases attrs_unread(it),
    {
        let ghost before = attrs_view(attrs@);
        match next_attribute(&mut it) {
            None => {
                assert(before + Seq::<(Seq<char>, Seq<char>)>::empty() =~= before);
                break;
            },
            Some(Err(err)) => return Err(RudocxError::XmlAttributeError(err)),
            Some(Ok(a)) => {
                let key = attribute_key(&a);
                match attribute_value(&a, reader) {
                    Ok(value) => {
                        attrs.push(XmlAttribute { key, value });
                        proof {
                            assert(attrs_view(attrs@) =~= before.push(attr_view(a).unwrap()));
                            if let Some(rest) = attrs_pending(it) {
                                assert(before + (seq![attr_view(a).unwrap()] + rest) =~= attrs_view(attrs@) + rest);
                            }
                        }
                    },
                    Err(err) => return Err(RudocxError::XmlError(err)),
                }
            },
        }
    }
    let t = XmlTag { name, attributes: attrs };
    assert(start_view(*e) matches Some(v) ==> t@ == v);
    Ok(t)
}

/// The events of `contents`, as the XML reader gives them, up to the end of the
/// text; an error of the reader fails the call.
pub fn xml_events(contents: &str) -> (r: Result<Vec<XmlEvent>, RudocxError>)
    ensures
        r is Ok <==> reader_events(contents@) is Some,
        r matches Ok(evs) ==> events_view(evs@) == reader_events(contents@).unwrap(),
        r matches Err(e) ==> (e is XmlError || e is XmlAttributeError),
{
    let mut reader = xml_reader(contents);
    let mut events: Vec<XmlEvent> = Vec::new();
    let ghost whole = reader_events(contents@);
    assert(events_view(events@) =~= Seq::<XmlEventView>::empty());
    assert(whole == (match pending(reader) {
        Some(rest) => Some(events_view(events@) + rest),
        None => None::<Seq<XmlEventView>>,
    })) by {
        if let Some(rest) = pending(reader) {
            assert(events_view(events@) + rest =~= rest);
        }
    }
    loop
        invariant_except_break
            whole == (match pending(reader) {
                Some(rest) => Some(events_view(events@) + rest),
                None => None::<Seq<XmlEventView>>,
            }),
        invariant
            whole == reader_events(contents@),
        ensures
            whole == Some(events_view(events@)),
        decreases unread(reader),
    {
        let ghost before = events_view(events@);
        let raw = match read_event(&mut reader) {
            Ok(raw) => raw,
            Err(e) => return Err(RudocxError::XmlError(e)),
        };
        match raw {
            RawEvent::Start(e) => match read_tag(&e, &reader) {
                Ok(t) => {
                    let ghost ev = XmlEvent::Start(t)@;
                    events.push(XmlEvent::Start(t));
                    proof {
                        assert(events_view(events@) =~= before.push(ev));
                        if let Some(rest) = pending(reader) {
                            assert(before + (seq![ev] + rest) =~= events_view(events@) + rest);
                        }
                    }
                },
                Err(err) => return Err(err),
            },
            RawEvent::Empty(e) => match read_tag(&e, &reader) {
                Ok(t) => {
                    let ghost ev = XmlEvent::Empty(t)@;
                    events.push(XmlEvent::Empty(t));
                    proof {
                        assert(events_view(events@) =~= before.push(ev));
                        if let Some(rest) = pending(reader) {
                            assert(before + (seq![ev] + rest) =~= events_view(events@) + rest);
                        }
                    }
                },
                Err(err) => return Err(err),
            },
            RawEvent::Text(e) => match text_content(&e) {
                Ok(t) => {
                    let ghost ev = XmlEvent::Text(t)@;
                    events.push(XmlEvent::Text(t));
                    proof {
                        assert(events_view(events@) =~= before.push(ev));
                        if let Some(rest) = pending(reader) {
                            assert(before + (seq![ev] + rest) =~= events_view(events@) + rest);
                        }
                    }
                },
                Err(err) => return Err(RudocxError::XmlError(err)),
            },
            RawEvent::End(e) => {
                let n = end_name(&e);
                let ghost ev = XmlEvent::End(n)@;
                events.push(XmlEvent::End(n));
                proof {
                    assert(events_view(events@) =~= before.push(ev));
                    if let Some(rest) = pending(reader) {
                        assert(before + (seq![ev] + rest) =~= events_view(events@) + rest);
                    }
                }
            },
            RawEvent::Eof => {
                assert(before + Seq::<XmlEventView>::empty() =~= before);
                break;
            },
            RawEvent::Other => {},
        }
    }
    Ok(events)
}

/// Builds a document from the text of a main document part: what the decoder
/// makes of the events that the XML reader finds in the text. A malformed text
/// or attribute fails with the reader's error; a malformed number or shading
/// fails as the decoder does.
pub fn parse(contents: &str) -> (r: Result<Document, RudocxError>)
    ensures
        match reader_events(contents@) {
            Some(evs) => match decode_model(evs) {
                Ok(d) => r matches Ok(doc) && doc@ == d,
                Err(f) => r matches Err(e) && fault_of(f, e),
            },
            None => r matches Err(e) && (e is XmlError || e is XmlAttributeError),
        },
{
    match xml_events(contents) {
        Ok(events) => decode_events(&events),
        Err(e) => Err(e),
    }
}

/// The bytes that a writer has written.
pub uninterp spec fn written(w: Writer<Vec<u8>>) -> Seq<u8>;

/// The markup that the writer writes for one event.
pub uninterp spec fn markup(e: XmlEventView) -> Seq<u8>;

/// The markup of a sequence of events, one after the other.
pub open spec fn markup_of(evs: Seq<XmlEventView>) -> Seq<u8>
    decreases evs.len(),
{
    if evs.len() == 0 {
        Seq::empty()
    } else {
        markup_of(evs.drop_last()) + markup(evs.last())
    }
}

/// Relies on `quick_xml::Writer::new`: a writer over an empty buffer.
#[verifier::external_body]
fn xml_writer() -> (r: Writer<Vec<u8>>)
    ensures
        written(r) == Seq::<u8>::empty(),
{
    Writer::new(Vec::new())
}

/// Relies on `Writer::write_event` with a start tag: appends its markup, UTF-8
/// text made of the tag's strings. Writing into a `Vec` does not fail.
#[verifier::external_body]
fn write_start(w: &mut Writer<Vec<u8>>, t: &XmlTag) -> (r: Result<(), std::io::Error>)
    ensures
        r is Ok,
        written(*final(w)) == written(*old(w)) + markup(XmlEventView::Start(t@)),
        valid_utf8(written(*old(w))) ==> valid_utf8(written(*final(w))),
{
    let attrs = t.attributes.iter().map(|a| (a.key.as_str(), a.value.as_str()));
    w.write_event(Event::Start(BytesStart::new(t.name.as_str()).with_attributes(attrs)))
}

/// Relies on `Writer::write_event` with a self-closing tag: appends its markup,
/// UTF-8 text made of the tag's strings. Writing into a `Vec` does not fail.
#[verifier::external_body]
fn write_empty(w: &mut Writer<Vec<u8>>, t: &XmlTag) -> (r: Result<(), std::io::Error>)
    ensures
        r is Ok,
        written(*final(w)) == written(*old(w)) + markup(XmlEventView::Empty(t@)),
        valid_utf8(written(*old(w))) ==> valid_utf8(written(*final(w))),
{
    let attrs = t.attributes.iter().map(|a| (a.key.as_str(), a.value.as_str()));
    w.write_event(Event::Empty(BytesStart::new(t.name.as_str()).with_attributes(attrs)))
}

/// Relies on `Writer::write_event` with text, which it escapes: appends its
/// markup, UTF-8 text. Writing into a `Vec` does not fail.
#[verifier::external_body]
fn write_text(w: &mut Writer<Vec<u8>>, t: &String) -> (r: Result<(), std::io::Error>)
    ensures
        r is Ok,
        written(*final(w)) == written(*old(w)) + markup(XmlEventView::Text(t@)),
        valid_utf8(written(*old(w))) ==> valid_utf8(written(*final(w))),
{
    w.write_event(Event::Text(BytesText::new(t.as_str())))
}

/// Relies on `Writer::write_event` with an end tag: appends its markup, UTF-8
/// text. Writing into a `Vec` does not fail.
#[verifier::external_body]
fn write_end(w: &mut Writer<Vec<u8>>, name: &String) -> (r: Result<(), std::io::Error>)
    ensures
        r is Ok,
        written(*final(w)) == written(*old(w)) + markup(XmlEventView::End(name@)),
        valid_utf8(written(*old(w))) ==> valid_utf8(written(*final(w))),
{
    w.write_event(Event::End(BytesEnd::new(name.as_str())))
}

/// Relies on `Writer::into_inner`: the buffer with what was written.
#[verifier::external_body]
fn into_bytes(w: Writer<Vec<u8>>) -> (r: Vec<u8>)
    ensures
        r@ == written(w),
{
    w.into_inner()
}

/// Relies on `String::from_utf8`: the text that valid UTF-8 encodes.
#[verifier::external_body]
fn utf8_string(bytes: Vec<u8>) -> (r: Result<String, std::string::FromUtf8Error>)
    ensures
        r is Ok <==> valid_utf8(bytes@),
        r matches Ok(s) ==> s@ == decode_utf8(bytes@),
{
    String::from_utf8(bytes)
}

fn write_xml_event(w: &mut Writer<Vec<u8>>, e: &XmlEvent) -> (r: Result<(), std::io::Error>)
    ensures
        r is Ok,
        written(*final(w)) == written(*old(w)) + markup(e@),
        valid_utf8(written(*old(w))) ==> valid_utf8(written(*final(w))),
{
    match e {
        XmlEvent::Start(t) => write_start(w, t),
        XmlEvent::Empty(t) => write_empty(w, t),
        XmlEvent::Text(t) => write_text(w, t),
        XmlEvent::End(n) => write_end(w, n),
    }
}

/// Writes a stream of events as XML text; this does not fail.
pub fn serialize(events: &Vec<XmlEvent>) -> (r: Result<String, RudocxError>)
    ensures
        r is Ok,
        r matches Ok(s) ==> s@ == decode_utf8(markup_of(events_view(events@))),
{
    let ghost evs = events_view(events@);
    let mut w = xml_writer();
    let mut i: usize = 0;
    assert(evs.subrange(0, 0) =~= Seq::<XmlEventView>::empty());
    while i < events.len()
        invariant
            i <= events.len(),
            evs == events_view(events@),
            evs.len() == events.len(),
            written(w) == markup_of(evs.subrange(0, i as int)),
            valid_utf8(written(w)),
        decreases events.len() - i,
    {
        match write_xml_event(&mut w, &events[i]) {
            Ok(()) => {},
            Err(e) => return Err(RudocxError::IoError(e)),
        }
        assert(evs.subrange(0, i + 1).drop_last() =~= evs.subrange(0, i as int));
        i += 1;
    }
    assert(evs.subrange(0, events.len() as int) =~= evs);
    match utf8_string(into_bytes(w)) {
        Ok(s) => Ok(s),
        Err(e) => Err(RudocxError::Utf8Error(e)),
    }
}

/// Writes a document as the text of a main document part: the markup of the
/// events that the encoder gives for it. This does not fail.
pub fn generate(document: &Document) -> (r: Result<String, RudocxError>)
    ensures
        r is Ok,
        r matches Ok(s) ==> s@ == decode_utf8(markup_of(doc_events(document@))),
{
    let events = document_events(document);
    serialize(&events)
}

} // verus!
