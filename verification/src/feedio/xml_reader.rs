//! From the text of an XML document to its tokens.
//!
//! Cutting the text into events, splitting a tag's attributes and resolving
//! a reference are quick_xml's work. Here its events become tokens: an empty
//! element becomes a start tag and an end tag, a CDATA section and a resolved
//! reference become pieces of text, and comments, declarations, instructions
//! and document types are dropped.

use vstd::prelude::*;
use quick_xml::events::Event::{
    CData, Comment, Decl, DocType, Empty, End, Eof, GeneralRef, Start, Text, PI,
};
use crate::errors::{Failure, FeedError};
use crate::feedio::token::{Token, XmlToken};

verus! {

#[verifier::external_type_specification]
#[verifier::external_body]
#[verifier::reject_recursive_types(R)]
pub struct ExReader<R>(quick_xml::Reader<R>);

#[verifier::external_type_specification]
#[verifier::external_body]
pub struct ExXmlError(quick_xml::Error);

/// An event of quick_xml's reader as contracts speak of it.
pub enum Raw {
    /// A start tag: its name, and its attributes as they stand in the text.
    Start(Seq<char>, Seq<char>),
    /// The tag of an element without content: its name and its attributes.
    Empty(Seq<char>, Seq<char>),
    /// An end tag: its name.
    End(Seq<char>),
    /// Text outside tags, with its line ends normalized.
    Text(Seq<char>),
    /// The content of a CDATA section, with its line ends normalized.
    CData(Seq<char>),
    /// A reference: what stands between `&` and `;`.
    Reference(Seq<char>),
    /// A comment.
    Comment,
    /// The XML declaration.
    Declaration,
    /// A processing instruction.
    Instruction,
    /// A document type.
    DocType,
    /// The end of the text.
    Eof,
}

/// An event of quick_xml's reader, its parts taken out as texts.
#[derive(Debug)]
pub enum RawEvent {
    /// A start tag: its name, and its attributes as they stand in the text.
    Start(String, String),
    /// The tag of an element without content: its name and its attributes.
    Empty(String, String),
    /// An end tag: its name.
    End(String),
    /// Text outside tags, with its line ends normalized.
    Text(String),
    /// The content of a CDATA section, with its line ends normalized.
    CData(String),
    /// A reference: what stands between `&` and `;`.
    Reference(String),
    /// A comment.
    Comment,
    /// The XML declaration.
    Declaration,
    /// A processing instruction.
    Instruction,
    /// A document type.
    DocType,
    /// The end of the text.
    Eof,
}

impl View for RawEvent {
    type V = Raw;

    open spec fn view(&self) -> Raw {
        match self {
            RawEvent::Start(name, attributes) => Raw::Start(name@, attributes@),
            RawEvent::Empty(name, attributes) => Raw::Empty(name@, attributes@),
            RawEvent::End(name) => Raw::End(name@),
            RawEvent::Text(text) => Raw::Text(text@),
            RawEvent::CData(text) => Raw::CData(text@),
            RawEvent::Reference(name) => Raw::Reference(name@),
            RawEvent::Comment => Raw::Comment,
            RawEvent::Declaration => Raw::Declaration,
            RawEvent::Instruction => Raw::Instruction,
            RawEvent::DocType => Raw::DocType,
            RawEvent::Eof => Raw::Eof,
        }
    }
}

/// What a reader that quick_xml's `Reader::from_str` makes for a text gives,
/// call after call of `read_event`: the events before `Eof`. Where a call
/// returns an error, `None` stands for that call and is the last.
pub uninterp spec fn xml_events(text: Seq<char>) -> Seq<Option<Raw>>;

/// What a reader gives from where it stands, call after call of
/// `read_event`: the events before `Eof`, and `None` as the last for a call
/// that returns an error.
pub uninterp spec fn pending_events(reader: quick_xml::Reader<&[u8]>) -> Seq<Option<Raw>>;

/// The names and values that quick_xml's `Attributes` iterator and
/// `Attribute::normalized_value` give for the attributes of a tag as they
/// stand in the text, or `None` where one of them returns an error.
pub uninterp spec fn xml_attributes(raw: Seq<char>) -> Option<Seq<(Seq<char>, Seq<char>)>>;

/// The text that quick_xml's `unescape` gives for the reference `&name;`,
/// or `None` where it returns an error.
pub uninterp spec fn xml_reference(name: Seq<char>) -> Option<Seq<char>>;

/// Calls quick_xml's `Reader::from_str`. What the new reader gives is what
/// the text gives.
#[verifier::external_body]
fn open_reader<'a>(text: &'a str) -> (reader: quick_xml::Reader<&'a [u8]>)
    ensures
        pending_events(reader) == xml_events(text@),
{
    quick_xml::Reader::from_str(text)
}

/// Calls quick_xml's `Reader::read_event` and takes the parts of the event
/// out as texts: `name`, `attributes_raw`, `xml10_content` and the inner text
/// of a reference; each kind of event keeps its kind, and of a comment, a
/// declaration, an instruction and a document type only the kind is kept.
/// `Eof` comes exactly where the reader had nothing more to
/// give. Every other event is the first of those that the reader had to
/// give, and the reader then has the rest to give. An error comes exactly
/// where `None` stood first; nothing is said of the reader after it.
#[verifier::external_body]
fn next_event<'a>(reader: &mut quick_xml::Reader<&'a [u8]>) -> (r: Result<
    RawEvent,
    quick_xml::Error,
>)
    ensures
        match r {
            Ok(event) => if event is Eof {
                pending_events(*old(reader)).len() == 0
            } else {
                &&& pending_events(*old(reader)).len() > 0
                &&& pending_events(*old(reader))[0] == Some(event@)
                &&& pending_events(*final(reader)) == pending_events(*old(reader)).skip(1)
            },
            Err(_) => pending_events(*old(reader)).len() > 0 && pending_events(*old(reader))[0]
                is None,
        },
{
    Ok(match reader.read_event()? {
        Start(e) => RawEvent::Start(e.name().0.to_owned(), e.attributes_raw().to_owned()),
        Empty(e) => RawEvent::Empty(e.name().0.to_owned(), e.attributes_raw().to_owned()),
        End(e) => RawEvent::End(e.name().0.to_owned()),
        Text(e) => RawEvent::Text(e.xml10_content().into_owned()),
        CData(e) => RawEvent::CData(e.xml10_content().into_owned()),
        GeneralRef(e) => RawEvent::Reference(e.into_inner().into_owned()),
        Comment(_) => RawEvent::Comment,
        Decl(_) => RawEvent::Declaration,
        PI(_) => RawEvent::Instruction,
        DocType(_) => RawEvent::DocType,
        Eof => RawEvent::Eof,
    })
}

/// Walks quick_xml's `Attributes` over the attributes of a tag as they stand
/// in the text and takes from each its name and its `normalized_value`. The
/// contract only gives the result its name.
#[verifier::external_body]
fn split_attributes(raw: &str) -> (r: Result<Vec<(String, String)>, quick_xml::Error>)
    ensures
        match r {
            Ok(pairs) => xml_attributes(raw@) == Some(pairs.deep_view()),
            Err(_) => xml_attributes(raw@) is None,
        },
{
    let mut pairs = Vec::new();
    for found in quick_xml::events::attributes::Attributes::new(raw, 0) {
        let a = found?;
        let value = a.normalized_value(quick_xml::XmlVersion::Implicit1_0)?;
        pairs.push((a.key.0.to_owned(), value.into_owned()));
    }
    Ok(pairs)
}

/// Calls quick_xml's `unescape` on the reference `&name;`. The contract only
/// gives the result its name.
#[verifier::external_body]
fn resolve_reference(name: &str) -> (r: Result<String, quick_xml::Error>)
    ensures
        match r {
            Ok(text) => xml_reference(name@) == Some(text@),
            Err(_) => xml_reference(name@) is None,
        },
{
    Ok(quick_xml::escape::unescape(&format!("&{};", name))?.into_owned())
}

/// The tokens that an event adds to those before it: a tag without content
/// adds a start tag and an end tag, the content of a CDATA section and a
/// resolved reference add a piece of text as text does, and a comment, a
/// declaration, an instruction and a document type add nothing. `None` where
/// the event is an error or holds attributes or a reference that cannot be
/// read.
pub open spec fn with_event(tokens: Seq<Token>, event: Option<Raw>) -> Option<Seq<Token>> {
    match event {
        None => None,
        Some(Raw::Start(name, raw)) => match xml_attributes(raw) {
            Some(attributes) => Some(tokens.push(Token::Open { name, attributes })),
            None => None,
        },
        Some(Raw::Empty(name, raw)) => match xml_attributes(raw) {
            Some(attributes) => Some(
                tokens.push(Token::Open { name, attributes }).push(Token::Close { name }),
            ),
            None => None,
        },
        Some(Raw::End(name)) => Some(tokens.push(Token::Close { name })),
        Some(Raw::Text(text)) => Some(tokens.push(Token::Text { text })),
        Some(Raw::CData(text)) => Some(tokens.push(Token::Text { text })),
        Some(Raw::Reference(name)) => match xml_reference(name) {
            Some(text) => Some(tokens.push(Token::Text { text })),
            None => None,
        },
        Some(Raw::Comment) => Some(tokens),
        Some(Raw::Declaration) => Some(tokens),
        Some(Raw::Instruction) => Some(tokens),
        Some(Raw::DocType) => Some(tokens),
        Some(Raw::Eof) => Some(tokens),
    }
}

/// The tokens of a run of events behind the tokens given; `None` where one
/// of the events gives none.
pub open spec fn with_events(tokens: Seq<Token>, events: Seq<Option<Raw>>) -> Option<Seq<Token>>
    decreases events.len(),
{
    if events.len() == 0 {
        Some(tokens)
    } else {
        match with_event(tokens, events[0]) {
            Some(next) => with_events(next, events.skip(1)),
            None => None,
        }
    }
}

/// The tokens of a text; `None` where the text is no readable XML.
pub open spec fn text_tokens(text: Seq<char>) -> Option<Seq<Token>> {
    with_events(Seq::empty(), xml_events(text))
}

/// Cuts a text into its tokens.
///
/// Fails with `ElementToString` where quick_xml cannot read the markup, the
/// attributes of a tag or a reference.
pub fn tokenize(text: &str) -> (r: Result<Vec<XmlToken>, FeedError>)
    ensures
        match r {
            Ok(tokens) => text_tokens(text@) == Some(tokens.deep_view()),
            Err(e) => text_tokens(text@) is None && e@ == Failure::ElementToString,
        },
{
    let mut reader = open_reader(text);
    let mut tokens: Vec<XmlToken> = Vec::new();
    assert(tokens.deep_view() =~= Seq::<Token>::empty());
    loop
        invariant
            text_tokens(text@) == with_events(tokens.deep_view(), pending_events(reader)),
        decreases pending_events(reader).len(),
    {
        let ghost held = tokens.deep_view();
        let event = match next_event(&mut reader) {
            Ok(event) => event,
            Err(_) => {
                return Err(FeedError::ElementToString);
            },
        };
        match event {
            RawEvent::Start(name, raw) => {
                let attributes = match split_attributes(raw.as_str()) {
                    Ok(pairs) => pairs,
                    Err(_) => {
                        return Err(FeedError::ElementToString);
                    },
                };
                let token = XmlToken::Open { name, attributes };
                tokens.push(token);
                assert(tokens.deep_view() =~= held.push(token.deep_view()));
            },
            RawEvent::Empty(name, raw) => {
                let attributes = match split_attributes(raw.as_str()) {
                    Ok(pairs) => pairs,
                    Err(_) => {
                        return Err(FeedError::ElementToString);
                    },
                };
                let close = XmlToken::Close { name: name.clone() };
                let open = XmlToken::Open { name, attributes };
                tokens.push(open);
                tokens.push(close);
                assert(tokens.deep_view() =~= held.push(open.deep_view()).push(close.deep_view()));
            },
            RawEvent::End(name) => {
                let token = XmlToken::Close { name };
                tokens.push(token);
                assert(tokens.deep_view() =~= held.push(token.deep_view()));
            },
            RawEvent::Text(text) => {
                let token = XmlToken::Text { text };
                tokens.push(token);
                assert(tokens.deep_view() =~= held.push(token.deep_view()));
            },
            RawEvent::CData(text) => {
                let token = XmlToken::Text { text };
                tokens.push(token);
                assert(tokens.deep_view() =~= held.push(token.deep_view()));
            },
            RawEvent::Reference(name) => {
                let text = match resolve_reference(name.as_str()) {
                    Ok(text) => text,
                    Err(_) => {
                        return Err(FeedError::ElementToString);
                    },
                };
                let token = XmlToken::Text { text };
                tokens.push(token);
                assert(tokens.deep_view() =~= held.push(token.deep_view()));
            },
            RawEvent::Comment => {},
            RawEvent::Declaration => {},
            RawEvent::Instruction => {},
            RawEvent::DocType => {},
            RawEvent::Eof => {
                return Ok(tokens);
            },
        }
    }
}

} // verus!
