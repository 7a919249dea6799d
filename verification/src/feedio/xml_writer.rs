//! From XML tokens to the bytes of a document.
//!
//! Writing a tag or a piece of text is quick_xml's work; its writer is
//! handed one token at a time. What it writes for each is short enough to
//! state, and the contracts state it: the bytes are the UTF-8 form of the
//! texts defined here. The bytes go to a vector, so writing does not fail.

use vstd::prelude::*;
use vstd::utf8::encode_utf8;
use crate::errors::FeedError;
use crate::feedio::token::{Token, XmlToken};
use crate::util::text::text_of;

verus! {

#[verifier::external_type_specification]
#[verifier::external_body]
pub struct ExIoError(std::io::Error);

/// What stands for one character in written text: the characters `<`, `>`,
/// `&`, `'`, `"` and the carriage return are replaced, in an attribute's
/// value the line feed and the tabulator too.
pub open spec fn escaped_char(c: char, in_attribute: bool) -> Seq<char> {
    if c == '<' {
        "&lt;"@
    } else if c == '>' {
        "&gt;"@
    } else if c == '&' {
        "&amp;"@
    } else if c == '\'' {
        "&apos;"@
    } else if c == '"' {
        "&quot;"@
    } else if c == '\r' {
        "&#13;"@
    } else if in_attribute && c == '\n' {
        "&#10;"@
    } else if in_attribute && c == '\t' {
        "&#9;"@
    } else {
        seq![c]
    }
}

/// A text with each of its characters escaped.
pub open spec fn escaped(text: Seq<char>, in_attribute: bool) -> Seq<char>
    decreases text.len(),
{
    if text.len() == 0 {
        Seq::empty()
    } else {
        escaped(text.drop_last(), in_attribute) + escaped_char(text.last(), in_attribute)
    }
}

/// The attributes as they stand in a start tag: before each a space, its
/// value escaped and between double quotes.
pub open spec fn attributes_text(attributes: Seq<(Seq<char>, Seq<char>)>) -> Seq<char>
    decreases attributes.len(),
{
    if attributes.len() == 0 {
        Seq::empty()
    } else {
        attributes_text(attributes.drop_last()) + " "@ + attributes.last().0 + "=\""@ + escaped(
            attributes.last().1,
            true,
        ) + "\""@
    }
}

pub open spec fn start_tag_text(name: Seq<char>, attributes: Seq<(Seq<char>, Seq<char>)>) -> Seq<
    char,
> {
    "<"@ + name + attributes_text(attributes) + ">"@
}

pub open spec fn end_tag_text(name: Seq<char>) -> Seq<char> {
    "</"@ + name + ">"@
}

/// The declaration that every document begins with.
pub open spec fn declaration_text() -> Seq<char> {
    "<?xml version=\"1.0\" encoding=\"UTF-8\"?>"@
}

/// A token as it is written.
pub open spec fn token_text(token: Token) -> Seq<char> {
    match token {
        Token::Open { name, attributes } => start_tag_text(name, attributes),
        Token::Close { name } => end_tag_text(name),
        Token::Text { text } => escaped(text, false),
    }
}

/// The bytes of a run of tokens: the UTF-8 form of each, one after the other.
pub open spec fn tokens_bytes(tokens: Seq<Token>) -> Seq<u8>
    decreases tokens.len(),
{
    if tokens.len() == 0 {
        Seq::empty()
    } else {
        tokens_bytes(tokens.drop_last()) + encode_utf8(token_text(tokens.last()))
    }
}

/// The bytes of a document: the declaration, then the tokens.
pub open spec fn document_bytes(tokens: Seq<Token>) -> Seq<u8> {
    encode_utf8(declaration_text()) + tokens_bytes(tokens)
}

/// Has quick_xml's `Writer::write_event` write the declaration that
/// `BytesDecl::new` makes for version 1.0 and the encoding UTF-8. Exactly
/// the declaration's bytes are added. `write_event` returns no error but
/// what the writer under it returns, and that writer is a vector of bytes,
/// which takes whatever is written to it: so the result is `Ok`.
#[verifier::external_body]
fn write_declaration(out: &mut Vec<u8>) -> (r: Result<(), std::io::Error>)
    ensures
        r is Ok,
        final(out)@ == old(out)@ + encode_utf8(declaration_text()),
{
    let declaration = quick_xml::events::BytesDecl::new("1.0", Some("UTF-8"), None);
    quick_xml::Writer::new(out).write_event(quick_xml::events::Event::Decl(declaration))
}

/// Has quick_xml's `Writer::write_event` write a start tag, made by
/// `BytesStart::new` and `with_attributes`, which escapes the values.
/// Exactly the start tag's bytes are added, and the result is `Ok`, as for
/// the declaration.
#[verifier::external_body]
fn write_start(out: &mut Vec<u8>, name: &str, attributes: &Vec<(String, String)>) -> (r: Result<
    (),
    std::io::Error,
>)
    ensures
        r is Ok,
        final(out)@ == old(out)@ + encode_utf8(start_tag_text(name@, attributes.deep_view())),
{
    let pairs = attributes.iter().map(|a| (a.0.as_str(), a.1.as_str()));
    let tag = quick_xml::events::BytesStart::new(name).with_attributes(pairs);
    quick_xml::Writer::new(out).write_event(quick_xml::events::Event::Start(tag))
}

/// Has quick_xml's `Writer::write_event` write an end tag, made by
/// `BytesEnd::new`. Exactly the end tag's bytes are added, and the result is
/// `Ok`, as for the declaration.
#[verifier::external_body]
fn write_end(out: &mut Vec<u8>, name: &str) -> (r: Result<(), std::io::Error>)
    ensures
        r is Ok,
        final(out)@ == old(out)@ + encode_utf8(end_tag_text(name@)),
{
    let tag = quick_xml::events::BytesEnd::new(name);
    quick_xml::Writer::new(out).write_event(quick_xml::events::Event::End(tag))
}

/// Has quick_xml's `Writer::write_event` write a piece of text, made by
/// `BytesText::new`, which escapes it. Exactly the escaped text's bytes are
/// added, and the result is `Ok`, as for the declaration.
#[verifier::external_body]
fn write_text(out: &mut Vec<u8>, text: &str) -> (r: Result<(), std::io::Error>)
    ensures
        r is Ok,
        final(out)@ == old(out)@ + encode_utf8(escaped(text@, false)),
{
    let piece = quick_xml::events::BytesText::new(text);
    quick_xml::Writer::new(out).write_event(quick_xml::events::Event::Text(piece))
}

/// Writes a document: the declaration, then the tokens in their order.
///
/// Always returns the bytes of the whole document. Should the writer ever
/// refuse a token, that would be reported with `TagStart` or `TagEnd`, holding
/// the tag's name, or with `TagText`, holding the name of the nearest tag
/// before the text, and nothing of the document would be returned; written
/// to a vector of bytes, no token is refused.
pub fn write_document(tokens: &Vec<XmlToken>) -> (r: Result<Vec<u8>, FeedError>)
    ensures
        r matches Ok(bytes) && bytes@ == document_bytes(tokens.deep_view()),
{
    let ghost all = tokens.deep_view();
    let mut out: Vec<u8> = Vec::new();
    if write_declaration(&mut out).is_err() {
        return Err(FeedError::TagStart(text_of("xml")));
    }
    let mut near = String::new();
    let mut at: usize = 0;
    assert(all.take(0) =~= Seq::<Token>::empty());
    while at < tokens.len()
        invariant
            at <= tokens.len(),
            all == tokens.deep_view(),
            out@ == encode_utf8(declaration_text()) + tokens_bytes(all.take(at as int)),
        decreases tokens.len() - at,
    {
        assert(all.take(at + 1).drop_last() =~= all.take(at as int));
        assert(all.take(at + 1).last() == tokens[at as int].deep_view());
        match &tokens[at] {
            XmlToken::Open { name, attributes } => {
                if write_start(&mut out, name.as_str(), attributes).is_err() {
                    return Err(FeedError::TagStart(name.clone()));
                }
                near = name.clone();
            },
            XmlToken::Close { name } => {
                if write_end(&mut out, name.as_str()).is_err() {
                    return Err(FeedError::TagEnd(name.clone()));
                }
                near = name.clone();
            },
            XmlToken::Text { text } => {
                if write_text(&mut out, text.as_str()).is_err() {
                    return Err(FeedError::TagText(near));
                }
            },
        }
        assert(out@ =~= encode_utf8(declaration_text()) + tokens_bytes(all.take(at + 1)));
        at += 1;
    }
    assert(all.take(at as int) =~= all);
    Ok(out)
}

} // verus!
