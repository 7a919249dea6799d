//! The tokens of an XML document, and how a run of tokens is walked.
//!
//! A document is a list of tokens: start tags with their attributes, end
//! tags and pieces of text. An element without content is a start tag with
//! its end tag right behind it.

use vstd::prelude::*;
use crate::util::text::text_eq;

verus! {

/// A token as contracts speak of it.
pub enum Token {
    /// A start tag.
    Open { name: Seq<char>, attributes: Seq<(Seq<char>, Seq<char>)> },
    /// An end tag.
    Close { name: Seq<char> },
    /// A piece of text, as it reads after unescaping.
    Text { text: Seq<char> },
}

/// A token of an XML document.
#[derive(Debug, PartialEq, Eq)]
pub enum XmlToken {
    /// A start tag.
    Open { name: String, attributes: Vec<(String, String)> },
    /// An end tag.
    Close { name: String },
    /// A piece of text, as it reads after unescaping.
    Text { text: String },
}

impl DeepView for XmlToken {
    type V = Token;

    open spec fn deep_view(&self) -> Token {
        match self {
            XmlToken::Open { name, attributes } => Token::Open {
                name: name@,
                attributes: attributes.deep_view(),
            },
            XmlToken::Close { name } => Token::Close { name: name@ },
            XmlToken::Text { text } => Token::Text { text: text@ },
        }
    }
}

impl View for XmlToken {
    type V = Token;

    open spec fn view(&self) -> Token {
        self.deep_view()
    }
}

/// The value of the first attribute with the name `key`.
pub open spec fn attribute(attributes: Seq<(Seq<char>, Seq<char>)>, key: Seq<char>) -> Option<
    Seq<char>,
>
    decreases attributes.len(),
{
    if attributes.len() == 0 {
        None
    } else if attributes[0].0 == key {
        Some(attributes[0].1)
    } else {
        attribute(attributes.skip(1), key)
    }
}

/// The tokens behind the end tag that closes the element in which `tokens`
/// begin, `depth` elements deeper. `None` where the tokens end before that.
pub open spec fn skip_element(tokens: Seq<Token>, depth: nat) -> Option<Seq<Token>>
    decreases tokens.len(),
{
    if tokens.len() == 0 {
        None
    } else {
        match tokens[0] {
            Token::Open { .. } => skip_element(tokens.skip(1), depth + 1),
            Token::Close { .. } => if depth == 0 {
                Some(tokens.skip(1))
            } else {
                skip_element(tokens.skip(1), (depth - 1) as nat)
            },
            Token::Text { .. } => skip_element(tokens.skip(1), depth),
        }
    }
}

/// The text of the element in which `tokens` begin, and the tokens behind
/// its end tag. The text is `text` followed by the pieces of text that stand
/// directly in the element; what stands in elements inside it is passed over.
/// `None` where the tokens end before the element does.
pub open spec fn element_text(tokens: Seq<Token>, text: Seq<char>, depth: nat) -> Option<
    (Seq<char>, Seq<Token>),
>
    decreases tokens.len(),
{
    if tokens.len() == 0 {
        None
    } else {
        match tokens[0] {
            Token::Open { .. } => element_text(tokens.skip(1), text, depth + 1),
            Token::Close { .. } => if depth == 0 {
                Some((text, tokens.skip(1)))
            } else {
                element_text(tokens.skip(1), text, (depth - 1) as nat)
            },
            Token::Text { text: piece } => element_text(
                tokens.skip(1),
                if depth == 0 {
                    text + piece
                } else {
                    text
                },
                depth,
            ),
        }
    }
}

/// What is inside the first element with the name `name` among the
/// elements that `tokens` begin with, up to the end tag of the element that
/// holds them. `None` where there is no such element.
pub open spec fn find_element(tokens: Seq<Token>, name: Seq<char>) -> Option<Seq<Token>>
    decreases tokens.len(),
    via find_element_decreases
{
    if tokens.len() == 0 {
        None
    } else {
        match tokens[0] {
            Token::Open { name: found, .. } => if found == name {
                Some(tokens.skip(1))
            } else {
                match skip_element(tokens.skip(1), 0) {
                    Some(rest) => find_element(rest, name),
                    None => None,
                }
            },
            Token::Close { .. } => None,
            Token::Text { .. } => find_element(tokens.skip(1), name),
        }
    }
}

#[via_fn]
proof fn find_element_decreases(tokens: Seq<Token>, name: Seq<char>) {
    if tokens.len() > 0 {
        lemma_skip_element_shorter(tokens.skip(1), 0);
    }
}

/// What `skip_element` leaves is an end of the tokens, and shorter than they are.
pub proof fn lemma_skip_element_shorter(tokens: Seq<Token>, depth: nat)
    ensures
        skip_element(tokens, depth) matches Some(rest) ==> rest.len() < tokens.len()
            && rest == tokens.skip(tokens.len() - rest.len()),
    decreases tokens.len(),
{
    if tokens.len() > 0 {
        let tail = tokens.skip(1);
        match tokens[0] {
            Token::Open { .. } => lemma_skip_element_shorter(tail, depth + 1),
            Token::Close { .. } => if depth > 0 {
                lemma_skip_element_shorter(tail, (depth - 1) as nat)
            },
            Token::Text { .. } => lemma_skip_element_shorter(tail, depth),
        }
        if let Some(rest) = skip_element(tokens, depth) {
            assert(rest =~= tokens.skip(tokens.len() - rest.len()));
        }
    }
}

/// What `element_text` leaves is an end of the tokens, and shorter than they are.
pub proof fn lemma_element_text_shorter(tokens: Seq<Token>, text: Seq<char>, depth: nat)
    ensures
        element_text(tokens, text, depth) matches Some(found) ==> found.1.len() < tokens.len()
            && found.1 == tokens.skip(tokens.len() - found.1.len()),
    decreases tokens.len(),
{
    if tokens.len() > 0 {
        let tail = tokens.skip(1);
        match tokens[0] {
            Token::Open { .. } => lemma_element_text_shorter(tail, text, depth + 1),
            Token::Close { .. } => if depth > 0 {
                lemma_element_text_shorter(tail, text, (depth - 1) as nat)
            },
            Token::Text { text: piece } => lemma_element_text_shorter(
                tail,
                if depth == 0 {
                    text + piece
                } else {
                    text
                },
                depth,
            ),
        }
        if let Some(found) = element_text(tokens, text, depth) {
            assert(found.1 =~= tokens.skip(tokens.len() - found.1.len()));
        }
    }
}

/// The value of the first attribute with the name `key`.
pub fn get_attribute(attributes: &Vec<(String, String)>, key: &str) -> (r: Option<String>)
    ensures
        r.deep_view() == attribute(attributes.deep_view(), key@),
{
    let ghost all = attributes.deep_view();
    let mut i: usize = 0;
    assert(all.skip(0) =~= all);
    while i < attributes.len()
        invariant
            i <= attributes.len(),
            all == attributes.deep_view(),
            attribute(all, key@) == attribute(all.skip(i as int), key@),
        decreases attributes.len() - i,
    {
        assert(all.skip(i as int)[0] == attributes[i as int].deep_view());
        assert(all.skip(i as int).skip(1) =~= all.skip(i + 1));
        if text_eq(attributes[i].0.as_str(), key) {
            return Some(attributes[i].1.clone());
        }
        i += 1;
    }
    None
}

/// Passes over the rest of the element that begins before `from`.
///
/// Returns the index behind its end tag, or `None` where the tokens end
/// first or `from` is no index of theirs.
pub fn skip_rest(tokens: &Vec<XmlToken>, from: usize) -> (r: Option<usize>)
    ensures
        from > tokens.len() ==> r is None,
        from <= tokens.len() ==> (
            match r {
                Some(next) => from < next <= tokens.len() && skip_element(
                    tokens.deep_view().skip(from as int),
                    0,
                ) == Some(tokens.deep_view().skip(next as int)),
                None => skip_element(tokens.deep_view().skip(from as int), 0) is None,
            }
        ),
{
    if from > tokens.len() {
        return None;
    }
    let ghost all = tokens.deep_view();
    let mut at: usize = from;
    let mut depth: usize = 0;
    while at < tokens.len()
        invariant
            from <= at <= tokens.len(),
            all == tokens.deep_view(),
            depth <= at - from,
            skip_element(all.skip(from as int), 0)
                == skip_element(all.skip(at as int), depth as nat),
        decreases tokens.len() - at,
    {
        assert(all.skip(at as int)[0] == tokens[at as int].deep_view());
        assert(all.skip(at as int).skip(1) =~= all.skip(at + 1));
        match &tokens[at] {
            XmlToken::Open { .. } => {
                depth += 1;
            },
            XmlToken::Close { .. } => {
                if depth == 0 {
                    return Some(at + 1);
                }
                depth -= 1;
            },
            XmlToken::Text { .. } => {},
        }
        at += 1;
    }
    None
}

/// Reads the text of the element that begins before `from`.
///
/// Returns the text and the index behind the element's end tag, or `None`
/// where the tokens end first or `from` is no index of theirs.
pub fn read_text(tokens: &Vec<XmlToken>, from: usize) -> (r: Option<(String, usize)>)
    ensures
        from > tokens.len() ==> r is None,
        from <= tokens.len() ==> (
            match r {
                Some((text, next)) => from < next <= tokens.len() && element_text(
                    tokens.deep_view().skip(from as int),
                    Seq::empty(),
                    0,
                ) == Some((text@, tokens.deep_view().skip(next as int))),
                None => element_text(tokens.deep_view().skip(from as int), Seq::empty(), 0) is None,
            }
        ),
{
    if from > tokens.len() {
        return None;
    }
    let ghost all = tokens.deep_view();
    let mut text = String::new();
    let mut at: usize = from;
    let mut depth: usize = 0;
    while at < tokens.len()
        invariant
            from <= at <= tokens.len(),
            all == tokens.deep_view(),
            depth <= at - from,
            element_text(all.skip(from as int), Seq::empty(), 0) == element_text(
                all.skip(at as int),
                text@,
                depth as nat,
            ),
        decreases tokens.len() - at,
    {
        assert(all.skip(at as int)[0] == tokens[at as int].deep_view());
        assert(all.skip(at as int).skip(1) =~= all.skip(at + 1));
        match &tokens[at] {
            XmlToken::Open { .. } => {
                depth += 1;
            },
            XmlToken::Close { .. } => {
                if depth == 0 {
                    return Some((text, at + 1));
                }
                depth -= 1;
            },
            XmlToken::Text { text: piece } => {
                if depth == 0 {
                    text.append(piece.as_str());
                }
            },
        }
        at += 1;
    }
    None
}

/// Finds the first element with the name `name` among the elements that begin at `from`.
///
/// Returns the index behind its start tag, or `None` where there is none
/// before the element that holds them ends or `from` is no index of the tokens.
pub fn find_child(tokens: &Vec<XmlToken>, from: usize, name: &str) -> (r: Option<usize>)
    ensures
        from > tokens.len() ==> r is None,
        from <= tokens.len() ==> (
            match r {
                Some(inner) => from < inner <= tokens.len() && find_element(
                    tokens.deep_view().skip(from as int),
                    name@,
                ) == Some(tokens.deep_view().skip(inner as int)),
                None => find_element(tokens.deep_view().skip(from as int), name@) is None,
            }
        ),
{
    if from > tokens.len() {
        return None;
    }
    let ghost all = tokens.deep_view();
    let mut at: usize = from;
    while at < tokens.len()
        invariant
            from <= at <= tokens.len(),
            all == tokens.deep_view(),
            find_element(all.skip(from as int), name@) == find_element(all.skip(at as int), name@),
        decreases tokens.len() - at,
    {
        assert(all.skip(at as int)[0] == tokens[at as int].deep_view());
        assert(all.skip(at as int).skip(1) =~= all.skip(at + 1));
        match &tokens[at] {
            XmlToken::Open { name: found, .. } => {
                if text_eq(found.as_str(), name) {
                    return Some(at + 1);
                }
                match skip_rest(tokens, at + 1) {
                    Some(next) => {
                        at = next;
                    },
                    None => {
                        return None;
                    },
                }
            },
            XmlToken::Close { .. } => {
                return None;
            },
            XmlToken::Text { .. } => {
                at += 1;
            },
        }
    }
    None
}

} // verus!
