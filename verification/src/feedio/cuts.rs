//! Reading does not depend on how text is cut into pieces.
//!
//! A reader may give the text of an element in one piece or in several, and
//! may leave out a piece that is empty. The channel that is read is the same.

use vstd::prelude::*;
use crate::errors::Failure;
use crate::feedio::decode::{
    channel_children, channel_container, day_apply, document_channel, fold_leaves, hour_apply,
    image_apply, is_container, item_apply, lemma_fold_leaves_shorter,
    text_input_apply, Leaf,
};
use crate::feedio::token::{
    element_text, find_element, lemma_element_text_shorter, lemma_skip_element_shorter,
    skip_element, Token,
};
use crate::rss::channel::ChannelDraft;
use crate::rss::image::ImageModel;
use crate::rss::item_builder::ItemDraft;
use crate::rss::text_input::TextInputModel;

verus! {

/// A run of tokens with a piece of text before it: the piece is left out
/// where it is empty, and joined to the text that the run begins with.
pub open spec fn text_before_tokens(text: Seq<char>, tokens: Seq<Token>) -> Seq<Token> {
    if text.len() == 0 {
        tokens
    } else if tokens.len() > 0 {
        match tokens[0] {
            Token::Text { text: next } => seq![Token::Text { text: text + next }] + tokens.skip(1),
            _ => seq![Token::Text { text }] + tokens,
        }
    } else {
        seq![Token::Text { text }]
    }
}

/// A run of tokens with its text in the fewest pieces: pieces of text that
/// follow each other are joined, and no piece is empty.
pub open spec fn joined(tokens: Seq<Token>) -> Seq<Token>
    decreases tokens.len(),
{
    if tokens.len() == 0 {
        Seq::empty()
    } else {
        match tokens[0] {
            Token::Text { text } => text_before_tokens(text, joined(tokens.skip(1))),
            _ => seq![tokens[0]] + joined(tokens.skip(1)),
        }
    }
}

/// What was found, with the tokens that are left in the fewest pieces.
pub open spec fn left_joined<T>(found: Option<(T, Seq<Token>)>) -> Option<(T, Seq<Token>)> {
    match found {
        Some((value, rest)) => Some((value, joined(rest))),
        None => None,
    }
}

/// What was read, with the tokens that are left in the fewest pieces.
pub open spec fn rest_joined<T>(read: Result<(T, Seq<Token>), Failure>) -> Result<
    (T, Seq<Token>),
    Failure,
> {
    match read {
        Ok((value, rest)) => Ok((value, joined(rest))),
        Err(e) => Err(e),
    }
}

proof fn lemma_skip_text_before(text: Seq<char>, tokens: Seq<Token>, depth: nat)
    ensures
        skip_element(text_before_tokens(text, tokens), depth) == skip_element(tokens, depth),
{
    let all = text_before_tokens(text, tokens);
    if text.len() > 0 {
        if tokens.len() > 0 && tokens[0] is Text {
            assert(all.skip(1) =~= tokens.skip(1));
        } else {
            assert(all.skip(1) =~= tokens);
        }
    }
}

proof fn lemma_skip_joined(tokens: Seq<Token>, depth: nat)
    ensures
        skip_element(joined(tokens), depth) == match skip_element(tokens, depth) {
            Some(rest) => Some(joined(rest)),
            None => None,
        },
    decreases tokens.len(),
{
    if tokens.len() > 0 {
        let tail = tokens.skip(1);
        match tokens[0] {
            Token::Text { text } => {
                lemma_skip_text_before(text, joined(tail), depth);
                lemma_skip_joined(tail, depth);
            },
            Token::Open { .. } => {
                assert(joined(tokens).skip(1) =~= joined(tail));
                lemma_skip_joined(tail, depth + 1);
            },
            Token::Close { .. } => {
                assert(joined(tokens).skip(1) =~= joined(tail));
                if depth > 0 {
                    lemma_skip_joined(tail, (depth - 1) as nat);
                }
            },
        }
    }
}

proof fn lemma_text_text_before(text: Seq<char>, tokens: Seq<Token>, held: Seq<char>, depth: nat)
    ensures
        element_text(text_before_tokens(text, tokens), held, depth) == element_text(
            tokens,
            if depth == 0 {
                held + text
            } else {
                held
            },
            depth,
        ),
{
    let all = text_before_tokens(text, tokens);
    if text.len() == 0 {
        assert(held + text =~= held);
    } else if tokens.len() > 0 && tokens[0] is Text {
        let next = tokens[0]->text;
        assert(all.skip(1) =~= tokens.skip(1));
        assert(held + (text + next) =~= (held + text) + next);
    } else {
        assert(all.skip(1) =~= tokens);
    }
}

proof fn lemma_text_joined(tokens: Seq<Token>, held: Seq<char>, depth: nat)
    ensures
        element_text(joined(tokens), held, depth) == left_joined(
            element_text(tokens, held, depth),
        ),
    decreases tokens.len(),
{
    if tokens.len() > 0 {
        let tail = tokens.skip(1);
        match tokens[0] {
            Token::Text { text } => {
                lemma_text_text_before(text, joined(tail), held, depth);
                lemma_text_joined(
                    tail,
                    if depth == 0 {
                        held + text
                    } else {
                        held
                    },
                    depth,
                );
            },
            Token::Open { .. } => {
                assert(joined(tokens).skip(1) =~= joined(tail));
                lemma_text_joined(tail, held, depth + 1);
            },
            Token::Close { .. } => {
                assert(joined(tokens).skip(1) =~= joined(tail));
                if depth > 0 {
                    lemma_text_joined(tail, held, (depth - 1) as nat);
                }
            },
        }
    }
}

proof fn lemma_find_text_before(text: Seq<char>, tokens: Seq<Token>, name: Seq<char>)
    ensures
        find_element(text_before_tokens(text, tokens), name) == find_element(tokens, name),
{
    let all = text_before_tokens(text, tokens);
    if text.len() > 0 {
        if tokens.len() > 0 && tokens[0] is Text {
            assert(all.skip(1) =~= tokens.skip(1));
        } else {
            assert(all.skip(1) =~= tokens);
        }
    }
}

proof fn lemma_find_joined(tokens: Seq<Token>, name: Seq<char>)
    ensures
        find_element(joined(tokens), name) == match find_element(tokens, name) {
            Some(inner) => Some(joined(inner)),
            None => None,
        },
    decreases tokens.len(),
{
    if tokens.len() > 0 {
        let tail = tokens.skip(1);
        match tokens[0] {
            Token::Text { text } => {
                lemma_find_text_before(text, joined(tail), name);
                lemma_find_joined(tail, name);
            },
            Token::Open { name: found, .. } => {
                assert(joined(tokens).skip(1) =~= joined(tail));
                if found != name {
                    lemma_skip_joined(tail, 0);
                    lemma_skip_element_shorter(tail, 0);
                    if let Some(rest) = skip_element(tail, 0) {
                        lemma_find_joined(rest, name);
                    }
                }
            },
            Token::Close { .. } => {},
        }
    }
}

proof fn lemma_fold_text_before<D>(
    text: Seq<char>,
    tokens: Seq<Token>,
    draft: D,
    apply: spec_fn(D, Leaf) -> Result<D, Failure>,
)
    ensures
        fold_leaves(text_before_tokens(text, tokens), draft, apply) == fold_leaves(
            tokens,
            draft,
            apply,
        ),
{
    let all = text_before_tokens(text, tokens);
    if text.len() > 0 {
        if tokens.len() > 0 && tokens[0] is Text {
            assert(all.skip(1) =~= tokens.skip(1));
        } else {
            assert(all.skip(1) =~= tokens);
        }
    }
}

proof fn lemma_fold_joined<D>(
    tokens: Seq<Token>,
    draft: D,
    apply: spec_fn(D, Leaf) -> Result<D, Failure>,
)
    ensures
        fold_leaves(joined(tokens), draft, apply) == rest_joined(
            fold_leaves(tokens, draft, apply),
        ),
    decreases tokens.len(),
{
    if tokens.len() > 0 {
        let tail = tokens.skip(1);
        match tokens[0] {
            Token::Text { text } => {
                lemma_fold_text_before(text, joined(tail), draft, apply);
                lemma_fold_joined(tail, draft, apply);
            },
            Token::Open { name, attributes } => {
                assert(joined(tokens).skip(1) =~= joined(tail));
                lemma_text_joined(tail, Seq::empty(), 0);
                lemma_element_text_shorter(tail, Seq::empty(), 0);
                if let Some((text, rest)) = element_text(tail, Seq::empty(), 0) {
                    if let Ok(next) = apply(draft, Leaf { name, attributes, text }) {
                        lemma_fold_joined(rest, next, apply);
                    }
                }
            },
            Token::Close { .. } => {
                assert(joined(tokens).skip(1) =~= joined(tail));
            },
        }
    }
}

proof fn lemma_container_joined(draft: ChannelDraft, name: Seq<char>, inner: Seq<Token>)
    ensures
        channel_container(draft, name, joined(inner)) == rest_joined(
            channel_container(draft, name, inner),
        ),
{
    lemma_fold_joined(inner, ItemDraft::unset(), item_apply());
    lemma_fold_joined(inner, ImageModel::unset(), image_apply());
    lemma_fold_joined(inner, TextInputModel::unset(), text_input_apply());
    lemma_fold_joined(inner, Seq::<i64>::empty(), hour_apply());
    lemma_fold_joined(inner, Seq::<Seq<char>>::empty(), day_apply());
}

proof fn lemma_container_shorter(draft: ChannelDraft, name: Seq<char>, inner: Seq<Token>)
    ensures
        channel_container(draft, name, inner) matches Ok(found) ==> found.1.len() < inner.len(),
{
    lemma_fold_leaves_shorter(inner, ItemDraft::unset(), item_apply());
    lemma_fold_leaves_shorter(inner, ImageModel::unset(), image_apply());
    lemma_fold_leaves_shorter(inner, TextInputModel::unset(), text_input_apply());
    lemma_fold_leaves_shorter(inner, Seq::<i64>::empty(), hour_apply());
    lemma_fold_leaves_shorter(inner, Seq::<Seq<char>>::empty(), day_apply());
}

proof fn lemma_channel_text_before(text: Seq<char>, tokens: Seq<Token>, draft: ChannelDraft)
    ensures
        channel_children(text_before_tokens(text, tokens), draft) == channel_children(
            tokens,
            draft,
        ),
{
    let all = text_before_tokens(text, tokens);
    if text.len() > 0 {
        if tokens.len() > 0 && tokens[0] is Text {
            assert(all.skip(1) =~= tokens.skip(1));
        } else {
            assert(all.skip(1) =~= tokens);
        }
    }
}

proof fn lemma_channel_joined(tokens: Seq<Token>, draft: ChannelDraft)
    ensures
        channel_children(joined(tokens), draft) == rest_joined(channel_children(tokens, draft)),
    decreases tokens.len(),
{
    if tokens.len() > 0 {
        let tail = tokens.skip(1);
        match tokens[0] {
            Token::Text { text } => {
                lemma_channel_text_before(text, joined(tail), draft);
                lemma_channel_joined(tail, draft);
            },
            Token::Open { name, attributes } => {
                assert(joined(tokens).skip(1) =~= joined(tail));
                if is_container(name) {
                    lemma_container_joined(draft, name, tail);
                    lemma_container_shorter(draft, name, tail);
                    if let Ok((next, rest)) = channel_container(draft, name, tail) {
                        lemma_channel_joined(rest, next);
                    }
                } else {
                    lemma_text_joined(tail, Seq::empty(), 0);
                    lemma_element_text_shorter(tail, Seq::empty(), 0);
                    if let Some((text, rest)) = element_text(tail, Seq::empty(), 0) {
                        if let Ok(next) = crate::feedio::decode::channel_leaf(
                            draft,
                            Leaf { name, attributes, text },
                        ) {
                            lemma_channel_joined(rest, next);
                        }
                    }
                }
            },
            Token::Close { .. } => {
                assert(joined(tokens).skip(1) =~= joined(tail));
            },
        }
    }
}

/// The channel of a document does not change where the pieces of its text
/// are joined and the empty ones are left out.
pub proof fn lemma_document_joined(tokens: Seq<Token>)
    ensures
        document_channel(joined(tokens)) == document_channel(tokens),
{
    lemma_find_joined(tokens, "rss"@);
    if let Some(in_rss) = find_element(tokens, "rss"@) {
        lemma_find_joined(in_rss, "channel"@);
        if let Some(in_channel) = find_element(in_rss, "channel"@) {
            lemma_channel_joined(in_channel, ChannelDraft::unset());
        }
    }
}

/// Two runs of tokens that differ only in how their text is cut into
/// pieces are read as the same channel, or fail in the same way.
pub proof fn lemma_cuts_do_not_count(a: Seq<Token>, b: Seq<Token>)
    ensures
        joined(a) == joined(b) ==> document_channel(a) == document_channel(b),
{
    lemma_document_joined(a);
    lemma_document_joined(b);
}

} // verus!
