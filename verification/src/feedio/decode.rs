//! From the tokens of an RSS document to its channel.
//!
//! The document is an `rss` element with a `channel` element in it. Each
//! element in the channel that RSS 2.0 knows sets a field of a builder; every
//! other element is passed over. A later element of a kind that stands once
//! replaces an earlier one; categories and items are gathered in their order.

use vstd::prelude::*;
use crate::errors::{Failure, FeedError};
use crate::feedio::token::{
    attribute, element_text, find_child, find_element, get_attribute, lemma_element_text_shorter,
    read_text, Token, XmlToken,
};
use crate::rss::category::{pushed, Category, CategoryBuilder, CategoryModel};
use crate::rss::channel::{Channel, ChannelBuilder, ChannelDraft, ChannelModel};
use crate::rss::cloud::{Cloud, CloudBuilder, CloudModel};
use crate::rss::enclosure::{Enclosure, EnclosureBuilder, EnclosureModel};
use crate::rss::guid::{Guid, GuidBuilder, GuidModel};
use crate::rss::image::{Image, ImageBuilder, ImageModel};
use crate::rss::item_builder::{Item, ItemBuilder, ItemDraft, ItemModel};
use crate::rss::source::{Source, SourceBuilder, SourceModel};
use crate::rss::text_input::{TextInput, TextInputBuilder, TextInputModel};
use crate::util::decimal::{
    parse_bool, parse_bool_spec, parse_i64, parse_i64_spec, parse_u64, parse_u64_spec,
};
use crate::util::text::text_eq;

verus! {

/// An element that holds text only: its name, its attributes and its text.
pub struct Leaf {
    pub name: Seq<char>,
    pub attributes: Seq<(Seq<char>, Seq<char>)>,
    pub text: Seq<char>,
}

/// The value of an attribute, or the empty text where the element has none of that name.
pub open spec fn attribute_or_empty(attributes: Seq<(Seq<char>, Seq<char>)>, key: Seq<char>) -> Seq<
    char,
> {
    match attribute(attributes, key) {
        Some(v) => v,
        None => Seq::empty(),
    }
}

/// The number in an attribute, zero where the element has none of that name.
pub open spec fn attribute_u64(attributes: Seq<(Seq<char>, Seq<char>)>, key: Seq<char>) -> Result<
    u64,
    Failure,
> {
    match attribute(attributes, key) {
        Some(v) => match parse_u64_spec(v) {
            Some(n) => Ok(n),
            None => Err(Failure::StrToI64(v)),
        },
        None => Ok(0),
    }
}

/// The elements of `tokens`, up to the end tag of the element that holds
/// them, applied one after the other to `draft`: each with its name, its
/// attributes and its text. Gives what has become of the draft and the tokens
/// behind that end tag. Fails where an element cannot be applied, and as
/// unreadable where the tokens end first.
pub open spec fn fold_leaves<D>(
    tokens: Seq<Token>,
    draft: D,
    apply: spec_fn(D, Leaf) -> Result<D, Failure>,
) -> Result<(D, Seq<Token>), Failure>
    decreases tokens.len(),
    via fold_leaves_decreases::<D>
{
    if tokens.len() == 0 {
        Err(Failure::ElementToString)
    } else {
        match tokens[0] {
            Token::Text { .. } => fold_leaves(tokens.skip(1), draft, apply),
            Token::Close { .. } => Ok((draft, tokens.skip(1))),
            Token::Open { name, attributes } => match element_text(
                tokens.skip(1),
                Seq::empty(),
                0,
            ) {
                None => Err(Failure::ElementToString),
                Some((text, rest)) => match apply(draft, Leaf { name, attributes, text }) {
                    Ok(next) => fold_leaves(rest, next, apply),
                    Err(e) => Err(e),
                },
            },
        }
    }
}

#[via_fn]
proof fn fold_leaves_decreases<D>(
    tokens: Seq<Token>,
    draft: D,
    apply: spec_fn(D, Leaf) -> Result<D, Failure>,
) {
    if tokens.len() > 0 {
        lemma_element_text_shorter(tokens.skip(1), Seq::empty(), 0);
    }
}

/// What `fold_leaves` leaves is an end of the tokens, and shorter than they are.
pub proof fn lemma_fold_leaves_shorter<D>(
    tokens: Seq<Token>,
    draft: D,
    apply: spec_fn(D, Leaf) -> Result<D, Failure>,
)
    ensures
        fold_leaves(tokens, draft, apply) matches Ok(found) ==> found.1.len() < tokens.len(),
    decreases tokens.len(),
{
    if tokens.len() > 0 {
        match tokens[0] {
            Token::Text { .. } => lemma_fold_leaves_shorter(tokens.skip(1), draft, apply),
            Token::Close { .. } => {},
            Token::Open { name, attributes } => {
                lemma_element_text_shorter(tokens.skip(1), Seq::empty(), 0);
                if let Some((text, rest)) = element_text(tokens.skip(1), Seq::empty(), 0) {
                    if let Ok(next) = apply(draft, Leaf { name, attributes, text }) {
                        lemma_fold_leaves_shorter(rest, next, apply);
                    }
                }
            },
        }
    }
}

pub open spec fn category_of(leaf: Leaf) -> CategoryModel {
    CategoryModel { category: leaf.text, domain: attribute(leaf.attributes, "domain"@) }
}

pub open spec fn source_of(leaf: Leaf) -> SourceModel {
    SourceModel { url: attribute_or_empty(leaf.attributes, "url"@), source: leaf.text }
}

/// The identifier of an item; it is a permalink unless `isPermaLink` says `false`.
pub open spec fn guid_of(leaf: Leaf) -> Result<GuidModel, Failure> {
    match attribute(leaf.attributes, "isPermaLink"@) {
        Some(v) => match parse_bool_spec(v) {
            Some(b) => Ok(GuidModel { guid: leaf.text, permalink: b }),
            None => Err(Failure::StrToBool(v)),
        },
        None => Ok(GuidModel { guid: leaf.text, permalink: true }),
    }
}

pub open spec fn enclosure_of(attributes: Seq<(Seq<char>, Seq<char>)>) -> Result<
    EnclosureModel,
    Failure,
> {
    match attribute_u64(attributes, "length"@) {
        Ok(length) => Ok(
            EnclosureModel {
                url: attribute_or_empty(attributes, "url"@),
                length,
                enclosure_type: attribute_or_empty(attributes, "type"@),
            },
        ),
        Err(e) => Err(e),
    }
}

pub open spec fn cloud_of(attributes: Seq<(Seq<char>, Seq<char>)>) -> Result<CloudModel, Failure> {
    match attribute_u64(attributes, "port"@) {
        Ok(port) => Ok(
            CloudModel {
                domain: attribute_or_empty(attributes, "domain"@),
                port,
                path: attribute_or_empty(attributes, "path"@),
                register_procedure: attribute_or_empty(attributes, "registerProcedure"@),
                protocol: attribute_or_empty(attributes, "protocol"@),
            },
        ),
        Err(e) => Err(e),
    }
}

/// What an element inside an `item` element does to the item's builder.
pub open spec fn item_leaf(d: ItemDraft, leaf: Leaf) -> Result<ItemDraft, Failure> {
    if leaf.name == "title"@ {
        Ok(ItemDraft { title: Some(leaf.text), ..d })
    } else if leaf.name == "link"@ {
        Ok(ItemDraft { link: Some(leaf.text), ..d })
    } else if leaf.name == "description"@ {
        Ok(ItemDraft { description: Some(leaf.text), ..d })
    } else if leaf.name == "author"@ {
        Ok(ItemDraft { author: Some(leaf.text), ..d })
    } else if leaf.name == "category"@ {
        Ok(ItemDraft { categories: Some(pushed(d.categories, category_of(leaf))), ..d })
    } else if leaf.name == "comments"@ {
        Ok(ItemDraft { comments: Some(leaf.text), ..d })
    } else if leaf.name == "enclosure"@ {
        match enclosure_of(leaf.attributes) {
            Ok(e) => Ok(ItemDraft { enclosure: Some(e), ..d }),
            Err(e) => Err(e),
        }
    } else if leaf.name == "guid"@ {
        match guid_of(leaf) {
            Ok(g) => Ok(ItemDraft { guid: Some(g), ..d }),
            Err(e) => Err(e),
        }
    } else if leaf.name == "pubDate"@ {
        Ok(ItemDraft { pub_date: Some(leaf.text), ..d })
    } else if leaf.name == "source"@ {
        Ok(ItemDraft { source: Some(source_of(leaf)), ..d })
    } else {
        Ok(d)
    }
}

/// The number that an element's text stands for.
pub open spec fn number_of(text: Seq<char>) -> Result<i64, Failure> {
    match parse_i64_spec(text) {
        Some(n) => Ok(n),
        None => Err(Failure::StrToI64(text)),
    }
}

/// What an element inside an `image` element does to the image's builder.
pub open spec fn image_leaf(d: ImageModel, leaf: Leaf) -> Result<ImageModel, Failure> {
    if leaf.name == "title"@ {
        Ok(ImageModel { title: leaf.text, ..d })
    } else if leaf.name == "link"@ {
        Ok(ImageModel { link: leaf.text, ..d })
    } else if leaf.name == "url"@ {
        Ok(ImageModel { url: leaf.text, ..d })
    } else if leaf.name == "width"@ {
        match number_of(leaf.text) {
            Ok(n) => Ok(ImageModel { width: n, ..d }),
            Err(e) => Err(e),
        }
    } else if leaf.name == "height"@ {
        match number_of(leaf.text) {
            Ok(n) => Ok(ImageModel { height: n, ..d }),
            Err(e) => Err(e),
        }
    } else if leaf.name == "description"@ {
        Ok(ImageModel { description: Some(leaf.text), ..d })
    } else {
        Ok(d)
    }
}

/// What an element inside a `textInput` element does to the text input's builder.
pub open spec fn text_input_leaf(d: TextInputModel, leaf: Leaf) -> Result<TextInputModel, Failure> {
    if leaf.name == "title"@ {
        Ok(TextInputModel { title: leaf.text, ..d })
    } else if leaf.name == "description"@ {
        Ok(TextInputModel { description: leaf.text, ..d })
    } else if leaf.name == "name"@ {
        Ok(TextInputModel { name: leaf.text, ..d })
    } else if leaf.name == "link"@ {
        Ok(TextInputModel { link: leaf.text, ..d })
    } else {
        Ok(d)
    }
}

/// What an element inside a `skipHours` element does to the list of hours.
pub open spec fn hour_leaf(d: Seq<i64>, leaf: Leaf) -> Result<Seq<i64>, Failure> {
    if leaf.name == "hour"@ {
        match number_of(leaf.text) {
            Ok(n) => Ok(d.push(n)),
            Err(e) => Err(e),
        }
    } else {
        Ok(d)
    }
}

/// What an element inside a `skipDays` element does to the list of days.
pub open spec fn day_leaf(d: Seq<Seq<char>>, leaf: Leaf) -> Result<Seq<Seq<char>>, Failure> {
    if leaf.name == "day"@ {
        Ok(d.push(leaf.text))
    } else {
        Ok(d)
    }
}

/// What an element inside the `channel` element that holds text only does
/// to the channel's builder.
pub open spec fn channel_leaf(d: ChannelDraft, leaf: Leaf) -> Result<ChannelDraft, Failure> {
    if leaf.name == "title"@ {
        Ok(ChannelDraft { title: leaf.text, ..d })
    } else if leaf.name == "link"@ {
        Ok(ChannelDraft { link: leaf.text, ..d })
    } else if leaf.name == "description"@ {
        Ok(ChannelDraft { description: leaf.text, ..d })
    } else if leaf.name == "language"@ {
        Ok(ChannelDraft { language: Some(leaf.text), ..d })
    } else if leaf.name == "copyright"@ {
        Ok(ChannelDraft { copyright: Some(leaf.text), ..d })
    } else if leaf.name == "managingEditor"@ {
        Ok(ChannelDraft { managing_editor: Some(leaf.text), ..d })
    } else if leaf.name == "webMaster"@ {
        Ok(ChannelDraft { web_master: Some(leaf.text), ..d })
    } else if leaf.name == "pubDate"@ {
        Ok(ChannelDraft { pub_date: Some(leaf.text), ..d })
    } else if leaf.name == "lastBuildDate"@ {
        Ok(ChannelDraft { last_build_date: Some(leaf.text), ..d })
    } else if leaf.name == "category"@ {
        Ok(ChannelDraft { categories: Some(pushed(d.categories, category_of(leaf))), ..d })
    } else if leaf.name == "generator"@ {
        Ok(ChannelDraft { generator: Some(leaf.text), ..d })
    } else if leaf.name == "docs"@ {
        Ok(ChannelDraft { docs: Some(leaf.text), ..d })
    } else if leaf.name == "cloud"@ {
        match cloud_of(leaf.attributes) {
            Ok(c) => Ok(ChannelDraft { cloud: Some(c), ..d }),
            Err(e) => Err(e),
        }
    } else if leaf.name == "ttl"@ {
        match number_of(leaf.text) {
            Ok(n) => Ok(ChannelDraft { ttl: Some(n), ..d }),
            Err(e) => Err(e),
        }
    } else if leaf.name == "rating"@ {
        Ok(ChannelDraft { rating: Some(leaf.text), ..d })
    } else {
        Ok(d)
    }
}

/// Whether an element of the channel holds elements of its own.
pub open spec fn is_container(name: Seq<char>) -> bool {
    name == "item"@ || name == "image"@ || name == "textInput"@ || name == "skipHours"@ || name
        == "skipDays"@
}

pub open spec fn item_apply() -> spec_fn(ItemDraft, Leaf) -> Result<ItemDraft, Failure> {
    |d: ItemDraft, l: Leaf| item_leaf(d, l)
}

pub open spec fn image_apply() -> spec_fn(ImageModel, Leaf) -> Result<ImageModel, Failure> {
    |d: ImageModel, l: Leaf| image_leaf(d, l)
}

pub open spec fn text_input_apply() -> spec_fn(TextInputModel, Leaf) -> Result<
    TextInputModel,
    Failure,
> {
    |d: TextInputModel, l: Leaf| text_input_leaf(d, l)
}

pub open spec fn hour_apply() -> spec_fn(Seq<i64>, Leaf) -> Result<Seq<i64>, Failure> {
    |d: Seq<i64>, l: Leaf| hour_leaf(d, l)
}

pub open spec fn day_apply() -> spec_fn(Seq<Seq<char>>, Leaf) -> Result<Seq<Seq<char>>, Failure> {
    |d: Seq<Seq<char>>, l: Leaf| day_leaf(d, l)
}

/// The item of an `item` element, and the tokens behind the element's end
/// tag; `inner` begins behind its start tag. The item is what its builder
/// makes of the elements, so one without title and description fails.
pub open spec fn item_element(inner: Seq<Token>) -> Result<(ItemModel, Seq<Token>), Failure> {
    match fold_leaves(inner, ItemDraft::unset(), item_apply()) {
        Ok((draft, rest)) => match draft.finalized() {
            Ok(item) => Ok((item, rest)),
            Err(e) => Err(e),
        },
        Err(e) => Err(e),
    }
}

/// What an element of the channel that holds elements of its own does to
/// the channel's builder, and the tokens behind its end tag. `inner` begins
/// behind the element's start tag.
pub open spec fn channel_container(d: ChannelDraft, name: Seq<char>, inner: Seq<Token>) -> Result<
    (ChannelDraft, Seq<Token>),
    Failure,
> {
    if name == "item"@ {
        match item_element(inner) {
            Ok((item, rest)) => Ok(
                (ChannelDraft { items: Some(pushed(d.items, item)), ..d }, rest),
            ),
            Err(e) => Err(e),
        }
    } else if name == "image"@ {
        match fold_leaves(inner, ImageModel::unset(), image_apply()) {
            Ok((image, rest)) => Ok((ChannelDraft { image: Some(image), ..d }, rest)),
            Err(e) => Err(e),
        }
    } else if name == "textInput"@ {
        match fold_leaves(inner, TextInputModel::unset(), text_input_apply()) {
            Ok((text_input, rest)) => Ok(
                (ChannelDraft { text_input: Some(text_input), ..d }, rest),
            ),
            Err(e) => Err(e),
        }
    } else if name == "skipHours"@ {
        match fold_leaves(inner, Seq::<i64>::empty(), hour_apply()) {
            Ok((hours, rest)) => Ok((ChannelDraft { skip_hours: Some(hours), ..d }, rest)),
            Err(e) => Err(e),
        }
    } else {
        match fold_leaves(inner, Seq::<Seq<char>>::empty(), day_apply()) {
            Ok((days, rest)) => Ok((ChannelDraft { skip_days: Some(days), ..d }, rest)),
            Err(e) => Err(e),
        }
    }
}

/// The elements of the `channel` element applied one after the other to
/// the channel's builder; `tokens` begin behind the element's start tag.
pub open spec fn channel_children(tokens: Seq<Token>, draft: ChannelDraft) -> Result<
    (ChannelDraft, Seq<Token>),
    Failure,
>
    decreases tokens.len(),
    via channel_children_decreases
{
    if tokens.len() == 0 {
        Err(Failure::ElementToString)
    } else {
        match tokens[0] {
            Token::Text { .. } => channel_children(tokens.skip(1), draft),
            Token::Close { .. } => Ok((draft, tokens.skip(1))),
            Token::Open { name, attributes } => if is_container(name) {
                match channel_container(draft, name, tokens.skip(1)) {
                    Ok((next, rest)) => channel_children(rest, next),
                    Err(e) => Err(e),
                }
            } else {
                match element_text(tokens.skip(1), Seq::empty(), 0) {
                    None => Err(Failure::ElementToString),
                    Some((text, rest)) => match channel_leaf(
                        draft,
                        Leaf { name, attributes, text },
                    ) {
                        Ok(next) => channel_children(rest, next),
                        Err(e) => Err(e),
                    },
                }
            },
        }
    }
}

#[via_fn]
proof fn channel_children_decreases(tokens: Seq<Token>, draft: ChannelDraft) {
    if tokens.len() > 0 {
        let inner = tokens.skip(1);
        lemma_element_text_shorter(inner, Seq::empty(), 0);
        lemma_fold_leaves_shorter(inner, ItemDraft::unset(), item_apply());
        lemma_fold_leaves_shorter(inner, ImageModel::unset(), image_apply());
        lemma_fold_leaves_shorter(inner, TextInputModel::unset(), text_input_apply());
        lemma_fold_leaves_shorter(inner, Seq::<i64>::empty(), hour_apply());
        lemma_fold_leaves_shorter(inner, Seq::<Seq<char>>::empty(), day_apply());
    }
}

/// The channel of a document: the `channel` element in the `rss` element,
/// read into a builder and finalized. Fails with `MissingChannel` where the
/// tokens hold no such element.
pub open spec fn document_channel(tokens: Seq<Token>) -> Result<ChannelModel, Failure> {
    match find_element(tokens, "rss"@) {
        None => Err(Failure::MissingChannel),
        Some(in_rss) => match find_element(in_rss, "channel"@) {
            None => Err(Failure::MissingChannel),
            Some(in_channel) => match channel_children(in_channel, ChannelDraft::unset()) {
                Ok((draft, _)) => draft.finalized(),
                Err(e) => Err(e),
            },
        },
    }
}

/// The element that was found with this name, these attributes and this text.
pub open spec fn leaf_of(name: &str, attributes: &Vec<(String, String)>, text: &String) -> Leaf {
    Leaf { name: name@, attributes: attributes.deep_view(), text: text@ }
}

/// What is owed by a function that applies an element to a builder: the
/// builder holds what the element makes of it, or the failure is the element's.
pub open spec fn applied<D>(
    r: Result<(), FeedError>,
    after: D,
    outcome: Result<D, Failure>,
) -> bool {
    match r {
        Ok(()) => outcome == Ok::<D, Failure>(after),
        Err(e) => outcome == Err::<D, Failure>(e@),
    }
}

/// What is owed by a function that reads an element whose start tag stands
/// before the index `from`: the value read and the index behind the
/// element's end tag, or the failure.
pub open spec fn element_read<T: DeepView>(
    r: Result<(T, usize), FeedError>,
    tokens: Seq<Token>,
    from: usize,
    outcome: Result<(T::V, Seq<Token>), Failure>,
) -> bool {
    match r {
        Ok((value, next)) => from < next <= tokens.len() && outcome == Ok::<_, Failure>(
            (value.deep_view(), tokens.skip(next as int)),
        ),
        Err(e) => outcome == Err::<(T::V, Seq<Token>), Failure>(e@),
    }
}

/// The number that an element's text stands for.
///
/// Fails with `StrToI64`, holding the text, where it is no number.
fn number_from(text: String) -> (r: Result<i64, FeedError>)
    ensures
        match r {
            Ok(n) => number_of(text@) == Ok::<i64, Failure>(n),
            Err(e) => number_of(text@) == Err::<i64, Failure>(e@),
        },
{
    match parse_i64(text.as_str()) {
        Some(n) => Ok(n),
        None => Err(FeedError::StrToI64(text)),
    }
}

/// The number in an attribute, zero where there is no such attribute.
///
/// Fails with `StrToI64`, holding the attribute's value, where it is no number.
fn number_attribute(attributes: &Vec<(String, String)>, key: &str) -> (r: Result<u64, FeedError>)
    ensures
        match r {
            Ok(n) => attribute_u64(attributes.deep_view(), key@) == Ok::<u64, Failure>(n),
            Err(e) => attribute_u64(attributes.deep_view(), key@) == Err::<u64, Failure>(e@),
        },
{
    match get_attribute(attributes, key) {
        Some(v) => match parse_u64(v.as_str()) {
            Some(n) => Ok(n),
            None => Err(FeedError::StrToI64(v)),
        },
        None => Ok(0),
    }
}

/// The text in an attribute, empty where there is no such attribute.
fn text_attribute(attributes: &Vec<(String, String)>, key: &str) -> (r: String)
    ensures
        r@ == attribute_or_empty(attributes.deep_view(), key@),
{
    match get_attribute(attributes, key) {
        Some(v) => v,
        None => String::new(),
    }
}

fn category_from(attributes: &Vec<(String, String)>, text: String) -> (r: Category)
    ensures
        r@ == category_of(leaf_of("category", attributes, &text)),
{
    let mut builder = CategoryBuilder::new();
    builder.category(text.as_str());
    builder.domain(get_attribute(attributes, "domain"));
    builder.finalize()
}

fn source_from(attributes: &Vec<(String, String)>, text: String) -> (r: Source)
    ensures
        r@ == source_of(leaf_of("source", attributes, &text)),
{
    let mut builder = SourceBuilder::new();
    builder.url(text_attribute(attributes, "url").as_str());
    builder.source(text.as_str());
    builder.finalize()
}

fn guid_from(attributes: &Vec<(String, String)>, text: String) -> (r: Result<Guid, FeedError>)
    ensures
        match r {
            Ok(g) => guid_of(leaf_of("guid", attributes, &text)) == Ok::<GuidModel, Failure>(g@),
            Err(e) => guid_of(leaf_of("guid", attributes, &text)) == Err::<GuidModel, Failure>(e@),
        },
{
    let mut builder = GuidBuilder::new();
    builder.guid(text.as_str());
    match get_attribute(attributes, "isPermaLink") {
        Some(v) => match parse_bool(v.as_str()) {
            Some(b) => {
                builder.permalink(Some(b));
            },
            None => {
                return Err(FeedError::StrToBool(v));
            },
        },
        None => {},
    }
    Ok(builder.finalize())
}

fn enclosure_from(attributes: &Vec<(String, String)>) -> (r: Result<Enclosure, FeedError>)
    ensures
        match r {
            Ok(x) => enclosure_of(attributes.deep_view()) == Ok::<EnclosureModel, Failure>(x@),
            Err(e) => enclosure_of(attributes.deep_view()) == Err::<EnclosureModel, Failure>(e@),
        },
{
    let length = match number_attribute(attributes, "length") {
        Ok(n) => n,
        Err(e) => {
            return Err(e);
        },
    };
    let mut builder = EnclosureBuilder::new();
    builder.url(text_attribute(attributes, "url").as_str());
    builder.length(length);
    builder.enclosure_type(text_attribute(attributes, "type").as_str());
    Ok(builder.finalize())
}

fn cloud_from(attributes: &Vec<(String, String)>) -> (r: Result<Cloud, FeedError>)
    ensures
        match r {
            Ok(x) => cloud_of(attributes.deep_view()) == Ok::<CloudModel, Failure>(x@),
            Err(e) => cloud_of(attributes.deep_view()) == Err::<CloudModel, Failure>(e@),
        },
{
    let port = match number_attribute(attributes, "port") {
        Ok(n) => n,
        Err(e) => {
            return Err(e);
        },
    };
    let mut builder = CloudBuilder::new();
    builder.domain(text_attribute(attributes, "domain").as_str());
    builder.port(port);
    builder.path(text_attribute(attributes, "path").as_str());
    builder.register_procedure(text_attribute(attributes, "registerProcedure").as_str());
    builder.protocol(text_attribute(attributes, "protocol").as_str());
    Ok(builder.finalize())
}

/// Applies an element inside an `item` element to the item's builder.
#[verifier::rlimit(50)]
fn apply_item_leaf(
    builder: &mut ItemBuilder,
    name: &str,
    attributes: &Vec<(String, String)>,
    text: String,
) -> (r: Result<(), FeedError>)
    ensures
        applied(
            r,
            final(builder)@,
            item_leaf(old(builder)@, leaf_of(name, attributes, &text)),
        ),
{
    if text_eq(name, "title") {
        builder.title(Some(text));
    } else if text_eq(name, "link") {
        builder.link(Some(text));
    } else if text_eq(name, "description") {
        builder.description(Some(text));
    } else if text_eq(name, "author") {
        builder.author(Some(text));
    } else if text_eq(name, "category") {
        builder.add_category(category_from(attributes, text));
    } else if text_eq(name, "comments") {
        builder.comments(Some(text));
    } else if text_eq(name, "enclosure") {
        match enclosure_from(attributes) {
            Ok(v) => {
                builder.enclosure(Some(v));
            },
            Err(e) => {
                return Err(e);
            },
        }
    } else if text_eq(name, "guid") {
        match guid_from(attributes, text) {
            Ok(v) => {
                builder.guid(Some(v));
            },
            Err(e) => {
                return Err(e);
            },
        }
    } else if text_eq(name, "pubDate") {
        builder.pub_date(Some(text));
    } else if text_eq(name, "source") {
        builder.source(Some(source_from(attributes, text)));
    }
    Ok(())
}

/// Applies an element inside an `image` element to the image's builder.
#[verifier::rlimit(50)]
fn apply_image_leaf(
    builder: &mut ImageBuilder,
    name: &str,
    attributes: &Vec<(String, String)>,
    text: String,
) -> (r: Result<(), FeedError>)
    ensures
        applied(
            r,
            final(builder)@,
            image_leaf(old(builder)@, leaf_of(name, attributes, &text)),
        ),
{
    if text_eq(name, "title") {
        builder.title(text.as_str());
    } else if text_eq(name, "link") {
        builder.link(text.as_str());
    } else if text_eq(name, "url") {
        builder.url(text.as_str());
    } else if text_eq(name, "width") {
        match number_from(text) {
            Ok(v) => {
                builder.width(Some(v));
            },
            Err(e) => {
                return Err(e);
            },
        }
    } else if text_eq(name, "height") {
        match number_from(text) {
            Ok(v) => {
                builder.height(Some(v));
            },
            Err(e) => {
                return Err(e);
            },
        }
    } else if text_eq(name, "description") {
        builder.description(Some(text));
    }
    Ok(())
}

/// Applies an element inside a `textInput` element to the text input's builder.
fn apply_text_input_leaf(
    builder: &mut TextInputBuilder,
    name: &str,
    attributes: &Vec<(String, String)>,
    text: String,
) -> (r: Result<(), FeedError>)
    ensures
        applied(
            r,
            final(builder)@,
            text_input_leaf(old(builder)@, leaf_of(name, attributes, &text)),
        ),
{
    if text_eq(name, "title") {
        builder.title(text.as_str());
    } else if text_eq(name, "description") {
        builder.description(text.as_str());
    } else if text_eq(name, "name") {
        builder.name(text.as_str());
    } else if text_eq(name, "link") {
        builder.link(text.as_str());
    }
    Ok(())
}

/// Applies an element of the channel that holds text only to the channel's builder.
#[verifier::rlimit(50)]
fn apply_channel_leaf(
    builder: &mut ChannelBuilder,
    name: &str,
    attributes: &Vec<(String, String)>,
    text: String,
) -> (r: Result<(), FeedError>)
    ensures
        applied(
            r,
            final(builder)@,
            channel_leaf(old(builder)@, leaf_of(name, attributes, &text)),
        ),
{
    if text_eq(name, "title") {
        builder.title(text.as_str());
    } else if text_eq(name, "link") {
        builder.link(text.as_str());
    } else if text_eq(name, "description") {
        builder.description(text.as_str());
    } else if text_eq(name, "language") {
        builder.language(Some(text));
    } else if text_eq(name, "copyright") {
        builder.copyright(Some(text));
    } else if text_eq(name, "managingEditor") {
        builder.managing_editor(Some(text));
    } else if text_eq(name, "webMaster") {
        builder.web_master(Some(text));
    } else if text_eq(name, "pubDate") {
        builder.pub_date(Some(text));
    } else if text_eq(name, "lastBuildDate") {
        builder.last_build_date(Some(text));
    } else if text_eq(name, "category") {
        builder.add_category(category_from(attributes, text));
    } else if text_eq(name, "generator") {
        builder.generator(Some(text));
    } else if text_eq(name, "docs") {
        builder.docs(Some(text));
    } else if text_eq(name, "cloud") {
        match cloud_from(attributes) {
            Ok(v) => {
                builder.cloud(Some(v));
            },
            Err(e) => {
                return Err(e);
            },
        }
    } else if text_eq(name, "ttl") {
        match number_from(text) {
            Ok(v) => {
                builder.ttl(Some(v));
            },
            Err(e) => {
                return Err(e);
            },
        }
    } else if text_eq(name, "rating") {
        builder.rating(Some(text));
    }
    Ok(())
}

/// Reads an `item` element into an item.
///
/// `from` is the index behind the element's start tag; the index returned
/// is the one behind its end tag. Fails with `ElementToString` where the
/// tokens end before the element does, and with the failure of the first
/// element in it that cannot be applied.
pub fn read_item(tokens: &Vec<XmlToken>, from: usize) -> (r: Result<
    (Item, usize),
    FeedError,
>)
    ensures
        from > tokens.len() ==> r is Err && r->Err_0@ == Failure::ElementToString,
        from <= tokens.len() ==> element_read(
            r,
            tokens.deep_view(),
            from,
            item_element(tokens.deep_view().skip(from as int)),
        ),
{
    if from > tokens.len() {
        return Err(FeedError::ElementToString);
    }
    let ghost all = tokens.deep_view();
    let mut builder = ItemBuilder::new();
    let mut at: usize = from;
    while at < tokens.len()
        invariant
            from <= at <= tokens.len(),
            all == tokens.deep_view(),
            fold_leaves(all.skip(from as int), ItemDraft::unset(), item_apply()) == fold_leaves(
                all.skip(at as int),
                builder@,
                item_apply(),
            ),
        decreases tokens.len() - at,
    {
        assert(all.skip(at as int)[0] == tokens[at as int].deep_view());
        assert(all.skip(at as int).skip(1) =~= all.skip(at + 1));
        match &tokens[at] {
            XmlToken::Text { .. } => {
                at += 1;
            },
            XmlToken::Close { .. } => {
                return match builder.finalize() {
                    Ok(item) => Ok((item, at + 1)),
                    Err(e) => Err(e),
                };
            },
            XmlToken::Open { name, attributes } => match read_text(tokens, at + 1) {
                None => {
                    return Err(FeedError::ElementToString);
                },
                Some((text, next)) => {
                    match apply_item_leaf(&mut builder, name.as_str(), attributes, text) {
                        Ok(()) => {},
                        Err(e) => {
                            return Err(e);
                        },
                    }
                    at = next;
                },
            },
        }
    }
    Err(FeedError::ElementToString)
}

/// Reads an `image` element into an image.
///
/// `from` is the index behind the element's start tag; the index returned
/// is the one behind its end tag. Fails with `ElementToString` where the
/// tokens end before the element does, and with the failure of the first
/// element in it that cannot be applied.
pub fn read_image(tokens: &Vec<XmlToken>, from: usize) -> (r: Result<
    (Image, usize),
    FeedError,
>)
    ensures
        from > tokens.len() ==> r is Err && r->Err_0@ == Failure::ElementToString,
        from <= tokens.len() ==> element_read(
            r,
            tokens.deep_view(),
            from,
            fold_leaves(tokens.deep_view().skip(from as int), ImageModel::unset(), image_apply()),
        ),
{
    if from > tokens.len() {
        return Err(FeedError::ElementToString);
    }
    let ghost all = tokens.deep_view();
    let mut builder = ImageBuilder::new();
    let mut at: usize = from;
    while at < tokens.len()
        invariant
            from <= at <= tokens.len(),
            all == tokens.deep_view(),
            fold_leaves(all.skip(from as int), ImageModel::unset(), image_apply()) == fold_leaves(
                all.skip(at as int),
                builder@,
                image_apply(),
            ),
        decreases tokens.len() - at,
    {
        assert(all.skip(at as int)[0] == tokens[at as int].deep_view());
        assert(all.skip(at as int).skip(1) =~= all.skip(at + 1));
        match &tokens[at] {
            XmlToken::Text { .. } => {
                at += 1;
            },
            XmlToken::Close { .. } => {
                return Ok((builder.finalize(), at + 1));
            },
            XmlToken::Open { name, attributes } => match read_text(tokens, at + 1) {
                None => {
                    return Err(FeedError::ElementToString);
                },
                Some((text, next)) => {
                    match apply_image_leaf(&mut builder, name.as_str(), attributes, text) {
                        Ok(()) => {},
                        Err(e) => {
                            return Err(e);
                        },
                    }
                    at = next;
                },
            },
        }
    }
    Err(FeedError::ElementToString)
}

/// Reads a `textInput` element into a text input.
///
/// `from` is the index behind the element's start tag; the index returned
/// is the one behind its end tag. Fails with `ElementToString` where the
/// tokens end before the element does, and with the failure of the first
/// element in it that cannot be applied.
pub fn read_text_input(tokens: &Vec<XmlToken>, from: usize) -> (r: Result<
    (TextInput, usize),
    FeedError,
>)
    ensures
        from > tokens.len() ==> r is Err && r->Err_0@ == Failure::ElementToString,
        from <= tokens.len() ==> element_read(
            r,
            tokens.deep_view(),
            from,
            fold_leaves(tokens.deep_view().skip(from as int), TextInputModel::unset(), text_input_apply()),
        ),
{
    if from > tokens.len() {
        return Err(FeedError::ElementToString);
    }
    let ghost all = tokens.deep_view();
    let mut builder = TextInputBuilder::new();
    let mut at: usize = from;
    while at < tokens.len()
        invariant
            from <= at <= tokens.len(),
            all == tokens.deep_view(),
            fold_leaves(all.skip(from as int), TextInputModel::unset(), text_input_apply()) == fold_leaves(
                all.skip(at as int),
                builder@,
                text_input_apply(),
            ),
        decreases tokens.len() - at,
    {
        assert(all.skip(at as int)[0] == tokens[at as int].deep_view());
        assert(all.skip(at as int).skip(1) =~= all.skip(at + 1));
        match &tokens[at] {
            XmlToken::Text { .. } => {
                at += 1;
            },
            XmlToken::Close { .. } => {
                return Ok((builder.finalize(), at + 1));
            },
            XmlToken::Open { name, attributes } => match read_text(tokens, at + 1) {
                None => {
                    return Err(FeedError::ElementToString);
                },
                Some((text, next)) => {
                    match apply_text_input_leaf(&mut builder, name.as_str(), attributes, text) {
                        Ok(()) => {},
                        Err(e) => {
                            return Err(e);
                        },
                    }
                    at = next;
                },
            },
        }
    }
    Err(FeedError::ElementToString)
}

/// Reads a `skipHours` element into its hours.
///
/// `from` is the index behind the element's start tag; the index returned
/// is the one behind its end tag. Fails with `ElementToString` where the
/// tokens end before the element does, and with the failure of the first
/// element in it that cannot be applied.
pub fn read_skip_hours(tokens: &Vec<XmlToken>, from: usize) -> (r: Result<
    (Vec<i64>, usize),
    FeedError,
>)
    ensures
        from > tokens.len() ==> r is Err && r->Err_0@ == Failure::ElementToString,
        from <= tokens.len() ==> element_read(
            r,
            tokens.deep_view(),
            from,
            fold_leaves(tokens.deep_view().skip(from as int), Seq::<i64>::empty(), hour_apply()),
        ),
{
    if from > tokens.len() {
        return Err(FeedError::ElementToString);
    }
    let ghost all = tokens.deep_view();
    let mut hours: Vec<i64> = Vec::new();
    assert(hours.deep_view() =~= Seq::<i64>::empty());
    let mut at: usize = from;
    while at < tokens.len()
        invariant
            from <= at <= tokens.len(),
            all == tokens.deep_view(),
            fold_leaves(all.skip(from as int), Seq::<i64>::empty(), hour_apply()) == fold_leaves(
                all.skip(at as int),
                hours.deep_view(),
                hour_apply(),
            ),
        decreases tokens.len() - at,
    {
        assert(all.skip(at as int)[0] == tokens[at as int].deep_view());
        assert(all.skip(at as int).skip(1) =~= all.skip(at + 1));
        match &tokens[at] {
            XmlToken::Text { .. } => {
                at += 1;
            },
            XmlToken::Close { .. } => {
                return Ok((hours, at + 1));
            },
            XmlToken::Open { name, attributes } => match read_text(tokens, at + 1) {
                None => {
                    return Err(FeedError::ElementToString);
                },
                Some((text, next)) => {
                    if text_eq(name.as_str(), "hour") {
                        match number_from(text) {
                            Ok(n) => {
                                let ghost held = hours.deep_view();
                                hours.push(n);
                                assert(hours.deep_view() =~= held.push(n));
                            },
                            Err(e) => {
                                return Err(e);
                            },
                        }
                    }
                    at = next;
                },
            },
        }
    }
    Err(FeedError::ElementToString)
}

/// Reads a `skipDays` element into its days.
///
/// `from` is the index behind the element's start tag; the index returned
/// is the one behind its end tag. Fails with `ElementToString` where the
/// tokens end before the element does, and with the failure of the first
/// element in it that cannot be applied.
pub fn read_skip_days(tokens: &Vec<XmlToken>, from: usize) -> (r: Result<
    (Vec<String>, usize),
    FeedError,
>)
    ensures
        from > tokens.len() ==> r is Err && r->Err_0@ == Failure::ElementToString,
        from <= tokens.len() ==> element_read(
            r,
            tokens.deep_view(),
            from,
            fold_leaves(tokens.deep_view().skip(from as int), Seq::<Seq<char>>::empty(), day_apply()),
        ),
{
    if from > tokens.len() {
        return Err(FeedError::ElementToString);
    }
    let ghost all = tokens.deep_view();
    let mut days: Vec<String> = Vec::new();
    assert(days.deep_view() =~= Seq::<Seq<char>>::empty());
    let mut at: usize = from;
    while at < tokens.len()
        invariant
            from <= at <= tokens.len(),
            all == tokens.deep_view(),
            fold_leaves(all.skip(from as int), Seq::<Seq<char>>::empty(), day_apply()) == fold_leaves(
                all.skip(at as int),
                days.deep_view(),
                day_apply(),
            ),
        decreases tokens.len() - at,
    {
        assert(all.skip(at as int)[0] == tokens[at as int].deep_view());
        assert(all.skip(at as int).skip(1) =~= all.skip(at + 1));
        match &tokens[at] {
            XmlToken::Text { .. } => {
                at += 1;
            },
            XmlToken::Close { .. } => {
                return Ok((days, at + 1));
            },
            XmlToken::Open { name, attributes } => match read_text(tokens, at + 1) {
                None => {
                    return Err(FeedError::ElementToString);
                },
                Some((text, next)) => {
                    if text_eq(name.as_str(), "day") {
                        let ghost held = days.deep_view();
                        let ghost day = text@;
                        days.push(text);
                        assert(days.deep_view() =~= held.push(day));
                    }
                    at = next;
                },
            },
        }
    }
    Err(FeedError::ElementToString)
}

/// Reads the `channel` element into a builder.
///
/// `from` is the index behind the element's start tag; the index returned
/// is the one behind its end tag. Fails with `ElementToString` where the
/// tokens end before the element does, and with the failure of the first
/// element in it that cannot be applied.
#[verifier::rlimit(50)]
pub fn read_channel(tokens: &Vec<XmlToken>, from: usize) -> (r: Result<
    (ChannelBuilder, usize),
    FeedError,
>)
    ensures
        from > tokens.len() ==> r is Err && r->Err_0@ == Failure::ElementToString,
        from <= tokens.len() ==> element_read(
            r,
            tokens.deep_view(),
            from,
            channel_children(tokens.deep_view().skip(from as int), ChannelDraft::unset()),
        ),
{
    if from > tokens.len() {
        return Err(FeedError::ElementToString);
    }
    let ghost all = tokens.deep_view();
    let mut builder = ChannelBuilder::new();
    let mut at: usize = from;
    while at < tokens.len()
        invariant
            from <= at <= tokens.len(),
            all == tokens.deep_view(),
            channel_children(all.skip(from as int), ChannelDraft::unset()) == channel_children(
                all.skip(at as int),
                builder@,
            ),
        decreases tokens.len() - at,
    {
        assert(all.skip(at as int)[0] == tokens[at as int].deep_view());
        assert(all.skip(at as int).skip(1) =~= all.skip(at + 1));
        match &tokens[at] {
            XmlToken::Text { .. } => {
                at += 1;
            },
            XmlToken::Close { .. } => {
                return Ok((builder, at + 1));
            },
            XmlToken::Open { name, attributes } => {
                    if text_eq(name.as_str(), "item") {
                        match read_item(tokens, at + 1) {
                            Ok((value, next)) => {
                                builder.add_item(value);
                                at = next;
                            },
                            Err(e) => {
                                return Err(e);
                            },
                        }
                    } else if text_eq(name.as_str(), "image") {
                        match read_image(tokens, at + 1) {
                            Ok((value, next)) => {
                                builder.image(Some(value));
                                at = next;
                            },
                            Err(e) => {
                                return Err(e);
                            },
                        }
                    } else if text_eq(name.as_str(), "textInput") {
                        match read_text_input(tokens, at + 1) {
                            Ok((value, next)) => {
                                builder.text_input(Some(value));
                                at = next;
                            },
                            Err(e) => {
                                return Err(e);
                            },
                        }
                    } else if text_eq(name.as_str(), "skipHours") {
                        match read_skip_hours(tokens, at + 1) {
                            Ok((value, next)) => {
                                builder.skip_hours(Some(value));
                                at = next;
                            },
                            Err(e) => {
                                return Err(e);
                            },
                        }
                    } else if text_eq(name.as_str(), "skipDays") {
                        match read_skip_days(tokens, at + 1) {
                            Ok((value, next)) => {
                                builder.skip_days(Some(value));
                                at = next;
                            },
                            Err(e) => {
                                return Err(e);
                            },
                        }
                    } else {
                    match read_text(tokens, at + 1) {
                        None => {
                            return Err(FeedError::ElementToString);
                        },
                        Some((text, next)) => {
                            match apply_channel_leaf(&mut builder, name.as_str(), attributes, text) {
                                Ok(()) => {},
                                Err(e) => {
                                    return Err(e);
                                },
                            }
                            at = next;
                        },
                    }
                }
            },
        }
    }
    Err(FeedError::ElementToString)
}

/// Reads the channel of a document from its tokens.
///
/// Fails with `MissingChannel` where there is no `channel` element in an
/// `rss` element, with `ElementToString` where the tokens end inside the
/// channel, with a conversion failure where a number, a flag or a date does
/// not read as one, and with `ItemRequiredField` where an item has neither
/// title nor description.
pub fn decode_tokens(tokens: &Vec<XmlToken>) -> (r: Result<Channel, FeedError>)
    ensures
        match r {
            Ok(channel) => document_channel(tokens.deep_view()) == Ok::<_, Failure>(channel@),
            Err(e) => document_channel(tokens.deep_view()) == Err::<ChannelModel, _>(e@),
        },
{
    assert(tokens.deep_view().skip(0) =~= tokens.deep_view());
    let in_rss = match find_child(tokens, 0, "rss") {
        Some(at) => at,
        None => {
            return Err(FeedError::MissingChannel);
        },
    };
    let in_channel = match find_child(tokens, in_rss, "channel") {
        Some(at) => at,
        None => {
            return Err(FeedError::MissingChannel);
        },
    };
    match read_channel(tokens, in_channel) {
        Ok((builder, _)) => builder.finalize(),
        Err(e) => Err(e),
    }
}

} // verus!
