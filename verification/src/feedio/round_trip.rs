//! Reading back what was written.
//!
//! The tokens that are written for a channel read back as that channel, and
//! so does every text that is cut into these tokens.
//! The proof takes the written tokens apart from the front: they are
//! regrouped so that the element of one field stands at the head of what is
//! left, and a lemma for that field says what reading the element does to the
//! builder.

use vstd::prelude::*;
use crate::errors::Failure;
use crate::feedio::cuts::{joined, lemma_cuts_do_not_count};
use crate::feedio::decoded;
use crate::feedio::decode::{
    category_of, channel_children, channel_leaf, cloud_of, day_apply, document_channel,
    enclosure_of, fold_leaves, guid_of, hour_apply, image_apply, image_leaf, is_container,
    item_apply, item_element, item_leaf, number_of, source_of, text_input_apply, text_input_leaf,
    Leaf,
};
use crate::feedio::encode::{
    bare, categories_tokens, category_attributes, category_tokens, channel_tokens, close,
    cloud_attributes, cloud_tokens, days_tokens, document_tokens, enclosure_attributes,
    enclosure_tokens, guid_tokens, hours_tokens, image_tokens, item_tokens, items_tokens, leaf,
    lemma_join, open, optional, optional_categories, optional_items, plain, skip_days_tokens,
    skip_hours_tokens, source_tokens, text_input_tokens,
};
use crate::feedio::names::lemma_name_codes;
use crate::feedio::token::{attribute, element_text, find_element, Token};
use crate::feedio::xml_reader::text_tokens;
use crate::rss::category::{pushed, CategoryModel};
use crate::rss::channel::{ChannelDraft, ChannelModel};
use crate::rss::cloud::CloudModel;
use crate::rss::enclosure::EnclosureModel;
use crate::rss::guid::GuidModel;
use crate::rss::image::ImageModel;
use crate::rss::item_builder::{ItemDraft, ItemModel};
use crate::rss::source::SourceModel;
use crate::rss::text_input::TextInputModel;
use crate::util::date::{date_text, optional_instant};
use crate::util::decimal::{
    bool_text, decimal_text, lemma_parse_bool_of_text, lemma_parse_i64_of_text,
    lemma_parse_u64_of_text, number_text,
};

verus! {

/// The text of an element that holds one piece of text is that piece.
proof fn lemma_text_of_leaf(text: Seq<char>, name: Seq<char>, rest: Seq<Token>)
    ensures
        element_text(seq![Token::Text { text }, Token::Close { name }] + rest, Seq::empty(), 0)
            == Some((text, rest)),
{
    let tokens = seq![Token::Text { text }, Token::Close { name }] + rest;
    let tail = tokens.skip(1);
    assert(tail =~= seq![Token::Close { name }] + rest);
    assert(tail.skip(1) =~= rest);
    assert(Seq::<char>::empty() + text =~= text);
    assert(element_text(tail, text, 0) == Some((text, rest)));
}

/// The text of an element that holds nothing is empty.
proof fn lemma_text_of_bare(name: Seq<char>, rest: Seq<Token>)
    ensures
        element_text(seq![Token::Close { name }] + rest, Seq::empty(), 0) == Some(
            (Seq::<char>::empty(), rest),
        ),
{
    let tokens = seq![Token::Close { name }] + rest;
    assert(tokens.skip(1) =~= rest);
}

/// An element with text at the head of the tokens is applied, and the rest goes on.
proof fn lemma_fold_leaf<D>(
    name: Seq<char>,
    attributes: Seq<(Seq<char>, Seq<char>)>,
    text: Seq<char>,
    rest: Seq<Token>,
    draft: D,
    apply: spec_fn(D, Leaf) -> Result<D, Failure>,
)
    ensures
        fold_leaves(leaf(name, attributes, text) + rest, draft, apply) == match apply(
            draft,
            Leaf { name, attributes, text },
        ) {
            Ok(next) => fold_leaves(rest, next, apply),
            Err(e) => Err(e),
        },
{
    let tokens = leaf(name, attributes, text) + rest;
    assert(tokens[0] == Token::Open { name, attributes });
    assert(tokens.skip(1) =~= seq![Token::Text { text }, Token::Close { name }] + rest);
    lemma_text_of_leaf(text, name, rest);
}

/// An element without text at the head of the tokens is applied with the empty text.
proof fn lemma_fold_bare<D>(
    name: Seq<char>,
    attributes: Seq<(Seq<char>, Seq<char>)>,
    rest: Seq<Token>,
    draft: D,
    apply: spec_fn(D, Leaf) -> Result<D, Failure>,
)
    ensures
        fold_leaves(bare(name, attributes) + rest, draft, apply) == match apply(
            draft,
            Leaf { name, attributes, text: Seq::empty() },
        ) {
            Ok(next) => fold_leaves(rest, next, apply),
            Err(e) => Err(e),
        },
{
    let tokens = bare(name, attributes) + rest;
    assert(tokens[0] == Token::Open { name, attributes });
    assert(tokens.skip(1) =~= seq![Token::Close { name }] + rest);
    lemma_text_of_bare(name, rest);
}

/// An end tag at the head of the tokens ends the element.
proof fn lemma_fold_close<D>(
    name: Seq<char>,
    rest: Seq<Token>,
    draft: D,
    apply: spec_fn(D, Leaf) -> Result<D, Failure>,
)
    ensures
        fold_leaves(close(name) + rest, draft, apply) == Ok::<_, Failure>((draft, rest)),
{
    let tokens = close(name) + rest;
    assert(tokens[0] == Token::Close { name });
    assert(tokens.skip(1) =~= rest);
}

/// The element of an optional field is applied where the field is there.
proof fn lemma_fold_optional<D>(
    name: Seq<char>,
    value: Option<Seq<char>>,
    rest: Seq<Token>,
    draft: D,
    apply: spec_fn(D, Leaf) -> Result<D, Failure>,
)
    ensures
        fold_leaves(optional(name, value) + rest, draft, apply) == match value {
            Some(text) => match apply(draft, Leaf { name, attributes: Seq::empty(), text }) {
                Ok(next) => fold_leaves(rest, next, apply),
                Err(e) => Err(e),
            },
            None => fold_leaves(rest, draft, apply),
        },
{
    match value {
        Some(text) => lemma_fold_leaf(name, Seq::empty(), text, rest, draft, apply),
        None => {
            assert(optional(name, value) + rest =~= rest);
        },
    }
}

/// In the channel, an element with text that holds no elements of its own is applied.
proof fn lemma_channel_leaf(
    name: Seq<char>,
    attributes: Seq<(Seq<char>, Seq<char>)>,
    text: Seq<char>,
    rest: Seq<Token>,
    draft: ChannelDraft,
)
    requires
        !is_container(name),
    ensures
        channel_children(leaf(name, attributes, text) + rest, draft) == match channel_leaf(
            draft,
            Leaf { name, attributes, text },
        ) {
            Ok(next) => channel_children(rest, next),
            Err(e) => Err(e),
        },
{
    let tokens = leaf(name, attributes, text) + rest;
    assert(tokens[0] == Token::Open { name, attributes });
    assert(tokens.skip(1) =~= seq![Token::Text { text }, Token::Close { name }] + rest);
    lemma_text_of_leaf(text, name, rest);
}

/// In the channel, an element without text is applied with the empty text.
proof fn lemma_channel_bare(
    name: Seq<char>,
    attributes: Seq<(Seq<char>, Seq<char>)>,
    rest: Seq<Token>,
    draft: ChannelDraft,
)
    requires
        !is_container(name),
    ensures
        channel_children(bare(name, attributes) + rest, draft) == match channel_leaf(
            draft,
            Leaf { name, attributes, text: Seq::empty() },
        ) {
            Ok(next) => channel_children(rest, next),
            Err(e) => Err(e),
        },
{
    let tokens = bare(name, attributes) + rest;
    assert(tokens[0] == Token::Open { name, attributes });
    assert(tokens.skip(1) =~= seq![Token::Close { name }] + rest);
    lemma_text_of_bare(name, rest);
}

/// In the channel, the element of an optional field is applied where the field is there.
proof fn lemma_channel_optional(
    name: Seq<char>,
    value: Option<Seq<char>>,
    rest: Seq<Token>,
    draft: ChannelDraft,
)
    requires
        !is_container(name),
    ensures
        channel_children(optional(name, value) + rest, draft) == match value {
            Some(text) => match channel_leaf(draft, Leaf { name, attributes: Seq::empty(), text }) {
                Ok(next) => channel_children(rest, next),
                Err(e) => Err(e),
            },
            None => channel_children(rest, draft),
        },
{
    match value {
        Some(text) => lemma_channel_leaf(name, Seq::empty(), text, rest, draft),
        None => {
            assert(optional(name, value) + rest =~= rest);
        },
    }
}

/// The end tag of the channel ends it.
proof fn lemma_channel_close(name: Seq<char>, rest: Seq<Token>, draft: ChannelDraft)
    ensures
        channel_children(close(name) + rest, draft) == Ok::<_, Failure>((draft, rest)),
{
    let tokens = close(name) + rest;
    assert(tokens[0] == Token::Close { name });
    assert(tokens.skip(1) =~= rest);
}

/// What each element that an item knows does to the item's builder.
#[verifier::rlimit(50)]
proof fn lemma_item_leaf_values(d: ItemDraft, attributes: Seq<(Seq<char>, Seq<char>)>, text: Seq<char>)
    ensures
        item_leaf(d, Leaf { name: "title"@, attributes, text })
            == Ok::<_, Failure>(ItemDraft { title: Some(text), ..d }),
        item_leaf(d, Leaf { name: "link"@, attributes, text })
            == Ok::<_, Failure>(ItemDraft { link: Some(text), ..d }),
        item_leaf(d, Leaf { name: "description"@, attributes, text })
            == Ok::<_, Failure>(ItemDraft { description: Some(text), ..d }),
        item_leaf(d, Leaf { name: "author"@, attributes, text })
            == Ok::<_, Failure>(ItemDraft { author: Some(text), ..d }),
        item_leaf(d, Leaf { name: "category"@, attributes, text }) == Ok::<_, Failure>(ItemDraft { categories: Some(pushed(d.categories, category_of(Leaf { name: "category"@, attributes, text }))), ..d }),
        item_leaf(d, Leaf { name: "comments"@, attributes, text })
            == Ok::<_, Failure>(ItemDraft { comments: Some(text), ..d }),
        item_leaf(d, Leaf { name: "enclosure"@, attributes, text }) == match enclosure_of(attributes) {
            Ok(e) => Ok(ItemDraft { enclosure: Some(e), ..d }),
            Err(e) => Err(e),
        },
        item_leaf(d, Leaf { name: "guid"@, attributes, text }) == match guid_of(Leaf { name: "guid"@, attributes, text }) {
            Ok(g) => Ok(ItemDraft { guid: Some(g), ..d }),
            Err(e) => Err(e),
        },
        item_leaf(d, Leaf { name: "pubDate"@, attributes, text })
            == Ok::<_, Failure>(ItemDraft { pub_date: Some(text), ..d }),
        item_leaf(d, Leaf { name: "source"@, attributes, text }) == Ok::<_, Failure>(ItemDraft { source: Some(source_of(Leaf { name: "source"@, attributes, text })), ..d }),
{
    lemma_name_codes();
}

/// What each element that an image knows does to the image's builder.
#[verifier::rlimit(50)]
proof fn lemma_image_leaf_values(d: ImageModel, attributes: Seq<(Seq<char>, Seq<char>)>, text: Seq<char>)
    ensures
        image_leaf(d, Leaf { name: "title"@, attributes, text })
            == Ok::<_, Failure>(ImageModel { title: text, ..d }),
        image_leaf(d, Leaf { name: "link"@, attributes, text })
            == Ok::<_, Failure>(ImageModel { link: text, ..d }),
        image_leaf(d, Leaf { name: "url"@, attributes, text })
            == Ok::<_, Failure>(ImageModel { url: text, ..d }),
        image_leaf(d, Leaf { name: "width"@, attributes, text }) == match number_of(text) {
            Ok(n) => Ok(ImageModel { width: n, ..d }),
            Err(e) => Err(e),
        },
        image_leaf(d, Leaf { name: "height"@, attributes, text }) == match number_of(text) {
            Ok(n) => Ok(ImageModel { height: n, ..d }),
            Err(e) => Err(e),
        },
        image_leaf(d, Leaf { name: "description"@, attributes, text })
            == Ok::<_, Failure>(ImageModel { description: Some(text), ..d }),
{
    lemma_name_codes();
}

/// What each element that a text input knows does to the text input's builder.
#[verifier::rlimit(50)]
proof fn lemma_text_input_leaf_values(d: TextInputModel, attributes: Seq<(Seq<char>, Seq<char>)>, text: Seq<char>)
    ensures
        text_input_leaf(d, Leaf { name: "title"@, attributes, text })
            == Ok::<_, Failure>(TextInputModel { title: text, ..d }),
        text_input_leaf(d, Leaf { name: "description"@, attributes, text })
            == Ok::<_, Failure>(TextInputModel { description: text, ..d }),
        text_input_leaf(d, Leaf { name: "name"@, attributes, text })
            == Ok::<_, Failure>(TextInputModel { name: text, ..d }),
        text_input_leaf(d, Leaf { name: "link"@, attributes, text })
            == Ok::<_, Failure>(TextInputModel { link: text, ..d }),
{
    lemma_name_codes();
}

/// What each element with text that a channel knows does to the channel's builder.
#[verifier::rlimit(50)]
proof fn lemma_channel_leaf_values(d: ChannelDraft, attributes: Seq<(Seq<char>, Seq<char>)>, text: Seq<char>)
    ensures
        channel_leaf(d, Leaf { name: "title"@, attributes, text })
            == Ok::<_, Failure>(ChannelDraft { title: text, ..d }),
        channel_leaf(d, Leaf { name: "link"@, attributes, text })
            == Ok::<_, Failure>(ChannelDraft { link: text, ..d }),
        channel_leaf(d, Leaf { name: "description"@, attributes, text })
            == Ok::<_, Failure>(ChannelDraft { description: text, ..d }),
        channel_leaf(d, Leaf { name: "language"@, attributes, text })
            == Ok::<_, Failure>(ChannelDraft { language: Some(text), ..d }),
        channel_leaf(d, Leaf { name: "copyright"@, attributes, text })
            == Ok::<_, Failure>(ChannelDraft { copyright: Some(text), ..d }),
        channel_leaf(d, Leaf { name: "managingEditor"@, attributes, text })
            == Ok::<_, Failure>(ChannelDraft { managing_editor: Some(text), ..d }),
        channel_leaf(d, Leaf { name: "webMaster"@, attributes, text })
            == Ok::<_, Failure>(ChannelDraft { web_master: Some(text), ..d }),
        channel_leaf(d, Leaf { name: "pubDate"@, attributes, text })
            == Ok::<_, Failure>(ChannelDraft { pub_date: Some(text), ..d }),
        channel_leaf(d, Leaf { name: "lastBuildDate"@, attributes, text })
            == Ok::<_, Failure>(ChannelDraft { last_build_date: Some(text), ..d }),
        channel_leaf(d, Leaf { name: "category"@, attributes, text }) == Ok::<_, Failure>(ChannelDraft { categories: Some(pushed(d.categories, category_of(Leaf { name: "category"@, attributes, text }))), ..d }),
        channel_leaf(d, Leaf { name: "generator"@, attributes, text })
            == Ok::<_, Failure>(ChannelDraft { generator: Some(text), ..d }),
        channel_leaf(d, Leaf { name: "docs"@, attributes, text })
            == Ok::<_, Failure>(ChannelDraft { docs: Some(text), ..d }),
        channel_leaf(d, Leaf { name: "cloud"@, attributes, text }) == match cloud_of(attributes) {
            Ok(c) => Ok(ChannelDraft { cloud: Some(c), ..d }),
            Err(e) => Err(e),
        },
        channel_leaf(d, Leaf { name: "ttl"@, attributes, text }) == match number_of(text) {
            Ok(n) => Ok(ChannelDraft { ttl: Some(n), ..d }),
            Err(e) => Err(e),
        },
        channel_leaf(d, Leaf { name: "rating"@, attributes, text })
            == Ok::<_, Failure>(ChannelDraft { rating: Some(text), ..d }),
{
    lemma_name_codes();
}

/// Which of the channel's elements hold elements of their own.
#[verifier::rlimit(50)]
proof fn lemma_containers()
    ensures
        is_container("item"@),
        is_container("image"@),
        is_container("textInput"@),
        is_container("skipHours"@),
        is_container("skipDays"@),
        !is_container("title"@),
        !is_container("link"@),
        !is_container("description"@),
        !is_container("language"@),
        !is_container("copyright"@),
        !is_container("managingEditor"@),
        !is_container("webMaster"@),
        !is_container("pubDate"@),
        !is_container("lastBuildDate"@),
        !is_container("category"@),
        !is_container("generator"@),
        !is_container("docs"@),
        !is_container("cloud"@),
        !is_container("ttl"@),
        !is_container("rating"@),
{
    lemma_name_codes();
}

/// The category that is read from the element written for a category is that category.
proof fn lemma_category_read(c: CategoryModel)
    ensures
        category_of(
            Leaf { name: "category"@, attributes: category_attributes(c), text: c.category },
        ) == c,
{
    let attributes = category_attributes(c);
    if c.domain is Some {
        assert(attributes[0].0 == "domain"@);
    }
}

/// The cloud that is read from the attributes written for a cloud is that cloud.
#[verifier::rlimit(50)]
proof fn lemma_cloud_read(c: CloudModel)
    ensures
        cloud_of(cloud_attributes(c)) == Ok::<_, Failure>(c),
{
    lemma_name_codes();
    lemma_parse_u64_of_text(c.port);
    let a = cloud_attributes(c);
    let keys = seq!["domain"@, "port"@, "path"@, "registerProcedure"@, "protocol"@];
    assert forall|k: int| 0 <= k < 5 implies attribute(a, #[trigger] keys[k]) == Some(a[k].1) by {
        lemma_attribute_at(a, k);
    }
    assert(attribute(a, keys[0]) == Some(c.domain));
    assert(attribute(a, keys[1]) == Some(decimal_text(c.port as int)));
    assert(attribute(a, keys[2]) == Some(c.path));
    assert(attribute(a, keys[3]) == Some(c.register_procedure));
    assert(attribute(a, keys[4]) == Some(c.protocol));
}

/// The enclosure that is read from the attributes written for an enclosure is that enclosure.
#[verifier::rlimit(50)]
proof fn lemma_enclosure_read(e: EnclosureModel)
    ensures
        enclosure_of(enclosure_attributes(e)) == Ok::<_, Failure>(e),
{
    lemma_name_codes();
    lemma_parse_u64_of_text(e.length);
    let a = enclosure_attributes(e);
    let keys = seq!["url"@, "length"@, "type"@];
    assert forall|k: int| 0 <= k < 3 implies attribute(a, #[trigger] keys[k]) == Some(a[k].1) by {
        lemma_attribute_at(a, k);
    }
    assert(attribute(a, keys[0]) == Some(e.url));
    assert(attribute(a, keys[1]) == Some(decimal_text(e.length as int)));
    assert(attribute(a, keys[2]) == Some(e.enclosure_type));
}

/// An attribute whose name differs from those before it is found.
proof fn lemma_attribute_at(attributes: Seq<(Seq<char>, Seq<char>)>, at: int)
    requires
        0 <= at < attributes.len(),
        forall|j: int| 0 <= j < at ==> #[trigger] attributes[j].0 != attributes[at].0,
    ensures
        attribute(attributes, attributes[at].0) == Some(attributes[at].1),
    decreases at,
{
    if at > 0 {
        let tail = attributes.skip(1);
        assert(attributes[0].0 != attributes[at].0);
        assert(tail[at - 1] == attributes[at]);
        assert forall|j: int| 0 <= j < at - 1 implies #[trigger] tail[j].0 != tail[at - 1].0 by {
            assert(tail[j] == attributes[j + 1]);
        }
        lemma_attribute_at(tail, at - 1);
    }
}

/// The identifier that is read from the element written for an identifier is that identifier.
proof fn lemma_guid_read(g: GuidModel)
    ensures
        guid_of(
            Leaf {
                name: "guid"@,
                attributes: seq![("isPermaLink"@, bool_text(g.permalink))],
                text: g.guid,
            },
        ) == Ok::<_, Failure>(g),
{
    lemma_parse_bool_of_text(g.permalink);
    let a = seq![("isPermaLink"@, bool_text(g.permalink))];
    assert(a[0].0 == "isPermaLink"@);
}

/// The source that is read from the element written for a source is that source.
proof fn lemma_source_read(s: SourceModel)
    ensures
        source_of(Leaf { name: "source"@, attributes: seq![("url"@, s.url)], text: s.source }) == s,
{
    let a = seq![("url"@, s.url)];
    assert(a[0].0 == "url"@);
}

/// A list that may be absent, with more members behind those it has; the
/// list is there as soon as it has a member.
pub open spec fn extended<T>(list: Option<Seq<T>>, more: Seq<T>) -> Option<Seq<T>>
    decreases more.len(),
{
    if more.len() == 0 {
        list
    } else {
        Some(pushed(extended(list, more.drop_last()), more.last()))
    }
}

/// Members added to an absent list make the list of just these members.
proof fn lemma_extended_from_none<T>(more: Seq<T>)
    requires
        more.len() > 0,
    ensures
        extended(None, more) == Some(more),
    decreases more.len(),
{
    let init = more.drop_last();
    if init.len() == 0 {
        assert(seq![more.last()] =~= more);
    } else {
        lemma_extended_from_none(init);
        assert(init.push(more.last()) =~= more);
    }
}

/// Whether an item can be read back from what is written for it: it has a
/// title or a description, its date reads back from its text, and its list
/// of categories, where it has one, is not empty.
pub open spec fn item_writable(item: ItemModel) -> bool {
    &&& item.valid()
    &&& item.pub_date matches Some(d) ==> d.reads_back()
    &&& item.categories matches Some(l) ==> l.len() > 0
}

/// Whether a channel can be read back from what is written for it: its
/// dates read back from their texts, its lists of categories and of items,
/// where it has them, are not empty, and each of its items can be read back.
pub open spec fn channel_writable(channel: ChannelModel) -> bool {
    &&& channel.pub_date matches Some(d) ==> d.reads_back()
    &&& channel.last_build_date matches Some(d) ==> d.reads_back()
    &&& channel.categories matches Some(l) ==> l.len() > 0
    &&& channel.items matches Some(l) ==> l.len() > 0 && forall|i: int|
        0 <= i < l.len() ==> item_writable(#[trigger] l[i])
}

/// In an item, the elements written for a list of categories add these categories.
proof fn lemma_item_categories(list: Seq<CategoryModel>, rest: Seq<Token>, d: ItemDraft)
    ensures
        fold_leaves(categories_tokens(list) + rest, d, item_apply()) == fold_leaves(
            rest,
            ItemDraft { categories: extended(d.categories, list), ..d },
            item_apply(),
        ),
    decreases list.len(),
{
    if list.len() == 0 {
        assert(categories_tokens(list) + rest =~= rest);
    } else {
        let init = list.drop_last();
        let c = list.last();
        let a = category_attributes(c);
        lemma_join(categories_tokens(init), category_tokens(c), rest);
        lemma_item_categories(init, category_tokens(c) + rest, d);
        let draft1 = ItemDraft { categories: extended(d.categories, init), ..d };
        lemma_fold_leaf("category"@, a, c.category, rest, draft1, item_apply());
        lemma_item_leaf_values(draft1, a, c.category);
        lemma_category_read(c);
    }
}

/// In a channel, the elements written for a list of categories add these categories.
proof fn lemma_channel_categories(list: Seq<CategoryModel>, rest: Seq<Token>, d: ChannelDraft)
    ensures
        channel_children(categories_tokens(list) + rest, d) == channel_children(
            rest,
            ChannelDraft { categories: extended(d.categories, list), ..d },
        ),
    decreases list.len(),
{
    if list.len() == 0 {
        assert(categories_tokens(list) + rest =~= rest);
    } else {
        let init = list.drop_last();
        let c = list.last();
        let a = category_attributes(c);
        lemma_join(categories_tokens(init), category_tokens(c), rest);
        lemma_channel_categories(init, category_tokens(c) + rest, d);
        let draft1 = ChannelDraft { categories: extended(d.categories, init), ..d };
        lemma_containers();
        lemma_channel_leaf("category"@, a, c.category, rest, draft1);
        lemma_channel_leaf_values(draft1, a, c.category);
        lemma_category_read(c);
    }
}

/// The elements written for a list of hours add these hours.
proof fn lemma_hours(list: Seq<i64>, rest: Seq<Token>, d: Seq<i64>)
    ensures
        fold_leaves(hours_tokens(list) + rest, d, hour_apply()) == fold_leaves(
            rest,
            d + list,
            hour_apply(),
        ),
    decreases list.len(),
{
    if list.len() == 0 {
        assert(hours_tokens(list) + rest =~= rest);
        assert(d + list =~= d);
    } else {
        let init = list.drop_last();
        let h = list.last();
        let piece = plain("hour"@, decimal_text(h as int));
        lemma_join(hours_tokens(init), piece, rest);
        lemma_hours(init, piece + rest, d);
        lemma_fold_leaf(
            "hour"@,
            Seq::empty(),
            decimal_text(h as int),
            rest,
            d + init,
            hour_apply(),
        );
        lemma_parse_i64_of_text(h);
        assert((d + init).push(h) =~= d + list);
    }
}

/// The elements written for a list of days add these days.
proof fn lemma_days(list: Seq<Seq<char>>, rest: Seq<Token>, d: Seq<Seq<char>>)
    ensures
        fold_leaves(days_tokens(list) + rest, d, day_apply()) == fold_leaves(
            rest,
            d + list,
            day_apply(),
        ),
    decreases list.len(),
{
    if list.len() == 0 {
        assert(days_tokens(list) + rest =~= rest);
        assert(d + list =~= d);
    } else {
        let init = list.drop_last();
        let day = list.last();
        let piece = plain("day"@, day);
        lemma_join(days_tokens(init), piece, rest);
        lemma_days(init, piece + rest, d);
        lemma_fold_leaf("day"@, Seq::empty(), day, rest, d + init, day_apply());
        assert((d + init).push(day) =~= d + list);
    }
}

/// The text input that is read from the elements written for a text input is that text input.
#[verifier::rlimit(50)]
proof fn lemma_text_input_read(v: TextInputModel, rest: Seq<Token>)
    ensures
        (text_input_tokens(Some(v)) + rest)[0] == (Token::Open {
            name: "textInput"@,
            attributes: Seq::empty(),
        }),
        fold_leaves(
            (text_input_tokens(Some(v)) + rest).skip(1),
            TextInputModel::unset(),
            text_input_apply(),
        ) == Ok::<_, Failure>((v, rest)),
{
    let back6 = rest;
    let back5 = close("textInput"@) + back6;
    let back4 = plain("link"@, v.link) + back5;
    let back3 = plain("name"@, v.name) + back4;
    let back2 = plain("description"@, v.description) + back3;
    let back1 = plain("title"@, v.title) + back2;
    let front0 = open("textInput"@);
    let front1 = front0 + plain("title"@, v.title);
    let front2 = front1 + plain("description"@, v.description);
    let front3 = front2 + plain("name"@, v.name);
    let front4 = front3 + plain("link"@, v.link);
    let front5 = front4 + close("textInput"@);
    lemma_join(front4, close("textInput"@), back6);
    lemma_join(front3, plain("link"@, v.link), back5);
    lemma_join(front2, plain("name"@, v.name), back4);
    lemma_join(front1, plain("description"@, v.description), back3);
    lemma_join(front0, plain("title"@, v.title), back2);
    assert(text_input_tokens(Some(v)) + rest == front0 + back1);
    let draft0 = TextInputModel::unset();
    lemma_fold_leaf("title"@, Seq::empty(), v.title, back2, draft0, text_input_apply());
    lemma_text_input_leaf_values(draft0, Seq::empty(), v.title);
    let draft1 = TextInputModel { title: v.title, ..draft0 };
    assert(fold_leaves(back1, draft0, text_input_apply())
        == fold_leaves(back2, draft1, text_input_apply()));
    lemma_fold_leaf("description"@, Seq::empty(), v.description, back3, draft1, text_input_apply());
    lemma_text_input_leaf_values(draft1, Seq::empty(), v.description);
    let draft2 = TextInputModel { description: v.description, ..draft1 };
    assert(fold_leaves(back2, draft1, text_input_apply())
        == fold_leaves(back3, draft2, text_input_apply()));
    lemma_fold_leaf("name"@, Seq::empty(), v.name, back4, draft2, text_input_apply());
    lemma_text_input_leaf_values(draft2, Seq::empty(), v.name);
    let draft3 = TextInputModel { name: v.name, ..draft2 };
    assert(fold_leaves(back3, draft2, text_input_apply())
        == fold_leaves(back4, draft3, text_input_apply()));
    lemma_fold_leaf("link"@, Seq::empty(), v.link, back5, draft3, text_input_apply());
    lemma_text_input_leaf_values(draft3, Seq::empty(), v.link);
    let draft4 = TextInputModel { link: v.link, ..draft3 };
    assert(fold_leaves(back4, draft3, text_input_apply())
        == fold_leaves(back5, draft4, text_input_apply()));
    lemma_fold_close("textInput"@, back6, draft4, text_input_apply());
    assert((front0 + back1).skip(1) =~= back1);
    assert(draft4 == v);
}

/// The image that is read from the elements written for an image is that image.
#[verifier::rlimit(50)]
proof fn lemma_image_read(v: ImageModel, rest: Seq<Token>)
    ensures
        (image_tokens(Some(v)) + rest)[0] == (Token::Open {
            name: "image"@,
            attributes: Seq::empty(),
        }),
        fold_leaves((image_tokens(Some(v)) + rest).skip(1), ImageModel::unset(), image_apply())
            == Ok::<_, Failure>((v, rest)),
{
    let back8 = rest;
    let back7 = close("image"@) + back8;
    let back6 = optional("description"@, v.description) + back7;
    let back5 = plain("height"@, decimal_text(v.height as int)) + back6;
    let back4 = plain("width"@, decimal_text(v.width as int)) + back5;
    let back3 = plain("link"@, v.link) + back4;
    let back2 = plain("title"@, v.title) + back3;
    let back1 = plain("url"@, v.url) + back2;
    let front0 = open("image"@);
    let front1 = front0 + plain("url"@, v.url);
    let front2 = front1 + plain("title"@, v.title);
    let front3 = front2 + plain("link"@, v.link);
    let front4 = front3 + plain("width"@, decimal_text(v.width as int));
    let front5 = front4 + plain("height"@, decimal_text(v.height as int));
    let front6 = front5 + optional("description"@, v.description);
    let front7 = front6 + close("image"@);
    lemma_join(front6, close("image"@), back8);
    lemma_join(front5, optional("description"@, v.description), back7);
    lemma_join(front4, plain("height"@, decimal_text(v.height as int)), back6);
    lemma_join(front3, plain("width"@, decimal_text(v.width as int)), back5);
    lemma_join(front2, plain("link"@, v.link), back4);
    lemma_join(front1, plain("title"@, v.title), back3);
    lemma_join(front0, plain("url"@, v.url), back2);
    assert(image_tokens(Some(v)) + rest == front0 + back1);
    let draft0 = ImageModel::unset();
    lemma_fold_leaf("url"@, Seq::empty(), v.url, back2, draft0, image_apply());
    lemma_image_leaf_values(draft0, Seq::empty(), v.url);
    let draft1 = ImageModel { url: v.url, ..draft0 };
    assert(fold_leaves(back1, draft0, image_apply()) == fold_leaves(back2, draft1, image_apply()));
    lemma_fold_leaf("title"@, Seq::empty(), v.title, back3, draft1, image_apply());
    lemma_image_leaf_values(draft1, Seq::empty(), v.title);
    let draft2 = ImageModel { title: v.title, ..draft1 };
    assert(fold_leaves(back2, draft1, image_apply()) == fold_leaves(back3, draft2, image_apply()));
    lemma_fold_leaf("link"@, Seq::empty(), v.link, back4, draft2, image_apply());
    lemma_image_leaf_values(draft2, Seq::empty(), v.link);
    let draft3 = ImageModel { link: v.link, ..draft2 };
    assert(fold_leaves(back3, draft2, image_apply()) == fold_leaves(back4, draft3, image_apply()));
    lemma_fold_leaf(
        "width"@,
        Seq::empty(),
        decimal_text(v.width as int),
        back5,
        draft3,
        image_apply(),
    );
    lemma_image_leaf_values(draft3, Seq::empty(), decimal_text(v.width as int));
    lemma_parse_i64_of_text(v.width);
    let draft4 = ImageModel { width: v.width, ..draft3 };
    assert(fold_leaves(back4, draft3, image_apply()) == fold_leaves(back5, draft4, image_apply()));
    lemma_fold_leaf(
        "height"@,
        Seq::empty(),
        decimal_text(v.height as int),
        back6,
        draft4,
        image_apply(),
    );
    lemma_image_leaf_values(draft4, Seq::empty(), decimal_text(v.height as int));
    lemma_parse_i64_of_text(v.height);
    let draft5 = ImageModel { height: v.height, ..draft4 };
    assert(fold_leaves(back5, draft4, image_apply()) == fold_leaves(back6, draft5, image_apply()));
    lemma_fold_optional("description"@, v.description, back7, draft5, image_apply());
    if let Some(text) = v.description {
        lemma_image_leaf_values(draft5, Seq::empty(), text);
    }
    let draft6 = ImageModel { description: v.description, ..draft5 };
    assert(fold_leaves(back6, draft5, image_apply()) == fold_leaves(back7, draft6, image_apply()));
    lemma_fold_close("image"@, back8, draft6, image_apply());
    assert((front0 + back1).skip(1) =~= back1);
    assert(draft6 == v);
}

/// The hours that are read from the elements written for a list of hours are that list.
proof fn lemma_skip_hours_read(v: Seq<i64>, rest: Seq<Token>)
    ensures
        (skip_hours_tokens(Some(v)) + rest)[0] == (Token::Open {
            name: "skipHours"@,
            attributes: Seq::empty(),
        }),
        fold_leaves(
            (skip_hours_tokens(Some(v)) + rest).skip(1),
            Seq::<i64>::empty(),
            hour_apply(),
        ) == Ok::<_, Failure>((v, rest)),
{
    let inner = hours_tokens(v) + (close("skipHours"@) + rest);
    lemma_join(open("skipHours"@) + hours_tokens(v), close("skipHours"@), rest);
    lemma_join(open("skipHours"@), hours_tokens(v), close("skipHours"@) + rest);
    assert((open("skipHours"@) + inner).skip(1) =~= inner);
    lemma_hours(v, close("skipHours"@) + rest, Seq::empty());
    assert(Seq::<i64>::empty() + v =~= v);
    lemma_fold_close("skipHours"@, rest, v, hour_apply());
}

/// The days that are read from the elements written for a list of days are that list.
proof fn lemma_skip_days_read(v: Seq<Seq<char>>, rest: Seq<Token>)
    ensures
        (skip_days_tokens(Some(v)) + rest)[0] == (Token::Open {
            name: "skipDays"@,
            attributes: Seq::empty(),
        }),
        fold_leaves(
            (skip_days_tokens(Some(v)) + rest).skip(1),
            Seq::<Seq<char>>::empty(),
            day_apply(),
        ) == Ok::<_, Failure>((v, rest)),
{
    let inner = days_tokens(v) + (close("skipDays"@) + rest);
    lemma_join(open("skipDays"@) + days_tokens(v), close("skipDays"@), rest);
    lemma_join(open("skipDays"@), days_tokens(v), close("skipDays"@) + rest);
    assert((open("skipDays"@) + inner).skip(1) =~= inner);
    lemma_days(v, close("skipDays"@) + rest, Seq::empty());
    assert(Seq::<Seq<char>>::empty() + v =~= v);
    lemma_fold_close("skipDays"@, rest, v, day_apply());
}

/// In an item, the element written for `title` sets that field.
proof fn lemma_item_title(value: Option<Seq<char>>, rest: Seq<Token>, d: ItemDraft)
    requires
        d.title is None,
    ensures
        fold_leaves(optional("title"@, value) + rest, d, item_apply())
            == fold_leaves(rest, ItemDraft { title: value, ..d }, item_apply()),
{
    lemma_fold_optional("title"@, value, rest, d, item_apply());
    if let Some(text) = value {
        lemma_item_leaf_values(d, Seq::empty(), text);
    }
}

/// In an item, the element written for `link` sets that field.
proof fn lemma_item_link(value: Option<Seq<char>>, rest: Seq<Token>, d: ItemDraft)
    requires
        d.link is None,
    ensures
        fold_leaves(optional("link"@, value) + rest, d, item_apply())
            == fold_leaves(rest, ItemDraft { link: value, ..d }, item_apply()),
{
    lemma_fold_optional("link"@, value, rest, d, item_apply());
    if let Some(text) = value {
        lemma_item_leaf_values(d, Seq::empty(), text);
    }
}

/// In an item, the element written for `description` sets that field.
proof fn lemma_item_description(value: Option<Seq<char>>, rest: Seq<Token>, d: ItemDraft)
    requires
        d.description is None,
    ensures
        fold_leaves(optional("description"@, value) + rest, d, item_apply())
            == fold_leaves(rest, ItemDraft { description: value, ..d }, item_apply()),
{
    lemma_fold_optional("description"@, value, rest, d, item_apply());
    if let Some(text) = value {
        lemma_item_leaf_values(d, Seq::empty(), text);
    }
}

/// In an item, the element written for `author` sets that field.
proof fn lemma_item_author(value: Option<Seq<char>>, rest: Seq<Token>, d: ItemDraft)
    requires
        d.author is None,
    ensures
        fold_leaves(optional("author"@, value) + rest, d, item_apply())
            == fold_leaves(rest, ItemDraft { author: value, ..d }, item_apply()),
{
    lemma_fold_optional("author"@, value, rest, d, item_apply());
    if let Some(text) = value {
        lemma_item_leaf_values(d, Seq::empty(), text);
    }
}

/// In an item, the element written for `comments` sets that field.
proof fn lemma_item_comments(value: Option<Seq<char>>, rest: Seq<Token>, d: ItemDraft)
    requires
        d.comments is None,
    ensures
        fold_leaves(optional("comments"@, value) + rest, d, item_apply())
            == fold_leaves(rest, ItemDraft { comments: value, ..d }, item_apply()),
{
    lemma_fold_optional("comments"@, value, rest, d, item_apply());
    if let Some(text) = value {
        lemma_item_leaf_values(d, Seq::empty(), text);
    }
}

/// In an item, the element written for `pubDate` sets that field.
proof fn lemma_item_pub_date(value: Option<Seq<char>>, rest: Seq<Token>, d: ItemDraft)
    requires
        d.pub_date is None,
    ensures
        fold_leaves(optional("pubDate"@, value) + rest, d, item_apply())
            == fold_leaves(rest, ItemDraft { pub_date: value, ..d }, item_apply()),
{
    lemma_fold_optional("pubDate"@, value, rest, d, item_apply());
    if let Some(text) = value {
        lemma_item_leaf_values(d, Seq::empty(), text);
    }
}

/// In an item, the elements written for its categories set that field.
proof fn lemma_item_category_list(value: Option<Seq<CategoryModel>>, rest: Seq<Token>, d: ItemDraft)
    requires
        d.categories is None,
        value matches Some(l) ==> l.len() > 0,
    ensures
        fold_leaves(optional_categories(value) + rest, d, item_apply())
            == fold_leaves(rest, ItemDraft { categories: value, ..d }, item_apply()),
{
    if let Some(l) = value {
        lemma_item_categories(l, rest, d);
        lemma_extended_from_none(l);
    } else {
        assert(optional_categories(value) + rest =~= rest);
    }
}

/// In an item, the element written for its enclosure sets that field.
proof fn lemma_item_enclosure(value: Option<EnclosureModel>, rest: Seq<Token>, d: ItemDraft)
    requires
        d.enclosure is None,
    ensures
        fold_leaves(enclosure_tokens(value) + rest, d, item_apply())
            == fold_leaves(rest, ItemDraft { enclosure: value, ..d }, item_apply()),
{
    if let Some(e) = value {
        lemma_fold_bare("enclosure"@, enclosure_attributes(e), rest, d, item_apply());
        lemma_item_leaf_values(d, enclosure_attributes(e), Seq::empty());
        lemma_enclosure_read(e);
    } else {
        assert(enclosure_tokens(value) + rest =~= rest);
    }
}

/// In an item, the element written for its identifier sets that field.
proof fn lemma_item_guid(value: Option<GuidModel>, rest: Seq<Token>, d: ItemDraft)
    requires
        d.guid is None,
    ensures
        fold_leaves(guid_tokens(value) + rest, d, item_apply())
            == fold_leaves(rest, ItemDraft { guid: value, ..d }, item_apply()),
{
    if let Some(g) = value {
        let a = seq![("isPermaLink"@, bool_text(g.permalink))];
        lemma_fold_leaf("guid"@, a, g.guid, rest, d, item_apply());
        lemma_item_leaf_values(d, a, g.guid);
        lemma_guid_read(g);
    } else {
        assert(guid_tokens(value) + rest =~= rest);
    }
}

/// In an item, the element written for its source sets that field.
proof fn lemma_item_source(value: Option<SourceModel>, rest: Seq<Token>, d: ItemDraft)
    requires
        d.source is None,
    ensures
        fold_leaves(source_tokens(value) + rest, d, item_apply())
            == fold_leaves(rest, ItemDraft { source: value, ..d }, item_apply()),
{
    if let Some(x) = value {
        let a = seq![("url"@, x.url)];
        lemma_fold_leaf("source"@, a, x.source, rest, d, item_apply());
        lemma_item_leaf_values(d, a, x.source);
        lemma_source_read(x);
    } else {
        assert(source_tokens(value) + rest =~= rest);
    }
}

/// The item that is read from the elements written for an item is that item.
#[verifier::rlimit(50)]
proof fn lemma_item_read(v: ItemModel, rest: Seq<Token>)
    requires
        item_writable(v),
    ensures
        (item_tokens(v) + rest)[0] == (Token::Open { name: "item"@, attributes: Seq::empty() }),
        item_element((item_tokens(v) + rest).skip(1)) == Ok::<_, Failure>((v, rest)),
{
    let back12 = rest;
    let back11 = close("item"@) + back12;
    let back10 = source_tokens(v.source) + back11;
    let back9 = optional("pubDate"@, date_text(v.pub_date)) + back10;
    let back8 = guid_tokens(v.guid) + back9;
    let back7 = enclosure_tokens(v.enclosure) + back8;
    let back6 = optional("comments"@, v.comments) + back7;
    let back5 = optional_categories(v.categories) + back6;
    let back4 = optional("author"@, v.author) + back5;
    let back3 = optional("description"@, v.description) + back4;
    let back2 = optional("link"@, v.link) + back3;
    let back1 = optional("title"@, v.title) + back2;
    let front0 = open("item"@);
    let front1 = front0 + optional("title"@, v.title);
    let front2 = front1 + optional("link"@, v.link);
    let front3 = front2 + optional("description"@, v.description);
    let front4 = front3 + optional("author"@, v.author);
    let front5 = front4 + optional_categories(v.categories);
    let front6 = front5 + optional("comments"@, v.comments);
    let front7 = front6 + enclosure_tokens(v.enclosure);
    let front8 = front7 + guid_tokens(v.guid);
    let front9 = front8 + optional("pubDate"@, date_text(v.pub_date));
    let front10 = front9 + source_tokens(v.source);
    let front11 = front10 + close("item"@);
    lemma_join(front10, close("item"@), back12);
    lemma_join(front9, source_tokens(v.source), back11);
    lemma_join(front8, optional("pubDate"@, date_text(v.pub_date)), back10);
    lemma_join(front7, guid_tokens(v.guid), back9);
    lemma_join(front6, enclosure_tokens(v.enclosure), back8);
    lemma_join(front5, optional("comments"@, v.comments), back7);
    lemma_join(front4, optional_categories(v.categories), back6);
    lemma_join(front3, optional("author"@, v.author), back5);
    lemma_join(front2, optional("description"@, v.description), back4);
    lemma_join(front1, optional("link"@, v.link), back3);
    lemma_join(front0, optional("title"@, v.title), back2);
    assert(item_tokens(v) + rest == front0 + back1);
    let draft0 = ItemDraft::unset();
    lemma_item_title(v.title, back2, draft0);
    let draft1 = ItemDraft { title: v.title, ..draft0 };
    lemma_item_link(v.link, back3, draft1);
    let draft2 = ItemDraft { link: v.link, ..draft1 };
    lemma_item_description(v.description, back4, draft2);
    let draft3 = ItemDraft { description: v.description, ..draft2 };
    lemma_item_author(v.author, back5, draft3);
    let draft4 = ItemDraft { author: v.author, ..draft3 };
    lemma_item_category_list(v.categories, back6, draft4);
    let draft5 = ItemDraft { categories: v.categories, ..draft4 };
    lemma_item_comments(v.comments, back7, draft5);
    let draft6 = ItemDraft { comments: v.comments, ..draft5 };
    lemma_item_enclosure(v.enclosure, back8, draft6);
    let draft7 = ItemDraft { enclosure: v.enclosure, ..draft6 };
    lemma_item_guid(v.guid, back9, draft7);
    let draft8 = ItemDraft { guid: v.guid, ..draft7 };
    lemma_item_pub_date(date_text(v.pub_date), back10, draft8);
    let draft9 = ItemDraft { pub_date: date_text(v.pub_date), ..draft8 };
    lemma_item_source(v.source, back11, draft9);
    let draft10 = ItemDraft { source: v.source, ..draft9 };
    lemma_fold_close("item"@, back12, draft10, item_apply());
    assert((front0 + back1).skip(1) =~= back1);
    assert(optional_instant(date_text(v.pub_date)) == Ok::<_, Failure>(v.pub_date));
    assert(draft10.with_dates(v.pub_date) == v);
    assert(fold_leaves(back1, draft0, item_apply()) == Ok::<_, Failure>((draft10, rest)));
}

/// In a channel, the elements written for an item add that item.
proof fn lemma_channel_item(v: ItemModel, rest: Seq<Token>, d: ChannelDraft)
    requires
        item_writable(v),
    ensures
        channel_children(item_tokens(v) + rest, d) == channel_children(
            rest,
            ChannelDraft { items: Some(pushed(d.items, v)), ..d },
        ),
{
    lemma_containers();
    lemma_item_read(v, rest);
}

/// In a channel, the elements written for a list of items add these items.
proof fn lemma_channel_items(list: Seq<ItemModel>, rest: Seq<Token>, d: ChannelDraft)
    requires
        forall|i: int| 0 <= i < list.len() ==> item_writable(#[trigger] list[i]),
    ensures
        channel_children(items_tokens(list) + rest, d) == channel_children(
            rest,
            ChannelDraft { items: extended(d.items, list), ..d },
        ),
    decreases list.len(),
{
    if list.len() == 0 {
        assert(items_tokens(list) + rest =~= rest);
    } else {
        let init = list.drop_last();
        let v = list.last();
        assert forall|i: int| 0 <= i < init.len() implies item_writable(#[trigger] init[i]) by {
            assert(init[i] == list[i]);
        }
        lemma_join(items_tokens(init), item_tokens(v), rest);
        lemma_channel_items(init, item_tokens(v) + rest, d);
        lemma_channel_item(v, rest, ChannelDraft { items: extended(d.items, init), ..d });
    }
}

/// In a channel, the element written for `title` sets that field.
proof fn lemma_channel_title(value: Seq<char>, rest: Seq<Token>, d: ChannelDraft)
    ensures
        channel_children(plain("title"@, value) + rest, d) == channel_children(
            rest,
            ChannelDraft { title: value, ..d },
        ),
{
    lemma_containers();
    lemma_channel_leaf("title"@, Seq::empty(), value, rest, d);
    lemma_channel_leaf_values(d, Seq::empty(), value);
}

/// In a channel, the element written for `link` sets that field.
proof fn lemma_channel_link(value: Seq<char>, rest: Seq<Token>, d: ChannelDraft)
    ensures
        channel_children(plain("link"@, value) + rest, d) == channel_children(
            rest,
            ChannelDraft { link: value, ..d },
        ),
{
    lemma_containers();
    lemma_channel_leaf("link"@, Seq::empty(), value, rest, d);
    lemma_channel_leaf_values(d, Seq::empty(), value);
}

/// In a channel, the element written for `description` sets that field.
proof fn lemma_channel_description(value: Seq<char>, rest: Seq<Token>, d: ChannelDraft)
    ensures
        channel_children(plain("description"@, value) + rest, d) == channel_children(
            rest,
            ChannelDraft { description: value, ..d },
        ),
{
    lemma_containers();
    lemma_channel_leaf("description"@, Seq::empty(), value, rest, d);
    lemma_channel_leaf_values(d, Seq::empty(), value);
}

/// In a channel, the element written for `language` sets that field.
proof fn lemma_channel_language(value: Option<Seq<char>>, rest: Seq<Token>, d: ChannelDraft)
    requires
        d.language is None,
    ensures
        channel_children(optional("language"@, value) + rest, d) == channel_children(
            rest,
            ChannelDraft { language: value, ..d },
        ),
{
    lemma_containers();
    lemma_channel_optional("language"@, value, rest, d);
    if let Some(text) = value {
        lemma_channel_leaf_values(d, Seq::empty(), text);
    }
}

/// In a channel, the element written for `copyright` sets that field.
proof fn lemma_channel_copyright(value: Option<Seq<char>>, rest: Seq<Token>, d: ChannelDraft)
    requires
        d.copyright is None,
    ensures
        channel_children(optional("copyright"@, value) + rest, d) == channel_children(
            rest,
            ChannelDraft { copyright: value, ..d },
        ),
{
    lemma_containers();
    lemma_channel_optional("copyright"@, value, rest, d);
    if let Some(text) = value {
        lemma_channel_leaf_values(d, Seq::empty(), text);
    }
}

/// In a channel, the element written for `managingEditor` sets that field.
proof fn lemma_channel_managing_editor(value: Option<Seq<char>>, rest: Seq<Token>, d: ChannelDraft)
    requires
        d.managing_editor is None,
    ensures
        channel_children(optional("managingEditor"@, value) + rest, d) == channel_children(
            rest,
            ChannelDraft { managing_editor: value, ..d },
        ),
{
    lemma_containers();
    lemma_channel_optional("managingEditor"@, value, rest, d);
    if let Some(text) = value {
        lemma_channel_leaf_values(d, Seq::empty(), text);
    }
}

/// In a channel, the element written for `webMaster` sets that field.
proof fn lemma_channel_web_master(value: Option<Seq<char>>, rest: Seq<Token>, d: ChannelDraft)
    requires
        d.web_master is None,
    ensures
        channel_children(optional("webMaster"@, value) + rest, d) == channel_children(
            rest,
            ChannelDraft { web_master: value, ..d },
        ),
{
    lemma_containers();
    lemma_channel_optional("webMaster"@, value, rest, d);
    if let Some(text) = value {
        lemma_channel_leaf_values(d, Seq::empty(), text);
    }
}

/// In a channel, the element written for `pubDate` sets that field.
proof fn lemma_channel_pub_date(value: Option<Seq<char>>, rest: Seq<Token>, d: ChannelDraft)
    requires
        d.pub_date is None,
    ensures
        channel_children(optional("pubDate"@, value) + rest, d) == channel_children(
            rest,
            ChannelDraft { pub_date: value, ..d },
        ),
{
    lemma_containers();
    lemma_channel_optional("pubDate"@, value, rest, d);
    if let Some(text) = value {
        lemma_channel_leaf_values(d, Seq::empty(), text);
    }
}

/// In a channel, the element written for `lastBuildDate` sets that field.
proof fn lemma_channel_last_build_date(value: Option<Seq<char>>, rest: Seq<Token>, d: ChannelDraft)
    requires
        d.last_build_date is None,
    ensures
        channel_children(optional("lastBuildDate"@, value) + rest, d) == channel_children(
            rest,
            ChannelDraft { last_build_date: value, ..d },
        ),
{
    lemma_containers();
    lemma_channel_optional("lastBuildDate"@, value, rest, d);
    if let Some(text) = value {
        lemma_channel_leaf_values(d, Seq::empty(), text);
    }
}

/// In a channel, the element written for `generator` sets that field.
proof fn lemma_channel_generator(value: Option<Seq<char>>, rest: Seq<Token>, d: ChannelDraft)
    requires
        d.generator is None,
    ensures
        channel_children(optional("generator"@, value) + rest, d) == channel_children(
            rest,
            ChannelDraft { generator: value, ..d },
        ),
{
    lemma_containers();
    lemma_channel_optional("generator"@, value, rest, d);
    if let Some(text) = value {
        lemma_channel_leaf_values(d, Seq::empty(), text);
    }
}

/// In a channel, the element written for `docs` sets that field.
proof fn lemma_channel_docs(value: Option<Seq<char>>, rest: Seq<Token>, d: ChannelDraft)
    requires
        d.docs is None,
    ensures
        channel_children(optional("docs"@, value) + rest, d) == channel_children(
            rest,
            ChannelDraft { docs: value, ..d },
        ),
{
    lemma_containers();
    lemma_channel_optional("docs"@, value, rest, d);
    if let Some(text) = value {
        lemma_channel_leaf_values(d, Seq::empty(), text);
    }
}

/// In a channel, the element written for `rating` sets that field.
proof fn lemma_channel_rating(value: Option<Seq<char>>, rest: Seq<Token>, d: ChannelDraft)
    requires
        d.rating is None,
    ensures
        channel_children(optional("rating"@, value) + rest, d) == channel_children(
            rest,
            ChannelDraft { rating: value, ..d },
        ),
{
    lemma_containers();
    lemma_channel_optional("rating"@, value, rest, d);
    if let Some(text) = value {
        lemma_channel_leaf_values(d, Seq::empty(), text);
    }
}

/// In a channel, the element written for `ttl` sets that field.
proof fn lemma_channel_ttl(value: Option<i64>, rest: Seq<Token>, d: ChannelDraft)
    requires
        d.ttl is None,
    ensures
        channel_children(optional("ttl"@, number_text(value)) + rest, d) == channel_children(
            rest,
            ChannelDraft { ttl: value, ..d },
        ),
{
    lemma_containers();
    lemma_channel_optional("ttl"@, number_text(value), rest, d);
    if let Some(n) = value {
        lemma_channel_leaf_values(d, Seq::empty(), decimal_text(n as int));
        lemma_parse_i64_of_text(n);
    }
}

/// In a channel, the elements written for its categories set that field.
proof fn lemma_channel_category_list(value: Option<Seq<CategoryModel>>, rest: Seq<Token>, d: ChannelDraft)
    requires
        d.categories is None,
        value matches Some(l) ==> l.len() > 0,
    ensures
        channel_children(optional_categories(value) + rest, d) == channel_children(
            rest,
            ChannelDraft { categories: value, ..d },
        ),
{
    if let Some(l) = value {
        lemma_channel_categories(l, rest, d);
        lemma_extended_from_none(l);
    } else {
        assert(optional_categories(value) + rest =~= rest);
    }
}

/// In a channel, the elements written for its items set that field.
proof fn lemma_channel_item_list(value: Option<Seq<ItemModel>>, rest: Seq<Token>, d: ChannelDraft)
    requires
        d.items is None,
        value matches Some(l) ==> l.len() > 0 && forall|i: int|
            0 <= i < l.len() ==> item_writable(#[trigger] l[i]),
    ensures
        channel_children(optional_items(value) + rest, d) == channel_children(
            rest,
            ChannelDraft { items: value, ..d },
        ),
{
    if let Some(l) = value {
        lemma_channel_items(l, rest, d);
        lemma_extended_from_none(l);
    } else {
        assert(optional_items(value) + rest =~= rest);
    }
}

/// In a channel, the element written for its cloud sets that field.
proof fn lemma_channel_cloud(value: Option<CloudModel>, rest: Seq<Token>, d: ChannelDraft)
    requires
        d.cloud is None,
    ensures
        channel_children(cloud_tokens(value) + rest, d) == channel_children(
            rest,
            ChannelDraft { cloud: value, ..d },
        ),
{
    if let Some(c) = value {
        lemma_containers();
        lemma_channel_bare("cloud"@, cloud_attributes(c), rest, d);
        lemma_channel_leaf_values(d, cloud_attributes(c), Seq::empty());
        lemma_cloud_read(c);
    } else {
        assert(cloud_tokens(value) + rest =~= rest);
    }
}

/// In a channel, the elements written for `image` set that field.
proof fn lemma_channel_image(value: Option<ImageModel>, rest: Seq<Token>, d: ChannelDraft)
    requires
        d.image is None,
    ensures
        channel_children(image_tokens(value) + rest, d) == channel_children(
            rest,
            ChannelDraft { image: value, ..d },
        ),
{
    if let Some(v) = value {
        lemma_containers();
        lemma_name_codes();
        lemma_image_read(v, rest);
    } else {
        assert(image_tokens(value) + rest =~= rest);
    }
}

/// In a channel, the elements written for `textInput` set that field.
proof fn lemma_channel_text_input(value: Option<TextInputModel>, rest: Seq<Token>, d: ChannelDraft)
    requires
        d.text_input is None,
    ensures
        channel_children(text_input_tokens(value) + rest, d) == channel_children(
            rest,
            ChannelDraft { text_input: value, ..d },
        ),
{
    if let Some(v) = value {
        lemma_containers();
        lemma_name_codes();
        lemma_text_input_read(v, rest);
    } else {
        assert(text_input_tokens(value) + rest =~= rest);
    }
}

/// In a channel, the elements written for `skipHours` set that field.
proof fn lemma_channel_skip_hours(value: Option<Seq<i64>>, rest: Seq<Token>, d: ChannelDraft)
    requires
        d.skip_hours is None,
    ensures
        channel_children(skip_hours_tokens(value) + rest, d) == channel_children(
            rest,
            ChannelDraft { skip_hours: value, ..d },
        ),
{
    if let Some(v) = value {
        lemma_containers();
        lemma_name_codes();
        lemma_skip_hours_read(v, rest);
    } else {
        assert(skip_hours_tokens(value) + rest =~= rest);
    }
}

/// In a channel, the elements written for `skipDays` set that field.
proof fn lemma_channel_skip_days(value: Option<Seq<Seq<char>>>, rest: Seq<Token>, d: ChannelDraft)
    requires
        d.skip_days is None,
    ensures
        channel_children(skip_days_tokens(value) + rest, d) == channel_children(
            rest,
            ChannelDraft { skip_days: value, ..d },
        ),
{
    if let Some(v) = value {
        lemma_containers();
        lemma_name_codes();
        lemma_skip_days_read(v, rest);
    } else {
        assert(skip_days_tokens(value) + rest =~= rest);
    }
}

/// The fields of the builder that reading the elements of a channel ends with.
pub open spec fn draft_of(c: ChannelModel) -> ChannelDraft {
    ChannelDraft {
        title: c.title,
        link: c.link,
        description: c.description,
        language: c.language,
        copyright: c.copyright,
        managing_editor: c.managing_editor,
        web_master: c.web_master,
        pub_date: date_text(c.pub_date),
        last_build_date: date_text(c.last_build_date),
        categories: c.categories,
        generator: c.generator,
        docs: c.docs,
        cloud: c.cloud,
        ttl: c.ttl,
        image: c.image,
        rating: c.rating,
        text_input: c.text_input,
        skip_hours: c.skip_hours,
        skip_days: c.skip_days,
        items: c.items,
    }
}

/// Reading the elements written for a channel sets every field of the builder.
#[verifier::rlimit(50)]
proof fn lemma_channel_read(c: ChannelModel, rest: Seq<Token>)
    requires
        channel_writable(c),
    ensures
        channel_children(channel_tokens(c) + rest, ChannelDraft::unset()) == channel_children(
            rest,
            draft_of(c),
        ),
{
    let back21 = rest;
    let back20 = optional_items(c.items) + back21;
    let back19 = skip_days_tokens(c.skip_days) + back20;
    let back18 = skip_hours_tokens(c.skip_hours) + back19;
    let back17 = text_input_tokens(c.text_input) + back18;
    let back16 = optional("rating"@, c.rating) + back17;
    let back15 = image_tokens(c.image) + back16;
    let back14 = optional("ttl"@, number_text(c.ttl)) + back15;
    let back13 = cloud_tokens(c.cloud) + back14;
    let back12 = optional("docs"@, c.docs) + back13;
    let back11 = optional("generator"@, c.generator) + back12;
    let back10 = optional_categories(c.categories) + back11;
    let back9 = optional("lastBuildDate"@, date_text(c.last_build_date)) + back10;
    let back8 = optional("pubDate"@, date_text(c.pub_date)) + back9;
    let back7 = optional("webMaster"@, c.web_master) + back8;
    let back6 = optional("managingEditor"@, c.managing_editor) + back7;
    let back5 = optional("copyright"@, c.copyright) + back6;
    let back4 = optional("language"@, c.language) + back5;
    let back3 = plain("description"@, c.description) + back4;
    let back2 = plain("link"@, c.link) + back3;
    let back1 = plain("title"@, c.title) + back2;
    let front1 = plain("title"@, c.title);
    let front2 = front1 + plain("link"@, c.link);
    let front3 = front2 + plain("description"@, c.description);
    let front4 = front3 + optional("language"@, c.language);
    let front5 = front4 + optional("copyright"@, c.copyright);
    let front6 = front5 + optional("managingEditor"@, c.managing_editor);
    let front7 = front6 + optional("webMaster"@, c.web_master);
    let front8 = front7 + optional("pubDate"@, date_text(c.pub_date));
    let front9 = front8 + optional("lastBuildDate"@, date_text(c.last_build_date));
    let front10 = front9 + optional_categories(c.categories);
    let front11 = front10 + optional("generator"@, c.generator);
    let front12 = front11 + optional("docs"@, c.docs);
    let front13 = front12 + cloud_tokens(c.cloud);
    let front14 = front13 + optional("ttl"@, number_text(c.ttl));
    let front15 = front14 + image_tokens(c.image);
    let front16 = front15 + optional("rating"@, c.rating);
    let front17 = front16 + text_input_tokens(c.text_input);
    let front18 = front17 + skip_hours_tokens(c.skip_hours);
    let front19 = front18 + skip_days_tokens(c.skip_days);
    let front20 = front19 + optional_items(c.items);
    lemma_join(front19, optional_items(c.items), back21);
    lemma_join(front18, skip_days_tokens(c.skip_days), back20);
    lemma_join(front17, skip_hours_tokens(c.skip_hours), back19);
    lemma_join(front16, text_input_tokens(c.text_input), back18);
    lemma_join(front15, optional("rating"@, c.rating), back17);
    lemma_join(front14, image_tokens(c.image), back16);
    lemma_join(front13, optional("ttl"@, number_text(c.ttl)), back15);
    lemma_join(front12, cloud_tokens(c.cloud), back14);
    lemma_join(front11, optional("docs"@, c.docs), back13);
    lemma_join(front10, optional("generator"@, c.generator), back12);
    lemma_join(front9, optional_categories(c.categories), back11);
    lemma_join(front8, optional("lastBuildDate"@, date_text(c.last_build_date)), back10);
    lemma_join(front7, optional("pubDate"@, date_text(c.pub_date)), back9);
    lemma_join(front6, optional("webMaster"@, c.web_master), back8);
    lemma_join(front5, optional("managingEditor"@, c.managing_editor), back7);
    lemma_join(front4, optional("copyright"@, c.copyright), back6);
    lemma_join(front3, optional("language"@, c.language), back5);
    lemma_join(front2, plain("description"@, c.description), back4);
    lemma_join(front1, plain("link"@, c.link), back3);
    assert(channel_tokens(c) + rest == back1);
    let draft0 = ChannelDraft::unset();
    lemma_channel_title(c.title, back2, draft0);
    let draft1 = ChannelDraft { title: c.title, ..draft0 };
    lemma_channel_link(c.link, back3, draft1);
    let draft2 = ChannelDraft { link: c.link, ..draft1 };
    lemma_channel_description(c.description, back4, draft2);
    let draft3 = ChannelDraft { description: c.description, ..draft2 };
    lemma_channel_language(c.language, back5, draft3);
    let draft4 = ChannelDraft { language: c.language, ..draft3 };
    lemma_channel_copyright(c.copyright, back6, draft4);
    let draft5 = ChannelDraft { copyright: c.copyright, ..draft4 };
    lemma_channel_managing_editor(c.managing_editor, back7, draft5);
    let draft6 = ChannelDraft { managing_editor: c.managing_editor, ..draft5 };
    lemma_channel_web_master(c.web_master, back8, draft6);
    let draft7 = ChannelDraft { web_master: c.web_master, ..draft6 };
    lemma_channel_pub_date(date_text(c.pub_date), back9, draft7);
    let draft8 = ChannelDraft { pub_date: date_text(c.pub_date), ..draft7 };
    lemma_channel_last_build_date(date_text(c.last_build_date), back10, draft8);
    let draft9 = ChannelDraft { last_build_date: date_text(c.last_build_date), ..draft8 };
    lemma_channel_category_list(c.categories, back11, draft9);
    let draft10 = ChannelDraft { categories: c.categories, ..draft9 };
    lemma_channel_generator(c.generator, back12, draft10);
    let draft11 = ChannelDraft { generator: c.generator, ..draft10 };
    lemma_channel_docs(c.docs, back13, draft11);
    let draft12 = ChannelDraft { docs: c.docs, ..draft11 };
    lemma_channel_cloud(c.cloud, back14, draft12);
    let draft13 = ChannelDraft { cloud: c.cloud, ..draft12 };
    lemma_channel_ttl(c.ttl, back15, draft13);
    let draft14 = ChannelDraft { ttl: c.ttl, ..draft13 };
    lemma_channel_image(c.image, back16, draft14);
    let draft15 = ChannelDraft { image: c.image, ..draft14 };
    lemma_channel_rating(c.rating, back17, draft15);
    let draft16 = ChannelDraft { rating: c.rating, ..draft15 };
    lemma_channel_text_input(c.text_input, back18, draft16);
    let draft17 = ChannelDraft { text_input: c.text_input, ..draft16 };
    lemma_channel_skip_hours(c.skip_hours, back19, draft17);
    let draft18 = ChannelDraft { skip_hours: c.skip_hours, ..draft17 };
    lemma_channel_skip_days(c.skip_days, back20, draft18);
    let draft19 = ChannelDraft { skip_days: c.skip_days, ..draft18 };
    lemma_channel_item_list(c.items, back21, draft19);
    let draft20 = ChannelDraft { items: c.items, ..draft19 };
    assert(draft20 == draft_of(c));
}

/// Reading the tokens that are written for a channel gives the channel
/// back, for every channel that can be read back: one whose dates chrono
/// reads back from the texts it writes for them, whose lists of categories
/// and of items, where they are there, are not empty, and whose items have a
/// title or a description.
pub proof fn lemma_tokens_round_trip(c: ChannelModel)
    ensures
        channel_writable(c) ==> document_channel(document_tokens(c)) == Ok::<_, Failure>(c),
{
    if channel_writable(c) {
        let rss = seq![Token::Open { name: "rss"@, attributes: seq![("version"@, "2.0"@)] }];
        let tail = close("channel"@) + close("rss"@);
        let tokens = document_tokens(c);
        lemma_join(rss + open("channel"@) + channel_tokens(c), close("channel"@), close("rss"@));
        lemma_join(rss + open("channel"@), channel_tokens(c), tail);
        lemma_join(rss, open("channel"@), channel_tokens(c) + tail);
        let in_rss = open("channel"@) + (channel_tokens(c) + tail);
        let in_channel = channel_tokens(c) + tail;
        assert(tokens == rss + in_rss);
        assert(tokens[0] == rss[0]);
        assert(tokens.skip(1) =~= in_rss);
        assert(find_element(tokens, "rss"@) == Some(in_rss));
        assert(in_rss.skip(1) =~= in_channel);
        assert(find_element(in_rss, "channel"@) == Some(in_channel));
        lemma_channel_read(c, tail);
        lemma_channel_close("channel"@, close("rss"@), draft_of(c));
        assert(optional_instant(date_text(c.pub_date)) == Ok::<_, Failure>(c.pub_date));
        assert(optional_instant(date_text(c.last_build_date)) == Ok::<_, Failure>(
            c.last_build_date,
        ));
        assert(draft_of(c).with_dates(c.pub_date, c.last_build_date) == c);
    }
}

/// A text reads as the channel that it was written for, wherever its
/// tokens are those that were written for the channel, up to how text is
/// cut into pieces. That the reader cuts the written text into these tokens
/// is not proved here: it is left to the reader.
pub proof fn lemma_text_round_trip(c: ChannelModel, text: Seq<char>)
    ensures
        channel_writable(c) && (text_tokens(text) matches Some(read) && joined(read) == joined(
            document_tokens(c),
        )) ==> decoded(text) == Ok::<_, Failure>(c),
{
    if let Some(read) = text_tokens(text) {
        lemma_cuts_do_not_count(read, document_tokens(c));
        lemma_tokens_round_trip(c);
    }
}

} // verus!
