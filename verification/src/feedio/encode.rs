//! From a channel to the tokens of its RSS document.
//!
//! The document is an `rss` element of version 2.0 with the `channel`
//! element in it. The channel's fields follow in a fixed order; a field that
//! is absent leaves no element, and one that is there leaves exactly one, a
//! list one for each of its members.

use vstd::prelude::*;
use crate::feedio::token::{Token, XmlToken};
use crate::rss::category::{Category, CategoryModel};
use crate::rss::channel::{Channel, ChannelModel};
use crate::rss::cloud::{Cloud, CloudModel};
use crate::rss::enclosure::{Enclosure, EnclosureModel};
use crate::rss::guid::{Guid, GuidModel};
use crate::rss::image::{Image, ImageModel};
use crate::rss::item_builder::{Item, ItemModel};
use crate::rss::source::{Source, SourceModel};
use crate::rss::text_input::{TextInput, TextInputModel};
use crate::util::date::{date_text, optional_date_text};
use crate::util::decimal::{
    bool_text, decimal_text, format_bool, format_i64, format_u64, number_text,
    optional_number_text,
};
use crate::util::text::text_of;

verus! {

/// An element with attributes and text: its start tag, the text, its end tag.
pub open spec fn leaf(
    name: Seq<char>,
    attributes: Seq<(Seq<char>, Seq<char>)>,
    text: Seq<char>,
) -> Seq<Token> {
    seq![Token::Open { name, attributes }, Token::Text { text }, Token::Close { name }]
}

/// An element with text only.
pub open spec fn plain(name: Seq<char>, text: Seq<char>) -> Seq<Token> {
    leaf(name, Seq::empty(), text)
}

/// An element with attributes only: its start tag and its end tag.
pub open spec fn bare(name: Seq<char>, attributes: Seq<(Seq<char>, Seq<char>)>) -> Seq<Token> {
    seq![Token::Open { name, attributes }, Token::Close { name }]
}

/// An element with text only for a field that is there, nothing for one that is absent.
pub open spec fn optional(name: Seq<char>, value: Option<Seq<char>>) -> Seq<Token> {
    match value {
        Some(v) => plain(name, v),
        None => Seq::empty(),
    }
}

pub open spec fn open(name: Seq<char>) -> Seq<Token> {
    seq![Token::Open { name, attributes: Seq::empty() }]
}

pub open spec fn close(name: Seq<char>) -> Seq<Token> {
    seq![Token::Close { name }]
}

pub open spec fn category_attributes(category: CategoryModel) -> Seq<(Seq<char>, Seq<char>)> {
    match category.domain {
        Some(d) => seq![("domain"@, d)],
        None => Seq::empty(),
    }
}

pub open spec fn category_tokens(category: CategoryModel) -> Seq<Token> {
    leaf("category"@, category_attributes(category), category.category)
}

pub open spec fn categories_tokens(list: Seq<CategoryModel>) -> Seq<Token>
    decreases list.len(),
{
    if list.len() == 0 {
        Seq::empty()
    } else {
        categories_tokens(list.drop_last()) + category_tokens(list.last())
    }
}

pub open spec fn optional_categories(list: Option<Seq<CategoryModel>>) -> Seq<Token> {
    match list {
        Some(l) => categories_tokens(l),
        None => Seq::empty(),
    }
}

pub open spec fn cloud_attributes(cloud: CloudModel) -> Seq<(Seq<char>, Seq<char>)> {
    seq![
        ("domain"@, cloud.domain),
        ("port"@, decimal_text(cloud.port as int)),
        ("path"@, cloud.path),
        ("registerProcedure"@, cloud.register_procedure),
        ("protocol"@, cloud.protocol),
    ]
}

pub open spec fn cloud_tokens(cloud: Option<CloudModel>) -> Seq<Token> {
    match cloud {
        Some(c) => bare("cloud"@, cloud_attributes(c)),
        None => Seq::empty(),
    }
}

pub open spec fn enclosure_attributes(enclosure: EnclosureModel) -> Seq<(Seq<char>, Seq<char>)> {
    seq![
        ("url"@, enclosure.url),
        ("length"@, decimal_text(enclosure.length as int)),
        ("type"@, enclosure.enclosure_type),
    ]
}

pub open spec fn enclosure_tokens(enclosure: Option<EnclosureModel>) -> Seq<Token> {
    match enclosure {
        Some(e) => bare("enclosure"@, enclosure_attributes(e)),
        None => Seq::empty(),
    }
}

pub open spec fn guid_tokens(guid: Option<GuidModel>) -> Seq<Token> {
    match guid {
        Some(g) => leaf("guid"@, seq![("isPermaLink"@, bool_text(g.permalink))], g.guid),
        None => Seq::empty(),
    }
}

pub open spec fn source_tokens(source: Option<SourceModel>) -> Seq<Token> {
    match source {
        Some(s) => leaf("source"@, seq![("url"@, s.url)], s.source),
        None => Seq::empty(),
    }
}

pub open spec fn image_tokens(image: Option<ImageModel>) -> Seq<Token> {
    match image {
        Some(i) => open("image"@) + plain("url"@, i.url) + plain("title"@, i.title) + plain(
            "link"@,
            i.link,
        ) + plain("width"@, decimal_text(i.width as int)) + plain(
            "height"@,
            decimal_text(i.height as int),
        ) + optional("description"@, i.description) + close("image"@),
        None => Seq::empty(),
    }
}

pub open spec fn text_input_tokens(text_input: Option<TextInputModel>) -> Seq<Token> {
    match text_input {
        Some(t) => open("textInput"@) + plain("title"@, t.title) + plain(
            "description"@,
            t.description,
        ) + plain("name"@, t.name) + plain("link"@, t.link) + close("textInput"@),
        None => Seq::empty(),
    }
}

pub open spec fn hours_tokens(list: Seq<i64>) -> Seq<Token>
    decreases list.len(),
{
    if list.len() == 0 {
        Seq::empty()
    } else {
        hours_tokens(list.drop_last()) + plain("hour"@, decimal_text(list.last() as int))
    }
}

pub open spec fn skip_hours_tokens(list: Option<Seq<i64>>) -> Seq<Token> {
    match list {
        Some(l) => open("skipHours"@) + hours_tokens(l) + close("skipHours"@),
        None => Seq::empty(),
    }
}

pub open spec fn days_tokens(list: Seq<Seq<char>>) -> Seq<Token>
    decreases list.len(),
{
    if list.len() == 0 {
        Seq::empty()
    } else {
        days_tokens(list.drop_last()) + plain("day"@, list.last())
    }
}

pub open spec fn skip_days_tokens(list: Option<Seq<Seq<char>>>) -> Seq<Token> {
    match list {
        Some(l) => open("skipDays"@) + days_tokens(l) + close("skipDays"@),
        None => Seq::empty(),
    }
}

pub open spec fn item_tokens(item: ItemModel) -> Seq<Token> {
    open("item"@) + optional("title"@, item.title) + optional("link"@, item.link) + optional(
        "description"@,
        item.description,
    ) + optional("author"@, item.author) + optional_categories(item.categories) + optional(
        "comments"@,
        item.comments,
    ) + enclosure_tokens(item.enclosure) + guid_tokens(item.guid) + optional(
        "pubDate"@,
        date_text(item.pub_date),
    ) + source_tokens(item.source) + close("item"@)
}

pub open spec fn items_tokens(list: Seq<ItemModel>) -> Seq<Token>
    decreases list.len(),
{
    if list.len() == 0 {
        Seq::empty()
    } else {
        items_tokens(list.drop_last()) + item_tokens(list.last())
    }
}

pub open spec fn optional_items(list: Option<Seq<ItemModel>>) -> Seq<Token> {
    match list {
        Some(l) => items_tokens(l),
        None => Seq::empty(),
    }
}

/// The elements of the channel, in their fixed order.
pub open spec fn channel_tokens(channel: ChannelModel) -> Seq<Token> {
    plain("title"@, channel.title) + plain("link"@, channel.link) + plain(
        "description"@,
        channel.description,
    ) + optional("language"@, channel.language) + optional("copyright"@, channel.copyright)
        + optional("managingEditor"@, channel.managing_editor) + optional(
        "webMaster"@,
        channel.web_master,
    ) + optional("pubDate"@, date_text(channel.pub_date)) + optional(
        "lastBuildDate"@,
        date_text(channel.last_build_date),
    ) + optional_categories(channel.categories) + optional("generator"@, channel.generator)
        + optional("docs"@, channel.docs) + cloud_tokens(channel.cloud) + optional(
        "ttl"@,
        number_text(channel.ttl),
    ) + image_tokens(channel.image) + optional("rating"@, channel.rating) + text_input_tokens(
        channel.text_input,
    ) + skip_hours_tokens(channel.skip_hours) + skip_days_tokens(channel.skip_days)
        + optional_items(channel.items)
}

/// The tokens of the document of a channel.
pub open spec fn document_tokens(channel: ChannelModel) -> Seq<Token> {
    seq![Token::Open { name: "rss"@, attributes: seq![("version"@, "2.0"@)] }] + open("channel"@)
        + channel_tokens(channel) + close("channel"@) + close("rss"@)
}

/// Joining three runs of tokens gives the same, whichever two are joined first.
pub proof fn lemma_join(a: Seq<Token>, b: Seq<Token>, c: Seq<Token>)
    ensures
        (a + b) + c == a + (b + c),
{
    assert((a + b) + c =~= a + (b + c));
}

fn push_token(out: &mut Vec<XmlToken>, token: XmlToken)
    ensures
        final(out).deep_view() == old(out).deep_view().push(token.deep_view()),
{
    let ghost held = out.deep_view();
    out.push(token);
    assert(out.deep_view() =~= held.push(token.deep_view()));
}

fn no_attributes() -> (r: Vec<(String, String)>)
    ensures
        r.deep_view() == Seq::<(Seq<char>, Seq<char>)>::empty(),
{
    let r: Vec<(String, String)> = Vec::new();
    assert(r.deep_view() =~= Seq::<(Seq<char>, Seq<char>)>::empty());
    r
}

fn push_attribute(attributes: &mut Vec<(String, String)>, key: &str, value: String)
    ensures
        final(attributes).deep_view() == old(attributes).deep_view().push((key@, value@)),
{
    let ghost held = attributes.deep_view();
    attributes.push((text_of(key), value));
    assert(attributes.deep_view() =~= held.push((key@, value@)));
}

fn push_open(out: &mut Vec<XmlToken>, name: &str)
    ensures
        final(out).deep_view() == old(out).deep_view() + open(name@),
{
    push_token(out, XmlToken::Open { name: text_of(name), attributes: no_attributes() });
    assert(out.deep_view() =~= old(out).deep_view() + open(name@));
}

fn push_close(out: &mut Vec<XmlToken>, name: &str)
    ensures
        final(out).deep_view() == old(out).deep_view() + close(name@),
{
    push_token(out, XmlToken::Close { name: text_of(name) });
    assert(out.deep_view() =~= old(out).deep_view() + close(name@));
}

fn push_leaf(out: &mut Vec<XmlToken>, name: &str, attributes: Vec<(String, String)>, text: String)
    ensures
        final(out).deep_view() == old(out).deep_view() + leaf(name@, attributes.deep_view(), text@),
{
    push_token(out, XmlToken::Open { name: text_of(name), attributes });
    push_token(out, XmlToken::Text { text });
    push_token(out, XmlToken::Close { name: text_of(name) });
    assert(out.deep_view() =~= old(out).deep_view() + leaf(name@, attributes.deep_view(), text@));
}

fn push_bare(out: &mut Vec<XmlToken>, name: &str, attributes: Vec<(String, String)>)
    ensures
        final(out).deep_view() == old(out).deep_view() + bare(name@, attributes.deep_view()),
{
    push_token(out, XmlToken::Open { name: text_of(name), attributes });
    push_token(out, XmlToken::Close { name: text_of(name) });
    assert(out.deep_view() =~= old(out).deep_view() + bare(name@, attributes.deep_view()));
}

fn push_plain(out: &mut Vec<XmlToken>, name: &str, text: String)
    ensures
        final(out).deep_view() == old(out).deep_view() + plain(name@, text@),
{
    push_leaf(out, name, no_attributes(), text);
}

fn push_optional(out: &mut Vec<XmlToken>, name: &str, value: Option<String>)
    ensures
        final(out).deep_view() == old(out).deep_view() + optional(name@, value.deep_view()),
{
    match value {
        Some(v) => {
            push_plain(out, name, v);
        },
        None => {
            assert(out.deep_view() =~= old(out).deep_view() + Seq::<Token>::empty());
        },
    }
}

fn push_category(out: &mut Vec<XmlToken>, category: &Category)
    ensures
        final(out).deep_view() == old(out).deep_view() + category_tokens(category@),
{
    let mut attributes = no_attributes();
    match category.domain() {
        Some(d) => {
            push_attribute(&mut attributes, "domain", d);
            assert(attributes.deep_view() =~= category_attributes(category@));
        },
        None => {},
    }
    push_leaf(out, "category", attributes, category.category());
}

fn push_categories(out: &mut Vec<XmlToken>, categories: Option<Vec<Category>>)
    ensures
        final(out).deep_view() == old(out).deep_view() + optional_categories(
            categories.deep_view(),
        ),
{
    match categories {
        Some(list) => {
            let ghost all = list.deep_view();
            let mut i: usize = 0;
            assert(all.take(0) =~= Seq::<CategoryModel>::empty());
            assert(out.deep_view() =~= old(out).deep_view() + Seq::<Token>::empty());
            while i < list.len()
                invariant
                    i <= list.len(),
                    all == list.deep_view(),
                    out.deep_view() == old(out).deep_view() + categories_tokens(all.take(i as int)),
                decreases list.len() - i,
            {
                assert(all.take(i + 1).drop_last() =~= all.take(i as int));
                assert(all.take(i + 1).last() == list[i as int]@);
                push_category(out, &list[i]);
                assert(out.deep_view() =~= old(out).deep_view() + categories_tokens(
                    all.take(i + 1),
                ));
                i += 1;
            }
            assert(all.take(i as int) =~= all);
        },
        None => {
            assert(out.deep_view() =~= old(out).deep_view() + Seq::<Token>::empty());
        },
    }
}

fn push_cloud(out: &mut Vec<XmlToken>, cloud: Option<Cloud>)
    ensures
        final(out).deep_view() == old(out).deep_view() + cloud_tokens(cloud.deep_view()),
{
    match cloud {
        Some(c) => {
            let mut attributes = no_attributes();
            push_attribute(&mut attributes, "domain", c.domain());
            push_attribute(&mut attributes, "port", format_u64(c.port()));
            push_attribute(&mut attributes, "path", c.path());
            push_attribute(&mut attributes, "registerProcedure", c.register_procedure());
            push_attribute(&mut attributes, "protocol", c.protocol());
            assert(attributes.deep_view() =~= cloud_attributes(c@));
            push_bare(out, "cloud", attributes);
        },
        None => {
            assert(out.deep_view() =~= old(out).deep_view() + Seq::<Token>::empty());
        },
    }
}

fn push_enclosure(out: &mut Vec<XmlToken>, enclosure: Option<Enclosure>)
    ensures
        final(out).deep_view() == old(out).deep_view() + enclosure_tokens(enclosure.deep_view()),
{
    match enclosure {
        Some(e) => {
            let mut attributes = no_attributes();
            push_attribute(&mut attributes, "url", e.url());
            push_attribute(&mut attributes, "length", format_u64(e.length()));
            push_attribute(&mut attributes, "type", e.enclosure_type());
            assert(attributes.deep_view() =~= enclosure_attributes(e@));
            push_bare(out, "enclosure", attributes);
        },
        None => {
            assert(out.deep_view() =~= old(out).deep_view() + Seq::<Token>::empty());
        },
    }
}

fn push_guid(out: &mut Vec<XmlToken>, guid: Option<Guid>)
    ensures
        final(out).deep_view() == old(out).deep_view() + guid_tokens(guid.deep_view()),
{
    match guid {
        Some(g) => {
            let mut attributes = no_attributes();
            push_attribute(&mut attributes, "isPermaLink", format_bool(g.permalink()));
            assert(attributes.deep_view() =~= seq![("isPermaLink"@, bool_text(g@.permalink))]);
            push_leaf(out, "guid", attributes, g.guid());
        },
        None => {
            assert(out.deep_view() =~= old(out).deep_view() + Seq::<Token>::empty());
        },
    }
}

fn push_source(out: &mut Vec<XmlToken>, source: Option<Source>)
    ensures
        final(out).deep_view() == old(out).deep_view() + source_tokens(source.deep_view()),
{
    match source {
        Some(s) => {
            let mut attributes = no_attributes();
            push_attribute(&mut attributes, "url", s.url());
            assert(attributes.deep_view() =~= seq![("url"@, s@.url)]);
            push_leaf(out, "source", attributes, s.source());
        },
        None => {
            assert(out.deep_view() =~= old(out).deep_view() + Seq::<Token>::empty());
        },
    }
}

fn push_image(out: &mut Vec<XmlToken>, image: Option<Image>)
    ensures
        final(out).deep_view() == old(out).deep_view() + image_tokens(image.deep_view()),
{
    match image {
        Some(i) => {
            push_open(out, "image");
            push_plain(out, "url", i.url());
            push_plain(out, "title", i.title());
            push_plain(out, "link", i.link());
            push_plain(out, "width", format_i64(i.width()));
            push_plain(out, "height", format_i64(i.height()));
            push_optional(out, "description", i.description());
            push_close(out, "image");
            assert(out.deep_view() =~= old(out).deep_view() + image_tokens(image.deep_view()));
        },
        None => {
            assert(out.deep_view() =~= old(out).deep_view() + Seq::<Token>::empty());
        },
    }
}

fn push_text_input(out: &mut Vec<XmlToken>, text_input: Option<TextInput>)
    ensures
        final(out).deep_view() == old(out).deep_view() + text_input_tokens(text_input.deep_view()),
{
    match text_input {
        Some(t) => {
            push_open(out, "textInput");
            push_plain(out, "title", t.title());
            push_plain(out, "description", t.description());
            push_plain(out, "name", t.name());
            push_plain(out, "link", t.link());
            push_close(out, "textInput");
            assert(out.deep_view() =~= old(out).deep_view() + text_input_tokens(
                text_input.deep_view(),
            ));
        },
        None => {
            assert(out.deep_view() =~= old(out).deep_view() + Seq::<Token>::empty());
        },
    }
}

fn push_skip_hours(out: &mut Vec<XmlToken>, skip_hours: Option<Vec<i64>>)
    ensures
        final(out).deep_view() == old(out).deep_view() + skip_hours_tokens(skip_hours.deep_view()),
{
    match skip_hours {
        Some(list) => {
            push_open(out, "skipHours");
            let ghost all = list.deep_view();
            let ghost begun = out.deep_view();
            let mut i: usize = 0;
            assert(all.take(0) =~= Seq::<i64>::empty());
            assert(out.deep_view() =~= begun + Seq::<Token>::empty());
            while i < list.len()
                invariant
                    i <= list.len(),
                    all == list.deep_view(),
                    out.deep_view() == begun + hours_tokens(all.take(i as int)),
                decreases list.len() - i,
            {
                assert(all.take(i + 1).drop_last() =~= all.take(i as int));
                assert(all.take(i + 1).last() == list[i as int]);
                push_plain(out, "hour", format_i64(list[i]));
                assert(out.deep_view() =~= begun + hours_tokens(all.take(i + 1)));
                i += 1;
            }
            assert(all.take(i as int) =~= all);
            push_close(out, "skipHours");
            assert(out.deep_view() =~= old(out).deep_view() + skip_hours_tokens(
                skip_hours.deep_view(),
            ));
        },
        None => {
            assert(out.deep_view() =~= old(out).deep_view() + Seq::<Token>::empty());
        },
    }
}

fn push_skip_days(out: &mut Vec<XmlToken>, skip_days: Option<Vec<String>>)
    ensures
        final(out).deep_view() == old(out).deep_view() + skip_days_tokens(skip_days.deep_view()),
{
    match skip_days {
        Some(list) => {
            push_open(out, "skipDays");
            let ghost all = list.deep_view();
            let ghost begun = out.deep_view();
            let mut i: usize = 0;
            assert(all.take(0) =~= Seq::<Seq<char>>::empty());
            assert(out.deep_view() =~= begun + Seq::<Token>::empty());
            while i < list.len()
                invariant
                    i <= list.len(),
                    all == list.deep_view(),
                    out.deep_view() == begun + days_tokens(all.take(i as int)),
                decreases list.len() - i,
            {
                assert(all.take(i + 1).drop_last() =~= all.take(i as int));
                assert(all.take(i + 1).last() == list[i as int]@);
                push_plain(out, "day", list[i].clone());
                assert(out.deep_view() =~= begun + days_tokens(all.take(i + 1)));
                i += 1;
            }
            assert(all.take(i as int) =~= all);
            push_close(out, "skipDays");
            assert(out.deep_view() =~= old(out).deep_view() + skip_days_tokens(
                skip_days.deep_view(),
            ));
        },
        None => {
            assert(out.deep_view() =~= old(out).deep_view() + Seq::<Token>::empty());
        },
    }
}

#[verifier::rlimit(50)]
fn push_item(out: &mut Vec<XmlToken>, item: &Item)
    ensures
        final(out).deep_view() == old(out).deep_view() + item_tokens(item@),
{
    let ghost base = out.deep_view();
    push_open(out, "item");
    let ghost mut done = open("item"@);
    push_optional(out, "title", item.title());
    proof {
        lemma_join(base, done, optional("title"@, item@.title));
        done = done + optional("title"@, item@.title);
    }
    push_optional(out, "link", item.link());
    proof {
        lemma_join(base, done, optional("link"@, item@.link));
        done = done + optional("link"@, item@.link);
    }
    push_optional(out, "description", item.description());
    proof {
        lemma_join(base, done, optional("description"@, item@.description));
        done = done + optional("description"@, item@.description);
    }
    push_optional(out, "author", item.author());
    proof {
        lemma_join(base, done, optional("author"@, item@.author));
        done = done + optional("author"@, item@.author);
    }
    push_categories(out, item.categories());
    proof {
        lemma_join(base, done, optional_categories(item@.categories));
        done = done + optional_categories(item@.categories);
    }
    push_optional(out, "comments", item.comments());
    proof {
        lemma_join(base, done, optional("comments"@, item@.comments));
        done = done + optional("comments"@, item@.comments);
    }
    push_enclosure(out, item.enclosure());
    proof {
        lemma_join(base, done, enclosure_tokens(item@.enclosure));
        done = done + enclosure_tokens(item@.enclosure);
    }
    push_guid(out, item.guid());
    proof {
        lemma_join(base, done, guid_tokens(item@.guid));
        done = done + guid_tokens(item@.guid);
    }
    push_optional(out, "pubDate", optional_date_text(item.pub_date()));
    proof {
        lemma_join(base, done, optional("pubDate"@, date_text(item@.pub_date)));
        done = done + optional("pubDate"@, date_text(item@.pub_date));
    }
    push_source(out, item.source());
    proof {
        lemma_join(base, done, source_tokens(item@.source));
        done = done + source_tokens(item@.source);
    }
    push_close(out, "item");
    proof {
        lemma_join(base, done, close("item"@));
        done = done + close("item"@);
    }
}

fn push_items(out: &mut Vec<XmlToken>, items: Option<Vec<Item>>)
    ensures
        final(out).deep_view() == old(out).deep_view() + optional_items(items.deep_view()),
{
    match items {
        Some(list) => {
            let ghost all = list.deep_view();
            let mut i: usize = 0;
            assert(all.take(0) =~= Seq::<ItemModel>::empty());
            assert(out.deep_view() =~= old(out).deep_view() + Seq::<Token>::empty());
            while i < list.len()
                invariant
                    i <= list.len(),
                    all == list.deep_view(),
                    out.deep_view() == old(out).deep_view() + items_tokens(all.take(i as int)),
                decreases list.len() - i,
            {
                assert(all.take(i + 1).drop_last() =~= all.take(i as int));
                assert(all.take(i + 1).last() == list[i as int]@);
                push_item(out, &list[i]);
                assert(out.deep_view() =~= old(out).deep_view() + items_tokens(all.take(i + 1)));
                i += 1;
            }
            assert(all.take(i as int) =~= all);
        },
        None => {
            assert(out.deep_view() =~= old(out).deep_view() + Seq::<Token>::empty());
        },
    }
}

#[verifier::rlimit(50)]
fn push_channel(out: &mut Vec<XmlToken>, channel: &Channel)
    ensures
        final(out).deep_view() == old(out).deep_view() + channel_tokens(channel@),
{
    let ghost base = out.deep_view();
    push_plain(out, "title", channel.title());
    let ghost mut done = plain("title"@, channel@.title);
    push_plain(out, "link", channel.link());
    proof {
        lemma_join(base, done, plain("link"@, channel@.link));
        done = done + plain("link"@, channel@.link);
    }
    push_plain(out, "description", channel.description());
    proof {
        lemma_join(base, done, plain("description"@, channel@.description));
        done = done + plain("description"@, channel@.description);
    }
    push_optional(out, "language", channel.language());
    proof {
        lemma_join(base, done, optional("language"@, channel@.language));
        done = done + optional("language"@, channel@.language);
    }
    push_optional(out, "copyright", channel.copyright());
    proof {
        lemma_join(base, done, optional("copyright"@, channel@.copyright));
        done = done + optional("copyright"@, channel@.copyright);
    }
    push_optional(out, "managingEditor", channel.managing_editor());
    proof {
        lemma_join(base, done, optional("managingEditor"@, channel@.managing_editor));
        done = done + optional("managingEditor"@, channel@.managing_editor);
    }
    push_optional(out, "webMaster", channel.web_master());
    proof {
        lemma_join(base, done, optional("webMaster"@, channel@.web_master));
        done = done + optional("webMaster"@, channel@.web_master);
    }
    push_optional(out, "pubDate", optional_date_text(channel.pub_date()));
    proof {
        lemma_join(base, done, optional("pubDate"@, date_text(channel@.pub_date)));
        done = done + optional("pubDate"@, date_text(channel@.pub_date));
    }
    push_optional(out, "lastBuildDate", optional_date_text(channel.last_build_date()));
    proof {
        lemma_join(base, done, optional("lastBuildDate"@, date_text(channel@.last_build_date)));
        done = done + optional("lastBuildDate"@, date_text(channel@.last_build_date));
    }
    push_categories(out, channel.categories());
    proof {
        lemma_join(base, done, optional_categories(channel@.categories));
        done = done + optional_categories(channel@.categories);
    }
    push_optional(out, "generator", channel.generator());
    proof {
        lemma_join(base, done, optional("generator"@, channel@.generator));
        done = done + optional("generator"@, channel@.generator);
    }
    push_optional(out, "docs", channel.docs());
    proof {
        lemma_join(base, done, optional("docs"@, channel@.docs));
        done = done + optional("docs"@, channel@.docs);
    }
    push_cloud(out, channel.cloud());
    proof {
        lemma_join(base, done, cloud_tokens(channel@.cloud));
        done = done + cloud_tokens(channel@.cloud);
    }
    push_optional(out, "ttl", optional_number_text(channel.ttl()));
    proof {
        lemma_join(base, done, optional("ttl"@, number_text(channel@.ttl)));
        done = done + optional("ttl"@, number_text(channel@.ttl));
    }
    push_image(out, channel.image());
    proof {
        lemma_join(base, done, image_tokens(channel@.image));
        done = done + image_tokens(channel@.image);
    }
    push_optional(out, "rating", channel.rating());
    proof {
        lemma_join(base, done, optional("rating"@, channel@.rating));
        done = done + optional("rating"@, channel@.rating);
    }
    push_text_input(out, channel.text_input());
    proof {
        lemma_join(base, done, text_input_tokens(channel@.text_input));
        done = done + text_input_tokens(channel@.text_input);
    }
    push_skip_hours(out, channel.skip_hours());
    proof {
        lemma_join(base, done, skip_hours_tokens(channel@.skip_hours));
        done = done + skip_hours_tokens(channel@.skip_hours);
    }
    push_skip_days(out, channel.skip_days());
    proof {
        lemma_join(base, done, skip_days_tokens(channel@.skip_days));
        done = done + skip_days_tokens(channel@.skip_days);
    }
    push_items(out, channel.items());
    proof {
        lemma_join(base, done, optional_items(channel@.items));
        done = done + optional_items(channel@.items);
    }
}

/// The tokens of the document of a channel.
pub fn encode_tokens(channel: &Channel) -> (r: Vec<XmlToken>)
    ensures
        r.deep_view() == document_tokens(channel@),
{
    let mut out: Vec<XmlToken> = Vec::new();
    assert(out.deep_view() =~= Seq::<Token>::empty());
    let mut version = no_attributes();
    push_attribute(&mut version, "version", text_of("2.0"));
    assert(version.deep_view() =~= seq![("version"@, "2.0"@)]);
    push_token(&mut out, XmlToken::Open { name: text_of("rss"), attributes: version });
    push_open(&mut out, "channel");
    push_channel(&mut out, channel);
    push_close(&mut out, "channel");
    push_close(&mut out, "rss");
    assert(out.deep_view() =~= document_tokens(channel@));
    out
}

} // verus!
