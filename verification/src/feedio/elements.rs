//! Which elements are written for a channel.
//!
//! The names of the elements that stand directly in the `channel` element
//! are listed, and the list is proved from the parts that the channel is
//! written in: each part is a run of whole elements.

use vstd::prelude::*;
use crate::feedio::encode::{
    bare, categories_tokens, category_attributes, category_tokens, channel_tokens, close,
    cloud_attributes, cloud_tokens, days_tokens, document_tokens, enclosure_attributes,
    enclosure_tokens, guid_tokens, hours_tokens, image_tokens, item_tokens, items_tokens, leaf,
    lemma_join, open, optional, optional_categories, optional_items, plain, skip_days_tokens,
    skip_hours_tokens, source_tokens, text_input_tokens,
};
use crate::feedio::token::Token;
use crate::rss::category::CategoryModel;
use crate::rss::channel::ChannelModel;
use crate::rss::cloud::CloudModel;
use crate::rss::enclosure::EnclosureModel;
use crate::rss::guid::GuidModel;
use crate::rss::image::ImageModel;
use crate::rss::item_builder::ItemModel;
use crate::rss::source::SourceModel;
use crate::rss::text_input::TextInputModel;
use crate::util::date::date_text;
use crate::util::decimal::{bool_text, decimal_text, number_text};

verus! {

/// The names of the elements that stand directly in a run of tokens, in
/// their order; the run begins `depth` elements deep in an element that does
/// not count. Elements inside other elements of the run do not count either.
pub open spec fn child_names(tokens: Seq<Token>, depth: nat) -> Seq<Seq<char>>
    decreases tokens.len(),
{
    if tokens.len() == 0 {
        Seq::empty()
    } else {
        match tokens[0] {
            Token::Open { name, .. } => (if depth == 0 {
                seq![name]
            } else {
                Seq::empty()
            }) + child_names(tokens.skip(1), depth + 1),
            Token::Close { .. } => if depth == 0 {
                Seq::empty()
            } else {
                child_names(tokens.skip(1), (depth - 1) as nat)
            },
            Token::Text { .. } => child_names(tokens.skip(1), depth),
        }
    }
}

/// Whether a run of tokens is made of whole elements and text, so that
/// what follows it stands as deep as the run itself.
pub open spec fn whole(tokens: Seq<Token>) -> bool {
    forall|rest: Seq<Token>, depth: nat| #[trigger]
        child_names(tokens + rest, depth) == (if depth == 0 {
            child_names(tokens, 0)
        } else {
            Seq::empty()
        }) + child_names(rest, depth)
}

/// The name of a field's element where the field is there, else nothing.
pub open spec fn present(name: Seq<char>, there: bool) -> Seq<Seq<char>> {
    if there {
        seq![name]
    } else {
        Seq::empty()
    }
}

/// The name of a list's element, once for each member of the list.
pub open spec fn repeated<T>(name: Seq<char>, list: Option<Seq<T>>) -> Seq<Seq<char>> {
    match list {
        Some(l) => Seq::new(l.len(), |i: int| name),
        None => Seq::empty(),
    }
}

proof fn lemma_whole_empty()
    ensures
        whole(Seq::<Token>::empty()),
        child_names(Seq::<Token>::empty(), 0) == Seq::<Seq<char>>::empty(),
{
    let none = Seq::<Token>::empty();
    assert forall|rest: Seq<Token>, depth: nat| #[trigger]
        child_names(none + rest, depth) == (if depth == 0 {
            child_names(none, 0)
        } else {
            Seq::empty()
        }) + child_names(rest, depth) by {
        assert(none + rest =~= rest);
        assert(Seq::<Seq<char>>::empty() + child_names(rest, depth) =~= child_names(rest, depth));
    }
}

proof fn lemma_whole_text(text: Seq<char>)
    ensures
        whole(seq![Token::Text { text }]),
        child_names(seq![Token::Text { text }], 0) == Seq::<Seq<char>>::empty(),
{
    let one = seq![Token::Text { text }];
    assert(one.skip(1) =~= Seq::<Token>::empty());
    assert(child_names(one, 0) == child_names(one.skip(1), 0));
    assert forall|rest: Seq<Token>, depth: nat| #[trigger]
        child_names(one + rest, depth) == (if depth == 0 {
            child_names(one, 0)
        } else {
            Seq::empty()
        }) + child_names(rest, depth) by {
        assert((one + rest).skip(1) =~= rest);
        assert(Seq::<Seq<char>>::empty() + child_names(rest, depth) =~= child_names(rest, depth));
    }
}

/// Two runs of whole elements make a run of whole elements, with the names of both.
proof fn lemma_whole_join(a: Seq<Token>, b: Seq<Token>)
    requires
        whole(a),
        whole(b),
    ensures
        whole(a + b),
        child_names(a + b, 0) == child_names(a, 0) + child_names(b, 0),
{
    let none = Seq::<Token>::empty();
    assert(b + none =~= b);
    assert(child_names(a + b, 0) == child_names(a, 0) + child_names(b, 0)) by {
        assert(child_names(b + none, 0) == child_names(b, 0) + child_names(none, 0));
        assert(child_names(b, 0) + child_names(none, 0) =~= child_names(b, 0));
    }
    assert forall|rest: Seq<Token>, depth: nat| #[trigger]
        child_names((a + b) + rest, depth) == (if depth == 0 {
            child_names(a + b, 0)
        } else {
            Seq::empty()
        }) + child_names(rest, depth) by {
        lemma_join(a, b, rest);
        let after_a = child_names(b + rest, depth);
        assert(child_names(a + (b + rest), depth) == (if depth == 0 {
            child_names(a, 0)
        } else {
            Seq::empty()
        }) + after_a);
        let tail = child_names(rest, depth);
        if depth == 0 {
            assert(child_names(a, 0) + (child_names(b, 0) + tail) =~= (child_names(a, 0)
                + child_names(b, 0)) + tail);
        } else {
            let nothing = Seq::<Seq<char>>::empty();
            assert(nothing + (nothing + tail) =~= nothing + tail);
        }
    }
}

/// A start tag, whole elements and the end tag make one whole element.
proof fn lemma_whole_wrap(
    name: Seq<char>,
    attributes: Seq<(Seq<char>, Seq<char>)>,
    inner: Seq<Token>,
)
    requires
        whole(inner),
    ensures
        whole(seq![Token::Open { name, attributes }] + inner + seq![Token::Close { name }]),
        child_names(
            seq![Token::Open { name, attributes }] + inner + seq![Token::Close { name }],
            0,
        ) == seq![name],
{
    let first = seq![Token::Open { name, attributes }];
    let last = seq![Token::Close { name }];
    let tokens = first + inner + last;
    let nothing = Seq::<Seq<char>>::empty();
    assert forall|rest: Seq<Token>, depth: nat| #[trigger]
        child_names(tokens + rest, depth) == (if depth == 0 {
            seq![name]
        } else {
            nothing
        }) + child_names(rest, depth) by {
        let all = tokens + rest;
        assert(all[0] == first[0]);
        assert(all.skip(1) =~= inner + (last + rest));
        assert(child_names(inner + (last + rest), depth + 1) == nothing + child_names(
            last + rest,
            depth + 1,
        ));
        assert((last + rest)[0] == last[0]);
        assert((last + rest).skip(1) =~= rest);
        assert(child_names(last + rest, depth + 1) == child_names(rest, depth));
        assert(nothing + child_names(rest, depth) =~= child_names(rest, depth));
    }
    assert(child_names(tokens, 0) == seq![name]) by {
        let none = Seq::<Token>::empty();
        assert(tokens + none =~= tokens);
        assert(child_names(none, 0) =~= nothing);
        assert(seq![name] + nothing =~= seq![name]);
    }
}

proof fn lemma_whole_leaf(name: Seq<char>, attributes: Seq<(Seq<char>, Seq<char>)>, text: Seq<char>)
    ensures
        whole(leaf(name, attributes, text)),
        child_names(leaf(name, attributes, text), 0) == seq![name],
{
    lemma_whole_text(text);
    lemma_whole_wrap(name, attributes, seq![Token::Text { text }]);
    assert(leaf(name, attributes, text) =~= seq![Token::Open { name, attributes }]
        + seq![Token::Text { text }] + seq![Token::Close { name }]);
}

proof fn lemma_whole_bare(name: Seq<char>, attributes: Seq<(Seq<char>, Seq<char>)>)
    ensures
        whole(bare(name, attributes)),
        child_names(bare(name, attributes), 0) == seq![name],
{
    lemma_whole_empty();
    lemma_whole_wrap(name, attributes, Seq::empty());
    assert(bare(name, attributes) =~= seq![Token::Open { name, attributes }] + Seq::<
        Token,
    >::empty() + seq![Token::Close { name }]);
}

proof fn lemma_whole_optional(name: Seq<char>, value: Option<Seq<char>>)
    ensures
        whole(optional(name, value)),
        child_names(optional(name, value), 0) == present(name, value is Some),
{
    match value {
        Some(text) => lemma_whole_leaf(name, Seq::empty(), text),
        None => lemma_whole_empty(),
    }
}

proof fn lemma_whole_categories(list: Seq<CategoryModel>)
    ensures
        whole(categories_tokens(list)),
        child_names(categories_tokens(list), 0) == repeated("category"@, Some(list)),
    decreases list.len(),
{
    if list.len() == 0 {
        lemma_whole_empty();
        assert(repeated("category"@, Some(list)) =~= Seq::<Seq<char>>::empty());
    } else {
        let init = list.drop_last();
        lemma_whole_categories(init);
        lemma_whole_leaf("category"@, category_attributes(list.last()), list.last().category);
        lemma_whole_join(categories_tokens(init), category_tokens(list.last()));
        assert(repeated("category"@, Some(init)) + seq!["category"@]
            =~= repeated("category"@, Some(list)));
    }
}

proof fn lemma_whole_hours(list: Seq<i64>)
    ensures
        whole(hours_tokens(list)),
        child_names(hours_tokens(list), 0) == repeated("hour"@, Some(list)),
    decreases list.len(),
{
    if list.len() == 0 {
        lemma_whole_empty();
        assert(repeated("hour"@, Some(list)) =~= Seq::<Seq<char>>::empty());
    } else {
        let init = list.drop_last();
        lemma_whole_hours(init);
        lemma_whole_leaf("hour"@, Seq::empty(), decimal_text(list.last() as int));
        lemma_whole_join(hours_tokens(init), plain("hour"@, decimal_text(list.last() as int)));
        assert(repeated("hour"@, Some(init)) + seq!["hour"@] =~= repeated("hour"@, Some(list)));
    }
}

proof fn lemma_whole_days(list: Seq<Seq<char>>)
    ensures
        whole(days_tokens(list)),
        child_names(days_tokens(list), 0) == repeated("day"@, Some(list)),
    decreases list.len(),
{
    if list.len() == 0 {
        lemma_whole_empty();
        assert(repeated("day"@, Some(list)) =~= Seq::<Seq<char>>::empty());
    } else {
        let init = list.drop_last();
        lemma_whole_days(init);
        lemma_whole_leaf("day"@, Seq::empty(), list.last());
        lemma_whole_join(days_tokens(init), plain("day"@, list.last()));
        assert(repeated("day"@, Some(init)) + seq!["day"@] =~= repeated("day"@, Some(list)));
    }
}

proof fn lemma_whole_optional_categories(list: Option<Seq<CategoryModel>>)
    ensures
        whole(optional_categories(list)),
        child_names(optional_categories(list), 0) == repeated("category"@, list),
{
    match list {
        Some(l) => lemma_whole_categories(l),
        None => lemma_whole_empty(),
    }
}

#[verifier::rlimit(50)]
proof fn lemma_whole_image(value: Option<ImageModel>)
    ensures
        whole(image_tokens(value)),
        child_names(image_tokens(value), 0) == present("image"@, value is Some),
{
    if let Some(v) = value {
        let inner1 = plain("url"@, v.url);
        lemma_whole_leaf("url"@, Seq::empty(), v.url);
        lemma_whole_leaf("title"@, Seq::empty(), v.title);
        lemma_whole_join(inner1, plain("title"@, v.title));
        let inner2 = inner1 + plain("title"@, v.title);
        lemma_whole_leaf("link"@, Seq::empty(), v.link);
        lemma_whole_join(inner2, plain("link"@, v.link));
        let inner3 = inner2 + plain("link"@, v.link);
        lemma_whole_leaf("width"@, Seq::empty(), decimal_text(v.width as int));
        lemma_whole_join(inner3, plain("width"@, decimal_text(v.width as int)));
        let inner4 = inner3 + plain("width"@, decimal_text(v.width as int));
        lemma_whole_leaf("height"@, Seq::empty(), decimal_text(v.height as int));
        lemma_whole_join(inner4, plain("height"@, decimal_text(v.height as int)));
        let inner5 = inner4 + plain("height"@, decimal_text(v.height as int));
        lemma_whole_optional("description"@, v.description);
        lemma_whole_join(inner5, optional("description"@, v.description));
        let inner6 = inner5 + optional("description"@, v.description);
        let front1 = open("image"@) + plain("url"@, v.url);
        lemma_join(open("image"@), inner1, plain("title"@, v.title));
        let front2 = front1 + plain("title"@, v.title);
        lemma_join(open("image"@), inner2, plain("link"@, v.link));
        let front3 = front2 + plain("link"@, v.link);
        lemma_join(open("image"@), inner3, plain("width"@, decimal_text(v.width as int)));
        let front4 = front3 + plain("width"@, decimal_text(v.width as int));
        lemma_join(open("image"@), inner4, plain("height"@, decimal_text(v.height as int)));
        let front5 = front4 + plain("height"@, decimal_text(v.height as int));
        lemma_join(open("image"@), inner5, optional("description"@, v.description));
        let front6 = front5 + optional("description"@, v.description);
        assert(front6 == open("image"@) + inner6);
        lemma_whole_wrap("image"@, Seq::empty(), inner6);
    } else {
        lemma_whole_empty();
    }
}

#[verifier::rlimit(50)]
proof fn lemma_whole_text_input(value: Option<TextInputModel>)
    ensures
        whole(text_input_tokens(value)),
        child_names(text_input_tokens(value), 0) == present("textInput"@, value is Some),
{
    if let Some(v) = value {
        let inner1 = plain("title"@, v.title);
        lemma_whole_leaf("title"@, Seq::empty(), v.title);
        lemma_whole_leaf("description"@, Seq::empty(), v.description);
        lemma_whole_join(inner1, plain("description"@, v.description));
        let inner2 = inner1 + plain("description"@, v.description);
        lemma_whole_leaf("name"@, Seq::empty(), v.name);
        lemma_whole_join(inner2, plain("name"@, v.name));
        let inner3 = inner2 + plain("name"@, v.name);
        lemma_whole_leaf("link"@, Seq::empty(), v.link);
        lemma_whole_join(inner3, plain("link"@, v.link));
        let inner4 = inner3 + plain("link"@, v.link);
        let front1 = open("textInput"@) + plain("title"@, v.title);
        lemma_join(open("textInput"@), inner1, plain("description"@, v.description));
        let front2 = front1 + plain("description"@, v.description);
        lemma_join(open("textInput"@), inner2, plain("name"@, v.name));
        let front3 = front2 + plain("name"@, v.name);
        lemma_join(open("textInput"@), inner3, plain("link"@, v.link));
        let front4 = front3 + plain("link"@, v.link);
        assert(front4 == open("textInput"@) + inner4);
        lemma_whole_wrap("textInput"@, Seq::empty(), inner4);
    } else {
        lemma_whole_empty();
    }
}

proof fn lemma_whole_skip_hours(value: Option<Seq<i64>>)
    ensures
        whole(skip_hours_tokens(value)),
        child_names(skip_hours_tokens(value), 0) == present("skipHours"@, value is Some),
{
    if let Some(v) = value {
        let inner1 = hours_tokens(v);
        lemma_whole_hours(v);
        let front1 = open("skipHours"@) + hours_tokens(v);
        assert(front1 == open("skipHours"@) + inner1);
        lemma_whole_wrap("skipHours"@, Seq::empty(), inner1);
    } else {
        lemma_whole_empty();
    }
}

proof fn lemma_whole_skip_days(value: Option<Seq<Seq<char>>>)
    ensures
        whole(skip_days_tokens(value)),
        child_names(skip_days_tokens(value), 0) == present("skipDays"@, value is Some),
{
    if let Some(v) = value {
        let inner1 = days_tokens(v);
        lemma_whole_days(v);
        let front1 = open("skipDays"@) + days_tokens(v);
        assert(front1 == open("skipDays"@) + inner1);
        lemma_whole_wrap("skipDays"@, Seq::empty(), inner1);
    } else {
        lemma_whole_empty();
    }
}

proof fn lemma_whole_cloud(value: Option<CloudModel>)
    ensures
        whole(cloud_tokens(value)),
        child_names(cloud_tokens(value), 0) == present("cloud"@, value is Some),
{
    match value {
        Some(c) => lemma_whole_bare("cloud"@, cloud_attributes(c)),
        None => lemma_whole_empty(),
    }
}

proof fn lemma_whole_enclosure(value: Option<EnclosureModel>)
    ensures
        whole(enclosure_tokens(value)),
        child_names(enclosure_tokens(value), 0) == present("enclosure"@, value is Some),
{
    match value {
        Some(e) => lemma_whole_bare("enclosure"@, enclosure_attributes(e)),
        None => lemma_whole_empty(),
    }
}

proof fn lemma_whole_guid(value: Option<GuidModel>)
    ensures
        whole(guid_tokens(value)),
        child_names(guid_tokens(value), 0) == present("guid"@, value is Some),
{
    match value {
        Some(g) => lemma_whole_leaf("guid"@, seq![("isPermaLink"@, bool_text(g.permalink))], g.guid),
        None => lemma_whole_empty(),
    }
}

proof fn lemma_whole_source(value: Option<SourceModel>)
    ensures
        whole(source_tokens(value)),
        child_names(source_tokens(value), 0) == present("source"@, value is Some),
{
    match value {
        Some(x) => lemma_whole_leaf("source"@, seq![("url"@, x.url)], x.source),
        None => lemma_whole_empty(),
    }
}

/// What is written for the fields of an item, between the tags of its element.
pub open spec fn item_fields(v: ItemModel) -> Seq<Token> {
    optional("title"@, v.title) + optional("link"@, v.link) + optional(
        "description"@,
        v.description,
    ) + optional("author"@, v.author) + optional_categories(v.categories) + optional(
        "comments"@,
        v.comments,
    ) + enclosure_tokens(v.enclosure) + guid_tokens(v.guid) + optional(
        "pubDate"@,
        date_text(v.pub_date),
    ) + source_tokens(v.source)
}

/// The names of the elements that are written for the fields of an item,
/// in their order: the name of every field that is there, once, and
/// `category` once for each member of that list.
pub open spec fn item_names(v: ItemModel) -> Seq<Seq<char>> {
    present("title"@, v.title is Some)
        + present("link"@, v.link is Some)
        + present("description"@, v.description is Some)
        + present("author"@, v.author is Some)
        + repeated("category"@, v.categories)
        + present("comments"@, v.comments is Some)
        + present("enclosure"@, v.enclosure is Some)
        + present("guid"@, v.guid is Some)
        + present("pubDate"@, v.pub_date is Some)
        + present("source"@, v.source is Some)
}

/// What is written for an item is one whole `item` element. In it, every
/// field that is there has exactly one element, the list of categories one
/// for each member, and no absent field has any.
#[verifier::rlimit(50)]
pub proof fn lemma_item_elements(v: ItemModel)
    ensures
        whole(item_tokens(v)),
        child_names(item_tokens(v), 0) == seq!["item"@],
        item_tokens(v) == open("item"@) + item_fields(v) + close("item"@),
        whole(item_fields(v)),
        child_names(item_fields(v), 0) == item_names(v),
{
    let inner1 = optional("title"@, v.title);
    lemma_whole_optional("title"@, v.title);
    lemma_whole_optional("link"@, v.link);
    lemma_whole_join(inner1, optional("link"@, v.link));
    let inner2 = inner1 + optional("link"@, v.link);
    lemma_whole_optional("description"@, v.description);
    lemma_whole_join(inner2, optional("description"@, v.description));
    let inner3 = inner2 + optional("description"@, v.description);
    lemma_whole_optional("author"@, v.author);
    lemma_whole_join(inner3, optional("author"@, v.author));
    let inner4 = inner3 + optional("author"@, v.author);
    lemma_whole_optional_categories(v.categories);
    lemma_whole_join(inner4, optional_categories(v.categories));
    let inner5 = inner4 + optional_categories(v.categories);
    lemma_whole_optional("comments"@, v.comments);
    lemma_whole_join(inner5, optional("comments"@, v.comments));
    let inner6 = inner5 + optional("comments"@, v.comments);
    lemma_whole_enclosure(v.enclosure);
    lemma_whole_join(inner6, enclosure_tokens(v.enclosure));
    let inner7 = inner6 + enclosure_tokens(v.enclosure);
    lemma_whole_guid(v.guid);
    lemma_whole_join(inner7, guid_tokens(v.guid));
    let inner8 = inner7 + guid_tokens(v.guid);
    lemma_whole_optional("pubDate"@, date_text(v.pub_date));
    lemma_whole_join(inner8, optional("pubDate"@, date_text(v.pub_date)));
    let inner9 = inner8 + optional("pubDate"@, date_text(v.pub_date));
    lemma_whole_source(v.source);
    lemma_whole_join(inner9, source_tokens(v.source));
    let inner10 = inner9 + source_tokens(v.source);
    let front1 = open("item"@) + optional("title"@, v.title);
    lemma_join(open("item"@), inner1, optional("link"@, v.link));
    let front2 = front1 + optional("link"@, v.link);
    lemma_join(open("item"@), inner2, optional("description"@, v.description));
    let front3 = front2 + optional("description"@, v.description);
    lemma_join(open("item"@), inner3, optional("author"@, v.author));
    let front4 = front3 + optional("author"@, v.author);
    lemma_join(open("item"@), inner4, optional_categories(v.categories));
    let front5 = front4 + optional_categories(v.categories);
    lemma_join(open("item"@), inner5, optional("comments"@, v.comments));
    let front6 = front5 + optional("comments"@, v.comments);
    lemma_join(open("item"@), inner6, enclosure_tokens(v.enclosure));
    let front7 = front6 + enclosure_tokens(v.enclosure);
    lemma_join(open("item"@), inner7, guid_tokens(v.guid));
    let front8 = front7 + guid_tokens(v.guid);
    lemma_join(open("item"@), inner8, optional("pubDate"@, date_text(v.pub_date)));
    let front9 = front8 + optional("pubDate"@, date_text(v.pub_date));
    lemma_join(open("item"@), inner9, source_tokens(v.source));
    let front10 = front9 + source_tokens(v.source);
    assert(front10 == open("item"@) + inner10);
    lemma_whole_wrap("item"@, Seq::empty(), inner10);
}

proof fn lemma_whole_items(list: Seq<ItemModel>)
    ensures
        whole(items_tokens(list)),
        child_names(items_tokens(list), 0) == repeated("item"@, Some(list)),
    decreases list.len(),
{
    if list.len() == 0 {
        lemma_whole_empty();
        assert(repeated("item"@, Some(list)) =~= Seq::<Seq<char>>::empty());
    } else {
        let init = list.drop_last();
        lemma_whole_items(init);
        lemma_item_elements(list.last());
        lemma_whole_join(items_tokens(init), item_tokens(list.last()));
        assert(repeated("item"@, Some(init)) + seq!["item"@] =~= repeated("item"@, Some(list)));
    }
}

proof fn lemma_whole_optional_items(list: Option<Seq<ItemModel>>)
    ensures
        whole(optional_items(list)),
        child_names(optional_items(list), 0) == repeated("item"@, list),
{
    match list {
        Some(l) => lemma_whole_items(l),
        None => lemma_whole_empty(),
    }
}

/// The names of the elements that are written for a channel, in their
/// order: `title`, `link` and `description`, then the name of every other
/// field that is there, once, and `category` and `item` once for each member
/// of their lists.
pub open spec fn channel_names(c: ChannelModel) -> Seq<Seq<char>> {
    seq!["title"@]
        + seq!["link"@]
        + seq!["description"@]
        + present("language"@, c.language is Some)
        + present("copyright"@, c.copyright is Some)
        + present("managingEditor"@, c.managing_editor is Some)
        + present("webMaster"@, c.web_master is Some)
        + present("pubDate"@, c.pub_date is Some)
        + present("lastBuildDate"@, c.last_build_date is Some)
        + repeated("category"@, c.categories)
        + present("generator"@, c.generator is Some)
        + present("docs"@, c.docs is Some)
        + present("cloud"@, c.cloud is Some)
        + present("ttl"@, c.ttl is Some)
        + present("image"@, c.image is Some)
        + present("rating"@, c.rating is Some)
        + present("textInput"@, c.text_input is Some)
        + present("skipHours"@, c.skip_hours is Some)
        + present("skipDays"@, c.skip_days is Some)
        + repeated("item"@, c.items)
}

/// In what is written for a channel, every field that is there has
/// exactly one element, a list one for each member, no absent field has any,
/// and the elements stand in the fixed order of `channel_names`.
#[verifier::rlimit(50)]
pub proof fn lemma_channel_elements(c: ChannelModel)
    ensures
        whole(channel_tokens(c)),
        child_names(channel_tokens(c), 0) == channel_names(c),
{
    let front1 = plain("title"@, c.title);
    lemma_whole_leaf("title"@, Seq::empty(), c.title);
    lemma_whole_leaf("link"@, Seq::empty(), c.link);
    lemma_whole_join(front1, plain("link"@, c.link));
    let front2 = front1 + plain("link"@, c.link);
    lemma_whole_leaf("description"@, Seq::empty(), c.description);
    lemma_whole_join(front2, plain("description"@, c.description));
    let front3 = front2 + plain("description"@, c.description);
    lemma_whole_optional("language"@, c.language);
    lemma_whole_join(front3, optional("language"@, c.language));
    let front4 = front3 + optional("language"@, c.language);
    lemma_whole_optional("copyright"@, c.copyright);
    lemma_whole_join(front4, optional("copyright"@, c.copyright));
    let front5 = front4 + optional("copyright"@, c.copyright);
    lemma_whole_optional("managingEditor"@, c.managing_editor);
    lemma_whole_join(front5, optional("managingEditor"@, c.managing_editor));
    let front6 = front5 + optional("managingEditor"@, c.managing_editor);
    lemma_whole_optional("webMaster"@, c.web_master);
    lemma_whole_join(front6, optional("webMaster"@, c.web_master));
    let front7 = front6 + optional("webMaster"@, c.web_master);
    lemma_whole_optional("pubDate"@, date_text(c.pub_date));
    lemma_whole_join(front7, optional("pubDate"@, date_text(c.pub_date)));
    let front8 = front7 + optional("pubDate"@, date_text(c.pub_date));
    lemma_whole_optional("lastBuildDate"@, date_text(c.last_build_date));
    lemma_whole_join(front8, optional("lastBuildDate"@, date_text(c.last_build_date)));
    let front9 = front8 + optional("lastBuildDate"@, date_text(c.last_build_date));
    lemma_whole_optional_categories(c.categories);
    lemma_whole_join(front9, optional_categories(c.categories));
    let front10 = front9 + optional_categories(c.categories);
    lemma_whole_optional("generator"@, c.generator);
    lemma_whole_join(front10, optional("generator"@, c.generator));
    let front11 = front10 + optional("generator"@, c.generator);
    lemma_whole_optional("docs"@, c.docs);
    lemma_whole_join(front11, optional("docs"@, c.docs));
    let front12 = front11 + optional("docs"@, c.docs);
    lemma_whole_cloud(c.cloud);
    lemma_whole_join(front12, cloud_tokens(c.cloud));
    let front13 = front12 + cloud_tokens(c.cloud);
    lemma_whole_optional("ttl"@, number_text(c.ttl));
    lemma_whole_join(front13, optional("ttl"@, number_text(c.ttl)));
    let front14 = front13 + optional("ttl"@, number_text(c.ttl));
    lemma_whole_image(c.image);
    lemma_whole_join(front14, image_tokens(c.image));
    let front15 = front14 + image_tokens(c.image);
    lemma_whole_optional("rating"@, c.rating);
    lemma_whole_join(front15, optional("rating"@, c.rating));
    let front16 = front15 + optional("rating"@, c.rating);
    lemma_whole_text_input(c.text_input);
    lemma_whole_join(front16, text_input_tokens(c.text_input));
    let front17 = front16 + text_input_tokens(c.text_input);
    lemma_whole_skip_hours(c.skip_hours);
    lemma_whole_join(front17, skip_hours_tokens(c.skip_hours));
    let front18 = front17 + skip_hours_tokens(c.skip_hours);
    lemma_whole_skip_days(c.skip_days);
    lemma_whole_join(front18, skip_days_tokens(c.skip_days));
    let front19 = front18 + skip_days_tokens(c.skip_days);
    lemma_whole_optional_items(c.items);
    lemma_whole_join(front19, optional_items(c.items));
    let front20 = front19 + optional_items(c.items);
}

/// What is written for a channel is one whole `rss` element, every start
/// tag in it closed by its end tag, with the one `channel` element in it.
pub proof fn lemma_document_elements(c: ChannelModel)
    ensures
        whole(document_tokens(c)),
        child_names(document_tokens(c), 0) == seq!["rss"@],
        whole(document_tokens(c).subrange(1, document_tokens(c).len() - 1)),
        child_names(document_tokens(c).subrange(1, document_tokens(c).len() - 1), 0) == seq![
            "channel"@,
        ],
{
    let version = seq![("version"@, "2.0"@)];
    let rss = seq![Token::Open { name: "rss"@, attributes: version }];
    let fields = channel_tokens(c);
    let channel = open("channel"@) + fields + close("channel"@);
    lemma_channel_elements(c);
    lemma_whole_wrap("channel"@, Seq::empty(), fields);
    lemma_whole_wrap("rss"@, version, channel);
    lemma_join(rss, open("channel"@), fields);
    lemma_join(rss, open("channel"@) + fields, close("channel"@));
    assert(document_tokens(c) == rss + channel + close("rss"@));
    assert(document_tokens(c).subrange(1, document_tokens(c).len() - 1) =~= channel);
}

} // verus!
