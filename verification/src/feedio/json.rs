//! A channel as JSON text.
//!
//! Every entity becomes a flat map from text to text, with its numbers in
//! decimal. A map that stands inside another one is first turned into JSON
//! text, and that text is the value in the outer map. A list puts each of its
//! members under one and the same key, so of a list the last member stays.
//! Writing a map does not fail, so every function here succeeds.

use vstd::prelude::*;
use crate::errors::FeedError;
use crate::feedio::json_map::{
    json_nested_entry_text, json_number_entry_text, json_object_text, json_result,
    nested_entry_json, number_entry_json, JsonMap,
};
use crate::feedio::names::lemma_name_codes;
use crate::rss::category::{Category, CategoryModel};
use crate::rss::channel::{Channel, ChannelModel};
use crate::rss::cloud::{Cloud, CloudModel};
use crate::rss::enclosure::{Enclosure, EnclosureModel};
use crate::rss::guid::{Guid, GuidModel};
use crate::rss::image::{Image, ImageModel};
use crate::rss::item_builder::{Item, ItemModel};
use crate::rss::source::{Source, SourceModel};
use crate::rss::text_input::{TextInput, TextInputModel};
use crate::util::date::{date_text, optional_date_text};
use crate::util::decimal::{
    bool_text, decimal_text, format_bool, format_i64, format_u64, number_text,
    optional_number_text,
};
use crate::util::text::text_of;

verus! {

/// The map `m` with `value` under `key`, where there is a value.
pub open spec fn with_text(
    m: Map<Seq<char>, Seq<char>>,
    key: Seq<char>,
    value: Option<Seq<char>>,
) -> Map<Seq<char>, Seq<char>> {
    match value {
        Some(v) => m.insert(key, v),
        None => m,
    }
}

/// The JSON text of a field that holds an entity or a list, where the field is there.
pub open spec fn optional<T>(field: Option<T>, json: spec_fn(T) -> Seq<char>) -> Option<Seq<char>> {
    match field {
        Some(v) => Some(json(v)),
        None => None,
    }
}

pub open spec fn source_entries(source: SourceModel) -> Map<Seq<char>, Seq<char>> {
    Map::empty().insert("url"@, source.url).insert("source"@, source.source)
}

pub open spec fn source_json(source: SourceModel) -> Seq<char> {
    json_object_text(source_entries(source))
}

pub open spec fn guid_entries(guid: GuidModel) -> Map<Seq<char>, Seq<char>> {
    Map::empty().insert("permalink"@, bool_text(guid.permalink)).insert("guid"@, guid.guid)
}

pub open spec fn guid_json(guid: GuidModel) -> Seq<char> {
    json_object_text(guid_entries(guid))
}

pub open spec fn enclosure_entries(enclosure: EnclosureModel) -> Map<Seq<char>, Seq<char>> {
    Map::empty().insert("url"@, enclosure.url).insert(
        "length"@,
        decimal_text(enclosure.length as int),
    ).insert("type"@, enclosure.enclosure_type)
}

pub open spec fn enclosure_json(enclosure: EnclosureModel) -> Seq<char> {
    json_object_text(enclosure_entries(enclosure))
}

pub open spec fn text_input_entries(text_input: TextInputModel) -> Map<Seq<char>, Seq<char>> {
    Map::empty().insert("title"@, text_input.title).insert(
        "description"@,
        text_input.description,
    ).insert("name"@, text_input.name).insert("link"@, text_input.link)
}

pub open spec fn text_input_json(text_input: TextInputModel) -> Seq<char> {
    json_object_text(text_input_entries(text_input))
}

pub open spec fn cloud_entries(cloud: CloudModel) -> Map<Seq<char>, Seq<char>> {
    Map::empty().insert("domain"@, cloud.domain).insert(
        "port"@,
        decimal_text(cloud.port as int),
    ).insert("path"@, cloud.path).insert("registerProcedure"@, cloud.register_procedure).insert(
        "protocol"@,
        cloud.protocol,
    )
}

pub open spec fn cloud_json(cloud: CloudModel) -> Seq<char> {
    json_object_text(cloud_entries(cloud))
}

pub open spec fn image_entries(image: ImageModel) -> Map<Seq<char>, Seq<char>> {
    with_text(
        Map::empty().insert("title"@, image.title).insert("link"@, image.link).insert(
            "url"@,
            image.url,
        ).insert("width"@, decimal_text(image.width as int)).insert(
            "height"@,
            decimal_text(image.height as int),
        ),
        "description"@,
        image.description,
    )
}

pub open spec fn image_json(image: ImageModel) -> Seq<char> {
    json_object_text(image_entries(image))
}

pub open spec fn category_entries(category: CategoryModel) -> Map<Seq<char>, Seq<char>> {
    with_text(Map::empty().insert("categories"@, category.category), "domain"@, category.domain)
}

pub open spec fn category_json(category: CategoryModel) -> Seq<char> {
    json_object_text(category_entries(category))
}

/// The map of a list of categories: each one's JSON text under `categories`,
/// so that the last one stays.
pub open spec fn categories_entries(list: Seq<CategoryModel>) -> Map<Seq<char>, Seq<char>>
    decreases list.len(),
{
    if list.len() == 0 {
        Map::empty()
    } else {
        categories_entries(list.drop_last()).insert("categories"@, category_json(list.last()))
    }
}

pub open spec fn categories_json(list: Seq<CategoryModel>) -> Seq<char> {
    json_object_text(categories_entries(list))
}

pub open spec fn day_json(day: Seq<char>) -> Seq<char> {
    json_object_text(Map::empty().insert("day"@, day))
}

pub open spec fn hour_json(hour: i64) -> Seq<char> {
    json_number_entry_text("hour"@, hour)
}

/// The map of a list of days: each one's JSON text under `skipDays`.
pub open spec fn skip_days_entries(list: Seq<Seq<char>>) -> Map<Seq<char>, Seq<char>>
    decreases list.len(),
{
    if list.len() == 0 {
        Map::empty()
    } else {
        skip_days_entries(list.drop_last()).insert("skipDays"@, day_json(list.last()))
    }
}

pub open spec fn skip_days_json(list: Seq<Seq<char>>) -> Seq<char> {
    json_object_text(skip_days_entries(list))
}

/// The map of a list of hours: each one's JSON text, the hour in it a number, under `skipHours`.
pub open spec fn skip_hours_entries(list: Seq<i64>) -> Map<Seq<char>, Seq<char>>
    decreases list.len(),
{
    if list.len() == 0 {
        Map::empty()
    } else {
        skip_hours_entries(list.drop_last()).insert("skipHours"@, hour_json(list.last()))
    }
}

pub open spec fn skip_hours_json(list: Seq<i64>) -> Seq<char> {
    json_object_text(skip_hours_entries(list))
}

pub open spec fn item_entries(item: ItemModel) -> Map<Seq<char>, Seq<char>> {
    let m = Map::empty();
    let m = with_text(m, "title"@, item.title);
    let m = with_text(m, "link"@, item.link);
    let m = with_text(m, "description"@, item.description);
    let m = with_text(m, "author"@, item.author);
    let m = with_text(m, "comments"@, item.comments);
    let m = with_text(m, "pubDate"@, date_text(item.pub_date));
    let m = with_text(
        m,
        "categories"@,
        optional(item.categories, |l: Seq<CategoryModel>| categories_json(l)),
    );
    let m = with_text(
        m,
        "enclosure"@,
        optional(item.enclosure, |e: EnclosureModel| enclosure_json(e)),
    );
    let m = with_text(m, "guid"@, optional(item.guid, |g: GuidModel| guid_json(g)));
    with_text(m, "source"@, optional(item.source, |s: SourceModel| source_json(s)))
}

pub open spec fn item_json(item: ItemModel) -> Seq<char> {
    json_object_text(item_entries(item))
}

/// The map of a list of items: each one's JSON text under `items`.
pub open spec fn items_entries(list: Seq<ItemModel>) -> Map<Seq<char>, Seq<char>>
    decreases list.len(),
{
    if list.len() == 0 {
        Map::empty()
    } else {
        items_entries(list.drop_last()).insert("items"@, item_json(list.last()))
    }
}

pub open spec fn items_json(list: Seq<ItemModel>) -> Seq<char> {
    json_object_text(items_entries(list))
}

pub open spec fn channel_entries(channel: ChannelModel) -> Map<Seq<char>, Seq<char>> {
    let m = Map::empty().insert("title"@, channel.title).insert("link"@, channel.link).insert(
        "description"@,
        channel.description,
    );
    let m = with_text(m, "language"@, channel.language);
    let m = with_text(m, "copyright"@, channel.copyright);
    let m = with_text(m, "managingEditor"@, channel.managing_editor);
    let m = with_text(m, "webMaster"@, channel.web_master);
    let m = with_text(m, "pubDate"@, date_text(channel.pub_date));
    let m = with_text(m, "lastBuildDate"@, date_text(channel.last_build_date));
    let m = with_text(m, "generator"@, channel.generator);
    let m = with_text(m, "docs"@, channel.docs);
    let m = with_text(m, "ttl"@, number_text(channel.ttl));
    let m = with_text(m, "rating"@, channel.rating);
    let m = with_text(
        m,
        "categories"@,
        optional(channel.categories, |l: Seq<CategoryModel>| categories_json(l)),
    );
    let m = with_text(m, "cloud"@, optional(channel.cloud, |c: CloudModel| cloud_json(c)));
    let m = with_text(m, "image"@, optional(channel.image, |i: ImageModel| image_json(i)));
    let m = with_text(
        m,
        "textInput"@,
        optional(channel.text_input, |t: TextInputModel| text_input_json(t)),
    );
    let m = with_text(
        m,
        "skipHours"@,
        optional(channel.skip_hours, |l: Seq<i64>| skip_hours_json(l)),
    );
    let m = with_text(
        m,
        "skipDays"@,
        optional(channel.skip_days, |l: Seq<Seq<char>>| skip_days_json(l)),
    );
    with_text(m, "items"@, optional(channel.items, |l: Seq<ItemModel>| items_json(l)))
}

pub open spec fn channel_json(channel: ChannelModel) -> Seq<char> {
    json_object_text(channel_entries(channel))
}

/// The map that wraps a channel: the version of the format and the channel's JSON text.
pub open spec fn rss_entries(channel: ChannelModel) -> Map<Seq<char>, Seq<char>> {
    Map::empty().insert("version"@, "2.0"@).insert("channel"@, channel_json(channel))
}

pub open spec fn rss_json(channel: ChannelModel) -> Seq<char> {
    json_object_text(rss_entries(channel))
}

/// The map with the wrapped channel's JSON text under `xml`.
pub open spec fn feed_entries(channel: ChannelModel) -> Map<Seq<char>, Seq<char>> {
    Map::empty().insert("xml"@, rss_json(channel))
}

/// The JSON document of a channel: an object whose one entry leads from
/// `feed` to the object of `feed_entries`.
pub open spec fn document_json(channel: ChannelModel) -> Seq<char> {
    json_nested_entry_text("feed"@, feed_entries(channel))
}

/// Puts `value` under `key` where there is a value.
fn entry_of(map: &mut JsonMap, key: &str, value: Option<String>)
    ensures
        final(map)@ == with_text(old(map)@, key@, value.deep_view()),
{
    match value {
        Some(v) => {
            map.insert(key, v);
        },
        None => {},
    }
}

/// The JSON text of a source.
pub fn get_source(source: &Source) -> (r: Result<String, FeedError>)
    ensures
        json_result(r, source_json(source@)),
{
    let mut map = JsonMap::new();
    map.insert("url", source.url());
    map.insert("source", source.source());
    map.to_json("source")
}

/// The JSON text of an identifier; the flag in it is the text `true` or `false`.
pub fn get_guid(guid: &Guid) -> (r: Result<String, FeedError>)
    ensures
        json_result(r, guid_json(guid@)),
{
    let mut map = JsonMap::new();
    map.insert("permalink", format_bool(guid.permalink()));
    map.insert("guid", guid.guid());
    map.to_json("guid")
}

/// The JSON text of an enclosure; the length in it is decimal text.
pub fn get_enclosure(enclosure: &Enclosure) -> (r: Result<String, FeedError>)
    ensures
        json_result(r, enclosure_json(enclosure@)),
{
    let mut map = JsonMap::new();
    map.insert("url", enclosure.url());
    map.insert("length", format_u64(enclosure.length()));
    map.insert("type", enclosure.enclosure_type());
    map.to_json("enclosure")
}

/// The JSON text of a text input.
pub fn get_text_input(text_input: &TextInput) -> (r: Result<String, FeedError>)
    ensures
        json_result(r, text_input_json(text_input@)),
{
    let mut map = JsonMap::new();
    map.insert("title", text_input.title());
    map.insert("description", text_input.description());
    map.insert("name", text_input.name());
    map.insert("link", text_input.link());
    map.to_json("textInput")
}

/// The JSON text of a cloud; the port in it is decimal text.
pub fn get_cloud(cloud: &Cloud) -> (r: Result<String, FeedError>)
    ensures
        json_result(r, cloud_json(cloud@)),
{
    let mut map = JsonMap::new();
    map.insert("domain", cloud.domain());
    map.insert("port", format_u64(cloud.port()));
    map.insert("path", cloud.path());
    map.insert("registerProcedure", cloud.register_procedure());
    map.insert("protocol", cloud.protocol());
    map.to_json("cloud")
}

/// The JSON text of an image; width and height in it are decimal text.
pub fn get_image(image: &Image) -> (r: Result<String, FeedError>)
    ensures
        json_result(r, image_json(image@)),
{
    let mut map = JsonMap::new();
    map.insert("title", image.title());
    map.insert("link", image.link());
    map.insert("url", image.url());
    map.insert("width", format_i64(image.width()));
    map.insert("height", format_i64(image.height()));
    entry_of(&mut map, "description", image.description());
    map.to_json("image")
}

fn get_category(category: &Category) -> (r: Result<String, FeedError>)
    ensures
        json_result(r, category_json(category@)),
{
    let mut map = JsonMap::new();
    map.insert("categories", category.category());
    entry_of(&mut map, "domain", category.domain());
    map.to_json("category")
}

fn get_day(day: String) -> (r: Result<String, FeedError>)
    ensures
        json_result(r, day_json(day@)),
{
    let mut map = JsonMap::new();
    map.insert("day", day);
    map.to_json("day")
}

/// The JSON text of a list of categories: a map with the last one under `categories`.
pub fn get_categories(categories: &Vec<Category>) -> (r: Result<String, FeedError>)
    ensures
        json_result(r, categories_json(categories.deep_view())),
{
    let ghost list = categories.deep_view();
    let mut map = JsonMap::new();
    let mut i: usize = 0;
    assert(list.take(0) =~= Seq::<CategoryModel>::empty());
    while i < categories.len()
        invariant
            i <= categories.len(),
            list == categories.deep_view(),
            map@ == categories_entries(list.take(i as int)),
        decreases categories.len() - i,
    {
        assert(list.take(i + 1).drop_last() =~= list.take(i as int));
        assert(list.take(i + 1).last() == categories[i as int]@);
        match get_category(&categories[i]) {
            Ok(text) => {
                map.insert("categories", text);
            },
            Err(e) => {
                return Err(e);
            },
        }
        i += 1;
    }
    assert(list.take(i as int) =~= list);
    map.to_json("categories")
}

/// The JSON text of a list of days: a map with the last one under `skipDays`.
pub fn get_skip_days(skip_days: &Vec<String>) -> (r: Result<String, FeedError>)
    ensures
        json_result(r, skip_days_json(skip_days.deep_view())),
{
    let ghost list = skip_days.deep_view();
    let mut map = JsonMap::new();
    let mut i: usize = 0;
    assert(list.take(0) =~= Seq::<Seq<char>>::empty());
    while i < skip_days.len()
        invariant
            i <= skip_days.len(),
            list == skip_days.deep_view(),
            map@ == skip_days_entries(list.take(i as int)),
        decreases skip_days.len() - i,
    {
        assert(list.take(i + 1).drop_last() =~= list.take(i as int));
        assert(list.take(i + 1).last() == skip_days[i as int]@);
        match get_day(skip_days[i].clone()) {
            Ok(text) => {
                map.insert("skipDays", text);
            },
            Err(e) => {
                return Err(e);
            },
        }
        i += 1;
    }
    assert(list.take(i as int) =~= list);
    map.to_json("skipDays")
}

/// The JSON text of a list of hours: a map with the last one under `skipHours`.
pub fn get_skip_hours(skip_hours: &Vec<i64>) -> (r: Result<String, FeedError>)
    ensures
        json_result(r, skip_hours_json(skip_hours.deep_view())),
{
    let ghost list = skip_hours.deep_view();
    let mut map = JsonMap::new();
    let mut i: usize = 0;
    assert(list.take(0) =~= Seq::<i64>::empty());
    while i < skip_hours.len()
        invariant
            i <= skip_hours.len(),
            list == skip_hours.deep_view(),
            map@ == skip_hours_entries(list.take(i as int)),
        decreases skip_hours.len() - i,
    {
        assert(list.take(i + 1).drop_last() =~= list.take(i as int));
        assert(list.take(i + 1).last() == skip_hours[i as int]);
        match number_entry_json("hour", skip_hours[i]) {
            Ok(text) => {
                map.insert("skipHours", text);
            },
            Err(e) => {
                return Err(e);
            },
        }
        i += 1;
    }
    assert(list.take(i as int) =~= list);
    map.to_json("skipHours")
}

#[verifier::rlimit(50)]
fn get_item(item: &Item) -> (r: Result<String, FeedError>)
    ensures
        json_result(r, item_json(item@)),
{
    let mut map = JsonMap::new();
    entry_of(&mut map, "title", item.title());
    entry_of(&mut map, "link", item.link());
    entry_of(&mut map, "description", item.description());
    entry_of(&mut map, "author", item.author());
    entry_of(&mut map, "comments", item.comments());
    entry_of(&mut map, "pubDate", optional_date_text(item.pub_date()));
    match item.categories() {
        Some(v) => match get_categories(&v) {
            Ok(text) => {
                map.insert("categories", text);
            },
            Err(e) => {
                return Err(e);
            },
        },
        None => {},
    }
    match item.enclosure() {
        Some(v) => match get_enclosure(&v) {
            Ok(text) => {
                map.insert("enclosure", text);
            },
            Err(e) => {
                return Err(e);
            },
        },
        None => {},
    }
    match item.guid() {
        Some(v) => match get_guid(&v) {
            Ok(text) => {
                map.insert("guid", text);
            },
            Err(e) => {
                return Err(e);
            },
        },
        None => {},
    }
    match item.source() {
        Some(v) => match get_source(&v) {
            Ok(text) => {
                map.insert("source", text);
            },
            Err(e) => {
                return Err(e);
            },
        },
        None => {},
    }
    map.to_json("item")
}

/// The JSON text of a list of items: a map with the last one under `items`.
pub fn get_items(items: &Vec<Item>) -> (r: Result<String, FeedError>)
    ensures
        json_result(r, items_json(items.deep_view())),
{
    let ghost list = items.deep_view();
    let mut map = JsonMap::new();
    let mut i: usize = 0;
    assert(list.take(0) =~= Seq::<ItemModel>::empty());
    while i < items.len()
        invariant
            i <= items.len(),
            list == items.deep_view(),
            map@ == items_entries(list.take(i as int)),
        decreases items.len() - i,
    {
        assert(list.take(i + 1).drop_last() =~= list.take(i as int));
        assert(list.take(i + 1).last() == items[i as int]@);
        match get_item(&items[i]) {
            Ok(text) => {
                map.insert("items", text);
            },
            Err(e) => {
                return Err(e);
            },
        }
        i += 1;
    }
    assert(list.take(i as int) =~= list);
    map.to_json("items")
}

/// The JSON text of a channel: a map with a key for each field that is
/// there, every value a text.
#[verifier::rlimit(50)]
pub fn get_channel(channel: &Channel) -> (r: Result<String, FeedError>)
    ensures
        json_result(r, channel_json(channel@)),
{
    let mut map = JsonMap::new();
    map.insert("title", channel.title());
    map.insert("link", channel.link());
    map.insert("description", channel.description());
    entry_of(&mut map, "language", channel.language());
    entry_of(&mut map, "copyright", channel.copyright());
    entry_of(&mut map, "managingEditor", channel.managing_editor());
    entry_of(&mut map, "webMaster", channel.web_master());
    entry_of(&mut map, "pubDate", optional_date_text(channel.pub_date()));
    entry_of(&mut map, "lastBuildDate", optional_date_text(channel.last_build_date()));
    entry_of(&mut map, "generator", channel.generator());
    entry_of(&mut map, "docs", channel.docs());
    entry_of(&mut map, "ttl", optional_number_text(channel.ttl()));
    entry_of(&mut map, "rating", channel.rating());
    match channel.categories() {
        Some(v) => match get_categories(&v) {
            Ok(text) => {
                map.insert("categories", text);
            },
            Err(e) => {
                return Err(e);
            },
        },
        None => {},
    }
    match channel.cloud() {
        Some(v) => match get_cloud(&v) {
            Ok(text) => {
                map.insert("cloud", text);
            },
            Err(e) => {
                return Err(e);
            },
        },
        None => {},
    }
    match channel.image() {
        Some(v) => match get_image(&v) {
            Ok(text) => {
                map.insert("image", text);
            },
            Err(e) => {
                return Err(e);
            },
        },
        None => {},
    }
    match channel.text_input() {
        Some(v) => match get_text_input(&v) {
            Ok(text) => {
                map.insert("textInput", text);
            },
            Err(e) => {
                return Err(e);
            },
        },
        None => {},
    }
    match channel.skip_hours() {
        Some(v) => match get_skip_hours(&v) {
            Ok(text) => {
                map.insert("skipHours", text);
            },
            Err(e) => {
                return Err(e);
            },
        },
        None => {},
    }
    match channel.skip_days() {
        Some(v) => match get_skip_days(&v) {
            Ok(text) => {
                map.insert("skipDays", text);
            },
            Err(e) => {
                return Err(e);
            },
        },
        None => {},
    }
    match channel.items() {
        Some(v) => match get_items(&v) {
            Ok(text) => {
                map.insert("items", text);
            },
            Err(e) => {
                return Err(e);
            },
        },
        None => {},
    }
    map.to_json("channel")
}

/// The JSON document of a channel. Always succeeds.
pub fn get_document(channel: &Channel) -> (r: Result<String, FeedError>)
    ensures
        json_result(r, document_json(channel@)),
{
    let mut rss = JsonMap::new();
    rss.insert("version", text_of("2.0"));
    match get_channel(channel) {
        Ok(text) => {
            rss.insert("channel", text);
        },
        Err(e) => {
            return Err(e);
        },
    }
    let mut feed = JsonMap::new();
    match rss.to_json("rss") {
        Ok(text) => {
            feed.insert("xml", text);
        },
        Err(e) => {
            return Err(e);
        },
    }
    nested_entry_json("feed", &feed)
}

/// Whether the map of a channel has a key: the keys of the three fields
/// that every channel has, and the key of every other field that is there.
pub open spec fn channel_has_key(channel: ChannelModel, key: Seq<char>) -> bool {
    ||| key == "title"@
    ||| key == "link"@
    ||| key == "description"@
    ||| key == "language"@ && channel.language is Some
    ||| key == "copyright"@ && channel.copyright is Some
    ||| key == "managingEditor"@ && channel.managing_editor is Some
    ||| key == "webMaster"@ && channel.web_master is Some
    ||| key == "pubDate"@ && channel.pub_date is Some
    ||| key == "lastBuildDate"@ && channel.last_build_date is Some
    ||| key == "categories"@ && channel.categories is Some
    ||| key == "generator"@ && channel.generator is Some
    ||| key == "docs"@ && channel.docs is Some
    ||| key == "cloud"@ && channel.cloud is Some
    ||| key == "ttl"@ && channel.ttl is Some
    ||| key == "image"@ && channel.image is Some
    ||| key == "rating"@ && channel.rating is Some
    ||| key == "textInput"@ && channel.text_input is Some
    ||| key == "skipHours"@ && channel.skip_hours is Some
    ||| key == "skipDays"@ && channel.skip_days is Some
    ||| key == "items"@ && channel.items is Some
}

/// Whether the map of an item has a key: the key of every field that is there.
pub open spec fn item_has_key(item: ItemModel, key: Seq<char>) -> bool {
    ||| key == "title"@ && item.title is Some
    ||| key == "link"@ && item.link is Some
    ||| key == "description"@ && item.description is Some
    ||| key == "author"@ && item.author is Some
    ||| key == "categories"@ && item.categories is Some
    ||| key == "comments"@ && item.comments is Some
    ||| key == "enclosure"@ && item.enclosure is Some
    ||| key == "guid"@ && item.guid is Some
    ||| key == "pubDate"@ && item.pub_date is Some
    ||| key == "source"@ && item.source is Some
}

/// The keys of a map with a value put in where there is one.
proof fn lemma_with_text_keys(
    m: Map<Seq<char>, Seq<char>>,
    key: Seq<char>,
    value: Option<Seq<char>>,
    other: Seq<char>,
)
    ensures
        with_text(m, key, value).dom().contains(other) <==> m.dom().contains(other) || (other
            == key && value is Some),
{
}

/// The keys of the map of a channel are those of the fields that are there.
#[verifier::rlimit(50)]
pub proof fn lemma_channel_key_set(channel: ChannelModel)
    ensures
        forall|key: Seq<char>|
            channel_entries(channel).dom().contains(key) <==> channel_has_key(channel, key),
{
    let held0 = Map::empty().insert("title"@, channel.title).insert("link"@, channel.link).insert(
        "description"@,
        channel.description,
    );
    let held1 = with_text(held0, "language"@, channel.language);
    let held2 = with_text(held1, "copyright"@, channel.copyright);
    let held3 = with_text(held2, "managingEditor"@, channel.managing_editor);
    let held4 = with_text(held3, "webMaster"@, channel.web_master);
    let held5 = with_text(held4, "pubDate"@, date_text(channel.pub_date));
    let held6 = with_text(held5, "lastBuildDate"@, date_text(channel.last_build_date));
    let held7 = with_text(held6, "generator"@, channel.generator);
    let held8 = with_text(held7, "docs"@, channel.docs);
    let held9 = with_text(held8, "ttl"@, number_text(channel.ttl));
    let held10 = with_text(held9, "rating"@, channel.rating);
    let held11 = with_text(
        held10,
        "categories"@,
        optional(channel.categories, |l: Seq<CategoryModel>| categories_json(l)),
    );
    let held12 = with_text(
        held11,
        "cloud"@,
        optional(channel.cloud, |c: CloudModel| cloud_json(c)),
    );
    let held13 = with_text(
        held12,
        "image"@,
        optional(channel.image, |i: ImageModel| image_json(i)),
    );
    let held14 = with_text(
        held13,
        "textInput"@,
        optional(channel.text_input, |t: TextInputModel| text_input_json(t)),
    );
    let held15 = with_text(
        held14,
        "skipHours"@,
        optional(channel.skip_hours, |l: Seq<i64>| skip_hours_json(l)),
    );
    let held16 = with_text(
        held15,
        "skipDays"@,
        optional(channel.skip_days, |l: Seq<Seq<char>>| skip_days_json(l)),
    );
    let held17 = with_text(
        held16,
        "items"@,
        optional(channel.items, |l: Seq<ItemModel>| items_json(l)),
    );
    assert(held17 == channel_entries(channel));
    assert forall|key: Seq<char>|
        channel_entries(channel).dom().contains(key) <==> channel_has_key(channel, key) by {
        lemma_with_text_keys(held0, "language"@, channel.language, key);
        lemma_with_text_keys(held1, "copyright"@, channel.copyright, key);
        lemma_with_text_keys(held2, "managingEditor"@, channel.managing_editor, key);
        lemma_with_text_keys(held3, "webMaster"@, channel.web_master, key);
        lemma_with_text_keys(held4, "pubDate"@, date_text(channel.pub_date), key);
        lemma_with_text_keys(held5, "lastBuildDate"@, date_text(channel.last_build_date), key);
        lemma_with_text_keys(held6, "generator"@, channel.generator, key);
        lemma_with_text_keys(held7, "docs"@, channel.docs, key);
        lemma_with_text_keys(held8, "ttl"@, number_text(channel.ttl), key);
        lemma_with_text_keys(held9, "rating"@, channel.rating, key);
        lemma_with_text_keys(
            held10,
            "categories"@,
            optional(channel.categories, |l: Seq<CategoryModel>| categories_json(l)),
            key,
        );
        lemma_with_text_keys(
            held11,
            "cloud"@,
            optional(channel.cloud, |c: CloudModel| cloud_json(c)),
            key,
        );
        lemma_with_text_keys(
            held12,
            "image"@,
            optional(channel.image, |i: ImageModel| image_json(i)),
            key,
        );
        lemma_with_text_keys(
            held13,
            "textInput"@,
            optional(channel.text_input, |t: TextInputModel| text_input_json(t)),
            key,
        );
        lemma_with_text_keys(
            held14,
            "skipHours"@,
            optional(channel.skip_hours, |l: Seq<i64>| skip_hours_json(l)),
            key,
        );
        lemma_with_text_keys(
            held15,
            "skipDays"@,
            optional(channel.skip_days, |l: Seq<Seq<char>>| skip_days_json(l)),
            key,
        );
        lemma_with_text_keys(
            held16,
            "items"@,
            optional(channel.items, |l: Seq<ItemModel>| items_json(l)),
            key,
        );
    }
}

/// The keys of the map of an item are those of the fields that are there.
#[verifier::rlimit(50)]
pub proof fn lemma_item_key_set(item: ItemModel)
    ensures
        forall|key: Seq<char>|
            item_entries(item).dom().contains(key) <==> item_has_key(item, key),
{
}

/// Each key of a channel's map belongs to one field.
#[verifier::rlimit(50)]
proof fn lemma_channel_key_fields(channel: ChannelModel)
    ensures
        channel_has_key(channel, "title"@),
        channel_has_key(channel, "link"@),
        channel_has_key(channel, "description"@),
        channel_has_key(channel, "language"@) <==> channel.language is Some,
        channel_has_key(channel, "copyright"@) <==> channel.copyright is Some,
        channel_has_key(channel, "managingEditor"@) <==> channel.managing_editor is Some,
        channel_has_key(channel, "webMaster"@) <==> channel.web_master is Some,
        channel_has_key(channel, "pubDate"@) <==> channel.pub_date is Some,
        channel_has_key(channel, "lastBuildDate"@) <==> channel.last_build_date is Some,
        channel_has_key(channel, "categories"@) <==> channel.categories is Some,
        channel_has_key(channel, "generator"@) <==> channel.generator is Some,
        channel_has_key(channel, "docs"@) <==> channel.docs is Some,
        channel_has_key(channel, "cloud"@) <==> channel.cloud is Some,
        channel_has_key(channel, "ttl"@) <==> channel.ttl is Some,
        channel_has_key(channel, "image"@) <==> channel.image is Some,
        channel_has_key(channel, "rating"@) <==> channel.rating is Some,
        channel_has_key(channel, "textInput"@) <==> channel.text_input is Some,
        channel_has_key(channel, "skipHours"@) <==> channel.skip_hours is Some,
        channel_has_key(channel, "skipDays"@) <==> channel.skip_days is Some,
        channel_has_key(channel, "items"@) <==> channel.items is Some,
{
    lemma_name_codes();
}

/// Each key of an item's map belongs to one field.
#[verifier::rlimit(50)]
proof fn lemma_item_key_fields(item: ItemModel)
    ensures
        item_has_key(item, "title"@) <==> item.title is Some,
        item_has_key(item, "link"@) <==> item.link is Some,
        item_has_key(item, "description"@) <==> item.description is Some,
        item_has_key(item, "author"@) <==> item.author is Some,
        item_has_key(item, "categories"@) <==> item.categories is Some,
        item_has_key(item, "comments"@) <==> item.comments is Some,
        item_has_key(item, "enclosure"@) <==> item.enclosure is Some,
        item_has_key(item, "guid"@) <==> item.guid is Some,
        item_has_key(item, "pubDate"@) <==> item.pub_date is Some,
        item_has_key(item, "source"@) <==> item.source is Some,
{
    lemma_name_codes();
}

/// In the map of a channel, the keys of the three fields that every
/// channel has are there, and the key of every other field is there exactly
/// where the field is. A map has each of its keys once.
pub proof fn lemma_channel_keys(channel: ChannelModel)
    ensures
        ({
            let m = channel_entries(channel);
            &&& m.dom().contains("title"@)
            &&& m.dom().contains("link"@)
            &&& m.dom().contains("description"@)
            &&& m.dom().contains("language"@) <==> channel.language is Some
            &&& m.dom().contains("copyright"@) <==> channel.copyright is Some
            &&& m.dom().contains("managingEditor"@) <==> channel.managing_editor is Some
            &&& m.dom().contains("webMaster"@) <==> channel.web_master is Some
            &&& m.dom().contains("pubDate"@) <==> channel.pub_date is Some
            &&& m.dom().contains("lastBuildDate"@) <==> channel.last_build_date is Some
            &&& m.dom().contains("categories"@) <==> channel.categories is Some
            &&& m.dom().contains("generator"@) <==> channel.generator is Some
            &&& m.dom().contains("docs"@) <==> channel.docs is Some
            &&& m.dom().contains("cloud"@) <==> channel.cloud is Some
            &&& m.dom().contains("ttl"@) <==> channel.ttl is Some
            &&& m.dom().contains("image"@) <==> channel.image is Some
            &&& m.dom().contains("rating"@) <==> channel.rating is Some
            &&& m.dom().contains("textInput"@) <==> channel.text_input is Some
            &&& m.dom().contains("skipHours"@) <==> channel.skip_hours is Some
            &&& m.dom().contains("skipDays"@) <==> channel.skip_days is Some
            &&& m.dom().contains("items"@) <==> channel.items is Some
        }),
{
    lemma_channel_key_set(channel);
    lemma_channel_key_fields(channel);
}

/// In the map of an item, the key of every field is there exactly where
/// the field is. A map has each of its keys once.
pub proof fn lemma_item_keys(item: ItemModel)
    ensures
        ({
            let m = item_entries(item);
            &&& m.dom().contains("title"@) <==> item.title is Some
            &&& m.dom().contains("link"@) <==> item.link is Some
            &&& m.dom().contains("description"@) <==> item.description is Some
            &&& m.dom().contains("author"@) <==> item.author is Some
            &&& m.dom().contains("categories"@) <==> item.categories is Some
            &&& m.dom().contains("comments"@) <==> item.comments is Some
            &&& m.dom().contains("enclosure"@) <==> item.enclosure is Some
            &&& m.dom().contains("guid"@) <==> item.guid is Some
            &&& m.dom().contains("pubDate"@) <==> item.pub_date is Some
            &&& m.dom().contains("source"@) <==> item.source is Some
        }),
{
    lemma_item_key_set(item);
    lemma_item_key_fields(item);
}

} // verus!
