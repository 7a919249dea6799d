use feed::errors::{
    element_to_string_error, item_required_field_error, json_to_string_error, missing_xml_error,
    response_error, str_to_bool_error, str_to_datetime_error, str_to_i64_error, tag_end_error,
    tag_start_error, tag_text_error, utf8_to_str_error, ErrorClass, FeedError,
};
use feed::feedio::decode::decode_tokens;
use feed::feedio::encode::encode_tokens;
use feed::feedio::json::{
    get_categories, get_channel, get_enclosure, get_items, get_skip_days, get_skip_hours,
    get_source, get_text_input,
};
use feed::feedio::json_map::{nested_entry_json, number_entry_json, JsonMap};
use feed::feedio::token::{find_child, get_attribute, read_text, skip_rest, XmlToken};
use feed::feedio::xml_reader::tokenize;
use feed::feedio::xml_writer::write_document;
use feed::feedio::{FeedReader, FeedWriter};
use feed::rss::{
    CategoryBuilder, ChannelBuilder, DateTime, EnclosureBuilder, GuidBuilder, ImageBuilder,
    ItemBuilder, SourceBuilder, TextInputBuilder,
};
use feed::util::date::option_string_to_option_date;
use feed::util::decimal::{
    format_bool, format_i64, format_u64, parse_bool, parse_i64, parse_u64,
};
use feed::util::text::{chars_of, text_eq, text_rank, Rank};
use feed::FeedBuilder;

fn open(name: &str) -> XmlToken {
    XmlToken::Open { name: name.to_owned(), attributes: vec![] }
}

fn open_with(name: &str, attributes: &[(&str, &str)]) -> XmlToken {
    XmlToken::Open {
        name: name.to_owned(),
        attributes: attributes.iter().map(|a| (a.0.to_owned(), a.1.to_owned())).collect(),
    }
}

fn close(name: &str) -> XmlToken {
    XmlToken::Close { name: name.to_owned() }
}

fn text(text: &str) -> XmlToken {
    XmlToken::Text { text: text.to_owned() }
}

#[test]
fn error_texts() {
    assert_eq!(utf8_to_str_error(), "Error converting utf8 to str");
    assert_eq!(str_to_bool_error(), "Error converting str to bool");
    assert_eq!(str_to_datetime_error(), "Error converting str to datetime");
    assert_eq!(str_to_i64_error(), "Error converting str to i64");
    assert_eq!(element_to_string_error(), "Error converting element to string");
    assert_eq!(response_error(), "Error retrieving response");
    assert_eq!(missing_xml_error(), "Url must end with .xml");
    assert_eq!(item_required_field_error(), "Either Title or Description must have a value");
    assert_eq!(tag_start_error("title"), "Error creating start tag for title");
    assert_eq!(tag_text_error("title"), "Error creating text for title");
    assert_eq!(tag_end_error("title"), "Error creating end tag for title");
    assert_eq!(json_to_string_error("cloud"), "Error converting json to string for cloud");
}

#[test]
fn error_messages_and_classes() {
    let cases = [
        (FeedError::ItemRequiredField, ErrorClass::Validation, item_required_field_error().to_owned()),
        (FeedError::StrToDateTime("x".to_owned()), ErrorClass::Conversion, str_to_datetime_error().to_owned()),
        (FeedError::StrToI64("x".to_owned()), ErrorClass::Conversion, str_to_i64_error().to_owned()),
        (FeedError::StrToBool("x".to_owned()), ErrorClass::Conversion, str_to_bool_error().to_owned()),
        (FeedError::ElementToString, ErrorClass::Decode, element_to_string_error().to_owned()),
        (FeedError::MissingChannel, ErrorClass::Decode, "Document holds no rss channel".to_owned()),
        (FeedError::TagStart("a".to_owned()), ErrorClass::Encode, tag_start_error("a")),
        (FeedError::TagText("a".to_owned()), ErrorClass::Encode, tag_text_error("a")),
        (FeedError::TagEnd("a".to_owned()), ErrorClass::Encode, tag_end_error("a")),
        (FeedError::JsonToString("m".to_owned()), ErrorClass::Encode, json_to_string_error("m")),
        (FeedError::MissingXml, ErrorClass::Upstream, missing_xml_error().to_owned()),
        (FeedError::Response, ErrorClass::Upstream, response_error().to_owned()),
        (FeedError::Utf8ToStr, ErrorClass::Upstream, utf8_to_str_error().to_owned()),
    ];
    for (error, class, message) in cases {
        assert_eq!(error.class(), class);
        assert_eq!(error.message(), message);
    }
}

#[test]
fn decimal_texts() {
    assert_eq!(format_i64(0), "0");
    assert_eq!(format_i64(7), "7");
    assert_eq!(format_i64(-7), "-7");
    assert_eq!(format_i64(1234567890), "1234567890");
    assert_eq!(format_i64(i64::MAX), "9223372036854775807");
    assert_eq!(format_i64(i64::MIN), "-9223372036854775808");
    assert_eq!(format_u64(0), "0");
    assert_eq!(format_u64(10), "10");
    assert_eq!(format_u64(u64::MAX), "18446744073709551615");
    assert_eq!(format_bool(true), "true");
    assert_eq!(format_bool(false), "false");
}

#[test]
fn decimal_reading() {
    for n in [0i64, 1, -1, 9, 10, 99, 100, -100, 60, i64::MAX, i64::MIN, i64::MAX - 1, i64::MIN + 1] {
        assert_eq!(parse_i64(&format_i64(n)), Some(n));
        assert_eq!(parse_i64(&n.to_string()), Some(n));
    }
    for n in [0u64, 1, 80, 65535, u64::MAX, u64::MAX - 1] {
        assert_eq!(parse_u64(&format_u64(n)), Some(n));
    }
    for s in ["", "+", "-", " 1", "1 ", "1_0", "0x10", "1.0", "--1", "+-1", "9223372036854775808",
        "-9223372036854775809", "99999999999999999999999", "٣", "1e3"] {
        assert_eq!(parse_i64(s), s.parse::<i64>().ok(), "{:?}", s);
        assert_eq!(parse_i64(s), None, "{:?}", s);
    }
    for s in ["+5", "-0", "007", "+0", "-007", "0000000000000000000000001"] {
        assert_eq!(parse_i64(s), s.parse::<i64>().ok(), "{:?}", s);
        assert!(parse_i64(s).is_some());
    }
    for s in ["", "+", "-", "-0", "-1", "18446744073709551616", "+18446744073709551615", "12", "+7",
        "00", "1a"] {
        assert_eq!(parse_u64(s), s.parse::<u64>().ok(), "{:?}", s);
    }
    assert_eq!(parse_u64("18446744073709551615"), Some(u64::MAX));
    assert_eq!(parse_u64("-1"), None);
}

#[test]
fn flag_reading() {
    assert_eq!(parse_bool("true"), Some(true));
    assert_eq!(parse_bool("false"), Some(false));
    for s in ["", "True", "TRUE", "1", "0", "yes", " true", "true ", "truee"] {
        assert_eq!(parse_bool(s), None);
        assert_eq!(parse_bool(s), s.parse::<bool>().ok());
    }
}

#[test]
fn text_order_is_byte_order() {
    assert_eq!(text_rank("a", "b"), Rank::Before);
    assert_eq!(text_rank("b", "a"), Rank::After);
    assert_eq!(text_rank("a", "a"), Rank::Same);
    assert_eq!(text_rank("", ""), Rank::Same);
    assert_eq!(text_rank("", "a"), Rank::Before);
    assert_eq!(text_rank("ab", "a"), Rank::After);
    assert_eq!(text_rank("Z", "a"), Rank::Before);
    assert_eq!(text_rank("é", "z"), Rank::After);
    let words = ["", "a", "ab", "b", "B", "é", "z", "日本", "~", "managingEditor", "link"];
    for x in words {
        for y in words {
            let expected = match x.cmp(y) {
                std::cmp::Ordering::Less => Rank::Before,
                std::cmp::Ordering::Equal => Rank::Same,
                std::cmp::Ordering::Greater => Rank::After,
            };
            assert_eq!(text_rank(x, y), expected);
            assert_eq!(text_eq(x, y), x == y);
        }
    }
    assert_eq!(chars_of("aé日"), vec!['a', 'é', '日']);
    assert_eq!(chars_of(""), Vec::<char>::new());
}

#[test]
fn dates() {
    let d = DateTime::parse_from_rfc2822("Tue, 1 Jul 2003 10:52:37 +0200").unwrap();
    assert_eq!(d.timestamp(), 1057049557);
    assert_eq!(d.offset_seconds(), 7200);
    assert_eq!(d.timestamp_subsec_nanos(), 0);
    assert_eq!(d.to_rfc2822(), "Tue, 1 Jul 2003 10:52:37 +0200");
    let same = DateTime::from_parts(1057049557, 0, 7200).unwrap();
    assert_eq!(same, d);
    let gmt = DateTime::parse_from_rfc2822("Wed, 18 Feb 2015 23:16:09 GMT").unwrap();
    assert_eq!(gmt.to_rfc2822(), "Wed, 18 Feb 2015 23:16:09 +0000");
    assert_eq!(
        DateTime::parse_from_rfc2822("2003-07-01T10:52:37+02:00").unwrap_err(),
        FeedError::StrToDateTime("2003-07-01T10:52:37+02:00".to_owned())
    );
    assert_eq!(DateTime::parse_from_rfc2822("").unwrap_err(), FeedError::StrToDateTime(String::new()));
}

#[test]
fn date_limits() {
    assert!(DateTime::from_parts(0, 0, 86400).is_none());
    assert!(DateTime::from_parts(0, 0, -86400).is_none());
    assert!(DateTime::from_parts(0, 0, 86399).is_some());
    assert!(DateTime::from_parts(0, 2_000_000_000, 0).is_none());
    assert!(DateTime::from_parts(0, 1_000_000_000, 0).is_none());
    assert!(DateTime::from_parts(59, 1_000_000_000, 0).is_some());
    assert!(DateTime::from_parts(-1, 1_000_000_000, 0).is_some());
    assert!(DateTime::from_parts(i64::MAX, 0, 0).is_none());
    assert!(DateTime::from_parts(i64::MIN, 0, 0).is_none());
    let first = DateTime::from_parts(-62167219200, 0, 0).unwrap();
    assert_eq!(first.to_rfc2822(), "Sat, 1 Jan 0000 00:00:00 +0000");
    assert!(DateTime::from_parts(-62167219201, 0, 0).is_none());
    assert!(DateTime::from_parts(-62167219201, 0, 1).is_some());
    let last = DateTime::from_parts(253402300799, 0, 0).unwrap();
    assert_eq!(last.to_rfc2822(), "Fri, 31 Dec 9999 23:59:59 +0000");
    assert!(DateTime::from_parts(253402300800, 0, 0).is_none());
    assert!(DateTime::from_parts(253402300800, 0, -1).is_some());
    let leap = DateTime::from_parts(1483228799, 1_000_000_000, 0).unwrap();
    assert_eq!(leap.to_rfc2822(), "Sat, 31 Dec 2016 23:59:60 +0000");
    let back = DateTime::parse_from_rfc2822("Sat, 31 Dec 2016 23:59:60 +0000").unwrap();
    assert_eq!(back, leap);
}

#[test]
fn dates_that_do_not_read_back() {
    let odd = DateTime::from_parts(0, 0, 30).unwrap();
    assert_eq!(odd.to_rfc2822(), "Thu, 1 Jan 1970 00:00:30 +0001");
    let back = DateTime::parse_from_rfc2822(&odd.to_rfc2822()).unwrap();
    assert_eq!(back.timestamp(), -30);
    assert_eq!(back.offset_seconds(), 60);
    assert_ne!(back, odd);
    let whole = DateTime::from_parts(0, 0, 60).unwrap();
    assert_eq!(DateTime::parse_from_rfc2822(&whole.to_rfc2822()).unwrap(), whole);
}

#[test]
fn optional_dates() {
    assert_eq!(option_string_to_option_date(&None), Ok(None));
    let d = option_string_to_option_date(&Some("Sun, 13 Mar 2016 20:02:02 -0700".to_owned()));
    assert_eq!(d.unwrap().unwrap().timestamp(), 1457924522);
    assert_eq!(
        option_string_to_option_date(&Some("x".to_owned())),
        Err(FeedError::StrToDateTime("x".to_owned()))
    );
}

#[test]
fn json_map_keeps_keys_in_order() {
    let mut map = JsonMap::new();
    assert_eq!(map.len(), 0);
    assert_eq!(map.to_json("m").unwrap(), "{}");
    for key in ["title", "link", "description", "webMaster", "Zeta", "language", "é", "a"] {
        map.insert(key, key.to_uppercase());
    }
    assert_eq!(
        map.keys(),
        vec!["Zeta", "a", "description", "language", "link", "title", "webMaster", "é"]
    );
    map.insert("link", "second".to_owned());
    assert_eq!(map.len(), 8);
    assert_eq!(map.get("link"), Some("second".to_owned()));
    assert_eq!(map.get("Link"), None);
    assert_eq!(map.get("a"), Some("A".to_owned()));
    let json = map.to_json("m").unwrap();
    assert_eq!(
        json,
        "{\"Zeta\":\"ZETA\",\"a\":\"A\",\"description\":\"DESCRIPTION\",\"language\":\"LANGUAGE\",\"link\":\"second\",\"title\":\"TITLE\",\"webMaster\":\"WEBMASTER\",\"é\":\"É\"}"
    );
    let mut at = 0;
    for key in map.keys() {
        let found = json[at..].find(&format!("\"{}\":", key)).unwrap();
        at += found + 1;
    }
}

#[test]
fn json_escapes_values() {
    let mut map = JsonMap::new();
    map.insert("k\"", "a\"b\\c\nd".to_owned());
    assert_eq!(map.to_json("m").unwrap(), "{\"k\\\"\":\"a\\\"b\\\\c\\nd\"}");
}

#[test]
fn json_entries_of_other_kinds() {
    assert_eq!(number_entry_json("hour", 6).unwrap(), "{\"hour\":6}");
    assert_eq!(number_entry_json("hour", -6).unwrap(), "{\"hour\":-6}");
    let mut inner = JsonMap::new();
    inner.insert("xml", "x".to_owned());
    inner.insert("a", "1".to_owned());
    assert_eq!(nested_entry_json("feed", &inner).unwrap(), "{\"feed\":{\"a\":\"1\",\"xml\":\"x\"}}");
}

#[test]
fn json_of_entities() {
    let source = SourceBuilder::new().url("u").source("s").finalize();
    assert_eq!(get_source(&source).unwrap(), "{\"source\":\"s\",\"url\":\"u\"}");
    let enclosure = EnclosureBuilder::new().url("u").length(12).enclosure_type("audio/ogg").finalize();
    assert_eq!(
        get_enclosure(&enclosure).unwrap(),
        "{\"length\":\"12\",\"type\":\"audio/ogg\",\"url\":\"u\"}"
    );
    let text_input = TextInputBuilder::new().title("t").description("d").name("n").link("l").finalize();
    assert_eq!(
        get_text_input(&text_input).unwrap(),
        "{\"description\":\"d\",\"link\":\"l\",\"name\":\"n\",\"title\":\"t\"}"
    );
}

#[test]
fn json_of_lists_keeps_the_last_member() {
    let first = CategoryBuilder::new().category("Media").finalize();
    let second = CategoryBuilder::new().category("Podcast").domain(Some("d".to_owned())).finalize();
    assert_eq!(get_categories(&vec![]).unwrap(), "{}");
    assert_eq!(
        get_categories(&vec![first.clone()]).unwrap(),
        "{\"categories\":\"{\\\"categories\\\":\\\"Media\\\"}\"}"
    );
    assert_eq!(
        get_categories(&vec![first, second]).unwrap(),
        "{\"categories\":\"{\\\"categories\\\":\\\"Podcast\\\",\\\"domain\\\":\\\"d\\\"}\"}"
    );
    assert_eq!(get_skip_hours(&vec![]).unwrap(), "{}");
    assert_eq!(get_skip_hours(&vec![6, 22]).unwrap(), "{\"skipHours\":\"{\\\"hour\\\":22}\"}");
    assert_eq!(
        get_skip_days(&vec!["Monday".to_owned(), "Sunday".to_owned()]).unwrap(),
        "{\"skipDays\":\"{\\\"day\\\":\\\"Sunday\\\"}\"}"
    );
    let item = ItemBuilder::new().title(Some("t".to_owned())).finalize().unwrap();
    let other = ItemBuilder::new().description(Some("d".to_owned())).finalize().unwrap();
    assert_eq!(
        get_items(&vec![item, other]).unwrap(),
        "{\"items\":\"{\\\"description\\\":\\\"d\\\"}\"}"
    );
}

#[test]
fn json_of_item_fields() {
    let guid = GuidBuilder::new().guid("g").permalink(Some(false)).finalize();
    let item = ItemBuilder::new()
        .title(Some("t".to_owned()))
        .author(Some("a".to_owned()))
        .guid(Some(guid))
        .pub_date(Some("Sun, 13 Mar 2016 20:02:02 -0700".to_owned()))
        .finalize()
        .unwrap();
    let json = get_items(&vec![item]).unwrap();
    let outer: serde_json::Value = serde_json::from_str(&json).unwrap();
    let inner: serde_json::Value = serde_json::from_str(outer["items"].as_str().unwrap()).unwrap();
    let map = inner.as_object().unwrap();
    let keys: Vec<&str> = map.keys().map(|k| k.as_str()).collect();
    assert_eq!(keys, vec!["author", "guid", "pubDate", "title"]);
    assert_eq!(map["pubDate"].as_str().unwrap(), "Sun, 13 Mar 2016 20:02:02 -0700");
    assert_eq!(map["guid"].as_str().unwrap(), "{\"guid\":\"g\",\"permalink\":\"false\"}");
}

#[test]
fn json_of_channel_has_each_present_key_once() {
    let channel = ChannelBuilder::new()
        .title("T")
        .ttl(Some(60))
        .skip_hours(Some(vec![1]))
        .image(Some(ImageBuilder::new().finalize()))
        .finalize()
        .unwrap();
    let json = get_channel(&channel).unwrap();
    let value: serde_json::Value = serde_json::from_str(&json).unwrap();
    let keys: Vec<&str> = value.as_object().unwrap().keys().map(|k| k.as_str()).collect();
    assert_eq!(keys, vec!["description", "image", "link", "skipHours", "title", "ttl"]);
    assert_eq!(value["ttl"], serde_json::Value::String("60".to_owned()));
    for key in keys {
        assert_eq!(json.matches(&format!("\"{}\":", key)).count(), 1);
    }
    let mut sorted = json.match_indices("\":").map(|m| m.0).collect::<Vec<_>>();
    sorted.sort();
    assert!(!sorted.is_empty());
}

#[test]
fn tokens_of_a_text() {
    let tokens = tokenize("<a x=\"1\" y='&lt;2'>t&amp;u<b/><!-- c --><![CDATA[<z>]]></a>").unwrap();
    assert_eq!(
        tokens,
        vec![
            open_with("a", &[("x", "1"), ("y", "<2")]),
            text("t"),
            text("&"),
            text("u"),
            open("b"),
            close("b"),
            text("<z>"),
            close("a"),
        ]
    );
    assert_eq!(tokenize("").unwrap(), vec![]);
    assert_eq!(tokenize("&#65;&#x42;").unwrap(), vec![text("A"), text("B")]);
    assert_eq!(tokenize("<a>&nope;</a>").unwrap_err(), FeedError::ElementToString);
    assert_eq!(tokenize("<a></b>").unwrap_err(), FeedError::ElementToString);
    assert_eq!(tokenize("<a x=1></a>").unwrap_err(), FeedError::ElementToString);
    assert_eq!(tokenize("<a x=\"1\" x=\"2\"></a>").unwrap_err(), FeedError::ElementToString);
}

#[test]
fn walking_tokens() {
    let tokens = vec![
        text(" "),
        open("x"),
        open("y"),
        text("in"),
        close("y"),
        close("x"),
        open_with("t", &[("k", "v"), ("k", "w"), ("l", "m")]),
        text("a"),
        open("i"),
        text("skipped"),
        close("i"),
        text("b"),
        close("t"),
        close("parent"),
        open("t"),
    ];
    assert_eq!(find_child(&tokens, 0, "t"), Some(7));
    assert_eq!(find_child(&tokens, 0, "x"), Some(2));
    assert_eq!(find_child(&tokens, 0, "y"), None);
    assert_eq!(find_child(&tokens, 2, "y"), Some(3));
    assert_eq!(find_child(&tokens, 13, "t"), None);
    assert_eq!(find_child(&tokens, 14, "t"), Some(15));
    assert_eq!(find_child(&tokens, 15, "t"), None);
    assert_eq!(skip_rest(&tokens, 2), Some(6));
    assert_eq!(skip_rest(&tokens, 3), Some(5));
    assert_eq!(skip_rest(&tokens, 15), None);
    assert_eq!(read_text(&tokens, 7), Some(("ab".to_owned(), 13)));
    assert_eq!(read_text(&tokens, 3), Some(("in".to_owned(), 5)));
    assert_eq!(read_text(&tokens, 15), None);
    if let XmlToken::Open { attributes, .. } = &tokens[6] {
        assert_eq!(get_attribute(attributes, "k"), Some("v".to_owned()));
        assert_eq!(get_attribute(attributes, "l"), Some("m".to_owned()));
        assert_eq!(get_attribute(attributes, "n"), None);
    } else {
        panic!("no start tag");
    }
}

#[test]
fn writing_tokens() {
    let tokens = vec![
        open_with("a", &[("k", "v<\"'&>\t\n\r"), ("l", "")]),
        text("x<y>&\"'\r\n\t"),
        close("a"),
    ];
    let bytes = write_document(&tokens).unwrap();
    assert_eq!(
        String::from_utf8(bytes).unwrap(),
        "<?xml version=\"1.0\" encoding=\"UTF-8\"?><a k=\"v&lt;&quot;&apos;&amp;&gt;&#9;&#10;&#13;\" l=\"\">x&lt;y&gt;&amp;&quot;&apos;&#13;\n\t</a>"
    );
    assert_eq!(
        write_document(&vec![]).unwrap(),
        b"<?xml version=\"1.0\" encoding=\"UTF-8\"?>".to_vec()
    );
    assert_eq!(
        write_document(&vec![text("é日")]).unwrap(),
        "<?xml version=\"1.0\" encoding=\"UTF-8\"?>é日".as_bytes().to_vec()
    );
}

#[test]
fn tokens_of_a_channel() {
    let category = CategoryBuilder::new().category("c").domain(Some("d".to_owned())).finalize();
    let item = ItemBuilder::new()
        .title(Some("i".to_owned()))
        .guid(Some(GuidBuilder::new().guid("g").finalize()))
        .source(Some(SourceBuilder::new().url("u").source("s").finalize()))
        .enclosure(Some(EnclosureBuilder::new().url("e").length(3).enclosure_type("t").finalize()))
        .finalize()
        .unwrap();
    let channel = ChannelBuilder::new()
        .title("T")
        .link("L")
        .description("D")
        .categories(Some(vec![category]))
        .skip_hours(Some(vec![]))
        .items(Some(vec![item]))
        .finalize()
        .unwrap();
    let tokens = encode_tokens(&channel);
    assert_eq!(
        tokens,
        vec![
            open_with("rss", &[("version", "2.0")]),
            open("channel"),
            open("title"), text("T"), close("title"),
            open("link"), text("L"), close("link"),
            open("description"), text("D"), close("description"),
            open_with("category", &[("domain", "d")]), text("c"), close("category"),
            open("skipHours"), close("skipHours"),
            open("item"),
            open("title"), text("i"), close("title"),
            open_with("enclosure", &[("url", "e"), ("length", "3"), ("type", "t")]),
            close("enclosure"),
            open_with("guid", &[("isPermaLink", "true")]), text("g"), close("guid"),
            open_with("source", &[("url", "u")]), text("s"), close("source"),
            close("item"),
            close("channel"),
            close("rss"),
        ]
    );
    assert_eq!(decode_tokens(&tokens).unwrap(), channel);
}

#[test]
fn channel_of_tokens() {
    let tokens = vec![
        open("other"), open("rss"), close("rss"), close("other"),
        open("rss"),
        open("head"), close("head"),
        open("channel"),
        open("title"), text("first"), close("title"),
        open("title"), text("second"), text(" part"), close("title"),
        open_with("cloud", &[("domain", "d"), ("port", "+80")]), close("cloud"),
        open("image"), open("width"), text("144"), close("width"), open("x"), close("x"), close("image"),
        open("skipDays"), open("day"), text("Monday"), close("day"), open("hour"), text("x"), close("hour"), close("skipDays"),
        open("item"), open("description"), close("description"), close("item"),
        close("channel"),
        open("channel"), open("title"), text("later"), close("title"), close("channel"),
        close("rss"),
    ];
    let channel = decode_tokens(&tokens).unwrap();
    assert_eq!(channel.title(), "second part");
    let cloud = channel.cloud().unwrap();
    assert_eq!(cloud.domain(), "d");
    assert_eq!(cloud.port(), 80);
    assert_eq!(cloud.path(), "");
    let image = channel.image().unwrap();
    assert_eq!(image.width(), 144);
    assert_eq!(image.height(), 0);
    assert_eq!(channel.skip_days(), Some(vec!["Monday".to_owned()]));
    assert_eq!(channel.skip_hours(), None);
    let items = channel.items().unwrap();
    assert_eq!(items.len(), 1);
    assert_eq!(items[0].description(), Some(String::new()));
    assert_eq!(items[0].title(), None);
}

#[test]
fn channel_of_tokens_that_end_early() {
    let tokens = vec![open("rss"), open("channel"), open("title"), text("t")];
    assert_eq!(decode_tokens(&tokens).unwrap_err(), FeedError::ElementToString);
    let tokens = vec![open("rss"), open("channel"), open("item"), open("title"), close("title")];
    assert_eq!(decode_tokens(&tokens).unwrap_err(), FeedError::ElementToString);
    let tokens = vec![open("rss"), open("channel")];
    assert_eq!(decode_tokens(&tokens).unwrap_err(), FeedError::ElementToString);
    let tokens = vec![open("rss"), open("x")];
    assert_eq!(decode_tokens(&tokens).unwrap_err(), FeedError::MissingChannel);
    let tokens = vec![close("rss"), open("rss"), open("channel"), close("channel")];
    assert_eq!(decode_tokens(&tokens).unwrap_err(), FeedError::MissingChannel);
}

#[test]
fn lists_that_are_empty_do_not_come_back() {
    let channel = ChannelBuilder::new()
        .categories(Some(vec![]))
        .items(Some(vec![]))
        .skip_hours(Some(vec![]))
        .skip_days(Some(vec![]))
        .finalize()
        .unwrap();
    let xml = FeedWriter::new(channel).xml().unwrap();
    let back = FeedReader::new(std::str::from_utf8(&xml).unwrap()).unwrap().channel();
    assert_eq!(back.categories(), None);
    assert_eq!(back.items(), None);
    assert_eq!(back.skip_hours(), Some(vec![]));
    assert_eq!(back.skip_days(), Some(vec![]));
}

#[test]
fn builders_set_and_replace() {
    let mut builder = ChannelBuilder::new();
    builder.title("a").title("b").ttl(Some(1)).ttl(None);
    builder.add_category(CategoryBuilder::new().category("x").finalize());
    builder.add_category(CategoryBuilder::new().category("y").finalize());
    let copy = builder.clone();
    builder.categories(None);
    let channel = builder.finalize().unwrap();
    assert_eq!(channel.title(), "b");
    assert_eq!(channel.ttl(), None);
    assert_eq!(channel.categories(), None);
    let other = copy.finalize().unwrap();
    let names: Vec<String> = other.categories().unwrap().iter().map(|c| c.category()).collect();
    assert_eq!(names, vec!["x", "y"]);
    let mut items = ChannelBuilder::default();
    items.add_item(ItemBuilder::new().title(Some("1".to_owned())).finalize().unwrap());
    items.add_item(ItemBuilder::new().title(Some("2".to_owned())).finalize().unwrap());
    assert_eq!(items.finalize().unwrap().items().unwrap().len(), 2);
    let mut item = ItemBuilder::default();
    item.add_category(CategoryBuilder::default().finalize());
    item.description(Some("d".to_owned()));
    assert_eq!(item.finalize().unwrap().categories().unwrap().len(), 1);
}

#[test]
fn builders_default_what_is_not_set() {
    let guid = GuidBuilder::new().finalize();
    assert_eq!(guid.guid(), "");
    assert!(guid.permalink());
    assert!(!GuidBuilder::new().permalink(Some(false)).finalize().permalink());
    assert!(GuidBuilder::new().permalink(Some(false)).permalink(None).finalize().permalink());
    let image = ImageBuilder::new().width(Some(5)).width(None).height(Some(7)).finalize();
    assert_eq!(image.width(), 0);
    assert_eq!(image.height(), 7);
    assert_eq!(image.description(), None);
    let channel = FeedBuilder::new().finalize().channel();
    assert_eq!(channel, ChannelBuilder::new().finalize().unwrap());
    assert_eq!(channel.title(), "");
    assert!(channel.items().is_none());
    let feed = FeedBuilder::default().finalize();
    assert_eq!(feed.clone().channel(), feed.channel());
}
