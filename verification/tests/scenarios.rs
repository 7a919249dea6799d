use feed::errors::FeedError;
use feed::feedio::json::{get_cloud, get_guid, get_image};
use feed::feedio::{FeedReader, FeedWriter};
use feed::rss::{
    CategoryBuilder, ChannelBuilder, CloudBuilder, EnclosureBuilder, GuidBuilder, ImageBuilder,
    ItemBuilder, SourceBuilder, TextInputBuilder,
};
use feed::FeedBuilder;

const PROLOG: &str = "<?xml version=\"1.0\" encoding=\"UTF-8\"?>";

#[test]
fn minimal_channel_as_xml() {
    let channel = ChannelBuilder::new()
        .title("T")
        .link("http://x")
        .description("D")
        .finalize()
        .unwrap();
    let xml = FeedWriter::new(channel).xml().unwrap();
    let expected = format!(
        "{}{}",
        PROLOG,
        "<rss version=\"2.0\"><channel><title>T</title><link>http://x</link><description>D</description></channel></rss>"
    );
    assert_eq!(String::from_utf8(xml).unwrap(), expected);
}

#[test]
fn feed_to_xml_is_the_writer_output() {
    let channel = ChannelBuilder::new().title("T").finalize().unwrap();
    let mut builder = FeedBuilder::new();
    builder.channel(channel.clone());
    let feed = builder.finalize();
    assert_eq!(feed.to_xml().unwrap(), FeedWriter::new(channel).xml().unwrap());
}

#[test]
fn cloud_port_is_text_in_json() {
    let cloud = CloudBuilder::new()
        .domain("rpc.sys.com")
        .port(80)
        .path("/RPC2")
        .register_procedure("pingMe")
        .protocol("soap")
        .finalize();
    let json = get_cloud(&cloud).unwrap();
    assert_eq!(
        json,
        "{\"domain\":\"rpc.sys.com\",\"path\":\"/RPC2\",\"port\":\"80\",\"protocol\":\"soap\",\"registerProcedure\":\"pingMe\"}"
    );
    let value: serde_json::Value = serde_json::from_str(&json).unwrap();
    assert_eq!(value["port"], serde_json::Value::String("80".to_owned()));
    assert!(value["port"].as_i64().is_none());
}

#[test]
fn item_pub_date_round_trips_as_text() {
    let text = "Sun, 13 Mar 2016 20:02:02 -0700";
    let item = ItemBuilder::new()
        .title(Some("t".to_owned()))
        .pub_date(Some(text.to_owned()))
        .finalize()
        .unwrap();
    let date = item.pub_date().unwrap();
    assert_eq!(date.to_rfc2822(), text);
    assert_eq!(date.offset_seconds(), -7 * 3600);
    assert_eq!(date.timestamp(), 1457924522);
}

#[test]
fn item_without_title_and_description_fails() {
    let r = ItemBuilder::new()
        .link(Some("http://x".to_owned()))
        .author(Some("a".to_owned()))
        .pub_date(Some("not a date".to_owned()))
        .finalize();
    assert_eq!(r.unwrap_err(), FeedError::ItemRequiredField);
    assert_eq!(ItemBuilder::new().finalize().unwrap_err(), FeedError::ItemRequiredField);
}

#[test]
fn item_with_title_or_description_succeeds() {
    let a = ItemBuilder::new().title(Some("t".to_owned())).finalize().unwrap();
    assert_eq!(a.title(), Some("t".to_owned()));
    assert_eq!(a.description(), None);
    let b = ItemBuilder::new().description(Some(String::new())).finalize().unwrap();
    assert_eq!(b.description(), Some(String::new()));
}

#[test]
fn item_with_bad_date_is_a_conversion_failure() {
    let r = ItemBuilder::new()
        .title(Some("t".to_owned()))
        .pub_date(Some("yesterday".to_owned()))
        .finalize();
    assert_eq!(r.unwrap_err(), FeedError::StrToDateTime("yesterday".to_owned()));
}

#[test]
fn absent_date_is_no_failure() {
    let channel = ChannelBuilder::new().pub_date(None).last_build_date(None).finalize().unwrap();
    assert!(channel.pub_date().is_none());
    assert!(channel.last_build_date().is_none());
}

#[test]
fn channel_with_bad_date_fails() {
    let r = ChannelBuilder::new().last_build_date(Some("x".to_owned())).finalize();
    assert_eq!(r.unwrap_err(), FeedError::StrToDateTime("x".to_owned()));
}

fn full_channel() -> feed::rss::Channel {
    let category_1 = CategoryBuilder::new().category("Media").finalize();
    let category_2 = CategoryBuilder::new()
        .domain(Some("http://jupiterbroadcasting.com".to_owned()))
        .category("Podcast & <more>")
        .finalize();
    let cloud = CloudBuilder::new()
        .domain("rpc.sys.com")
        .port(80)
        .path("/RPC2")
        .register_procedure("pingMe")
        .protocol("soap")
        .finalize();
    let image = ImageBuilder::new()
        .link("http://www.jupiterbroadcasting.com")
        .url("http://jupiterbroadcasting.com/images/LAS-300-Badge.jpg")
        .title("LAS 300 Logo")
        .width(Some(88))
        .height(None)
        .description(Some("logo".to_owned()))
        .finalize();
    let text_input = TextInputBuilder::new()
        .title("Enter Comment")
        .description("Provided Feedback")
        .name("Comment")
        .link("www.example.com/feedback")
        .finalize();
    let enclosure = EnclosureBuilder::new()
        .url("http://x/a.ogg")
        .length(70772893)
        .enclosure_type("audio/ogg")
        .finalize();
    let guid = GuidBuilder::new().guid("abc").permalink(Some(false)).finalize();
    let source = SourceBuilder::new().url("http://x/feed.xml").source("X \"feed\"").finalize();
    let item_1 = ItemBuilder::new()
        .title(Some("Making Music with Linux | LAS 408".to_owned()))
        .link(Some("http://www.jupiterbroadcasting.com/97561/".to_owned()))
        .author(Some("Chris Fisher".to_owned()))
        .categories(Some(vec![category_1.clone()]))
        .comments(Some("http://x/comments".to_owned()))
        .enclosure(Some(enclosure))
        .guid(Some(guid))
        .pub_date(Some("Sun, 13 Mar 2016 20:02:02 -0700".to_owned()))
        .source(Some(source))
        .finalize()
        .unwrap();
    let item_2 = ItemBuilder::new()
        .description(Some("<p>Tom & Jerry's</p>".to_owned()))
        .finalize()
        .unwrap();
    ChannelBuilder::new()
        .title("The Linux Action Show! OGG")
        .link("http://www.jupiterbroadcasting.com")
        .description("A show")
        .language(Some("en".to_owned()))
        .copyright(Some("Copyright 2002".to_owned()))
        .managing_editor(Some("chris@jupiterbroadcasting.com (Chris Fisher)".to_owned()))
        .web_master(Some("web@x".to_owned()))
        .pub_date(Some("Sun, 13 Mar 2016 20:02:02 -0700".to_owned()))
        .last_build_date(Some("Mon, 14 Mar 2016 01:02:03 +0000".to_owned()))
        .categories(Some(vec![category_1, category_2]))
        .generator(Some("Feeder 2.5.12(2294)".to_owned()))
        .docs(Some("http://blogs.law.harvard.edu/tech/rss".to_owned()))
        .cloud(Some(cloud))
        .ttl(Some(60))
        .image(Some(image))
        .rating(Some("PG-13".to_owned()))
        .text_input(Some(text_input))
        .skip_hours(Some(vec![6, 7, 8, 14, 22]))
        .skip_days(Some(vec!["Monday".to_owned(), "Sunday".to_owned()]))
        .items(Some(vec![item_1, item_2]))
        .finalize()
        .unwrap()
}

#[test]
fn full_channel_round_trips_through_xml() {
    let channel = full_channel();
    let xml = FeedWriter::new(channel.clone()).xml().unwrap();
    let text = String::from_utf8(xml).unwrap();
    let back = FeedReader::new(&text).unwrap().channel();
    assert_eq!(back, channel);
}

#[test]
fn minimal_channel_round_trips_through_xml() {
    let channel = ChannelBuilder::new().title("T").link("L").description("").finalize().unwrap();
    let xml = FeedWriter::new(channel.clone()).xml().unwrap();
    let back = FeedReader::new(std::str::from_utf8(&xml).unwrap()).unwrap().channel();
    assert_eq!(back, channel);
}

#[test]
fn xml_holds_each_present_field_once_and_no_absent_one() {
    let channel = ChannelBuilder::new()
        .title("T")
        .language(Some("en".to_owned()))
        .ttl(Some(5))
        .finalize()
        .unwrap();
    let text = String::from_utf8(FeedWriter::new(channel).xml().unwrap()).unwrap();
    assert_eq!(text.matches("<language>").count(), 1);
    assert_eq!(text.matches("<ttl>5</ttl>").count(), 1);
    for absent in ["copyright", "managingEditor", "webMaster", "pubDate", "lastBuildDate",
        "category", "generator", "docs", "cloud", "image", "rating", "textInput", "skipHours",
        "skipDays", "item"] {
        assert!(!text.contains(&format!("<{}", absent)), "{}", absent);
    }
}

#[test]
fn xml_escapes_text_and_attributes() {
    let category = CategoryBuilder::new().domain(Some("a\"b<\n".to_owned())).category("x&y").finalize();
    let channel = ChannelBuilder::new().categories(Some(vec![category])).finalize().unwrap();
    let text = String::from_utf8(FeedWriter::new(channel.clone()).xml().unwrap()).unwrap();
    assert!(text.contains("<category domain=\"a&quot;b&lt;&#10;\">x&amp;y</category>"));
    assert_eq!(FeedReader::new(&text).unwrap().channel(), channel);
}

#[test]
fn reader_ignores_unknown_elements_and_space() {
    let text = "<?xml version=\"1.0\"?>\n<!-- c -->\n<rss version=\"2.0\">\n <channel>\n  <title>T</title>\n  <atom:link href=\"u\"/>\n  <thing><title>inner</title><deep>x</deep></thing>\n  <link>L</link>\n  <item><title>a &amp; b</title><other><title>no</title></other><guid>g</guid></item>\n  <skipHours><hour>1</hour><hour>23</hour></skipHours>\n </channel>\n</rss>\n";
    let channel = FeedReader::new(text).unwrap().channel();
    assert_eq!(channel.title(), "T");
    assert_eq!(channel.link(), "L");
    assert_eq!(channel.description(), "");
    assert_eq!(channel.skip_hours(), Some(vec![1, 23]));
    let items = channel.items().unwrap();
    assert_eq!(items.len(), 1);
    assert_eq!(items[0].title(), Some("a & b".to_owned()));
    let guid = items[0].guid().unwrap();
    assert_eq!(guid.guid(), "g");
    assert!(guid.permalink());
}

#[test]
fn reader_takes_cdata_as_text() {
    let text = "<rss><channel><description><![CDATA[<p>Hi</p>]]></description></channel></rss>";
    let channel = FeedReader::new(text).unwrap().channel();
    assert_eq!(channel.description(), "<p>Hi</p>");
}

#[test]
fn reader_fails_on_broken_markup() {
    assert_eq!(
        FeedReader::new("<rss><channel><title>T</link></channel></rss>").unwrap_err(),
        FeedError::ElementToString
    );
    assert_eq!(
        FeedReader::new("<rss><channel><title>T</title>").unwrap_err(),
        FeedError::ElementToString
    );
    assert_eq!(
        FeedReader::new("<rss><channel><title a=b>T</title></channel></rss>").unwrap_err(),
        FeedError::ElementToString
    );
}

#[test]
fn reader_fails_without_channel() {
    assert_eq!(FeedReader::new("").unwrap_err(), FeedError::MissingChannel);
    assert_eq!(FeedReader::new("<rss></rss>").unwrap_err(), FeedError::MissingChannel);
    assert_eq!(
        FeedReader::new("<feed><channel></channel></feed>").unwrap_err(),
        FeedError::MissingChannel
    );
}

#[test]
fn reader_reports_conversion_failures() {
    assert_eq!(
        FeedReader::new("<rss><channel><ttl>soon</ttl></channel></rss>").unwrap_err(),
        FeedError::StrToI64("soon".to_owned())
    );
    assert_eq!(
        FeedReader::new("<rss><channel><cloud port=\"-1\"/></channel></rss>").unwrap_err(),
        FeedError::StrToI64("-1".to_owned())
    );
    assert_eq!(
        FeedReader::new(
            "<rss><channel><item><title>t</title><guid isPermaLink=\"yes\">g</guid></item></channel></rss>"
        )
        .unwrap_err(),
        FeedError::StrToBool("yes".to_owned())
    );
    assert_eq!(
        FeedReader::new("<rss><channel><pubDate>today</pubDate></channel></rss>").unwrap_err(),
        FeedError::StrToDateTime("today".to_owned())
    );
    assert_eq!(
        FeedReader::new("<rss><channel><item><link>l</link></item></channel></rss>").unwrap_err(),
        FeedError::ItemRequiredField
    );
}

#[test]
fn guid_and_image_as_json() {
    let guid = GuidBuilder::new().guid("g").finalize();
    assert_eq!(get_guid(&guid).unwrap(), "{\"guid\":\"g\",\"permalink\":\"true\"}");
    let image = ImageBuilder::new().title("t").link("l").url("u").width(Some(-3)).finalize();
    assert_eq!(
        get_image(&image).unwrap(),
        "{\"height\":\"0\",\"link\":\"l\",\"title\":\"t\",\"url\":\"u\",\"width\":\"-3\"}"
    );
}

#[test]
fn minimal_channel_as_json() {
    let channel = ChannelBuilder::new().title("T").link("http://x").description("D").finalize().unwrap();
    let json = FeedWriter::new(channel).json().unwrap();
    let outer: serde_json::Value = serde_json::from_str(&json).unwrap();
    let feed = outer.get("feed").unwrap().as_object().unwrap();
    assert_eq!(feed.len(), 1);
    let rss: serde_json::Value = serde_json::from_str(feed["xml"].as_str().unwrap()).unwrap();
    assert_eq!(rss["version"], serde_json::Value::String("2.0".to_owned()));
    let inner = rss["channel"].as_str().unwrap();
    assert_eq!(inner, "{\"description\":\"D\",\"link\":\"http://x\",\"title\":\"T\"}");
}

#[test]
fn writing_succeeds_whatever_the_texts_hold() {
    let odd = "\u{0}<&>\"'\r\n\t\u{7f}\u{feff}é日 ]]> <!-- &amp;";
    let category = CategoryBuilder::new().category(odd).domain(Some(odd.to_owned())).finalize();
    let item = ItemBuilder::new().description(Some(odd.to_owned())).finalize().unwrap();
    let channel = ChannelBuilder::new()
        .title(odd)
        .rating(Some(odd.to_owned()))
        .categories(Some(vec![category]))
        .skip_days(Some(vec![odd.to_owned()]))
        .skip_hours(Some(vec![i64::MIN, i64::MAX]))
        .items(Some(vec![item]))
        .finalize()
        .unwrap();
    let writer = FeedWriter::new(channel);
    assert!(writer.xml().is_ok());
    let json = writer.json();
    assert!(json.is_ok());
    assert_eq!(writer.json(), json);
    let parsed: serde_json::Value = serde_json::from_str(&json.unwrap()).unwrap();
    assert!(parsed["feed"]["xml"].is_string());
}

#[test]
fn upstream_rules() {
    assert_eq!(FeedBuilder::check_url("http://x/feed.xml"), Ok(()));
    assert_eq!(FeedBuilder::check_url("http://x/feed.rss"), Err(FeedError::MissingXml));
    assert_eq!(FeedBuilder::check_url("xml"), Err(FeedError::MissingXml));
    assert_eq!(FeedBuilder::check_url(".xml"), Ok(()));
    let mut builder = FeedBuilder::new();
    let body = b"<rss><channel><title>T</title></channel></rss>";
    assert_eq!(builder.read_from_response("http://x/feed", body), Err(FeedError::MissingXml));
    assert_eq!(builder.read_from_response("http://x/a.xml", &[0xff, 0xfe]), Err(FeedError::Utf8ToStr));
    assert_eq!(builder.finalize().channel().title(), "");
    assert_eq!(builder.read_from_response("http://x/a.xml", body), Ok(()));
    assert_eq!(builder.finalize().channel().title(), "T");
}
