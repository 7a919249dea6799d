//! The names of the elements, attributes and keys that a feed is written with, told apart.

use vstd::prelude::*;

verus! {

/// A number for each name that an element, an attribute or a key of a
/// written feed has, and zero for every other text.
pub open spec fn name_code(name: Seq<char>) -> int {
    if name == "title"@ {
        1
    } else if name == "link"@ {
        2
    } else if name == "description"@ {
        3
    } else if name == "language"@ {
        4
    } else if name == "copyright"@ {
        5
    } else if name == "managingEditor"@ {
        6
    } else if name == "webMaster"@ {
        7
    } else if name == "pubDate"@ {
        8
    } else if name == "lastBuildDate"@ {
        9
    } else if name == "category"@ {
        10
    } else if name == "generator"@ {
        11
    } else if name == "docs"@ {
        12
    } else if name == "cloud"@ {
        13
    } else if name == "ttl"@ {
        14
    } else if name == "rating"@ {
        15
    } else if name == "item"@ {
        16
    } else if name == "image"@ {
        17
    } else if name == "textInput"@ {
        18
    } else if name == "skipHours"@ {
        19
    } else if name == "skipDays"@ {
        20
    } else if name == "author"@ {
        21
    } else if name == "comments"@ {
        22
    } else if name == "enclosure"@ {
        23
    } else if name == "guid"@ {
        24
    } else if name == "source"@ {
        25
    } else if name == "url"@ {
        26
    } else if name == "width"@ {
        27
    } else if name == "height"@ {
        28
    } else if name == "name"@ {
        29
    } else if name == "hour"@ {
        30
    } else if name == "day"@ {
        31
    } else if name == "domain"@ {
        32
    } else if name == "port"@ {
        33
    } else if name == "path"@ {
        34
    } else if name == "registerProcedure"@ {
        35
    } else if name == "protocol"@ {
        36
    } else if name == "length"@ {
        37
    } else if name == "type"@ {
        38
    } else if name == "isPermaLink"@ {
        39
    } else if name == "rss"@ {
        40
    } else if name == "channel"@ {
        41
    } else if name == "version"@ {
        42
    } else if name == "categories"@ {
        43
    } else if name == "items"@ {
        44
    } else {
        0
    }
}

/// No two of the names are the same text: each has the number of its own.
#[verifier::rlimit(50)]
pub proof fn lemma_name_codes()
    ensures
        name_code("title"@) == 1,
        name_code("link"@) == 2,
        name_code("description"@) == 3,
        name_code("language"@) == 4,
        name_code("copyright"@) == 5,
        name_code("managingEditor"@) == 6,
        name_code("webMaster"@) == 7,
        name_code("pubDate"@) == 8,
        name_code("lastBuildDate"@) == 9,
        name_code("category"@) == 10,
        name_code("generator"@) == 11,
        name_code("docs"@) == 12,
        name_code("cloud"@) == 13,
        name_code("ttl"@) == 14,
        name_code("rating"@) == 15,
        name_code("item"@) == 16,
        name_code("image"@) == 17,
        name_code("textInput"@) == 18,
        name_code("skipHours"@) == 19,
        name_code("skipDays"@) == 20,
        name_code("author"@) == 21,
        name_code("comments"@) == 22,
        name_code("enclosure"@) == 23,
        name_code("guid"@) == 24,
        name_code("source"@) == 25,
        name_code("url"@) == 26,
        name_code("width"@) == 27,
        name_code("height"@) == 28,
        name_code("name"@) == 29,
        name_code("hour"@) == 30,
        name_code("day"@) == 31,
        name_code("domain"@) == 32,
        name_code("port"@) == 33,
        name_code("path"@) == 34,
        name_code("registerProcedure"@) == 35,
        name_code("protocol"@) == 36,
        name_code("length"@) == 37,
        name_code("type"@) == 38,
        name_code("isPermaLink"@) == 39,
        name_code("rss"@) == 40,
        name_code("channel"@) == 41,
        name_code("version"@) == 42,
        name_code("categories"@) == 43,
        name_code("items"@) == 44,
{
    reveal_strlit("title");
    reveal_strlit("link");
    reveal_strlit("description");
    reveal_strlit("language");
    reveal_strlit("copyright");
    reveal_strlit("managingEditor");
    reveal_strlit("webMaster");
    reveal_strlit("pubDate");
    reveal_strlit("lastBuildDate");
    reveal_strlit("category");
    reveal_strlit("generator");
    reveal_strlit("docs");
    reveal_strlit("cloud");
    reveal_strlit("ttl");
    reveal_strlit("rating");
    reveal_strlit("item");
    reveal_strlit("image");
    reveal_strlit("textInput");
    reveal_strlit("skipHours");
    reveal_strlit("skipDays");
    reveal_strlit("author");
    reveal_strlit("comments");
    reveal_strlit("enclosure");
    reveal_strlit("guid");
    reveal_strlit("source");
    reveal_strlit("url");
    reveal_strlit("width");
    reveal_strlit("height");
    reveal_strlit("name");
    reveal_strlit("hour");
    reveal_strlit("day");
    reveal_strlit("domain");
    reveal_strlit("port");
    reveal_strlit("path");
    reveal_strlit("registerProcedure");
    reveal_strlit("protocol");
    reveal_strlit("length");
    reveal_strlit("type");
    reveal_strlit("isPermaLink");
    reveal_strlit("rss");
    reveal_strlit("channel");
    reveal_strlit("version");
    reveal_strlit("categories");
    reveal_strlit("items");
    assert("title"@.len() == 5);
    assert("link"@.len() == 4);
    assert("description"@.len() == 11);
    assert("language"@.len() == 8);
    assert("copyright"@.len() == 9);
    assert("managingEditor"@.len() == 14);
    assert("webMaster"@.len() == 9);
    assert("pubDate"@.len() == 7);
    assert("lastBuildDate"@.len() == 13);
    assert("category"@.len() == 8);
    assert("generator"@.len() == 9);
    assert("docs"@.len() == 4);
    assert("cloud"@.len() == 5);
    assert("ttl"@.len() == 3);
    assert("rating"@.len() == 6);
    assert("item"@.len() == 4);
    assert("image"@.len() == 5);
    assert("textInput"@.len() == 9);
    assert("skipHours"@.len() == 9);
    assert("skipDays"@.len() == 8);
    assert("author"@.len() == 6);
    assert("comments"@.len() == 8);
    assert("enclosure"@.len() == 9);
    assert("guid"@.len() == 4);
    assert("source"@.len() == 6);
    assert("url"@.len() == 3);
    assert("width"@.len() == 5);
    assert("height"@.len() == 6);
    assert("name"@.len() == 4);
    assert("hour"@.len() == 4);
    assert("day"@.len() == 3);
    assert("domain"@.len() == 6);
    assert("port"@.len() == 4);
    assert("path"@.len() == 4);
    assert("registerProcedure"@.len() == 17);
    assert("protocol"@.len() == 8);
    assert("length"@.len() == 6);
    assert("type"@.len() == 4);
    assert("isPermaLink"@.len() == 11);
    assert("rss"@.len() == 3);
    assert("channel"@.len() == 7);
    assert("version"@.len() == 7);
    assert("categories"@.len() == 10);
    assert("items"@.len() == 5);
    assert("title"@[0] == 't');
    assert("link"@[0] == 'l');
    assert("description"@[0] == 'd');
    assert("language"@[0] == 'l');
    assert("copyright"@[0] == 'c');
    assert("webMaster"@[0] == 'w');
    assert("pubDate"@[0] == 'p');
    assert("category"@[0] == 'c');
    assert("category"@[1] == 'a');
    assert("generator"@[0] == 'g');
    assert("docs"@[0] == 'd');
    assert("cloud"@[0] == 'c');
    assert("ttl"@[0] == 't');
    assert("rating"@[0] == 'r');
    assert("item"@[0] == 'i');
    assert("image"@[0] == 'i');
    assert("image"@[1] == 'm');
    assert("textInput"@[0] == 't');
    assert("skipHours"@[0] == 's');
    assert("skipDays"@[0] == 's');
    assert("author"@[0] == 'a');
    assert("comments"@[0] == 'c');
    assert("comments"@[1] == 'o');
    assert("enclosure"@[0] == 'e');
    assert("guid"@[0] == 'g');
    assert("source"@[0] == 's');
    assert("url"@[0] == 'u');
    assert("width"@[0] == 'w');
    assert("height"@[0] == 'h');
    assert("name"@[0] == 'n');
    assert("hour"@[0] == 'h');
    assert("day"@[0] == 'd');
    assert("domain"@[0] == 'd');
    assert("port"@[0] == 'p');
    assert("port"@[1] == 'o');
    assert("path"@[0] == 'p');
    assert("path"@[1] == 'a');
    assert("protocol"@[0] == 'p');
    assert("length"@[0] == 'l');
    assert("type"@[0] == 't');
    assert("isPermaLink"@[0] == 'i');
    assert("rss"@[0] == 'r');
    assert("channel"@[0] == 'c');
    assert("version"@[0] == 'v');
    assert("items"@[0] == 'i');
    assert("items"@[1] == 't');
}

} // verus!
