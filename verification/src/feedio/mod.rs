//! Reading a channel from XML text and writing it as XML or as JSON.

pub mod cuts;
pub mod decode;
pub mod elements;
pub mod encode;
pub mod json;
pub mod json_map;
pub mod names;
pub mod round_trip;
pub mod token;
pub mod xml_reader;
pub mod xml_writer;

use vstd::prelude::*;
use crate::errors::{Failure, FeedError};
use crate::feedio::decode::{decode_tokens, document_channel};
use crate::feedio::encode::{document_tokens, encode_tokens};
use crate::feedio::json::{document_json, get_document};
use crate::feedio::json_map::json_result;
use crate::feedio::xml_reader::{text_tokens, tokenize};
use crate::feedio::xml_writer::{document_bytes, write_document};
use crate::rss::channel::{Channel, ChannelModel};

verus! {

/// The channel that the text of an RSS document stands for.
///
/// The text is cut into tokens and the tokens are read into a channel; a
/// text that cannot be cut is unreadable.
pub open spec fn decoded(text: Seq<char>) -> Result<ChannelModel, Failure> {
    match text_tokens(text) {
        Some(tokens) => document_channel(tokens),
        None => Err(Failure::ElementToString),
    }
}

/// The bytes of the RSS document of a channel.
pub open spec fn encoded(channel: ChannelModel) -> Seq<u8> {
    document_bytes(document_tokens(channel))
}

/// Reads the channel of an RSS document.
#[derive(Debug)]
pub struct FeedReader {
    channel: Channel,
}

impl View for FeedReader {
    type V = ChannelModel;

    closed spec fn view(&self) -> ChannelModel {
        self.channel@
    }
}

impl FeedReader {
    /// Reads the text of a whole RSS document.
    ///
    /// Fails with `ElementToString` where the markup cannot be read, with
    /// `MissingChannel` where there is no channel in it, with a conversion
    /// failure where a number, a flag or a date does not read as one, and
    /// with `ItemRequiredField` where an item has neither title nor
    /// description. No channel is made of a document that fails.
    pub fn new(feed: &str) -> (r: Result<FeedReader, FeedError>)
        ensures
            match r {
                Ok(reader) => decoded(feed@) == Ok::<_, Failure>(reader@),
                Err(e) => decoded(feed@) == Err::<ChannelModel, _>(e@),
            },
    {
        let tokens = match tokenize(feed) {
            Ok(tokens) => tokens,
            Err(e) => {
                return Err(e);
            },
        };
        match decode_tokens(&tokens) {
            Ok(channel) => Ok(FeedReader { channel }),
            Err(e) => Err(e),
        }
    }

    /// The channel that was read.
    pub fn channel(self) -> (r: Channel)
        ensures
            r@ == self@,
    {
        self.channel
    }
}

/// Writes a channel as an RSS document or as a JSON document.
#[derive(Debug)]
pub struct FeedWriter {
    channel: Channel,
}

impl View for FeedWriter {
    type V = ChannelModel;

    closed spec fn view(&self) -> ChannelModel {
        self.channel@
    }
}

impl FeedWriter {
    /// A writer for the channel.
    pub fn new(channel: Channel) -> (r: FeedWriter)
        ensures
            r@ == channel@,
    {
        FeedWriter { channel }
    }

    /// The channel as an RSS 2.0 document in UTF-8, the XML declaration first.
    ///
    /// Always succeeds: the document is written to a vector of bytes, which
    /// refuses no tag and no text. `TagStart`, `TagText` and `TagEnd` are
    /// what a writer that did refuse one would be reported with.
    pub fn xml(&self) -> (r: Result<Vec<u8>, FeedError>)
        ensures
            r matches Ok(bytes) && bytes@ == encoded(self@),
    {
        let tokens = encode_tokens(&self.channel);
        write_document(&tokens)
    }

    /// The channel as a JSON document. Always succeeds: serde_json writes
    /// every map from text to text. `JsonToString` is what a failure of
    /// serde_json would be reported with.
    pub fn json(&self) -> (r: Result<String, FeedError>)
        ensures
            json_result(r, document_json(self@)),
    {
        get_document(&self.channel)
    }
}

} // verus!
