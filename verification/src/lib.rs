//! An RSS 2.0 feed model with validated builders and XML and JSON transcoding.
//!
//! A `Feed` holds one `Channel`. Channels and what they hold are made by
//! builders, read from the text of an RSS document by a `FeedReader`, and
//! written as XML or JSON by a `FeedWriter`. Fetching a document is left to
//! the caller: the library says which addresses may be fetched and takes the
//! bytes that came back.

pub mod errors;
pub mod feedio;
pub mod rss;
pub mod util;

use vstd::prelude::*;
use vstd::string::StringSliceAdditionalSpecFns;
use vstd::utf8::{decode_utf8, encode_utf8_decode_utf8, encode_utf8_valid_utf8, valid_utf8};
use crate::errors::{Failure, FeedError};
use crate::feedio::{decoded, encoded, FeedReader, FeedWriter};
use crate::rss::channel::{Channel, ChannelBuilder, ChannelDraft, ChannelModel};
use crate::util::text::chars_of;

verus! {

#[verifier::external_type_specification]
#[verifier::external_body]
pub struct ExUtf8Error(std::str::Utf8Error);

/// Calls std's `str::from_utf8`: the text whose UTF-8 bytes are the ones
/// given, or an error where the bytes are not UTF-8.
#[verifier::external_body]
fn utf8_text(bytes: &[u8]) -> (r: Result<&str, std::str::Utf8Error>)
    ensures
        match r {
            Ok(text) => text.spec_bytes() == bytes@,
            Err(_) => !valid_utf8(bytes@),
        },
{
    std::str::from_utf8(bytes)
}

/// Whether an address ends in `.xml`.
pub open spec fn has_xml_extension(url: Seq<char>) -> bool {
    url.len() >= 4 && url.subrange(url.len() - 4, url.len() as int) == seq!['.', 'x', 'm', 'l']
}

/// The channel of a channel builder on which nothing was set.
pub open spec fn empty_channel() -> ChannelModel {
    ChannelDraft::unset().with_dates(None, None)
}

/// What comes of the bytes that an address gave: nothing is read from an
/// address that does not end in `.xml`, nor from bytes that are not UTF-8.
pub open spec fn response_channel(url: Seq<char>, body: Seq<u8>) -> Result<ChannelModel, Failure> {
    if !has_xml_extension(url) {
        Err(Failure::MissingXml)
    } else if !valid_utf8(body) {
        Err(Failure::Utf8ToStr)
    } else {
        decoded(decode_utf8(body))
    }
}

/// A feed: one channel with its items.
#[derive(Debug)]
pub struct Feed {
    channel: Channel,
}

impl View for Feed {
    type V = ChannelModel;

    closed spec fn view(&self) -> ChannelModel {
        self.channel@
    }
}

impl Clone for Feed {
    fn clone(&self) -> (r: Self)
        ensures
            r@ == self@,
    {
        Feed { channel: self.channel.clone() }
    }
}

impl Feed {
    /// The channel of the feed.
    pub fn channel(self) -> (r: Channel)
        ensures
            r@ == self@,
    {
        self.channel
    }

    /// The feed as an RSS 2.0 document in UTF-8, the XML declaration first.
    ///
    /// Always succeeds: the document is written to a vector of bytes, which
    /// refuses no tag and no text.
    pub fn to_xml(&self) -> (r: Result<Vec<u8>, FeedError>)
        ensures
            r matches Ok(bytes) && bytes@ == encoded(self@),
    {
        FeedWriter::new(self.channel.clone()).xml()
    }
}

/// Makes a `Feed` from a channel or from the bytes of a fetched document.
#[derive(Debug)]
pub struct FeedBuilder {
    channel: Channel,
}

impl View for FeedBuilder {
    type V = ChannelModel;

    closed spec fn view(&self) -> ChannelModel {
        self.channel@
    }
}

impl Default for FeedBuilder {
    fn default() -> (r: Self)
        ensures
            r@ == empty_channel(),
    {
        FeedBuilder::new()
    }
}

impl FeedBuilder {
    /// A builder that holds an empty channel.
    pub fn new() -> (r: FeedBuilder)
        ensures
            r@ == empty_channel(),
    {
        match ChannelBuilder::new().finalize() {
            Ok(channel) => FeedBuilder { channel },
            Err(_) => vstd::pervasive::unreached(),
        }
    }

    /// Sets the channel.
    pub fn channel(&mut self, channel: Channel) -> (r: &mut FeedBuilder)
        ensures
            r@ == channel@,
            *final(self) == *final(r),
    {
        self.channel = channel;
        self
    }

    /// Whether a document may be fetched from an address: only where the
    /// address ends in `.xml`. Every other address fails with `MissingXml`,
    /// before anything is fetched.
    pub fn check_url(url: &str) -> (r: Result<(), FeedError>)
        ensures
            match r {
                Ok(()) => has_xml_extension(url@),
                Err(e) => !has_xml_extension(url@) && e@ == Failure::MissingXml,
            },
    {
        let chars = chars_of(url);
        let n = chars.len();
        if n >= 4 && chars[n - 4] == '.' && chars[n - 3] == 'x' && chars[n - 2] == 'm' && chars[n
            - 1] == 'l' {
            assert(url@.subrange(n - 4, n as int) =~= seq!['.', 'x', 'm', 'l']);
            Ok(())
        } else {
            if n >= 4 {
                let ghost tail = url@.subrange(n - 4, n as int);
                assert(tail[0] == chars[n - 4] && tail[1] == chars[n - 3] && tail[2] == chars[n
                    - 2] && tail[3] == chars[n - 1]);
            }
            Err(FeedError::MissingXml)
        }
    }

    /// Sets the channel from the bytes that the address `url` gave.
    ///
    /// Fails with `MissingXml` where the address does not end in `.xml`,
    /// whatever the bytes are, with `Utf8ToStr` where the bytes are not
    /// UTF-8, and as `FeedReader::new` does where they are no RSS document.
    /// A builder that failed holds what it held before.
    pub fn read_from_response(&mut self, url: &str, body: &[u8]) -> (r: Result<(), FeedError>)
        ensures
            match r {
                Ok(()) => response_channel(url@, body@) == Ok::<_, Failure>(final(self)@),
                Err(e) => response_channel(url@, body@) == Err::<ChannelModel, _>(e@)
                    && *final(self) == *old(self),
            },
    {
        match FeedBuilder::check_url(url) {
            Ok(()) => {},
            Err(e) => {
                return Err(e);
            },
        }
        let text = match utf8_text(body) {
            Ok(text) => text,
            Err(_) => {
                return Err(FeedError::Utf8ToStr);
            },
        };
        proof {
            encode_utf8_valid_utf8(text@);
            encode_utf8_decode_utf8(text@);
        }
        match FeedReader::new(text) {
            Ok(reader) => {
                self.channel = reader.channel();
                Ok(())
            },
            Err(e) => Err(e),
        }
    }

    /// The feed with the channel as it stands.
    pub fn finalize(&self) -> (r: Feed)
        ensures
            r@ == self@,
    {
        Feed { channel: self.channel.clone() }
    }
}

} // verus!
