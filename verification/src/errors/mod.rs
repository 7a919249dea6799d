//! Failure kinds of the feed model and the texts that describe them.

use vstd::prelude::*;
use vstd::string::StringExecFns;

verus! {

/// Every way in which building, decoding or encoding a feed can fail.
#[derive(Debug, PartialEq, Eq)]
pub enum FeedError {
    /// An item carries neither a title nor a description.
    ItemRequiredField,
    /// A date text is not an RFC 2822 date; holds the offending text.
    StrToDateTime(String),
    /// A number text is not a decimal integer of the field's range; holds the offending text.
    StrToI64(String),
    /// A flag text is neither `true` nor `false`; holds the offending text.
    StrToBool(String),
    /// The document's markup cannot be read.
    ElementToString,
    /// The document is readable markup but holds no `rss` element with a `channel` in it.
    MissingChannel,
    /// A start tag could not be written; holds the element's name.
    TagStart(String),
    /// An element's text could not be written; holds the element's name.
    TagText(String),
    /// An end tag could not be written; holds the element's name.
    TagEnd(String),
    /// A map could not be rendered as JSON; holds the map's name.
    JsonToString(String),
    /// The feed's address does not end in `.xml`.
    MissingXml,
    /// The feed could not be retrieved.
    Response,
    /// The retrieved bytes are not UTF-8.
    Utf8ToStr,
}

/// A failure as contracts speak of it: the kind, with the text it holds.
pub enum Failure {
    ItemRequiredField,
    StrToDateTime(Seq<char>),
    StrToI64(Seq<char>),
    StrToBool(Seq<char>),
    ElementToString,
    MissingChannel,
    TagStart(Seq<char>),
    TagText(Seq<char>),
    TagEnd(Seq<char>),
    JsonToString(Seq<char>),
    MissingXml,
    Response,
    Utf8ToStr,
}

impl View for FeedError {
    type V = Failure;

    open spec fn view(&self) -> Failure {
        match self {
            FeedError::ItemRequiredField => Failure::ItemRequiredField,
            FeedError::StrToDateTime(t) => Failure::StrToDateTime(t@),
            FeedError::StrToI64(t) => Failure::StrToI64(t@),
            FeedError::StrToBool(t) => Failure::StrToBool(t@),
            FeedError::ElementToString => Failure::ElementToString,
            FeedError::MissingChannel => Failure::MissingChannel,
            FeedError::TagStart(t) => Failure::TagStart(t@),
            FeedError::TagText(t) => Failure::TagText(t@),
            FeedError::TagEnd(t) => Failure::TagEnd(t@),
            FeedError::JsonToString(t) => Failure::JsonToString(t@),
            FeedError::MissingXml => Failure::MissingXml,
            FeedError::Response => Failure::Response,
            FeedError::Utf8ToStr => Failure::Utf8ToStr,
        }
    }
}

impl Clone for FeedError {
    fn clone(&self) -> (r: Self)
        ensures
            r@ == self@,
    {
        match self {
            FeedError::ItemRequiredField => FeedError::ItemRequiredField,
            FeedError::StrToDateTime(t) => FeedError::StrToDateTime(t.clone()),
            FeedError::StrToI64(t) => FeedError::StrToI64(t.clone()),
            FeedError::StrToBool(t) => FeedError::StrToBool(t.clone()),
            FeedError::ElementToString => FeedError::ElementToString,
            FeedError::MissingChannel => FeedError::MissingChannel,
            FeedError::TagStart(t) => FeedError::TagStart(t.clone()),
            FeedError::TagText(t) => FeedError::TagText(t.clone()),
            FeedError::TagEnd(t) => FeedError::TagEnd(t.clone()),
            FeedError::JsonToString(t) => FeedError::JsonToString(t.clone()),
            FeedError::MissingXml => FeedError::MissingXml,
            FeedError::Response => FeedError::Response,
            FeedError::Utf8ToStr => FeedError::Utf8ToStr,
        }
    }
}

/// The five families that the failure kinds fall into.
#[derive(Debug, Clone, Copy, PartialEq, Eq, Structural)]
pub enum ErrorClass {
    Validation,
    Conversion,
    Decode,
    Encode,
    Upstream,
}

pub fn utf8_to_str_error() -> (r: &'static str)
    ensures
        r@ == "Error converting utf8 to str"@,
{
    "Error converting utf8 to str"
}

pub fn str_to_bool_error() -> (r: &'static str)
    ensures
        r@ == "Error converting str to bool"@,
{
    "Error converting str to bool"
}

pub fn str_to_datetime_error() -> (r: &'static str)
    ensures
        r@ == "Error converting str to datetime"@,
{
    "Error converting str to datetime"
}

pub fn str_to_i64_error() -> (r: &'static str)
    ensures
        r@ == "Error converting str to i64"@,
{
    "Error converting str to i64"
}

pub fn element_to_string_error() -> (r: &'static str)
    ensures
        r@ == "Error converting element to string"@,
{
    "Error converting element to string"
}

pub fn missing_channel_error() -> (r: &'static str)
    ensures
        r@ == "Document holds no rss channel"@,
{
    "Document holds no rss channel"
}

pub fn response_error() -> (r: &'static str)
    ensures
        r@ == "Error retrieving response"@,
{
    "Error retrieving response"
}

pub fn missing_xml_error() -> (r: &'static str)
    ensures
        r@ == "Url must end with .xml"@,
{
    "Url must end with .xml"
}

pub fn item_required_field_error() -> (r: &'static str)
    ensures
        r@ == "Either Title or Description must have a value"@,
{
    "Either Title or Description must have a value"
}

pub fn tag_start_error(tag: &str) -> (r: String)
    ensures
        r@ == "Error creating start tag for "@ + tag@,
{
    let mut text = String::from_str("Error creating start tag for ");
    text.append(tag);
    text
}

pub fn tag_text_error(tag: &str) -> (r: String)
    ensures
        r@ == "Error creating text for "@ + tag@,
{
    let mut text = String::from_str("Error creating text for ");
    text.append(tag);
    text
}

pub fn tag_end_error(tag: &str) -> (r: String)
    ensures
        r@ == "Error creating end tag for "@ + tag@,
{
    let mut text = String::from_str("Error creating end tag for ");
    text.append(tag);
    text
}

pub fn json_to_string_error(name: &str) -> (r: String)
    ensures
        r@ == "Error converting json to string for "@ + name@,
{
    let mut text = String::from_str("Error converting json to string for ");
    text.append(name);
    text
}

impl FeedError {
    /// The family of this failure.
    pub open spec fn class_spec(self) -> ErrorClass {
        match self {
            FeedError::ItemRequiredField => ErrorClass::Validation,
            FeedError::StrToDateTime(_) | FeedError::StrToI64(_) | FeedError::StrToBool(_) =>
                ErrorClass::Conversion,
            FeedError::ElementToString | FeedError::MissingChannel => ErrorClass::Decode,
            FeedError::TagStart(_) | FeedError::TagText(_) | FeedError::TagEnd(_)
            | FeedError::JsonToString(_) => ErrorClass::Encode,
            FeedError::MissingXml | FeedError::Response | FeedError::Utf8ToStr =>
                ErrorClass::Upstream,
        }
    }

    /// The text that describes this failure, without the offending value.
    pub open spec fn message_spec(self) -> Seq<char> {
        match self {
            FeedError::ItemRequiredField => "Either Title or Description must have a value"@,
            FeedError::StrToDateTime(_) => "Error converting str to datetime"@,
            FeedError::StrToI64(_) => "Error converting str to i64"@,
            FeedError::StrToBool(_) => "Error converting str to bool"@,
            FeedError::ElementToString => "Error converting element to string"@,
            FeedError::MissingChannel => "Document holds no rss channel"@,
            FeedError::TagStart(tag) => "Error creating start tag for "@ + tag@,
            FeedError::TagText(tag) => "Error creating text for "@ + tag@,
            FeedError::TagEnd(tag) => "Error creating end tag for "@ + tag@,
            FeedError::JsonToString(name) => "Error converting json to string for "@ + name@,
            FeedError::MissingXml => "Url must end with .xml"@,
            FeedError::Response => "Error retrieving response"@,
            FeedError::Utf8ToStr => "Error converting utf8 to str"@,
        }
    }

    pub fn class(&self) -> (r: ErrorClass)
        ensures
            r == self.class_spec(),
    {
        match self {
            FeedError::ItemRequiredField => ErrorClass::Validation,
            FeedError::StrToDateTime(_) | FeedError::StrToI64(_) | FeedError::StrToBool(_) =>
                ErrorClass::Conversion,
            FeedError::ElementToString | FeedError::MissingChannel => ErrorClass::Decode,
            FeedError::TagStart(_) | FeedError::TagText(_) | FeedError::TagEnd(_)
            | FeedError::JsonToString(_) => ErrorClass::Encode,
            FeedError::MissingXml | FeedError::Response | FeedError::Utf8ToStr =>
                ErrorClass::Upstream,
        }
    }

    pub fn message(&self) -> (r: String)
        ensures
            r@ == self.message_spec(),
    {
        match self {
            FeedError::ItemRequiredField => String::from_str(item_required_field_error()),
            FeedError::StrToDateTime(_) => String::from_str(str_to_datetime_error()),
            FeedError::StrToI64(_) => String::from_str(str_to_i64_error()),
            FeedError::StrToBool(_) => String::from_str(str_to_bool_error()),
            FeedError::ElementToString => String::from_str(element_to_string_error()),
            FeedError::MissingChannel => String::from_str(missing_channel_error()),
            FeedError::TagStart(tag) => tag_start_error(tag.as_str()),
            FeedError::TagText(tag) => tag_text_error(tag.as_str()),
            FeedError::TagEnd(tag) => tag_end_error(tag.as_str()),
            FeedError::JsonToString(name) => json_to_string_error(name.as_str()),
            FeedError::MissingXml => String::from_str(missing_xml_error()),
            FeedError::Response => String::from_str(response_error()),
            FeedError::Utf8ToStr => String::from_str(utf8_to_str_error()),
        }
    }
}

} // verus!
