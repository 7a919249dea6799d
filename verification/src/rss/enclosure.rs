//! A media object attached to an item.

use vstd::prelude::*;
use crate::util::text::text_of;

verus! {

/// What an `Enclosure` holds.
pub struct EnclosureModel {
    pub url: Seq<char>,
    pub length: u64,
    pub enclosure_type: Seq<char>,
}

impl EnclosureModel {
    /// The fields of a builder on which nothing was set.
    pub open spec fn unset() -> EnclosureModel {
        EnclosureModel {
            url: Seq::empty(),
            length: 0,
            enclosure_type: Seq::empty(),
        }
    }
}

/// A media object attached to an item.
#[derive(Debug, PartialEq, Eq)]
pub struct Enclosure {
    url: String,
    length: u64,
    enclosure_type: String,
}

impl DeepView for Enclosure {
    type V = EnclosureModel;

    closed spec fn deep_view(&self) -> EnclosureModel {
        EnclosureModel {
            url: self.url@,
            length: self.length,
            enclosure_type: self.enclosure_type@,
        }
    }
}

impl View for Enclosure {
    type V = EnclosureModel;

    open spec fn view(&self) -> EnclosureModel {
        self.deep_view()
    }
}

/// Gathers the fields of an `Enclosure`. No field is checked against another:
/// one that was never set stays empty, zero or absent.
#[derive(Debug)]
pub struct EnclosureBuilder {
    url: String,
    length: u64,
    enclosure_type: String,
}

impl DeepView for EnclosureBuilder {
    type V = EnclosureModel;

    closed spec fn deep_view(&self) -> EnclosureModel {
        EnclosureModel {
            url: self.url@,
            length: self.length,
            enclosure_type: self.enclosure_type@,
        }
    }
}

impl View for EnclosureBuilder {
    type V = EnclosureModel;

    open spec fn view(&self) -> EnclosureModel {
        self.deep_view()
    }
}

impl Clone for Enclosure {
    fn clone(&self) -> (r: Self)
        ensures
            r@ == self@,
    {
        Enclosure {
            url: self.url.clone(),
            length: self.length,
            enclosure_type: self.enclosure_type.clone(),
        }
    }
}

impl Enclosure {
    /// Where the object is.
    pub fn url(&self) -> (r: String)
        ensures
            r@ == self@.url,
    {
        self.url.clone()
    }

    /// Its size in bytes.
    pub fn length(&self) -> (r: u64)
        ensures
            r == self@.length,
    {
        self.length
    }

    /// Its MIME type.
    pub fn enclosure_type(&self) -> (r: String)
        ensures
            r@ == self@.enclosure_type,
    {
        self.enclosure_type.clone()
    }
}

impl Clone for EnclosureBuilder {
    fn clone(&self) -> (r: Self)
        ensures
            r@ == self@,
    {
        EnclosureBuilder {
            url: self.url.clone(),
            length: self.length,
            enclosure_type: self.enclosure_type.clone(),
        }
    }
}

impl Default for EnclosureBuilder {
    fn default() -> (r: Self)
        ensures
            r@ == EnclosureModel::unset(),
    {
        EnclosureBuilder::new()
    }
}

impl EnclosureBuilder {
    /// A builder on which nothing is set yet.
    pub fn new() -> (r: EnclosureBuilder)
        ensures
            r@ == EnclosureModel::unset(),
    {
        EnclosureBuilder {
            url: String::new(),
            length: 0,
            enclosure_type: String::new(),
        }
    }

    /// Sets where the object is.
    pub fn url(&mut self, url: &str) -> (r: &mut EnclosureBuilder)
        ensures
            r@ == (EnclosureModel {
                url: url@,
                ..old(self)@
            }),
            *final(self) == *final(r),
    {
        self.url = text_of(url);
        self
    }

    /// Sets its size in bytes.
    pub fn length(&mut self, length: u64) -> (r: &mut EnclosureBuilder)
        ensures
            r@ == (EnclosureModel {
                length: length,
                ..old(self)@
            }),
            *final(self) == *final(r),
    {
        self.length = length;
        self
    }

    /// Sets its MIME type.
    pub fn enclosure_type(&mut self, enclosure_type: &str) -> (r: &mut EnclosureBuilder)
        ensures
            r@ == (EnclosureModel {
                enclosure_type: enclosure_type@,
                ..old(self)@
            }),
            *final(self) == *final(r),
    {
        self.enclosure_type = text_of(enclosure_type);
        self
    }

    /// The `Enclosure` with the fields as they stand. Never fails.
    pub fn finalize(&self) -> (r: Enclosure)
        ensures
            r@ == self@,
    {
        Enclosure {
            url: self.url.clone(),
            length: self.length,
            enclosure_type: self.enclosure_type.clone(),
        }
    }
}

} // verus!
