//! The channel that an item came from.

use vstd::prelude::*;
use crate::util::text::text_of;

verus! {

/// What a `Source` holds.
pub struct SourceModel {
    pub url: Seq<char>,
    pub source: Seq<char>,
}

impl SourceModel {
    /// The fields of a builder on which nothing was set.
    pub open spec fn unset() -> SourceModel {
        SourceModel {
            url: Seq::empty(),
            source: Seq::empty(),
        }
    }
}

/// The channel that an item was taken from.
#[derive(Debug, PartialEq, Eq)]
pub struct Source {
    url: String,
    source: String,
}

impl DeepView for Source {
    type V = SourceModel;

    closed spec fn deep_view(&self) -> SourceModel {
        SourceModel {
            url: self.url@,
            source: self.source@,
        }
    }
}

impl View for Source {
    type V = SourceModel;

    open spec fn view(&self) -> SourceModel {
        self.deep_view()
    }
}

/// Gathers the fields of a `Source`. No field is checked against another:
/// one that was never set stays empty, zero or absent.
#[derive(Debug)]
pub struct SourceBuilder {
    url: String,
    source: String,
}

impl DeepView for SourceBuilder {
    type V = SourceModel;

    closed spec fn deep_view(&self) -> SourceModel {
        SourceModel {
            url: self.url@,
            source: self.source@,
        }
    }
}

impl View for SourceBuilder {
    type V = SourceModel;

    open spec fn view(&self) -> SourceModel {
        self.deep_view()
    }
}

impl Clone for Source {
    fn clone(&self) -> (r: Self)
        ensures
            r@ == self@,
    {
        Source {
            url: self.url.clone(),
            source: self.source.clone(),
        }
    }
}

impl Source {
    /// The address of that channel.
    pub fn url(&self) -> (r: String)
        ensures
            r@ == self@.url,
    {
        self.url.clone()
    }

    /// The title of that channel.
    pub fn source(&self) -> (r: String)
        ensures
            r@ == self@.source,
    {
        self.source.clone()
    }
}

impl Clone for SourceBuilder {
    fn clone(&self) -> (r: Self)
        ensures
            r@ == self@,
    {
        SourceBuilder {
            url: self.url.clone(),
            source: self.source.clone(),
        }
    }
}

impl Default for SourceBuilder {
    fn default() -> (r: Self)
        ensures
            r@ == SourceModel::unset(),
    {
        SourceBuilder::new()
    }
}

impl SourceBuilder {
    /// A builder on which nothing is set yet.
    pub fn new() -> (r: SourceBuilder)
        ensures
            r@ == SourceModel::unset(),
    {
        SourceBuilder {
            url: String::new(),
            source: String::new(),
        }
    }

    /// Sets the address of that channel.
    pub fn url(&mut self, url: &str) -> (r: &mut SourceBuilder)
        ensures
            r@ == (SourceModel {
                url: url@,
                ..old(self)@
            }),
            *final(self) == *final(r),
    {
        self.url = text_of(url);
        self
    }

    /// Sets the title of that channel.
    pub fn source(&mut self, source: &str) -> (r: &mut SourceBuilder)
        ensures
            r@ == (SourceModel {
                source: source@,
                ..old(self)@
            }),
            *final(self) == *final(r),
    {
        self.source = text_of(source);
        self
    }

    /// The `Source` with the fields as they stand. Never fails.
    pub fn finalize(&self) -> (r: Source)
        ensures
            r@ == self@,
    {
        Source {
            url: self.url.clone(),
            source: self.source.clone(),
        }
    }
}

} // verus!
