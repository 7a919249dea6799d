//! The identifier of an item.

use vstd::prelude::*;
use crate::util::text::text_of;

verus! {

/// What a `Guid` holds.
pub struct GuidModel {
    pub guid: Seq<char>,
    pub permalink: bool,
}

impl GuidModel {
    /// The fields of a builder on which nothing was set.
    pub open spec fn unset() -> GuidModel {
        GuidModel {
            guid: Seq::empty(),
            permalink: true,
        }
    }
}

/// A text that identifies an item; a permalink unless said otherwise.
#[derive(Debug, PartialEq, Eq)]
pub struct Guid {
    guid: String,
    permalink: bool,
}

impl DeepView for Guid {
    type V = GuidModel;

    closed spec fn deep_view(&self) -> GuidModel {
        GuidModel {
            guid: self.guid@,
            permalink: self.permalink,
        }
    }
}

impl View for Guid {
    type V = GuidModel;

    open spec fn view(&self) -> GuidModel {
        self.deep_view()
    }
}

/// Gathers the fields of a `Guid`. No field is checked against another:
/// one that was never set stays empty, zero or absent, and the permalink flag stays set.
#[derive(Debug)]
pub struct GuidBuilder {
    guid: String,
    permalink: bool,
}

impl DeepView for GuidBuilder {
    type V = GuidModel;

    closed spec fn deep_view(&self) -> GuidModel {
        GuidModel {
            guid: self.guid@,
            permalink: self.permalink,
        }
    }
}

impl View for GuidBuilder {
    type V = GuidModel;

    open spec fn view(&self) -> GuidModel {
        self.deep_view()
    }
}

impl Clone for Guid {
    fn clone(&self) -> (r: Self)
        ensures
            r@ == self@,
    {
        Guid {
            guid: self.guid.clone(),
            permalink: self.permalink,
        }
    }
}

impl Guid {
    /// The identifier.
    pub fn guid(&self) -> (r: String)
        ensures
            r@ == self@.guid,
    {
        self.guid.clone()
    }

    /// Whether the identifier is an address of the item.
    pub fn permalink(&self) -> (r: bool)
        ensures
            r == self@.permalink,
    {
        self.permalink
    }
}

impl Clone for GuidBuilder {
    fn clone(&self) -> (r: Self)
        ensures
            r@ == self@,
    {
        GuidBuilder {
            guid: self.guid.clone(),
            permalink: self.permalink,
        }
    }
}

impl Default for GuidBuilder {
    fn default() -> (r: Self)
        ensures
            r@ == GuidModel::unset(),
    {
        GuidBuilder::new()
    }
}

impl GuidBuilder {
    /// A builder on which nothing is set yet.
    pub fn new() -> (r: GuidBuilder)
        ensures
            r@ == GuidModel::unset(),
    {
        GuidBuilder {
            guid: String::new(),
            permalink: true,
        }
    }

    /// Sets the identifier.
    pub fn guid(&mut self, guid: &str) -> (r: &mut GuidBuilder)
        ensures
            r@ == (GuidModel {
                guid: guid@,
                ..old(self)@
            }),
            *final(self) == *final(r),
    {
        self.guid = text_of(guid);
        self
    }

    /// Sets whether the identifier is an address of the item. `None` sets `true`.
    pub fn permalink(&mut self, permalink: Option<bool>) -> (r: &mut GuidBuilder)
        ensures
            r@ == (GuidModel {
                permalink: match permalink {
                    Some(b) => b,
                    None => true,
                },
                ..old(self)@
            }),
            *final(self) == *final(r),
    {
        self.permalink = match permalink {
            Some(b) => b,
            None => true,
        };
        self
    }

    /// The `Guid` with the fields as they stand. Never fails.
    pub fn finalize(&self) -> (r: Guid)
        ensures
            r@ == self@,
    {
        Guid {
            guid: self.guid.clone(),
            permalink: self.permalink,
        }
    }
}

} // verus!
