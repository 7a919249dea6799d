//! The text input box shown with a channel.

use vstd::prelude::*;
use crate::util::text::text_of;

verus! {

/// What a `TextInput` holds.
pub struct TextInputModel {
    pub title: Seq<char>,
    pub description: Seq<char>,
    pub name: Seq<char>,
    pub link: Seq<char>,
}

impl TextInputModel {
    /// The fields of a builder on which nothing was set.
    pub open spec fn unset() -> TextInputModel {
        TextInputModel {
            title: Seq::empty(),
            description: Seq::empty(),
            name: Seq::empty(),
            link: Seq::empty(),
        }
    }
}

/// A text input box that a reader may show with the channel.
#[derive(Debug, PartialEq, Eq)]
pub struct TextInput {
    title: String,
    description: String,
    name: String,
    link: String,
}

impl DeepView for TextInput {
    type V = TextInputModel;

    closed spec fn deep_view(&self) -> TextInputModel {
        TextInputModel {
            title: self.title@,
            description: self.description@,
            name: self.name@,
            link: self.link@,
        }
    }
}

impl View for TextInput {
    type V = TextInputModel;

    open spec fn view(&self) -> TextInputModel {
        self.deep_view()
    }
}

/// Gathers the fields of a `TextInput`. No field is checked against another:
/// one that was never set stays empty, zero or absent.
#[derive(Debug)]
pub struct TextInputBuilder {
    title: String,
    description: String,
    name: String,
    link: String,
}

impl DeepView for TextInputBuilder {
    type V = TextInputModel;

    closed spec fn deep_view(&self) -> TextInputModel {
        TextInputModel {
            title: self.title@,
            description: self.description@,
            name: self.name@,
            link: self.link@,
        }
    }
}

impl View for TextInputBuilder {
    type V = TextInputModel;

    open spec fn view(&self) -> TextInputModel {
        self.deep_view()
    }
}

impl Clone for TextInput {
    fn clone(&self) -> (r: Self)
        ensures
            r@ == self@,
    {
        TextInput {
            title: self.title.clone(),
            description: self.description.clone(),
            name: self.name.clone(),
            link: self.link.clone(),
        }
    }
}

impl TextInput {
    /// The label of the submit button.
    pub fn title(&self) -> (r: String)
        ensures
            r@ == self@.title,
    {
        self.title.clone()
    }

    /// What the box is for.
    pub fn description(&self) -> (r: String)
        ensures
            r@ == self@.description,
    {
        self.description.clone()
    }

    /// The name of the text object in the box.
    pub fn name(&self) -> (r: String)
        ensures
            r@ == self@.name,
    {
        self.name.clone()
    }

    /// The address that handles what is entered.
    pub fn link(&self) -> (r: String)
        ensures
            r@ == self@.link,
    {
        self.link.clone()
    }
}

impl Clone for TextInputBuilder {
    fn clone(&self) -> (r: Self)
        ensures
            r@ == self@,
    {
        TextInputBuilder {
            title: self.title.clone(),
            description: self.description.clone(),
            name: self.name.clone(),
            link: self.link.clone(),
        }
    }
}

impl Default for TextInputBuilder {
    fn default() -> (r: Self)
        ensures
            r@ == TextInputModel::unset(),
    {
        TextInputBuilder::new()
    }
}

impl TextInputBuilder {
    /// A builder on which nothing is set yet.
    pub fn new() -> (r: TextInputBuilder)
        ensures
            r@ == TextInputModel::unset(),
    {
        TextInputBuilder {
            title: String::new(),
            description: String::new(),
            name: String::new(),
            link: String::new(),
        }
    }

    /// Sets the label of the submit button.
    pub fn title(&mut self, title: &str) -> (r: &mut TextInputBuilder)
        ensures
            r@ == (TextInputModel {
                title: title@,
                ..old(self)@
            }),
            *final(self) == *final(r),
    {
        self.title = text_of(title);
        self
    }

    /// Sets what the box is for.
    pub fn description(&mut self, description: &str) -> (r: &mut TextInputBuilder)
        ensures
            r@ == (TextInputModel {
                description: description@,
                ..old(self)@
            }),
            *final(self) == *final(r),
    {
        self.description = text_of(description);
        self
    }

    /// Sets the name of the text object in the box.
    pub fn name(&mut self, name: &str) -> (r: &mut TextInputBuilder)
        ensures
            r@ == (TextInputModel {
                name: name@,
                ..old(self)@
            }),
            *final(self) == *final(r),
    {
        self.name = text_of(name);
        self
    }

    /// Sets the address that handles what is entered.
    pub fn link(&mut self, link: &str) -> (r: &mut TextInputBuilder)
        ensures
            r@ == (TextInputModel {
                link: link@,
                ..old(self)@
            }),
            *final(self) == *final(r),
    {
        self.link = text_of(link);
        self
    }

    /// The `TextInput` with the fields as they stand. Never fails.
    pub fn finalize(&self) -> (r: TextInput)
        ensures
            r@ == self@,
    {
        TextInput {
            title: self.title.clone(),
            description: self.description.clone(),
            name: self.name.clone(),
            link: self.link.clone(),
        }
    }
}

} // verus!
