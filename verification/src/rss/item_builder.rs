//! An entry of a channel, and the builder that checks it.

use vstd::prelude::*;
use crate::errors::{Failure, FeedError};
use crate::rss::category::{copy_categories, pushed, Category, CategoryModel};
use crate::rss::enclosure::{Enclosure, EnclosureModel};
use crate::rss::guid::{Guid, GuidModel};
use crate::rss::source::{Source, SourceModel};
use crate::util::date::{option_string_to_option_date, optional_instant, DateTime, Instant};
use crate::util::text::copy_text;

verus! {

/// What an `Item` holds.
pub struct ItemModel {
    pub title: Option<Seq<char>>,
    pub link: Option<Seq<char>>,
    pub description: Option<Seq<char>>,
    pub author: Option<Seq<char>>,
    pub categories: Option<Seq<CategoryModel>>,
    pub comments: Option<Seq<char>>,
    pub enclosure: Option<EnclosureModel>,
    pub guid: Option<GuidModel>,
    pub pub_date: Option<Instant>,
    pub source: Option<SourceModel>,
}

/// What an `ItemBuilder` holds: the fields as they were set, dates still as text.
pub struct ItemDraft {
    pub title: Option<Seq<char>>,
    pub link: Option<Seq<char>>,
    pub description: Option<Seq<char>>,
    pub author: Option<Seq<char>>,
    pub categories: Option<Seq<CategoryModel>>,
    pub comments: Option<Seq<char>>,
    pub enclosure: Option<EnclosureModel>,
    pub guid: Option<GuidModel>,
    pub pub_date: Option<Seq<char>>,
    pub source: Option<SourceModel>,
}

impl ItemDraft {
    /// The fields of a builder on which nothing was set.
    pub open spec fn unset() -> ItemDraft {
        ItemDraft {
            title: None,
            link: None,
            description: None,
            author: None,
            categories: None,
            comments: None,
            enclosure: None,
            guid: None,
            pub_date: None,
            source: None,
        }
    }

    /// Whether the one rule across fields holds: a title or a description is there.
    pub open spec fn has_required(self) -> bool {
        self.title is Some || self.description is Some
    }

    /// The fields with the dates `pub_date` in place of their texts.
    pub open spec fn with_dates(self, pub_date: Option<Instant>) -> ItemModel {
        ItemModel {
            title: self.title,
            link: self.link,
            description: self.description,
            author: self.author,
            categories: self.categories,
            comments: self.comments,
            enclosure: self.enclosure,
            guid: self.guid,
            pub_date,
            source: self.source,
        }
    }

    /// What `finalize` makes of these fields.
    pub open spec fn finalized(self) -> Result<ItemModel, Failure> {
        if !self.has_required() {
            Err(Failure::ItemRequiredField)
        } else {
            match optional_instant(self.pub_date) {
                Err(e) => Err(e),
                Ok(pub_date) => Ok(self.with_dates(pub_date)),
            }
        }
    }
}

impl ItemModel {
    /// Whether the one rule across fields holds: a title or a description is there.
    pub open spec fn valid(self) -> bool {
        self.title is Some || self.description is Some
    }
}

/// One entry of a channel: an article, an episode. It has a title or a description, mostly both.
#[derive(Debug, PartialEq, Eq)]
pub struct Item {
    title: Option<String>,
    link: Option<String>,
    description: Option<String>,
    author: Option<String>,
    categories: Option<Vec<Category>>,
    comments: Option<String>,
    enclosure: Option<Enclosure>,
    guid: Option<Guid>,
    pub_date: Option<DateTime>,
    source: Option<Source>,
}

impl DeepView for Item {
    type V = ItemModel;

    closed spec fn deep_view(&self) -> ItemModel {
        ItemModel {
            title: self.title.deep_view(),
            link: self.link.deep_view(),
            description: self.description.deep_view(),
            author: self.author.deep_view(),
            categories: self.categories.deep_view(),
            comments: self.comments.deep_view(),
            enclosure: self.enclosure.deep_view(),
            guid: self.guid.deep_view(),
            pub_date: self.pub_date.deep_view(),
            source: self.source.deep_view(),
        }
    }
}

impl View for Item {
    type V = ItemModel;

    open spec fn view(&self) -> ItemModel {
        self.deep_view()
    }
}

/// Gathers the fields of an `Item`; `finalize` checks them and reads the dates.
#[derive(Debug)]
pub struct ItemBuilder {
    title: Option<String>,
    link: Option<String>,
    description: Option<String>,
    author: Option<String>,
    categories: Option<Vec<Category>>,
    comments: Option<String>,
    enclosure: Option<Enclosure>,
    guid: Option<Guid>,
    pub_date: Option<String>,
    source: Option<Source>,
}

impl DeepView for ItemBuilder {
    type V = ItemDraft;

    closed spec fn deep_view(&self) -> ItemDraft {
        ItemDraft {
            title: self.title.deep_view(),
            link: self.link.deep_view(),
            description: self.description.deep_view(),
            author: self.author.deep_view(),
            categories: self.categories.deep_view(),
            comments: self.comments.deep_view(),
            enclosure: self.enclosure.deep_view(),
            guid: self.guid.deep_view(),
            pub_date: self.pub_date.deep_view(),
            source: self.source.deep_view(),
        }
    }
}

impl View for ItemBuilder {
    type V = ItemDraft;

    open spec fn view(&self) -> ItemDraft {
        self.deep_view()
    }
}

impl Clone for Item {
    fn clone(&self) -> (r: Self)
        ensures
            r@ == self@,
    {
        proof {
            use_type_invariant(self);
        }
        Item {
            title: copy_text(&self.title),
            link: copy_text(&self.link),
            description: copy_text(&self.description),
            author: copy_text(&self.author),
            categories: copy_categories(&self.categories),
            comments: copy_text(&self.comments),
            enclosure: self.enclosure.clone(),
            guid: self.guid.clone(),
            pub_date: self.pub_date,
            source: self.source.clone(),
        }
    }
}

/// A copy of a list of items that may be absent.
pub fn copy_items(a: &Option<Vec<Item>>) -> (r: Option<Vec<Item>>)
    ensures
        r.deep_view() == a.deep_view(),
{
    match a {
        Some(list) => {
            let copy = list.clone();
            assert(copy.deep_view() =~= list.deep_view());
            Some(copy)
        },
        None => None,
    }
}

impl Item {
    /// Every item has a title or a description.
    #[verifier::type_invariant]
    pub open spec fn well_formed(self) -> bool {
        self@.valid()
    }

    /// The title of the item.
    pub fn title(&self) -> (r: Option<String>)
        ensures
            r.deep_view() == self@.title,
    {
        copy_text(&self.title)
    }

    /// The address of the item.
    pub fn link(&self) -> (r: Option<String>)
        ensures
            r.deep_view() == self@.link,
    {
        copy_text(&self.link)
    }

    /// The synopsis of the item.
    pub fn description(&self) -> (r: Option<String>)
        ensures
            r.deep_view() == self@.description,
    {
        copy_text(&self.description)
    }

    /// The e-mail address of the author.
    pub fn author(&self) -> (r: Option<String>)
        ensures
            r.deep_view() == self@.author,
    {
        copy_text(&self.author)
    }

    /// The categories that the item is in.
    pub fn categories(&self) -> (r: Option<Vec<Category>>)
        ensures
            r.deep_view() == self@.categories,
    {
        copy_categories(&self.categories)
    }

    /// The address of a page for comments.
    pub fn comments(&self) -> (r: Option<String>)
        ensures
            r.deep_view() == self@.comments,
    {
        copy_text(&self.comments)
    }

    /// The media object attached to the item.
    pub fn enclosure(&self) -> (r: Option<Enclosure>)
        ensures
            r.deep_view() == self@.enclosure,
    {
        self.enclosure.clone()
    }

    /// The text that identifies the item.
    pub fn guid(&self) -> (r: Option<Guid>)
        ensures
            r.deep_view() == self@.guid,
    {
        self.guid.clone()
    }

    /// When the item was published.
    pub fn pub_date(&self) -> (r: Option<DateTime>)
        ensures
            r.deep_view() == self@.pub_date,
    {
        self.pub_date
    }

    /// The channel that the item came from.
    pub fn source(&self) -> (r: Option<Source>)
        ensures
            r.deep_view() == self@.source,
    {
        self.source.clone()
    }
}

impl Clone for ItemBuilder {
    fn clone(&self) -> (r: Self)
        ensures
            r@ == self@,
    {
        ItemBuilder {
            title: copy_text(&self.title),
            link: copy_text(&self.link),
            description: copy_text(&self.description),
            author: copy_text(&self.author),
            categories: copy_categories(&self.categories),
            comments: copy_text(&self.comments),
            enclosure: self.enclosure.clone(),
            guid: self.guid.clone(),
            pub_date: copy_text(&self.pub_date),
            source: self.source.clone(),
        }
    }
}

impl Default for ItemBuilder {
    fn default() -> (r: Self)
        ensures
            r@ == ItemDraft::unset(),
    {
        ItemBuilder::new()
    }
}

impl ItemBuilder {
    /// A builder on which nothing is set yet.
    pub fn new() -> (r: ItemBuilder)
        ensures
            r@ == ItemDraft::unset(),
    {
        ItemBuilder {
            title: None,
            link: None,
            description: None,
            author: None,
            categories: None,
            comments: None,
            enclosure: None,
            guid: None,
            pub_date: None,
            source: None,
        }
    }

    /// Sets the title of the item.
    pub fn title(&mut self, title: Option<String>) -> (r: &mut ItemBuilder)
        ensures
            r@ == (ItemDraft { title: title.deep_view(), ..old(self)@ }),
            *final(self) == *final(r),
    {
        self.title = title;
        self
    }

    /// Sets the address of the item.
    pub fn link(&mut self, link: Option<String>) -> (r: &mut ItemBuilder)
        ensures
            r@ == (ItemDraft { link: link.deep_view(), ..old(self)@ }),
            *final(self) == *final(r),
    {
        self.link = link;
        self
    }

    /// Sets the synopsis of the item.
    pub fn description(&mut self, description: Option<String>) -> (r: &mut ItemBuilder)
        ensures
            r@ == (ItemDraft { description: description.deep_view(), ..old(self)@ }),
            *final(self) == *final(r),
    {
        self.description = description;
        self
    }

    /// Sets the e-mail address of the author.
    pub fn author(&mut self, author: Option<String>) -> (r: &mut ItemBuilder)
        ensures
            r@ == (ItemDraft { author: author.deep_view(), ..old(self)@ }),
            *final(self) == *final(r),
    {
        self.author = author;
        self
    }

    /// Sets the categories that the item is in.
    pub fn categories(&mut self, categories: Option<Vec<Category>>) -> (r: &mut ItemBuilder)
        ensures
            r@ == (ItemDraft { categories: categories.deep_view(), ..old(self)@ }),
            *final(self) == *final(r),
    {
        self.categories = categories;
        self
    }

    /// Sets the address of a page for comments.
    pub fn comments(&mut self, comments: Option<String>) -> (r: &mut ItemBuilder)
        ensures
            r@ == (ItemDraft { comments: comments.deep_view(), ..old(self)@ }),
            *final(self) == *final(r),
    {
        self.comments = comments;
        self
    }

    /// Sets the media object attached to the item.
    pub fn enclosure(&mut self, enclosure: Option<Enclosure>) -> (r: &mut ItemBuilder)
        ensures
            r@ == (ItemDraft { enclosure: enclosure.deep_view(), ..old(self)@ }),
            *final(self) == *final(r),
    {
        self.enclosure = enclosure;
        self
    }

    /// Sets the text that identifies the item.
    pub fn guid(&mut self, guid: Option<Guid>) -> (r: &mut ItemBuilder)
        ensures
            r@ == (ItemDraft { guid: guid.deep_view(), ..old(self)@ }),
            *final(self) == *final(r),
    {
        self.guid = guid;
        self
    }

    /// Sets when the item was published. The text is kept as it is and read by `finalize`.
    pub fn pub_date(&mut self, pub_date: Option<String>) -> (r: &mut ItemBuilder)
        ensures
            r@ == (ItemDraft { pub_date: pub_date.deep_view(), ..old(self)@ }),
            *final(self) == *final(r),
    {
        self.pub_date = pub_date;
        self
    }

    /// Sets the channel that the item came from.
    pub fn source(&mut self, source: Option<Source>) -> (r: &mut ItemBuilder)
        ensures
            r@ == (ItemDraft { source: source.deep_view(), ..old(self)@ }),
            *final(self) == *final(r),
    {
        self.source = source;
        self
    }

    /// Adds a category behind those that are set.
    pub fn add_category(&mut self, category: Category) -> (r: &mut ItemBuilder)
        ensures
            r@ == (ItemDraft {
                categories: Some(pushed(old(self)@.categories, category@)),
                ..old(self)@
            }),
            *final(self) == *final(r),
    {
        let ghost before = self.categories.deep_view();
        let mut list = match self.categories.take() {
            Some(list) => list,
            None => Vec::new(),
        };
        assert(before is None ==> list.deep_view() =~= Seq::<CategoryModel>::empty());
        let ghost held = list.deep_view();
        list.push(category);
        assert(list.deep_view() =~= held.push(category@));
        self.categories = Some(list);
        self
    }

    /// The item with the fields as they stand.
    ///
    /// Fails with `ItemRequiredField` where neither a title nor a description
    /// is set, whatever else is. Otherwise fails with `StrToDateTime` where a
    /// publication date is set that is no RFC 2822 date, and succeeds in every
    /// other case.
    pub fn finalize(&self) -> (r: Result<Item, FeedError>)
        ensures
            match r {
                Ok(item) => self@.finalized() == Ok::<_, Failure>(item@),
                Err(e) => self@.finalized() == Err::<ItemModel, _>(e@),
            },
            !self@.has_required() ==> r is Err && r->Err_0@ == Failure::ItemRequiredField,
            self@.has_required() && optional_instant(self@.pub_date) is Ok ==> r is Ok,
    {
        if self.title.is_none() && self.description.is_none() {
            return Err(FeedError::ItemRequiredField);
        }
        let pub_date = match option_string_to_option_date(&self.pub_date) {
            Ok(d) => d,
            Err(e) => {
                return Err(e);
            },
        };
        Ok(
            Item {
                title: copy_text(&self.title),
                link: copy_text(&self.link),
                description: copy_text(&self.description),
                author: copy_text(&self.author),
                categories: copy_categories(&self.categories),
                comments: copy_text(&self.comments),
                enclosure: self.enclosure.clone(),
                guid: self.guid.clone(),
                pub_date,
                source: self.source.clone(),
            },
        )
    }
}

} // verus!
