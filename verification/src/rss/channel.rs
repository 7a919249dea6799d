//! A channel: what a feed says of itself, and its items.

use vstd::prelude::*;
use crate::errors::{Failure, FeedError};
use crate::rss::category::{copy_categories, pushed, Category, CategoryModel};
use crate::rss::cloud::{Cloud, CloudModel};
use crate::rss::image::{Image, ImageModel};
use crate::rss::item_builder::{copy_items, Item, ItemModel};
use crate::rss::text_input::{TextInput, TextInputModel};
use crate::util::date::{option_string_to_option_date, optional_instant, DateTime, Instant};
use crate::util::text::{copy_numbers, copy_text, copy_texts, text_of};

verus! {

/// What a `Channel` holds.
pub struct ChannelModel {
    pub title: Seq<char>,
    pub link: Seq<char>,
    pub description: Seq<char>,
    pub language: Option<Seq<char>>,
    pub copyright: Option<Seq<char>>,
    pub managing_editor: Option<Seq<char>>,
    pub web_master: Option<Seq<char>>,
    pub pub_date: Option<Instant>,
    pub last_build_date: Option<Instant>,
    pub categories: Option<Seq<CategoryModel>>,
    pub generator: Option<Seq<char>>,
    pub docs: Option<Seq<char>>,
    pub cloud: Option<CloudModel>,
    pub ttl: Option<i64>,
    pub image: Option<ImageModel>,
    pub rating: Option<Seq<char>>,
    pub text_input: Option<TextInputModel>,
    pub skip_hours: Option<Seq<i64>>,
    pub skip_days: Option<Seq<Seq<char>>>,
    pub items: Option<Seq<ItemModel>>,
}

/// What a `ChannelBuilder` holds: the fields as they were set, dates still as text.
pub struct ChannelDraft {
    pub title: Seq<char>,
    pub link: Seq<char>,
    pub description: Seq<char>,
    pub language: Option<Seq<char>>,
    pub copyright: Option<Seq<char>>,
    pub managing_editor: Option<Seq<char>>,
    pub web_master: Option<Seq<char>>,
    pub pub_date: Option<Seq<char>>,
    pub last_build_date: Option<Seq<char>>,
    pub categories: Option<Seq<CategoryModel>>,
    pub generator: Option<Seq<char>>,
    pub docs: Option<Seq<char>>,
    pub cloud: Option<CloudModel>,
    pub ttl: Option<i64>,
    pub image: Option<ImageModel>,
    pub rating: Option<Seq<char>>,
    pub text_input: Option<TextInputModel>,
    pub skip_hours: Option<Seq<i64>>,
    pub skip_days: Option<Seq<Seq<char>>>,
    pub items: Option<Seq<ItemModel>>,
}

impl ChannelDraft {
    /// The fields of a builder on which nothing was set.
    pub open spec fn unset() -> ChannelDraft {
        ChannelDraft {
            title: Seq::empty(),
            link: Seq::empty(),
            description: Seq::empty(),
            language: None,
            copyright: None,
            managing_editor: None,
            web_master: None,
            pub_date: None,
            last_build_date: None,
            categories: None,
            generator: None,
            docs: None,
            cloud: None,
            ttl: None,
            image: None,
            rating: None,
            text_input: None,
            skip_hours: None,
            skip_days: None,
            items: None,
        }
    }

    /// The fields with the dates `pub_date`, `last_build_date` in place of their texts.
    pub open spec fn with_dates(
        self,
        pub_date: Option<Instant>,
        last_build_date: Option<Instant>,
    ) -> ChannelModel {
        ChannelModel {
            title: self.title,
            link: self.link,
            description: self.description,
            language: self.language,
            copyright: self.copyright,
            managing_editor: self.managing_editor,
            web_master: self.web_master,
            pub_date,
            last_build_date,
            categories: self.categories,
            generator: self.generator,
            docs: self.docs,
            cloud: self.cloud,
            ttl: self.ttl,
            image: self.image,
            rating: self.rating,
            text_input: self.text_input,
            skip_hours: self.skip_hours,
            skip_days: self.skip_days,
            items: self.items,
        }
    }

    /// What `finalize` makes of these fields.
    pub open spec fn finalized(self) -> Result<ChannelModel, Failure> {
        match optional_instant(self.pub_date) {
            Err(e) => Err(e),
            Ok(pub_date) => 
            match optional_instant(self.last_build_date) {
                Err(e) => Err(e),
                Ok(last_build_date) => Ok(self.with_dates(pub_date, last_build_date)),
            },
        }
    }
}

/// The description of a feed and the items in it.
#[derive(Debug, PartialEq, Eq)]
pub struct Channel {
    title: String,
    link: String,
    description: String,
    language: Option<String>,
    copyright: Option<String>,
    managing_editor: Option<String>,
    web_master: Option<String>,
    pub_date: Option<DateTime>,
    last_build_date: Option<DateTime>,
    categories: Option<Vec<Category>>,
    generator: Option<String>,
    docs: Option<String>,
    cloud: Option<Cloud>,
    ttl: Option<i64>,
    image: Option<Image>,
    rating: Option<String>,
    text_input: Option<TextInput>,
    skip_hours: Option<Vec<i64>>,
    skip_days: Option<Vec<String>>,
    items: Option<Vec<Item>>,
}

impl DeepView for Channel {
    type V = ChannelModel;

    closed spec fn deep_view(&self) -> ChannelModel {
        ChannelModel {
            title: self.title@,
            link: self.link@,
            description: self.description@,
            language: self.language.deep_view(),
            copyright: self.copyright.deep_view(),
            managing_editor: self.managing_editor.deep_view(),
            web_master: self.web_master.deep_view(),
            pub_date: self.pub_date.deep_view(),
            last_build_date: self.last_build_date.deep_view(),
            categories: self.categories.deep_view(),
            generator: self.generator.deep_view(),
            docs: self.docs.deep_view(),
            cloud: self.cloud.deep_view(),
            ttl: self.ttl,
            image: self.image.deep_view(),
            rating: self.rating.deep_view(),
            text_input: self.text_input.deep_view(),
            skip_hours: self.skip_hours.deep_view(),
            skip_days: self.skip_days.deep_view(),
            items: self.items.deep_view(),
        }
    }
}

impl View for Channel {
    type V = ChannelModel;

    open spec fn view(&self) -> ChannelModel {
        self.deep_view()
    }
}

/// Gathers the fields of a `Channel`; `finalize` checks them and reads the dates.
#[derive(Debug)]
pub struct ChannelBuilder {
    title: String,
    link: String,
    description: String,
    language: Option<String>,
    copyright: Option<String>,
    managing_editor: Option<String>,
    web_master: Option<String>,
    pub_date: Option<String>,
    last_build_date: Option<String>,
    categories: Option<Vec<Category>>,
    generator: Option<String>,
    docs: Option<String>,
    cloud: Option<Cloud>,
    ttl: Option<i64>,
    image: Option<Image>,
    rating: Option<String>,
    text_input: Option<TextInput>,
    skip_hours: Option<Vec<i64>>,
    skip_days: Option<Vec<String>>,
    items: Option<Vec<Item>>,
}

impl DeepView for ChannelBuilder {
    type V = ChannelDraft;

    closed spec fn deep_view(&self) -> ChannelDraft {
        ChannelDraft {
            title: self.title@,
            link: self.link@,
            description: self.description@,
            language: self.language.deep_view(),
            copyright: self.copyright.deep_view(),
            managing_editor: self.managing_editor.deep_view(),
            web_master: self.web_master.deep_view(),
            pub_date: self.pub_date.deep_view(),
            last_build_date: self.last_build_date.deep_view(),
            categories: self.categories.deep_view(),
            generator: self.generator.deep_view(),
            docs: self.docs.deep_view(),
            cloud: self.cloud.deep_view(),
            ttl: self.ttl,
            image: self.image.deep_view(),
            rating: self.rating.deep_view(),
            text_input: self.text_input.deep_view(),
            skip_hours: self.skip_hours.deep_view(),
            skip_days: self.skip_days.deep_view(),
            items: self.items.deep_view(),
        }
    }
}

impl View for ChannelBuilder {
    type V = ChannelDraft;

    open spec fn view(&self) -> ChannelDraft {
        self.deep_view()
    }
}

impl Clone for Channel {
    fn clone(&self) -> (r: Self)
        ensures
            r@ == self@,
    {
        Channel {
            title: self.title.clone(),
            link: self.link.clone(),
            description: self.description.clone(),
            language: copy_text(&self.language),
            copyright: copy_text(&self.copyright),
            managing_editor: copy_text(&self.managing_editor),
            web_master: copy_text(&self.web_master),
            pub_date: self.pub_date,
            last_build_date: self.last_build_date,
            categories: copy_categories(&self.categories),
            generator: copy_text(&self.generator),
            docs: copy_text(&self.docs),
            cloud: self.cloud.clone(),
            ttl: self.ttl,
            image: self.image.clone(),
            rating: copy_text(&self.rating),
            text_input: self.text_input.clone(),
            skip_hours: copy_numbers(&self.skip_hours),
            skip_days: copy_texts(&self.skip_days),
            items: copy_items(&self.items),
        }
    }
}

impl Channel {
    /// The name of the channel.
    pub fn title(&self) -> (r: String)
        ensures
            r@ == self@.title,
    {
        self.title.clone()
    }

    /// The address of the site that the channel belongs to.
    pub fn link(&self) -> (r: String)
        ensures
            r@ == self@.link,
    {
        self.link.clone()
    }

    /// A phrase or sentence that describes the channel.
    pub fn description(&self) -> (r: String)
        ensures
            r@ == self@.description,
    {
        self.description.clone()
    }

    /// The language that the channel is written in.
    pub fn language(&self) -> (r: Option<String>)
        ensures
            r.deep_view() == self@.language,
    {
        copy_text(&self.language)
    }

    /// The copyright notice.
    pub fn copyright(&self) -> (r: Option<String>)
        ensures
            r.deep_view() == self@.copyright,
    {
        copy_text(&self.copyright)
    }

    /// The e-mail address of the editor.
    pub fn managing_editor(&self) -> (r: Option<String>)
        ensures
            r.deep_view() == self@.managing_editor,
    {
        copy_text(&self.managing_editor)
    }

    /// The e-mail address of the web master.
    pub fn web_master(&self) -> (r: Option<String>)
        ensures
            r.deep_view() == self@.web_master,
    {
        copy_text(&self.web_master)
    }

    /// When the content was published.
    pub fn pub_date(&self) -> (r: Option<DateTime>)
        ensures
            r.deep_view() == self@.pub_date,
    {
        self.pub_date
    }

    /// When the content last changed.
    pub fn last_build_date(&self) -> (r: Option<DateTime>)
        ensures
            r.deep_view() == self@.last_build_date,
    {
        self.last_build_date
    }

    /// The categories that the channel is in.
    pub fn categories(&self) -> (r: Option<Vec<Category>>)
        ensures
            r.deep_view() == self@.categories,
    {
        copy_categories(&self.categories)
    }

    /// The program that made the channel.
    pub fn generator(&self) -> (r: Option<String>)
        ensures
            r.deep_view() == self@.generator,
    {
        copy_text(&self.generator)
    }

    /// The address of the documentation of the format.
    pub fn docs(&self) -> (r: Option<String>)
        ensures
            r.deep_view() == self@.docs,
    {
        copy_text(&self.docs)
    }

    /// The service that tells of updates.
    pub fn cloud(&self) -> (r: Option<Cloud>)
        ensures
            r.deep_view() == self@.cloud,
    {
        self.cloud.clone()
    }

    /// The minutes that the channel may be cached.
    pub fn ttl(&self) -> (r: Option<i64>)
        ensures
            r == self@.ttl,
    {
        self.ttl
    }

    /// The image shown with the channel.
    pub fn image(&self) -> (r: Option<Image>)
        ensures
            r.deep_view() == self@.image,
    {
        self.image.clone()
    }

    /// The PICS rating of the channel.
    pub fn rating(&self) -> (r: Option<String>)
        ensures
            r.deep_view() == self@.rating,
    {
        copy_text(&self.rating)
    }

    /// The text input box shown with the channel.
    pub fn text_input(&self) -> (r: Option<TextInput>)
        ensures
            r.deep_view() == self@.text_input,
    {
        self.text_input.clone()
    }

    /// The hours of the day in which readers may skip the channel.
    pub fn skip_hours(&self) -> (r: Option<Vec<i64>>)
        ensures
            r.deep_view() == self@.skip_hours,
    {
        copy_numbers(&self.skip_hours)
    }

    /// The days of the week on which readers may skip the channel.
    pub fn skip_days(&self) -> (r: Option<Vec<String>>)
        ensures
            r.deep_view() == self@.skip_days,
    {
        copy_texts(&self.skip_days)
    }

    /// The items of the channel.
    pub fn items(&self) -> (r: Option<Vec<Item>>)
        ensures
            r.deep_view() == self@.items,
    {
        copy_items(&self.items)
    }
}

impl Clone for ChannelBuilder {
    fn clone(&self) -> (r: Self)
        ensures
            r@ == self@,
    {
        ChannelBuilder {
            title: self.title.clone(),
            link: self.link.clone(),
            description: self.description.clone(),
            language: copy_text(&self.language),
            copyright: copy_text(&self.copyright),
            managing_editor: copy_text(&self.managing_editor),
            web_master: copy_text(&self.web_master),
            pub_date: copy_text(&self.pub_date),
            last_build_date: copy_text(&self.last_build_date),
            categories: copy_categories(&self.categories),
            generator: copy_text(&self.generator),
            docs: copy_text(&self.docs),
            cloud: self.cloud.clone(),
            ttl: self.ttl,
            image: self.image.clone(),
            rating: copy_text(&self.rating),
            text_input: self.text_input.clone(),
            skip_hours: copy_numbers(&self.skip_hours),
            skip_days: copy_texts(&self.skip_days),
            items: copy_items(&self.items),
        }
    }
}

impl Default for ChannelBuilder {
    fn default() -> (r: Self)
        ensures
            r@ == ChannelDraft::unset(),
    {
        ChannelBuilder::new()
    }
}

impl ChannelBuilder {
    /// A builder on which nothing is set yet.
    pub fn new() -> (r: ChannelBuilder)
        ensures
            r@ == ChannelDraft::unset(),
    {
        ChannelBuilder {
            title: String::new(),
            link: String::new(),
            description: String::new(),
            language: None,
            copyright: None,
            managing_editor: None,
            web_master: None,
            pub_date: None,
            last_build_date: None,
            categories: None,
            generator: None,
            docs: None,
            cloud: None,
            ttl: None,
            image: None,
            rating: None,
            text_input: None,
            skip_hours: None,
            skip_days: None,
            items: None,
        }
    }

    /// Sets the name of the channel.
    pub fn title(&mut self, title: &str) -> (r: &mut ChannelBuilder)
        ensures
            r@ == (ChannelDraft { title: title@, ..old(self)@ }),
            *final(self) == *final(r),
    {
        self.title = text_of(title);
        self
    }

    /// Sets the address of the site that the channel belongs to.
    pub fn link(&mut self, link: &str) -> (r: &mut ChannelBuilder)
        ensures
            r@ == (ChannelDraft { link: link@, ..old(self)@ }),
            *final(self) == *final(r),
    {
        self.link = text_of(link);
        self
    }

    /// Sets a phrase or sentence that describes the channel.
    pub fn description(&mut self, description: &str) -> (r: &mut ChannelBuilder)
        ensures
            r@ == (ChannelDraft { description: description@, ..old(self)@ }),
            *final(self) == *final(r),
    {
        self.description = text_of(description);
        self
    }

    /// Sets the language that the channel is written in.
    pub fn language(&mut self, language: Option<String>) -> (r: &mut ChannelBuilder)
        ensures
            r@ == (ChannelDraft { language: language.deep_view(), ..old(self)@ }),
            *final(self) == *final(r),
    {
        self.language = language;
        self
    }

    /// Sets the copyright notice.
    pub fn copyright(&mut self, copyright: Option<String>) -> (r: &mut ChannelBuilder)
        ensures
            r@ == (ChannelDraft { copyright: copyright.deep_view(), ..old(self)@ }),
            *final(self) == *final(r),
    {
        self.copyright = copyright;
        self
    }

    /// Sets the e-mail address of the editor.
    pub fn managing_editor(&mut self, managing_editor: Option<String>) -> (r: &mut ChannelBuilder)
        ensures
            r@ == (ChannelDraft { managing_editor: managing_editor.deep_view(), ..old(self)@ }),
            *final(self) == *final(r),
    {
        self.managing_editor = managing_editor;
        self
    }

    /// Sets the e-mail address of the web master.
    pub fn web_master(&mut self, web_master: Option<String>) -> (r: &mut ChannelBuilder)
        ensures
            r@ == (ChannelDraft { web_master: web_master.deep_view(), ..old(self)@ }),
            *final(self) == *final(r),
    {
        self.web_master = web_master;
        self
    }

    /// Sets when the content was published. The text is kept as it is and read by `finalize`.
    pub fn pub_date(&mut self, pub_date: Option<String>) -> (r: &mut ChannelBuilder)
        ensures
            r@ == (ChannelDraft { pub_date: pub_date.deep_view(), ..old(self)@ }),
            *final(self) == *final(r),
    {
        self.pub_date = pub_date;
        self
    }

    /// Sets when the content last changed. The text is kept as it is and read by `finalize`.
    pub fn last_build_date(&mut self, last_build_date: Option<String>) -> (r: &mut ChannelBuilder)
        ensures
            r@ == (ChannelDraft { last_build_date: last_build_date.deep_view(), ..old(self)@ }),
            *final(self) == *final(r),
    {
        self.last_build_date = last_build_date;
        self
    }

    /// Sets the categories that the channel is in.
    pub fn categories(&mut self, categories: Option<Vec<Category>>) -> (r: &mut ChannelBuilder)
        ensures
            r@ == (ChannelDraft { categories: categories.deep_view(), ..old(self)@ }),
            *final(self) == *final(r),
    {
        self.categories = categories;
        self
    }

    /// Sets the program that made the channel.
    pub fn generator(&mut self, generator: Option<String>) -> (r: &mut ChannelBuilder)
        ensures
            r@ == (ChannelDraft { generator: generator.deep_view(), ..old(self)@ }),
            *final(self) == *final(r),
    {
        self.generator = generator;
        self
    }

    /// Sets the address of the documentation of the format.
    pub fn docs(&mut self, docs: Option<String>) -> (r: &mut ChannelBuilder)
        ensures
            r@ == (ChannelDraft { docs: docs.deep_view(), ..old(self)@ }),
            *final(self) == *final(r),
    {
        self.docs = docs;
        self
    }

    /// Sets the service that tells of updates.
    pub fn cloud(&mut self, cloud: Option<Cloud>) -> (r: &mut ChannelBuilder)
        ensures
            r@ == (ChannelDraft { cloud: cloud.deep_view(), ..old(self)@ }),
            *final(self) == *final(r),
    {
        self.cloud = cloud;
        self
    }

    /// Sets the minutes that the channel may be cached.
    pub fn ttl(&mut self, ttl: Option<i64>) -> (r: &mut ChannelBuilder)
        ensures
            r@ == (ChannelDraft { ttl: ttl, ..old(self)@ }),
            *final(self) == *final(r),
    {
        self.ttl = ttl;
        self
    }

    /// Sets the image shown with the channel.
    pub fn image(&mut self, image: Option<Image>) -> (r: &mut ChannelBuilder)
        ensures
            r@ == (ChannelDraft { image: image.deep_view(), ..old(self)@ }),
            *final(self) == *final(r),
    {
        self.image = image;
        self
    }

    /// Sets the PICS rating of the channel.
    pub fn rating(&mut self, rating: Option<String>) -> (r: &mut ChannelBuilder)
        ensures
            r@ == (ChannelDraft { rating: rating.deep_view(), ..old(self)@ }),
            *final(self) == *final(r),
    {
        self.rating = rating;
        self
    }

    /// Sets the text input box shown with the channel.
    pub fn text_input(&mut self, text_input: Option<TextInput>) -> (r: &mut ChannelBuilder)
        ensures
            r@ == (ChannelDraft { text_input: text_input.deep_view(), ..old(self)@ }),
            *final(self) == *final(r),
    {
        self.text_input = text_input;
        self
    }

    /// Sets the hours of the day in which readers may skip the channel.
    pub fn skip_hours(&mut self, skip_hours: Option<Vec<i64>>) -> (r: &mut ChannelBuilder)
        ensures
            r@ == (ChannelDraft { skip_hours: skip_hours.deep_view(), ..old(self)@ }),
            *final(self) == *final(r),
    {
        self.skip_hours = skip_hours;
        self
    }

    /// Sets the days of the week on which readers may skip the channel.
    pub fn skip_days(&mut self, skip_days: Option<Vec<String>>) -> (r: &mut ChannelBuilder)
        ensures
            r@ == (ChannelDraft { skip_days: skip_days.deep_view(), ..old(self)@ }),
            *final(self) == *final(r),
    {
        self.skip_days = skip_days;
        self
    }

    /// Sets the items of the channel.
    pub fn items(&mut self, items: Option<Vec<Item>>) -> (r: &mut ChannelBuilder)
        ensures
            r@ == (ChannelDraft { items: items.deep_view(), ..old(self)@ }),
            *final(self) == *final(r),
    {
        self.items = items;
        self
    }

    /// Adds a category behind those that are set.
    pub fn add_category(&mut self, category: Category) -> (r: &mut ChannelBuilder)
        ensures
            r@ == (ChannelDraft {
                categories: Some(pushed(old(self)@.categories, category@)),
                ..old(self)@
            }),
            *final(self) == *final(r),
    {
        let ghost before = self.categories.deep_view();
        let mut list = match self.categories.take() {
            Some(list) => list,
            None => Vec::new(),
        };
        assert(before is None ==> list.deep_view() =~= Seq::<CategoryModel>::empty());
        let ghost held = list.deep_view();
        list.push(category);
        assert(list.deep_view() =~= held.push(category@));
        self.categories = Some(list);
        self
    }

    /// Adds an item behind those that are set.
    pub fn add_item(&mut self, item: Item) -> (r: &mut ChannelBuilder)
        ensures
            r@ == (ChannelDraft { items: Some(pushed(old(self)@.items, item@)), ..old(self)@ }),
            *final(self) == *final(r),
    {
        let ghost before = self.items.deep_view();
        let mut list = match self.items.take() {
            Some(list) => list,
            None => Vec::new(),
        };
        assert(before is None ==> list.deep_view() =~= Seq::<ItemModel>::empty());
        let ghost held = list.deep_view();
        list.push(item);
        assert(list.deep_view() =~= held.push(item@));
        self.items = Some(list);
        self
    }

    /// The channel with the fields as they stand.
    ///
    /// Fails with `StrToDateTime`, holding the text, where a date is set that
    /// is no RFC 2822 date, the publication date being read first; succeeds
    /// in every other case.
    pub fn finalize(&self) -> (r: Result<Channel, FeedError>)
        ensures
            match r {
                Ok(channel) => self@.finalized() == Ok::<_, Failure>(channel@),
                Err(e) => self@.finalized() == Err::<ChannelModel, _>(e@),
            },
    {
        let pub_date = match option_string_to_option_date(&self.pub_date) {
            Ok(d) => d,
            Err(e) => {
                return Err(e);
            },
        };
        let last_build_date = match option_string_to_option_date(&self.last_build_date) {
            Ok(d) => d,
            Err(e) => {
                return Err(e);
            },
        };
        Ok(
            Channel {
                title: self.title.clone(),
                link: self.link.clone(),
                description: self.description.clone(),
                language: copy_text(&self.language),
                copyright: copy_text(&self.copyright),
                managing_editor: copy_text(&self.managing_editor),
                web_master: copy_text(&self.web_master),
                pub_date,
                last_build_date,
                categories: copy_categories(&self.categories),
                generator: copy_text(&self.generator),
                docs: copy_text(&self.docs),
                cloud: self.cloud.clone(),
                ttl: self.ttl,
                image: self.image.clone(),
                rating: copy_text(&self.rating),
                text_input: self.text_input.clone(),
                skip_hours: copy_numbers(&self.skip_hours),
                skip_days: copy_texts(&self.skip_days),
                items: copy_items(&self.items),
            },
        )
    }
}

} // verus!
