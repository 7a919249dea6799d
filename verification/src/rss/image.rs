//! The image shown with a channel.

use vstd::prelude::*;
use crate::util::text::text_of;

verus! {

/// What an `Image` holds.
pub struct ImageModel {
    pub title: Seq<char>,
    pub link: Seq<char>,
    pub url: Seq<char>,
    pub width: i64,
    pub height: i64,
    pub description: Option<Seq<char>>,
}

impl ImageModel {
    /// The fields of a builder on which nothing was set.
    pub open spec fn unset() -> ImageModel {
        ImageModel {
            title: Seq::empty(),
            link: Seq::empty(),
            url: Seq::empty(),
            width: 0,
            height: 0,
            description: None,
        }
    }
}

/// An image that stands for the channel.
#[derive(Debug, PartialEq, Eq)]
pub struct Image {
    title: String,
    link: String,
    url: String,
    width: i64,
    height: i64,
    description: Option<String>,
}

impl DeepView for Image {
    type V = ImageModel;

    closed spec fn deep_view(&self) -> ImageModel {
        ImageModel {
            title: self.title@,
            link: self.link@,
            url: self.url@,
            width: self.width,
            height: self.height,
            description: self.description.deep_view(),
        }
    }
}

impl View for Image {
    type V = ImageModel;

    open spec fn view(&self) -> ImageModel {
        self.deep_view()
    }
}

/// Gathers the fields of an `Image`. No field is checked against another:
/// one that was never set stays empty, zero or absent.
#[derive(Debug)]
pub struct ImageBuilder {
    title: String,
    link: String,
    url: String,
    width: i64,
    height: i64,
    description: Option<String>,
}

impl DeepView for ImageBuilder {
    type V = ImageModel;

    closed spec fn deep_view(&self) -> ImageModel {
        ImageModel {
            title: self.title@,
            link: self.link@,
            url: self.url@,
            width: self.width,
            height: self.height,
            description: self.description.deep_view(),
        }
    }
}

impl View for ImageBuilder {
    type V = ImageModel;

    open spec fn view(&self) -> ImageModel {
        self.deep_view()
    }
}

impl Clone for Image {
    fn clone(&self) -> (r: Self)
        ensures
            r@ == self@,
    {
        Image {
            title: self.title.clone(),
            link: self.link.clone(),
            url: self.url.clone(),
            width: self.width,
            height: self.height,
            description: self.description.clone(),
        }
    }
}

impl Image {
    /// The text shown in place of the image.
    pub fn title(&self) -> (r: String)
        ensures
            r@ == self@.title,
    {
        self.title.clone()
    }

    /// The site that the image leads to.
    pub fn link(&self) -> (r: String)
        ensures
            r@ == self@.link,
    {
        self.link.clone()
    }

    /// Where the image is.
    pub fn url(&self) -> (r: String)
        ensures
            r@ == self@.url,
    {
        self.url.clone()
    }

    /// The width in pixels.
    pub fn width(&self) -> (r: i64)
        ensures
            r == self@.width,
    {
        self.width
    }

    /// The height in pixels.
    pub fn height(&self) -> (r: i64)
        ensures
            r == self@.height,
    {
        self.height
    }

    /// The text of the link around the image.
    pub fn description(&self) -> (r: Option<String>)
        ensures
            r.deep_view() == self@.description,
    {
        self.description.clone()
    }
}

impl Clone for ImageBuilder {
    fn clone(&self) -> (r: Self)
        ensures
            r@ == self@,
    {
        ImageBuilder {
            title: self.title.clone(),
            link: self.link.clone(),
            url: self.url.clone(),
            width: self.width,
            height: self.height,
            description: self.description.clone(),
        }
    }
}

impl Default for ImageBuilder {
    fn default() -> (r: Self)
        ensures
            r@ == ImageModel::unset(),
    {
        ImageBuilder::new()
    }
}

impl ImageBuilder {
    /// A builder on which nothing is set yet.
    pub fn new() -> (r: ImageBuilder)
        ensures
            r@ == ImageModel::unset(),
    {
        ImageBuilder {
            title: String::new(),
            link: String::new(),
            url: String::new(),
            width: 0,
            height: 0,
            description: None,
        }
    }

    /// Sets the text shown in place of the image.
    pub fn title(&mut self, title: &str) -> (r: &mut ImageBuilder)
        ensures
            r@ == (ImageModel {
                title: title@,
                ..old(self)@
            }),
            *final(self) == *final(r),
    {
        self.title = text_of(title);
        self
    }

    /// Sets the site that the image leads to.
    pub fn link(&mut self, link: &str) -> (r: &mut ImageBuilder)
        ensures
            r@ == (ImageModel {
                link: link@,
                ..old(self)@
            }),
            *final(self) == *final(r),
    {
        self.link = text_of(link);
        self
    }

    /// Sets where the image is.
    pub fn url(&mut self, url: &str) -> (r: &mut ImageBuilder)
        ensures
            r@ == (ImageModel {
                url: url@,
                ..old(self)@
            }),
            *final(self) == *final(r),
    {
        self.url = text_of(url);
        self
    }

    /// Sets the width in pixels. `None` sets zero.
    pub fn width(&mut self, width: Option<i64>) -> (r: &mut ImageBuilder)
        ensures
            r@ == (ImageModel {
                width: match width {
                    Some(n) => n,
                    None => 0,
                },
                ..old(self)@
            }),
            *final(self) == *final(r),
    {
        self.width = match width {
            Some(n) => n,
            None => 0,
        };
        self
    }

    /// Sets the height in pixels. `None` sets zero.
    pub fn height(&mut self, height: Option<i64>) -> (r: &mut ImageBuilder)
        ensures
            r@ == (ImageModel {
                height: match height {
                    Some(n) => n,
                    None => 0,
                },
                ..old(self)@
            }),
            *final(self) == *final(r),
    {
        self.height = match height {
            Some(n) => n,
            None => 0,
        };
        self
    }

    /// Sets the text of the link around the image.
    pub fn description(&mut self, description: Option<String>) -> (r: &mut ImageBuilder)
        ensures
            r@ == (ImageModel {
                description: description.deep_view(),
                ..old(self)@
            }),
            *final(self) == *final(r),
    {
        self.description = description;
        self
    }

    /// The `Image` with the fields as they stand. Never fails.
    pub fn finalize(&self) -> (r: Image)
        ensures
            r@ == self@,
    {
        Image {
            title: self.title.clone(),
            link: self.link.clone(),
            url: self.url.clone(),
            width: self.width,
            height: self.height,
            description: self.description.clone(),
        }
    }
}

} // verus!
