//! A category of a channel or of an item.

use vstd::prelude::*;
use crate::util::text::text_of;

verus! {

/// What a `Category` holds.
pub struct CategoryModel {
    pub category: Seq<char>,
    pub domain: Option<Seq<char>>,
}

impl CategoryModel {
    /// The fields of a builder on which nothing was set.
    pub open spec fn unset() -> CategoryModel {
        CategoryModel {
            category: Seq::empty(),
            domain: None,
        }
    }
}

/// A category, with the taxonomy it may come from.
#[derive(Debug, PartialEq, Eq)]
pub struct Category {
    category: String,
    domain: Option<String>,
}

impl DeepView for Category {
    type V = CategoryModel;

    closed spec fn deep_view(&self) -> CategoryModel {
        CategoryModel {
            category: self.category@,
            domain: self.domain.deep_view(),
        }
    }
}

impl View for Category {
    type V = CategoryModel;

    open spec fn view(&self) -> CategoryModel {
        self.deep_view()
    }
}

/// Gathers the fields of a `Category`. No field is checked against another:
/// one that was never set stays empty, zero or absent.
#[derive(Debug)]
pub struct CategoryBuilder {
    category: String,
    domain: Option<String>,
}

impl DeepView for CategoryBuilder {
    type V = CategoryModel;

    closed spec fn deep_view(&self) -> CategoryModel {
        CategoryModel {
            category: self.category@,
            domain: self.domain.deep_view(),
        }
    }
}

impl View for CategoryBuilder {
    type V = CategoryModel;

    open spec fn view(&self) -> CategoryModel {
        self.deep_view()
    }
}

impl Clone for Category {
    fn clone(&self) -> (r: Self)
        ensures
            r@ == self@,
    {
        Category {
            category: self.category.clone(),
            domain: self.domain.clone(),
        }
    }
}

/// A list that may be absent, with one more member behind those it has.
pub open spec fn pushed<T>(list: Option<Seq<T>>, member: T) -> Seq<T> {
    match list {
        Some(l) => l.push(member),
        None => seq![member],
    }
}

/// A copy of a list of categories that may be absent.
pub fn copy_categories(a: &Option<Vec<Category>>) -> (r: Option<Vec<Category>>)
    ensures
        r.deep_view() == a.deep_view(),
{
    match a {
        Some(list) => {
            let copy = list.clone();
            assert(copy.deep_view() =~= list.deep_view());
            Some(copy)
        },
        None => None,
    }
}

impl Category {
    /// The name of the category.
    pub fn category(&self) -> (r: String)
        ensures
            r@ == self@.category,
    {
        self.category.clone()
    }

    /// The taxonomy that the category belongs to.
    pub fn domain(&self) -> (r: Option<String>)
        ensures
            r.deep_view() == self@.domain,
    {
        self.domain.clone()
    }
}

impl Clone for CategoryBuilder {
    fn clone(&self) -> (r: Self)
        ensures
            r@ == self@,
    {
        CategoryBuilder {
            category: self.category.clone(),
            domain: self.domain.clone(),
        }
    }
}

impl Default for CategoryBuilder {
    fn default() -> (r: Self)
        ensures
            r@ == CategoryModel::unset(),
    {
        CategoryBuilder::new()
    }
}

impl CategoryBuilder {
    /// A builder on which nothing is set yet.
    pub fn new() -> (r: CategoryBuilder)
        ensures
            r@ == CategoryModel::unset(),
    {
        CategoryBuilder {
            category: String::new(),
            domain: None,
        }
    }

    /// Sets the name of the category.
    pub fn category(&mut self, category: &str) -> (r: &mut CategoryBuilder)
        ensures
            r@ == (CategoryModel {
                category: category@,
                ..old(self)@
            }),
            *final(self) == *final(r),
    {
        self.category = text_of(category);
        self
    }

    /// Sets the taxonomy that the category belongs to.
    pub fn domain(&mut self, domain: Option<String>) -> (r: &mut CategoryBuilder)
        ensures
            r@ == (CategoryModel {
                domain: domain.deep_view(),
                ..old(self)@
            }),
            *final(self) == *final(r),
    {
        self.domain = domain;
        self
    }

    /// The `Category` with the fields as they stand. Never fails.
    pub fn finalize(&self) -> (r: Category)
        ensures
            r@ == self@,
    {
        Category {
            category: self.category.clone(),
            domain: self.domain.clone(),
        }
    }
}

} // verus!
