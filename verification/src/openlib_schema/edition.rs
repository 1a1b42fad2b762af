use vstd::prelude::*;

verus! {

/// An edition as described by Open Library.
#[derive(Clone, Debug, Default)]
pub struct Edition {
    pub publishers: Option<Vec<String>>,
    pub subtitle: Option<String>,
    pub title: Option<String>,
    pub physical_format: Option<String>,
    pub publish_date: Option<String>,
    pub authors: Option<Vec<Author>>,
    pub works: Option<Vec<Work>>,
    pub number_of_pages: Option<u32>,
}

/// An author entry of an edition: the key of the author record, such as
/// `/authors/OL23919A`.
#[derive(Clone, Debug, Default)]
pub struct Author {
    pub key: String,
}

/// A work entry of an edition: the key of the work record, such as
/// `/works/OL45804W`.
#[derive(Clone, Debug, Default)]
pub struct Work {
    pub key: String,
}

} // verus!
