use vstd::prelude::*;

verus! {

/// A work (a book, in this tool's terms) as described by Open Library.
#[derive(Clone, Debug, Default)]
pub struct Book {
    pub title: String,
    pub authors: Option<Vec<Author>>,
    pub description: Option<Description>,
}

/// The description of a work: Open Library sends either a plain string or
/// an object holding the string.
#[derive(Clone, Debug)]
pub enum Description {
    Simple(String),
    Complex(DescriptionComplex),
}

/// The object form of a description.
#[derive(Clone, Debug, Default)]
pub struct DescriptionComplex {
    pub value: String,
}

/// An author entry of a work: a reference to the author record.
#[derive(Clone, Debug, Default)]
pub struct Author {
    pub author: AuthorName,
}

/// The key of an author record, such as `/authors/OL23919A`.
#[derive(Clone, Debug, Default)]
pub struct AuthorName {
    pub key: String,
}

} // verus!
