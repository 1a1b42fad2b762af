use vstd::prelude::*;

verus! {

/// An author as described by Open Library.
#[derive(Clone, Debug, Default)]
pub struct Author {
    pub name: String,
    pub birth_date: Option<String>,
    pub death_date: Option<String>,
}

} // verus!
