//! The records that the Open Library API answers with, holding only the
//! fields this tool reads.

pub mod author;
pub mod book;
pub mod edition;
