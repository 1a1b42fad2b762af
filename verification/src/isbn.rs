use vstd::prelude::*;

use crate::config::{styled_by, StyleConfig};
use crate::text::{opt_string_view, Text};
use crate::validate::Validation;

verus! {

/// The ISBN that `isbn2` reads from a text (`str::parse::<isbn2::Isbn>`),
/// written back with its `Display`: the bare digits, with `X` for an ISBN-10
/// check digit of ten; nothing when the text is not a valid ISBN.
pub uninterp spec fn isbn_plain(s: Seq<char>) -> Option<Seq<char>>;

/// The hyphenated form `isbn2::Isbn::hyphenate` gives the ISBN written as
/// `plain`; nothing when its range tables do not know the ISBN's group.
pub uninterp spec fn isbn_hyphenation(plain: Seq<char>) -> Option<Seq<char>>;

/// Parses a text as an ISBN with `isbn2` and writes it back with its
/// `Display`. Claimed beyond the name: the written form reads back as itself
/// (the parser skips nothing of it and its check digit was verified).
#[verifier::external_body]
fn parse_isbn(s: &str) -> (r: Option<String>)
    ensures
        opt_string_view(r) == isbn_plain(s@),
        r matches Some(p) ==> isbn_plain(p@) == Some(p@),
{
    match s.parse::<isbn2::Isbn>() {
        Ok(isbn) => Some(isbn.to_string()),
        Err(_) => None,
    }
}

/// Hyphenates the ISBN written as `plain` with `isbn2::Isbn::hyphenate`
/// (after reading it back with `isbn2`'s parser). Claimed beyond the name:
/// the hyphenated form reads as the same ISBN (it holds the same digits, and
/// the parser skips hyphens).
#[verifier::external_body]
fn hyphenate_isbn(plain: &str) -> (r: Option<String>)
    ensures
        opt_string_view(r) == isbn_hyphenation(plain@),
        r matches Some(h) ==> isbn_plain(h@) == isbn_plain(plain@),
{
    match plain.parse::<isbn2::Isbn>() {
        Ok(isbn) => match isbn.hyphenate() {
            Ok(h) => Some(h.to_string()),
            Err(_) => None,
        },
        Err(_) => None,
    }
}

/// An International Standard Book Number (ISBN-10 or ISBN-13), kept as its
/// bare digits.
#[derive(Debug)]
pub struct Isbn {
    plain: String,
}

impl View for Isbn {
    type V = Seq<char>;

    /// The bare digits, with `X` for an ISBN-10 check digit of ten.
    closed spec fn view(&self) -> Seq<char> {
        self.plain@
    }
}

impl Clone for Isbn {
    fn clone(&self) -> (r: Self)
        ensures
            r@ == self@,
    {
        proof {
            use_type_invariant(self);
        }
        Isbn { plain: self.plain.clone() }
    }
}

impl Isbn {
    #[verifier::type_invariant]
    spec fn valid(self) -> bool {
        isbn_plain(self.plain@) == Some(self.plain@)
    }

    /// Every ISBN is the ISBN its own digits read as.
    pub fn check_valid(&self)
        ensures
            isbn_plain(self@) == Some(self@),
    {
        proof {
            use_type_invariant(self);
        }
    }

    /// Reads an ISBN, with or without hyphens or spaces.
    pub fn parse(s: &str) -> (r: Option<Isbn>)
        ensures
            match r {
                Some(i) => isbn_plain(s@) == Some(i@),
                None => isbn_plain(s@) is None,
            },
    {
        match parse_isbn(s) {
            Some(plain) => Some(Isbn { plain }),
            None => None,
        }
    }

    /// The bare digits.
    pub fn digits(&self) -> (s: String)
        ensures
            s@ == self@,
    {
        self.plain.clone()
    }

    /// The ISBN split into its parts by hyphens, as it is stored; nothing when
    /// the ISBN's registration group is unknown. The hyphenated form reads
    /// back as the same ISBN.
    pub fn hyphenate(&self) -> (r: Option<String>)
        ensures
            opt_string_view(r) == isbn_hyphenation(self@),
            r matches Some(h) ==> isbn_plain(h@) == Some(self@),
    {
        proof {
            use_type_invariant(self);
        }
        hyphenate_isbn(self.plain.as_str())
    }

    /// The hyphenated ISBN styled for output, as a text.
    pub fn to_text(&self, style: &StyleConfig) -> (t: Text)
        requires
            isbn_hyphenation(self@) is Some,
        ensures
            styled_by(t@, isbn_hyphenation(self@)->0, *style),
    {
        match self.hyphenate() {
            Some(h) => Text(style.style(h.as_str())),
            None => {
                assert(false);
                Text(String::new())
            },
        }
    }

    /// The hyphenated ISBN styled for output, as a text; nothing when the
    /// ISBN cannot be hyphenated.
    pub fn try_to_text(&self, style: &StyleConfig) -> (r: Option<Text>)
        ensures
            match isbn_hyphenation(self@) {
                Some(h) => r matches Some(t) && styled_by(t@, h, *style),
                None => r is None,
            },
    {
        match self.hyphenate() {
            Some(_) => Some(self.to_text(style)),
            None => None,
        }
    }
}

/// Accepts exactly the texts that read as an ISBN.
pub fn validate_isbn(input: &str) -> (v: Validation)
    ensures
        isbn_plain(input@) is Some ==> v == Validation::Valid,
        isbn_plain(input@) is None ==> (v matches Validation::Invalid(msg) && msg@
            == "Input isn't a valid isbn"@),
{
    match parse_isbn(input) {
        Some(_) => Validation::Valid,
        None => Validation::Invalid("Input isn't a valid isbn".to_string()),
    }
}

} // verus!
