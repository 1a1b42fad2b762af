use vstd::prelude::*;
use vstd::string::StringExecFns;

use crate::display::plain;
use crate::ids::{uuid_parse, Uuid};
use crate::isbn::{isbn_plain, Isbn};
use crate::names::{singular_name, RecordKind};
use crate::render::Rendered;

verus! {

/// The upper-case mapping of a character (`char::to_uppercase`): one or more
/// characters.
pub uninterp spec fn upper_case(c: char) -> Seq<char>;

/// `char::to_uppercase`, collected into a string. Claimed beyond the name:
/// an ASCII lower-case letter maps to the matching upper-case letter (as the
/// standard library documents for ASCII).
#[verifier::external_body]
fn char_to_upper(c: char) -> (r: String)
    ensures
        r@ == upper_case(c),
        'a' <= c <= 'z' ==> r@ == seq![((c as u32) - 32) as char],
{
    c.to_uppercase().collect::<String>()
}

/// How a lookup by identifier ends.
#[derive(Clone, Copy, Debug, PartialEq, Eq, Structural)]
pub enum Lookup {
    /// Show the record with this identifier.
    ById(Uuid),
    /// The identifier given is not a UUID.
    InvalidUuid,
    /// The identifier option was given without a value.
    NoUuid,
    /// No identifier and no pick were asked for: list every record.
    ListAll,
    /// The user picks the record interactively; nothing more is shown.
    PickOnly,
}

impl Lookup {
    /// The message printed for a lookup that cannot be made.
    pub fn message(&self) -> (s: Option<String>)
        ensures
            *self is InvalidUuid ==> (s matches Some(m) && m@ == "Invalid uuid"@),
            *self is NoUuid ==> (s matches Some(m) && m@ == "No uuid supplied"@),
            (*self is ById || *self is ListAll || *self is PickOnly) ==> s is None,
    {
        match self {
            Lookup::InvalidUuid => Some("Invalid uuid".to_string()),
            Lookup::NoUuid => Some("No uuid supplied".to_string()),
            _ => None,
        }
    }
}

/// What a query command does: first let the user pick a record if asked,
/// then look one up by identifier, or list them all when neither a pick nor
/// an identifier was asked for.
#[derive(Clone, Copy, Debug, PartialEq, Eq, Structural)]
pub struct QueryPlan {
    pub interactive: bool,
    pub lookup: Lookup,
}

/// Decides what a query command does from whether the interactive flag and
/// the identifier option were given on the command line, and the identifier's
/// value. The query selects a single record: every record is listed only when
/// the user asked neither to pick one nor for an identifier.
pub fn plan_query(interactive_given: bool, uuid_given: bool, uuid_text: Option<&str>) -> (r:
    QueryPlan)
    ensures
        r.interactive == interactive_given,
        !uuid_given && !interactive_given ==> r.lookup == Lookup::ListAll,
        !uuid_given && interactive_given ==> r.lookup == Lookup::PickOnly,
        uuid_given && uuid_text is None ==> r.lookup == Lookup::NoUuid,
        uuid_given && uuid_text is Some ==> r.lookup == match uuid_parse(uuid_text->0@) {
            Some(v) => Lookup::ById(Uuid(v)),
            None => Lookup::InvalidUuid,
        },
{
    let lookup = if !uuid_given {
        if interactive_given {
            Lookup::PickOnly
        } else {
            Lookup::ListAll
        }
    } else {
        match uuid_text {
            None => Lookup::NoUuid,
            Some(t) => match Uuid::parse(t) {
                Some(u) => Lookup::ById(u),
                None => Lookup::InvalidUuid,
            },
        }
    };
    QueryPlan { interactive: interactive_given, lookup }
}

/// The message printed when the user picked nothing.
pub fn nothing_selected(kind: RecordKind) -> (s: String)
    ensures
        s@ == "No "@ + singular_name(kind) + " selected."@,
{
    let mut s = "No ".to_string();
    s.append(kind.name_singular());
    s.append(" selected.");
    s
}

/// The heading of a listing: an empty line, then the plural name with its
/// first letter in upper case, and a colon.
pub fn listing_heading(kind: RecordKind) -> (s: String)
    ensures
        s@ == "\n"@ + seq![((singular_name(kind)[0] as u32) - 32) as char] + (singular_name(kind)
            + "s"@).skip(1) + ":"@,
{
    let plural = kind.name_plural();
    proof {
        reveal_strlit("author");
        reveal_strlit("binding");
        reveal_strlit("book");
        reveal_strlit("edition");
        reveal_strlit("editionformat");
        reveal_strlit("editionreview");
        reveal_strlit("genre");
        reveal_strlit("language");
        reveal_strlit("mood");
        reveal_strlit("pace");
        reveal_strlit("progress");
        reveal_strlit("publisher");
        reveal_strlit("review");
        reveal_strlit("s");
        assert(singular_name(kind).len() >= 1 && 'a' <= singular_name(kind)[0] <= 'z');
        assert(plural@[0] == singular_name(kind)[0]);
    }
    let first = plural.as_str().get_char(0);
    let rest = plural.as_str().substring_char(1, plural.as_str().unicode_len());
    let mut s = "\n".to_string();
    s.append(char_to_upper(first).as_str());
    s.append(rest);
    s.append(":");
    proof {
        assert(rest@ =~= plural@.skip(1));
    }
    s
}

/// A rendered record after a prefix, such as the bullet of a listing: the
/// text written is the prefix, unstyled, followed by the record's text.
pub fn prefixed(prefix: &str, item: Rendered) -> (r: Rendered)
    ensures
        r.pieces() == seq![plain(prefix@)] + item.pieces(),
        r.modes() == seq![Seq::<Option<bool>>::empty()] + item.modes(),
        r.text() == prefix@ + item.text(),
{
    let mut r = Rendered::new();
    r.raw(prefix);
    r.append(item);
    proof {
        assert(r.pieces() =~= seq![plain(prefix@)] + item.pieces());
        assert(r.modes() =~= seq![Seq::<Option<bool>>::empty()] + item.modes());
        assert(r.text() =~= prefix@ + item.text());
    }
    r
}

/// The question asked before removing a record shown as `item`.
pub fn removal_question(item: Rendered) -> (r: Rendered)
    ensures
        r.pieces() == seq![plain("Are you sure you want to remove "@)] + item.pieces() + seq![
            plain("?"@),
        ],
        r.text() == "Are you sure you want to remove "@ + item.text() + "?"@,
{
    let mut r = Rendered::new();
    r.raw("Are you sure you want to remove ");
    r.append(item);
    r.raw("?");
    proof {
        assert(r.pieces() =~= seq![plain("Are you sure you want to remove "@)] + item.pieces()
            + seq![plain("?"@)]);
        assert(r.text() =~= "Are you sure you want to remove "@ + item.text() + "?"@);
    }
    r
}

/// Why a request to add a book by ISBN is refused.
#[derive(Clone, Copy, Debug, PartialEq, Eq, Structural)]
pub enum RequestError {
    /// No ISBN, or not a valid one (answered with status 418).
    NotAnIsbn,
    /// Adding the book failed (answered with status 500).
    Failed,
}

impl RequestError {
    /// The HTTP status the error is answered with.
    pub fn status(&self) -> (code: u16)
        ensures
            *self is NotAnIsbn ==> code == 418,
            *self is Failed ==> code == 500,
    {
        match self {
            RequestError::NotAnIsbn => 418,
            RequestError::Failed => 500,
        }
    }
}

/// The ISBN a request carries in its `content` parameter.
pub fn isbn_from_request(content: Option<&str>) -> (r: Result<Isbn, RequestError>)
    ensures
        match content {
            Some(c) => match isbn_plain(c@) {
                Some(p) => r matches Ok(i) && i@ == p,
                None => r matches Err(e) && e == RequestError::NotAnIsbn,
            },
            None => r matches Err(e) && e == RequestError::NotAnIsbn,
        },
{
    match content {
        None => Err(RequestError::NotAnIsbn),
        Some(c) => match Isbn::parse(c) {
            Some(i) => Ok(i),
            None => Err(RequestError::NotAnIsbn),
        },
    }
}

/// The answer to a request that was handled.
pub fn handled_message(isbn: &Isbn) -> (s: String)
    ensures
        s@ == "Handling of "@ + isbn@ + " complete."@,
{
    let mut s = "Handling of ".to_string();
    s.append(isbn.digits().as_str());
    s.append(" complete.");
    s
}

} // verus!
