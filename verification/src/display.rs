use vstd::prelude::*;
use vstd::string::StringExecFns;

use crate::config::{framed, pieces_of, separated, Color, Config, OutputConfig, StyleConfig};
use crate::ids::{uuid_hyphenated, Uuid};
use crate::progress::{PagesProgress, Progress};
use crate::records::{
    AuthorError, Author, Binding, Book, Edition, EditionFormat, EditionReview, Genre, Language,
    Mood, Pace, Price, Publisher, Review,
};
use crate::render::{Piece, Rendered};
use crate::text::Text;
use crate::timestamp::{humanized_past, utc_text, OptionalTimestamp, Timestamp};

verus! {

/// Plain text.
pub open spec fn plain(s: Seq<char>) -> Piece {
    (Seq::empty(), s)
}

/// Text in a style.
pub open spec fn in_style(s: Seq<char>, style: StyleConfig) -> Piece {
    (seq![style], s)
}

/// The identifier in parentheses, after a space.
pub open spec fn id_note(id: u128) -> Piece {
    plain(" ("@ + uuid_hyphenated(id) + ")"@)
}

/// The identifier in parentheses.
pub open spec fn id_tag(id: u128) -> Piece {
    plain("("@ + uuid_hyphenated(id) + ")"@)
}

/// The style of secondary information: dark grey.
pub open spec fn dimmed() -> StyleConfig {
    StyleConfig { bold: false, italic: false, color: Color::DarkGrey }
}

/// Bold, in the terminal's own color.
pub open spec fn emphasis() -> StyleConfig {
    StyleConfig { bold: true, italic: false, color: Color::Reset }
}

/// Italic, in the terminal's own color.
pub open spec fn slanted() -> StyleConfig {
    StyleConfig { bold: false, italic: true, color: Color::Reset }
}

/// The decimal digit for `d` (`d < 10`).
pub open spec fn digit_char(d: nat) -> char {
    (d + 48) as char
}

/// The decimal text of a number, without leading zeros.
pub open spec fn decimal_text(n: nat) -> Seq<char>
    decreases n,
{
    if n < 10 {
        seq![digit_char(n)]
    } else {
        decimal_text(n / 10).push(digit_char(n % 10))
    }
}

/// The text of one decimal digit.
fn digit_str(d: u32) -> (s: &'static str)
    requires
        d < 10,
    ensures
        s@ == seq![digit_char(d as nat)],
{
    proof {
        reveal_strlit("0");
        reveal_strlit("1");
        reveal_strlit("2");
        reveal_strlit("3");
        reveal_strlit("4");
        reveal_strlit("5");
        reveal_strlit("6");
        reveal_strlit("7");
        reveal_strlit("8");
        reveal_strlit("9");
    }
    let s = if d == 0 {
        "0"
    } else if d == 1 {
        "1"
    } else if d == 2 {
        "2"
    } else if d == 3 {
        "3"
    } else if d == 4 {
        "4"
    } else if d == 5 {
        "5"
    } else if d == 6 {
        "6"
    } else if d == 7 {
        "7"
    } else if d == 8 {
        "8"
    } else {
        "9"
    };
    assert(s@ =~= seq![digit_char(d as nat)]);
    s
}

/// The decimal text of a number.
pub fn decimal_string(n: u32) -> (s: String)
    ensures
        s@ == decimal_text(n as nat),
    decreases n,
{
    if n < 10 {
        digit_str(n).to_string()
    } else {
        let mut s = decimal_string(n / 10);
        s.append(digit_str(n % 10));
        s
    }
}

/// Writes the identifier in parentheses, after a space.
fn push_id_note(r: &mut Rendered, id: Uuid)
    ensures
        final(r).pieces() == old(r).pieces().push(id_note(id.0)),
{
    let mut s = " (".to_string();
    s.append(id.to_string().as_str());
    s.append(")");
    r.raw(s.as_str());
}

/// Writes the identifier in parentheses.
fn push_id_tag(r: &mut Rendered, id: Uuid)
    ensures
        final(r).pieces() == old(r).pieces().push(id_tag(id.0)),
{
    let mut s = "(".to_string();
    s.append(id.to_string().as_str());
    s.append(")");
    r.raw(s.as_str());
}

/// A name in the content style of its output, followed by the identifier
/// when `show_id` holds.
pub open spec fn name_pieces(name: Seq<char>, id: u128, out: OutputConfig, show_id: bool) -> Seq<
    Piece,
> {
    seq![in_style(name, out.style_content)] + (if show_id {
        seq![id_note(id)]
    } else {
        Seq::empty()
    })
}

/// Renders a name and, when `show_id` holds, the identifier.
fn render_name(name: &Text, id: Uuid, out: &OutputConfig, show_id: bool) -> (r: Rendered)
    ensures
        r.pieces() == name_pieces(name@, id.0, *out, show_id),
{
    let mut r = Rendered::new();
    r.styled(name.0.as_str(), &out.style_content);
    if show_id {
        push_id_note(&mut r, id);
    }
    proof {
        assert(r.pieces() =~= name_pieces(name@, id.0, *out, show_id));
    }
    r
}

/// Records that are shown on their own, from the configuration alone.
pub trait Renderable {
    /// The pieces the record is shown as.
    spec fn shown_as(&self, config: Config) -> Seq<Piece>;

    /// Shows the record.
    fn render(&self, config: &Config) -> (r: Rendered)
        ensures
            r.pieces() == self.shown_as(*config),
    ;
}

impl Renderable for Genre {
    /// The name, then the identifier.
    open spec fn shown_as(&self, config: Config) -> Seq<Piece> {
        name_pieces(self.name@, self.id.0, config.output_genre, true)
    }

    fn render(&self, config: &Config) -> (r: Rendered) {
        render_name(&self.name, self.id, &config.output_genre, true)
    }
}

impl Renderable for Pace {
    /// The name, then the identifier.
    open spec fn shown_as(&self, config: Config) -> Seq<Piece> {
        name_pieces(self.name@, self.id.0, config.output_pace, true)
    }

    fn render(&self, config: &Config) -> (r: Rendered) {
        render_name(&self.name, self.id, &config.output_pace, true)
    }
}

impl Renderable for Language {
    /// The name, then the identifier.
    open spec fn shown_as(&self, config: Config) -> Seq<Piece> {
        name_pieces(self.name@, self.id.0, config.output_language, true)
    }

    fn render(&self, config: &Config) -> (r: Rendered) {
        render_name(&self.name, self.id, &config.output_language, true)
    }
}

impl Renderable for Publisher {
    /// The name, then the identifier.
    open spec fn shown_as(&self, config: Config) -> Seq<Piece> {
        name_pieces(self.name@, self.id.0, config.output_publisher, true)
    }

    fn render(&self, config: &Config) -> (r: Rendered) {
        render_name(&self.name, self.id, &config.output_publisher, true)
    }
}

impl Renderable for Mood {
    /// The name, then the identifier if the configuration shows them.
    open spec fn shown_as(&self, config: Config) -> Seq<Piece> {
        name_pieces(self.name@, self.id.0, config.output_mood, config.output_mood.display_uuid)
    }

    fn render(&self, config: &Config) -> (r: Rendered) {
        render_name(&self.name, self.id, &config.output_mood, config.output_mood.display_uuid)
    }
}

impl Renderable for Binding {
    /// The name, then the identifier if the configuration shows them.
    open spec fn shown_as(&self, config: Config) -> Seq<Piece> {
        name_pieces(
            self.name@,
            self.id.0,
            config.output_binding,
            config.output_binding.display_uuid,
        )
    }

    fn render(&self, config: &Config) -> (r: Rendered) {
        render_name(&self.name, self.id, &config.output_binding, config.output_binding.display_uuid)
    }
}

impl Renderable for EditionFormat {
    /// The name, then the identifier if the configuration shows them.
    open spec fn shown_as(&self, config: Config) -> Seq<Piece> {
        name_pieces(self.name@, self.id.0, config.output_format, config.output_format.display_uuid)
    }

    fn render(&self, config: &Config) -> (r: Rendered) {
        render_name(&self.name, self.id, &config.output_format, config.output_format.display_uuid)
    }
}

/// The pieces of each record of a list.
pub open spec fn shown_all<T: Renderable>(v: Seq<T>, config: Config) -> Seq<Seq<Piece>> {
    v.map_values(|x: T| x.shown_as(config))
}

/// Shows each record of a list.
pub fn render_all<T: Renderable>(v: &Vec<T>, config: &Config) -> (r: Vec<Rendered>)
    ensures
        pieces_of(r@) == shown_all(v@, *config),
{
    let mut r: Vec<Rendered> = Vec::new();
    let mut i: usize = 0;
    while i < v.len()
        invariant
            i <= v.len(),
            pieces_of(r@) == shown_all(v@.take(i as int), *config),
        decreases v.len() - i,
    {
        let x = v[i].render(config);
        let ghost before = r@;
        r.push(x);
        proof {
            assert(r@ =~= before.push(x));
            assert(pieces_of(r@) =~= pieces_of(before).push(x.pieces()));
            assert(shown_all(v@.take(i + 1), *config) =~= shown_all(v@.take(i as int), *config).push(
                v@[i as int].shown_as(*config),
            ));
        }
        i = i + 1;
    }
    proof {
        assert(v@.take(v.len() as int) =~= v@);
    }
    r
}

/// The pieces an author is shown as in a listing: the unknown author in bold,
/// an ordinary author by name (nothing for an author without one), then the
/// identifier if the configuration shows them; nothing for any other special
/// author.
pub open spec fn author_shown_as(a: Author, config: Config) -> Option<Seq<Piece>> {
    let out = config.output_author;
    let tail = if out.display_uuid {
        seq![id_note(a.id.0)]
    } else {
        Seq::empty()
    };
    if a.special {
        if a.id.0 == 0 {
            Some(seq![in_style("UNKOWN AUTHOR"@, emphasis())] + tail)
        } else {
            None
        }
    } else {
        Some(
            (match a.name {
                Some(n) => seq![in_style(n@, out.style_content)],
                None => Seq::empty(),
            }) + tail,
        )
    }
}

/// The pieces an author is shown as on its own line: as in a listing, but
/// the unknown author without an identifier.
pub open spec fn author_line(a: Author, config: Config) -> Option<Seq<Piece>> {
    if a.special && a.id.0 == 0 {
        Some(seq![in_style("UNKOWN AUTHOR"@, emphasis())])
    } else {
        author_shown_as(a, config)
    }
}

/// Every author of a list can be shown.
pub open spec fn authors_showable(v: Seq<Author>, config: Config) -> bool {
    forall|i: int| 0 <= i < v.len() ==> (#[trigger] author_shown_as(v[i], config)) is Some
}

/// The pieces of each author of a list.
pub open spec fn authors_shown_as(v: Seq<Author>, config: Config) -> Seq<Seq<Piece>> {
    v.map_values(|a: Author| author_shown_as(a, config)->0)
}

impl Author {
    /// Shows the author in a listing; a special author other than the unknown
    /// author cannot be shown.
    pub fn render(&self, config: &Config) -> (r: Result<Rendered, AuthorError>)
        ensures
            match author_shown_as(*self, *config) {
                Some(p) => r matches Ok(x) && x.pieces() == p,
                None => r matches Err(e) && e == AuthorError::UnknownSpecial,
            },
    {
        let out = &config.output_author;
        let mut r = Rendered::new();
        if self.special {
            if self.id.0 == 0 {
                r.styled("UNKOWN AUTHOR", &StyleConfig { bold: true, italic: false, color: Color::Reset });
            } else {
                return Err(AuthorError::UnknownSpecial);
            }
        } else {
            match &self.name {
                Some(n) => r.styled(n.0.as_str(), &out.style_content),
                None => {},
            }
        }
        if out.display_uuid {
            push_id_note(&mut r, self.id);
        }
        proof {
            assert(r.pieces() =~= author_shown_as(*self, *config)->0);
        }
        Ok(r)
    }

    /// Shows the author on its own line; a special author other than the
    /// unknown author cannot be shown.
    pub fn render_line(&self, config: &Config) -> (r: Result<Rendered, AuthorError>)
        ensures
            match author_line(*self, *config) {
                Some(p) => r matches Ok(x) && x.pieces() == p,
                None => r matches Err(e) && e == AuthorError::UnknownSpecial,
            },
    {
        if self.special && self.id.0 == 0 {
            let mut r = Rendered::new();
            r.styled("UNKOWN AUTHOR", &StyleConfig { bold: true, italic: false, color: Color::Reset });
            proof {
                assert(r.pieces() =~= seq![in_style("UNKOWN AUTHOR"@, emphasis())]);
            }
            Ok(r)
        } else {
            self.render(config)
        }
    }
}

/// Shows each author of a list; fails if one of them cannot be shown.
pub fn render_authors(v: &Vec<Author>, config: &Config) -> (r: Result<Vec<Rendered>, AuthorError>)
    ensures
        authors_showable(v@, *config) ==> (r matches Ok(rs) && pieces_of(rs@) == authors_shown_as(
            v@,
            *config,
        )),
        !authors_showable(v@, *config) ==> (r matches Err(e) && e == AuthorError::UnknownSpecial),
{
    let mut r: Vec<Rendered> = Vec::new();
    let mut i: usize = 0;
    while i < v.len()
        invariant
            i <= v.len(),
            authors_showable(v@.take(i as int), *config),
            pieces_of(r@) == authors_shown_as(v@.take(i as int), *config),
        decreases v.len() - i,
    {
        match v[i].render(config) {
            Ok(x) => {
                let ghost before = r@;
                r.push(x);
                proof {
                    assert(r@ =~= before.push(x));
                    assert(pieces_of(r@) =~= pieces_of(before).push(x.pieces()));
                    assert(authors_shown_as(v@.take(i + 1), *config) =~= authors_shown_as(
                        v@.take(i as int),
                        *config,
                    ).push(author_shown_as(v@[i as int], *config)->0));
                    assert forall|j: int| 0 <= j < i + 1 implies (#[trigger] author_shown_as(
                        v@.take(i + 1)[j],
                        *config,
                    )) is Some by {
                        if j < i {
                            assert(v@.take(i + 1)[j] == v@.take(i as int)[j]);
                        }
                    }
                }
            },
            Err(e) => {
                proof {
                    assert(author_shown_as(v@[i as int], *config) is None);
                }
                return Err(e);
            },
        }
        i = i + 1;
    }
    proof {
        assert(v@.take(v.len() as int) =~= v@);
    }
    Ok(r)
}

/// How long before `now` the instant `t` was, in words.
pub open spec fn ago(t: i64, now: i64) -> Seq<char> {
    humanized_past((t - now) as i64)
}

impl Timestamp {
    /// Shows how long ago the instant was, in a style.
    pub fn render(&self, now: Timestamp, style: &StyleConfig) -> (r: Rendered)
        ensures
            r.pieces() == seq![in_style(ago(self@, now@), *style)],
    {
        let mut r = Rendered::new();
        r.styled(self.humanize(now).as_str(), style);
        proof {
            assert(r.pieces() =~= seq![in_style(ago(self@, now@), *style)]);
        }
        r
    }
}

/// The pieces an optional timestamp is shown as: the instant in UTC, or a
/// dimmed "Not specified".
pub open spec fn optional_timestamp_shown_as(t: Option<i64>) -> Seq<Piece> {
    match t {
        Some(m) => seq![plain(utc_text(m))],
        None => seq![in_style("Not specified"@, dimmed())],
    }
}

impl OptionalTimestamp {
    /// Shows the instant in UTC, or that none is specified.
    pub fn render(&self) -> (r: Rendered)
        ensures
            r.pieces() == optional_timestamp_shown_as(self@),
    {
        let mut r = Rendered::new();
        match self.0 {
            Some(t) => r.raw(t.to_utc_string().as_str()),
            None => r.styled(
                "Not specified",
                &StyleConfig { bold: false, italic: false, color: Color::DarkGrey },
            ),
        }
        proof {
            assert(r.pieces() =~= optional_timestamp_shown_as(self@));
        }
        r
    }
}


/// Pieces followed by a plain space.
pub open spec fn spaced(p: Seq<Piece>) -> Seq<Piece> {
    p + seq![plain(" "@)]
}

/// The separator piece of a layout.
pub open spec fn sep_piece(out: OutputConfig) -> Piece {
    (seq![out.style_separator], out.separator@)
}

/// A list laid out by a configuration, then a space.
pub open spec fn list_block(out: OutputConfig, items: Seq<Seq<Piece>>) -> Seq<Piece> {
    spaced(framed(out, separated(items, sep_piece(out))))
}

/// The authors of a book laid out, then a space; nothing when unknown.
pub open spec fn authors_block(authors: Option<Vec<Author>>, config: Config) -> Seq<Piece> {
    match authors {
        Some(v) => list_block(config.output_author, authors_shown_as(v@, config)),
        None => Seq::empty(),
    }
}

/// Whether the authors of a book, if known, can all be shown.
pub open spec fn authors_ok(authors: Option<Vec<Author>>, config: Config) -> bool {
    match authors {
        Some(v) => authors_showable(v@, config),
        None => true,
    }
}

/// How long ago an instant was, styled as a timestamp and then as the
/// content of `out`, laid out by `out`, then a space.
pub open spec fn when_block(out: OutputConfig, t: i64, now: i64, config: Config) -> Seq<Piece> {
    spaced(
        framed(
            out,
            seq![(seq![config.output_timestamp.style_content, out.style_content], ago(t, now))],
        ),
    )
}

/// A rating laid out, then a space; nothing when there is none.
pub open spec fn rating_block(rating: Option<u32>, config: Config) -> Seq<Piece> {
    match rating {
        Some(n) => spaced(
            framed(
                config.output_rating,
                seq![in_style(decimal_text(n as nat), config.output_rating.style_content)],
            ),
        ),
        None => Seq::empty(),
    }
}

/// A recommendation laid out as YES or NO, then a space; nothing when there
/// is none.
pub open spec fn recommend_block(recommend: Option<bool>, config: Config) -> Seq<Piece> {
    match recommend {
        Some(true) => spaced(
            framed(
                config.output_recommended_true,
                seq![in_style("YES"@, config.output_recommended_true.style_content)],
            ),
        ),
        Some(false) => spaced(
            framed(
                config.output_recommended_false,
                seq![in_style("NO"@, config.output_recommended_false.style_content)],
            ),
        ),
        None => Seq::empty(),
    }
}

/// Writes a space.
fn push_space(r: &mut Rendered)
    ensures
        final(r).pieces() == old(r).pieces().push(plain(" "@)),
{
    r.raw(" ");
}

/// Writes a rendered block followed by a space.
fn push_block(r: &mut Rendered, block: Rendered)
    ensures
        final(r).pieces() == old(r).pieces() + spaced(block.pieces()),
{
    let ghost before = r.pieces();
    r.append(block);
    push_space(r);
    proof {
        assert(r.pieces() =~= before + spaced(block.pieces()));
    }
}

/// Writes the authors of a book, laid out, if known.
fn push_authors(r: &mut Rendered, authors: &Option<Vec<Author>>, config: &Config) -> (res: Result<
    (),
    AuthorError,
>)
    ensures
        authors_ok(*authors, *config) ==> (res is Ok && final(r).pieces() == old(r).pieces()
            + authors_block(*authors, *config)),
        !authors_ok(*authors, *config) ==> (res matches Err(e) && e == AuthorError::UnknownSpecial),
{
    let ghost before = r.pieces();
    match authors {
        Some(v) => {
            let items = render_authors(v, config)?;
            push_block(r, config.output_author.format_vec(items));
        },
        None => {
            proof {
                assert(r.pieces() =~= before + Seq::<Piece>::empty());
            }
        },
    }
    Ok(())
}

/// Writes how long ago an instant was, laid out by `out`.
fn push_when(r: &mut Rendered, out: &OutputConfig, t: Timestamp, now: Timestamp, config: &Config)
    ensures
        final(r).pieces() == old(r).pieces() + when_block(*out, t@, now@, *config),
{
    let shown = t.render(now, &config.output_timestamp.style_content);
    let ghost ts = config.output_timestamp.style_content;
    proof {
        assert(seq![ts].push(out.style_content) =~= seq![ts, out.style_content]);
    }
    push_block(r, out.format_restyled(shown));
}

/// Writes a rating, laid out, if there is one.
fn push_rating(r: &mut Rendered, rating: Option<u32>, config: &Config)
    ensures
        final(r).pieces() == old(r).pieces() + rating_block(rating, *config),
{
    let ghost before = r.pieces();
    match rating {
        Some(n) => push_block(r, config.output_rating.format_str(decimal_string(n).as_str())),
        None => {
            proof {
                assert(r.pieces() =~= before + Seq::<Piece>::empty());
            }
        },
    }
}

/// Writes a recommendation, laid out, if there is one.
fn push_recommend(r: &mut Rendered, recommend: Option<bool>, config: &Config)
    ensures
        final(r).pieces() == old(r).pieces() + recommend_block(recommend, *config),
{
    let ghost before = r.pieces();
    match recommend {
        Some(true) => push_block(r, config.output_recommended_true.format_str("YES")),
        Some(false) => push_block(r, config.output_recommended_false.format_str("NO")),
        None => {
            proof {
                assert(r.pieces() =~= before + Seq::<Piece>::empty());
            }
        },
    }
}

/// The pieces a book is shown as on its own line: the title, when it was
/// released if known, and the identifier.
pub open spec fn book_line(b: Book, now: i64, config: Config) -> Seq<Piece> {
    let title = in_style(b.title@, config.output_book.style_content);
    match b.release_date@ {
        None => seq![title, id_note(b.id.0)],
        Some(t) => seq![
            title,
            plain(", released "@),
            in_style(ago(t, now), config.output_timestamp.style_content),
            id_note(b.id.0),
        ],
    }
}

/// The pieces a book is shown as in a listing: the title, the authors, the
/// release, the genres, and the identifier.
pub open spec fn book_card(b: Book, now: i64, config: Config) -> Seq<Piece> {
    spaced(seq![in_style(b.title@, config.output_book.style_content)]) + authors_block(
        b.authors,
        config,
    ) + optional_when_block(config.output_release_date, b.release_date@, now, config)
        + records_block(config.output_genre, b.genres, config) + seq![id_tag(b.id.0)]
}

impl Book {
    /// Shows the book on its own line.
    pub fn render_line(&self, now: Timestamp, config: &Config) -> (r: Rendered)
        ensures
            r.pieces() == book_line(*self, now@, *config),
    {
        let mut r = Rendered::new();
        r.styled(self.title.0.as_str(), &config.output_book.style_content);
        match self.release_date.0 {
            Some(t) => {
                r.raw(", released ");
                r.append(t.render(now, &config.output_timestamp.style_content));
            },
            None => {},
        }
        push_id_note(&mut r, self.id);
        proof {
            assert(r.pieces() =~= book_line(*self, now@, *config));
        }
        r
    }

    /// Shows the book in a listing, with its authors and genres as hydrated.
    pub fn render_terminal(&self, now: Timestamp, config: &Config) -> (r: Result<
        Rendered,
        AuthorError,
    >)
        ensures
            authors_ok(self.authors, *config) ==> (r matches Ok(x) && x.pieces() == book_card(
                *self,
                now@,
                *config,
            )),
            !authors_ok(self.authors, *config) ==> (r matches Err(e) && e
                == AuthorError::UnknownSpecial),
    {
        let mut r = Rendered::new();
        r.styled(self.title.0.as_str(), &config.output_book.style_content);
        push_space(&mut r);
        proof {
            assert(r.pieces() =~= spaced(
                seq![in_style(self.title@, config.output_book.style_content)],
            ));
        }
        push_authors(&mut r, &self.authors, config)?;
        push_optional_when(&mut r, &config.output_release_date, self.release_date, now, config);
        push_records(&mut r, &config.output_genre, &self.genres, config);
        push_id_tag(&mut r, self.id);
        proof {
            assert(r.pieces() =~= book_card(*self, now@, *config));
        }
        Ok(r)
    }
}

/// The pieces an edition is shown as on its own line: its title (the book's
/// when it has none of its own), then its ISBN, dimmed, or else its
/// identifier.
pub open spec fn edition_line(e: Edition, config: Config) -> Seq<Piece> {
    let title = in_style(
        match e.edition_title {
            Some(t) => t@,
            None => e.book_title@,
        },
        config.output_edition.style_content,
    );
    match e.isbn {
        None => seq![title, id_note(e.id.0)],
        Some(isbn) => seq![title, plain(" ("@), in_style(isbn@, dimmed()), plain(")"@)],
    }
}

/// The title of an edition (the book's when it has none of its own), then a
/// space.
pub open spec fn edition_title_block(e: Edition, book: Book, config: Config) -> Seq<Piece> {
    spaced(
        seq![
            in_style(
                match e.edition_title {
                    Some(t) => t@,
                    None => book.title@,
                },
                config.output_edition.style_content,
            ),
        ],
    )
}

/// The page count laid out, then a space; nothing when unknown.
pub open spec fn pages_block(pages: Option<u32>, config: Config) -> Seq<Piece> {
    match pages {
        Some(n) => spaced(
            framed(
                config.output_page_count,
                seq![in_style(decimal_text(n as nat), config.output_page_count.style_content)],
            ),
        ),
        None => Seq::empty(),
    }
}

/// A record laid out, then a space; nothing when there is none.
pub open spec fn record_block<T: Renderable>(out: OutputConfig, x: Option<T>, config: Config) -> Seq<
    Piece,
> {
    match x {
        Some(v) => spaced(framed(out, v.shown_as(config))),
        None => Seq::empty(),
    }
}

/// Records laid out as a list, then a space; nothing when there are none.
pub open spec fn records_block<T: Renderable>(
    out: OutputConfig,
    x: Option<Vec<T>>,
    config: Config,
) -> Seq<Piece> {
    match x {
        Some(v) => list_block(out, shown_all(v@, config)),
        None => Seq::empty(),
    }
}

/// How long ago an optional instant was, laid out by `out`, then a space;
/// nothing when it is unknown.
pub open spec fn optional_when_block(out: OutputConfig, t: Option<i64>, now: i64, config: Config) -> Seq<
    Piece,
> {
    match t {
        Some(m) => when_block(out, m, now, config),
        None => Seq::empty(),
    }
}

/// The ISBN of an edition in italics, in parentheses, or else its identifier.
pub open spec fn isbn_tag(isbn: Option<Text>, id: u128) -> Seq<Piece> {
    match isbn {
        Some(i) => seq![plain("("@), in_style(i@, slanted()), plain(")"@)],
        None => seq![id_tag(id)],
    }
}

/// The pieces an edition is shown as in a listing, with the book it belongs
/// to: title, authors, pages, format, binding, languages, release,
/// publishers, then the ISBN in italics or else the identifier.
pub open spec fn edition_card(e: Edition, book: Book, now: i64, config: Config) -> Seq<Piece> {
    edition_title_block(e, book, config) + authors_block(book.authors, config) + pages_block(
        e.pages,
        config,
    ) + record_block(config.output_format, e.format, config) + record_block(
        config.output_binding,
        e.binding,
        config,
    ) + records_block(config.output_language, e.languages, config) + optional_when_block(
        config.output_release_date,
        e.release_date@,
        now,
        config,
    ) + records_block(config.output_publisher, e.publishers, config) + isbn_tag(e.isbn, e.id.0)
}

/// Writes the page count, laid out, if known.
fn push_pages(r: &mut Rendered, pages: Option<u32>, config: &Config)
    ensures
        final(r).pieces() == old(r).pieces() + pages_block(pages, *config),
{
    let ghost before = r.pieces();
    match pages {
        Some(n) => push_block(r, config.output_page_count.format_str(decimal_string(n).as_str())),
        None => {
            proof {
                assert(r.pieces() =~= before + Seq::<Piece>::empty());
            }
        },
    }
}

/// Writes a record, laid out, if there is one.
fn push_record<T: Renderable>(r: &mut Rendered, out: &OutputConfig, x: &Option<T>, config: &Config)
    ensures
        final(r).pieces() == old(r).pieces() + record_block(*out, *x, *config),
{
    let ghost before = r.pieces();
    match x {
        Some(v) => push_block(r, out.format(v.render(config))),
        None => {
            proof {
                assert(r.pieces() =~= before + Seq::<Piece>::empty());
            }
        },
    }
}

/// Writes records as a list, laid out, if there are any.
fn push_records<T: Renderable>(
    r: &mut Rendered,
    out: &OutputConfig,
    x: &Option<Vec<T>>,
    config: &Config,
)
    ensures
        final(r).pieces() == old(r).pieces() + records_block(*out, *x, *config),
{
    let ghost before = r.pieces();
    match x {
        Some(v) => push_block(r, out.format_vec(render_all(v, config))),
        None => {
            proof {
                assert(r.pieces() =~= before + Seq::<Piece>::empty());
            }
        },
    }
}

/// Writes how long ago an instant was, laid out, if known.
fn push_optional_when(
    r: &mut Rendered,
    out: &OutputConfig,
    t: OptionalTimestamp,
    now: Timestamp,
    config: &Config,
)
    ensures
        final(r).pieces() == old(r).pieces() + optional_when_block(*out, t@, now@, *config),
{
    let ghost before = r.pieces();
    match t.0 {
        Some(m) => push_when(r, out, m, now, config),
        None => {
            proof {
                assert(r.pieces() =~= before + Seq::<Piece>::empty());
            }
        },
    }
}

/// Writes the ISBN in italics, in parentheses, or else the identifier.
fn push_isbn_tag(r: &mut Rendered, isbn: &Option<Text>, id: Uuid)
    ensures
        final(r).pieces() == old(r).pieces() + isbn_tag(*isbn, id.0),
{
    let ghost before = r.pieces();
    match isbn {
        Some(i) => {
            r.raw("(");
            r.styled(i.0.as_str(), &StyleConfig { bold: false, italic: true, color: Color::Reset });
            r.raw(")");
        },
        None => push_id_tag(r, id),
    }
    proof {
        assert(r.pieces() =~= before + isbn_tag(*isbn, id.0));
    }
}

impl Edition {
    /// Shows the edition on its own line.
    pub fn render_line(&self, config: &Config) -> (r: Rendered)
        ensures
            r.pieces() == edition_line(*self, *config),
    {
        let mut r = Rendered::new();
        match &self.edition_title {
            Some(t) => r.styled(t.0.as_str(), &config.output_edition.style_content),
            None => r.styled(self.book_title.0.as_str(), &config.output_edition.style_content),
        }
        match &self.isbn {
            None => push_id_note(&mut r, self.id),
            Some(isbn) => {
                r.raw(" (");
                r.styled(
                    isbn.0.as_str(),
                    &StyleConfig { bold: false, italic: false, color: Color::DarkGrey },
                );
                r.raw(")");
            },
        }
        proof {
            assert(r.pieces() =~= edition_line(*self, *config));
        }
        r
    }

    /// Shows the edition in a listing, with its languages, publishers, format
    /// and binding as hydrated, and the book it belongs to with its authors.
    pub fn render_terminal(&self, book: &Book, now: Timestamp, config: &Config) -> (r: Result<
        Rendered,
        AuthorError,
    >)
        ensures
            authors_ok(book.authors, *config) ==> (r matches Ok(x) && x.pieces() == edition_card(
                *self,
                *book,
                now@,
                *config,
            )),
            !authors_ok(book.authors, *config) ==> (r matches Err(e) && e
                == AuthorError::UnknownSpecial),
    {
        let mut r = Rendered::new();
        match &self.edition_title {
            Some(t) => r.styled(t.0.as_str(), &config.output_edition.style_content),
            None => r.styled(book.title.0.as_str(), &config.output_edition.style_content),
        }
        push_space(&mut r);
        let ghost p1 = r.pieces();
        proof {
            assert(p1 =~= edition_title_block(*self, *book, *config));
        }
        push_authors(&mut r, &book.authors, config)?;
        push_pages(&mut r, self.pages, config);
        push_record(&mut r, &config.output_format, &self.format, config);
        push_record(&mut r, &config.output_binding, &self.binding, config);
        push_records(&mut r, &config.output_language, &self.languages, config);
        push_optional_when(&mut r, &config.output_release_date, self.release_date, now, config);
        push_records(&mut r, &config.output_publisher, &self.publishers, config);
        push_isbn_tag(&mut r, &self.isbn, self.id);
        proof {
            assert(r.pieces() =~= edition_card(*self, *book, now@, *config));
        }
        Ok(r)
    }
}


/// The pieces a review is shown as on its own line: the title of the book,
/// then the identifier if the configuration shows them.
pub open spec fn review_line(r: Review, config: Config) -> Seq<Piece> {
    seq![plain(r.book_title@)] + (if config.output_review.display_uuid {
        seq![id_note(r.id.0)]
    } else {
        Seq::empty()
    })
}

/// The pieces a review is shown as in a listing, with the book it reviews:
/// the book's line, rating, recommendation, pace, moods, the book's authors,
/// when it was last updated, and the identifier.
pub open spec fn review_card(r: Review, book: Book, now: i64, config: Config) -> Seq<Piece> {
    spaced(book_line(book, now, config)) + rating_block(r.rating, config) + recommend_block(
        r.recommend,
        config,
    ) + record_block(config.output_pace, r.pace, config) + records_block(
        config.output_mood,
        r.moods,
        config,
    ) + authors_block(book.authors, config) + when_block(
        config.output_last_updated,
        r.timestamp_updated@,
        now,
        config,
    ) + seq![id_tag(r.id.0)]
}

impl Review {
    /// Shows the review on its own line.
    pub fn render_line(&self, config: &Config) -> (r: Rendered)
        ensures
            r.pieces() == review_line(*self, *config),
    {
        let mut r = Rendered::new();
        r.raw(self.book_title.0.as_str());
        if config.output_review.display_uuid {
            push_id_note(&mut r, self.id);
        }
        proof {
            assert(r.pieces() =~= review_line(*self, *config));
        }
        r
    }

    /// Shows the review in a listing, with its pace and moods as hydrated,
    /// and the book it reviews with its authors.
    pub fn render_terminal(&self, book: &Book, now: Timestamp, config: &Config) -> (r: Result<
        Rendered,
        AuthorError,
    >)
        ensures
            authors_ok(book.authors, *config) ==> (r matches Ok(x) && x.pieces() == review_card(
                *self,
                *book,
                now@,
                *config,
            )),
            !authors_ok(book.authors, *config) ==> (r matches Err(e) && e
                == AuthorError::UnknownSpecial),
    {
        let mut r = Rendered::new();
        push_block(&mut r, book.render_line(now, config));
        proof {
            assert(r.pieces() =~= spaced(book_line(*book, now@, *config)));
        }
        push_rating(&mut r, self.rating, config);
        push_recommend(&mut r, self.recommend, config);
        push_record(&mut r, &config.output_pace, &self.pace, config);
        push_records(&mut r, &config.output_mood, &self.moods, config);
        push_authors(&mut r, &book.authors, config)?;
        push_when(&mut r, &config.output_last_updated, self.timestamp_updated, now, config);
        push_id_tag(&mut r, self.id);
        proof {
            assert(r.pieces() =~= review_card(*self, *book, now@, *config));
        }
        Ok(r)
    }
}

/// The pieces a review of an edition is shown as on its own line: the title
/// of the book, then the identifier.
pub open spec fn edition_review_line(r: EditionReview, config: Config) -> Seq<Piece> {
    seq![in_style(r.book_title@, config.output_edition_review.style_content), id_note(r.id.0)]
}

/// The pieces a review of an edition is shown as in a listing, with the
/// edition and its book: the edition's line, rating, recommendation, the
/// book's authors, when it was last updated, and the identifier.
pub open spec fn edition_review_card(
    r: EditionReview,
    edition: Edition,
    book: Book,
    now: i64,
    config: Config,
) -> Seq<Piece> {
    spaced(edition_line(edition, config)) + rating_block(r.rating, config) + recommend_block(
        r.recommend,
        config,
    ) + authors_block(book.authors, config) + when_block(
        config.output_last_updated,
        r.timestamp_updated@,
        now,
        config,
    ) + seq![id_tag(r.id.0)]
}

impl EditionReview {
    /// Shows the review on its own line.
    pub fn render_line(&self, config: &Config) -> (r: Rendered)
        ensures
            r.pieces() == edition_review_line(*self, *config),
    {
        let mut r = Rendered::new();
        r.styled(self.book_title.0.as_str(), &config.output_edition_review.style_content);
        push_id_note(&mut r, self.id);
        proof {
            assert(r.pieces() =~= edition_review_line(*self, *config));
        }
        r
    }

    /// Shows the review in a listing, with the edition it reviews and that
    /// edition's book with its authors.
    pub fn render_terminal(
        &self,
        edition: &Edition,
        book: &Book,
        now: Timestamp,
        config: &Config,
    ) -> (r: Result<Rendered, AuthorError>)
        ensures
            authors_ok(book.authors, *config) ==> (r matches Ok(x) && x.pieces()
                == edition_review_card(*self, *edition, *book, now@, *config)),
            !authors_ok(book.authors, *config) ==> (r matches Err(e) && e
                == AuthorError::UnknownSpecial),
    {
        let mut r = Rendered::new();
        push_block(&mut r, edition.render_line(config));
        proof {
            assert(r.pieces() =~= spaced(edition_line(*edition, *config)));
        }
        push_rating(&mut r, self.rating, config);
        push_recommend(&mut r, self.recommend, config);
        push_authors(&mut r, &book.authors, config)?;
        push_when(&mut r, &config.output_last_updated, self.timestamp_updated, now, config);
        push_id_tag(&mut r, self.id);
        proof {
            assert(r.pieces() =~= edition_review_card(*self, *edition, *book, now@, *config));
        }
        Ok(r)
    }
}

/// How long ago a progress update was made, styled as a timestamp.
pub open spec fn progress_when(p: Progress, now: i64, config: Config) -> Piece {
    in_style(ago(p.timestamp@, now), config.output_timestamp.style_content)
}

/// What a progress update says: started or finished the book, or a number of
/// pages, around the moment it was made.
pub open spec fn progress_body(p: Progress, now: i64, config: Config) -> Seq<Piece> {
    let style = config.output_progress.style_content;
    match p.pages_progress {
        PagesProgress::Started => seq![in_style("Started book"@, style), plain(" "@), progress_when(p, now, config)],
        PagesProgress::Finished => seq![in_style("Finished book"@, style), plain(" "@), progress_when(p, now, config)],
        PagesProgress::Pages(n) => seq![
            progress_when(p, now, config),
            plain(": "@),
            in_style(decimal_text(n as nat), style),
            plain(" pages"@),
        ],
    }
}

/// The identifier of a progress update, if the configuration shows them.
pub open spec fn progress_id(p: Progress, config: Config) -> Seq<Piece> {
    if config.output_progress.display_uuid {
        seq![id_note(p.id.0)]
    } else {
        Seq::empty()
    }
}

/// The pieces a progress update is shown as in a listing, after the line of
/// its edition.
pub open spec fn progress_card(p: Progress, edition: Edition, now: i64, config: Config) -> Seq<
    Piece,
> {
    let style = config.output_progress.style_content;
    edition_line(edition, config) + (match p.pages_progress {
        PagesProgress::Started => seq![plain(": "@), in_style("Started book"@, style), plain(" "@), progress_when(p, now, config)],
        PagesProgress::Finished => seq![plain(": "@), in_style("Finished book"@, style), plain(" "@), progress_when(p, now, config)],
        PagesProgress::Pages(n) => seq![
            plain(": "@),
            in_style(decimal_text(n as nat), style),
            plain(" pages ("@),
            progress_when(p, now, config),
            plain(")"@),
        ],
    }) + progress_id(p, config)
}

impl Progress {
    /// Shows the progress update on its own line.
    pub fn render_line(&self, now: Timestamp, config: &Config) -> (r: Rendered)
        ensures
            r.pieces() == progress_body(*self, now@, *config) + progress_id(*self, *config),
    {
        let style = &config.output_progress.style_content;
        let when = self.timestamp.render(now, &config.output_timestamp.style_content);
        let mut r = Rendered::new();
        match self.pages_progress {
            PagesProgress::Started => {
                r.styled("Started book", style);
                r.raw(" ");
                r.append(when);
            },
            PagesProgress::Finished => {
                r.styled("Finished book", style);
                r.raw(" ");
                r.append(when);
            },
            PagesProgress::Pages(n) => {
                r.append(when);
                r.raw(": ");
                r.styled(decimal_string(n).as_str(), style);
                r.raw(" pages");
            },
        }
        if config.output_progress.display_uuid {
            push_id_note(&mut r, self.id);
        }
        proof {
            assert(r.pieces() =~= progress_body(*self, now@, *config) + progress_id(*self, *config));
        }
        r
    }

    /// Shows the progress update in a listing, after the line of its edition.
    pub fn render_terminal(&self, edition: &Edition, now: Timestamp, config: &Config) -> (r: Rendered)
        ensures
            r.pieces() == progress_card(*self, *edition, now@, *config),
    {
        let style = &config.output_progress.style_content;
        let when = self.timestamp.render(now, &config.output_timestamp.style_content);
        let mut r = edition.render_line(config);
        r.raw(": ");
        match self.pages_progress {
            PagesProgress::Started => {
                r.styled("Started book", style);
                r.raw(" ");
                r.append(when);
            },
            PagesProgress::Finished => {
                r.styled("Finished book", style);
                r.raw(" ");
                r.append(when);
            },
            PagesProgress::Pages(n) => {
                r.styled(decimal_string(n).as_str(), style);
                r.raw(" pages (");
                r.append(when);
                r.raw(")");
            },
        }
        if config.output_progress.display_uuid {
            push_id_note(&mut r, self.id);
        }
        proof {
            assert(r.pieces() =~= progress_card(*self, *edition, now@, *config));
        }
        r
    }
}

/// The pieces a price is shown as: what was paid, styled, then how long ago
/// if known.
pub open spec fn price_line(p: Price, now: i64, config: Config) -> Seq<Piece> {
    seq![plain("Purchased for "@), in_style(p.value@, config.output_price.style_content)] + (
    match p.timestamp@ {
        Some(t) => seq![plain(" "@), in_style(ago(t, now), config.output_timestamp.style_content)],
        None => Seq::empty(),
    })
}

impl Price {
    /// Shows what was paid and when.
    pub fn render(&self, now: Timestamp, config: &Config) -> (r: Rendered)
        ensures
            r.pieces() == price_line(*self, now@, *config),
    {
        let mut r = Rendered::new();
        r.raw("Purchased for ");
        r.styled(self.value.0.as_str(), &config.output_price.style_content);
        match self.timestamp.0 {
            Some(t) => {
                r.raw(" ");
                r.append(t.render(now, &config.output_timestamp.style_content));
            },
            None => {},
        }
        proof {
            assert(r.pieces() =~= price_line(*self, now@, *config));
        }
        r
    }
}

} // verus!
