use tomex::config::{Color, Config, OutputConfig, StyleConfig, TextAttribute};
use tomex::display::{decimal_string, Renderable};
use tomex::ids::Uuid;
use tomex::isbn::Isbn;
use tomex::progress::{PagesProgress, Progress};
use tomex::queries::{prefixed, removal_question};
use tomex::records::{Author, AuthorError, Book, Edition, EditionReview, Genre, Mood, Price, Review};
use tomex::render::Rendered;
use tomex::text::Text;
use tomex::timestamp::{OptionalTimestamp, Timestamp};

const DAY: i64 = 86_400_000;

/// The text without terminal escape sequences.
fn visible(s: &str) -> String {
    let mut out = String::new();
    let mut chars = s.chars().peekable();
    while let Some(c) = chars.next() {
        if c == '\u{1b}' {
            if chars.peek() == Some(&'[') {
                chars.next();
                while let Some(d) = chars.next() {
                    if ('@'..='~').contains(&d) {
                        break;
                    }
                }
            }
        } else {
            out.push(c);
        }
    }
    out
}

fn shown(r: Rendered) -> String {
    visible(&r.into_string())
}

fn text(s: &str) -> Text {
    Text(s.to_string())
}

fn at(ms: i64) -> Timestamp {
    Timestamp::from_millis(ms).unwrap()
}

const ONE: &str = "00000000-0000-0000-0000-000000000001";

#[test]
fn decimal_numbers() {
    assert_eq!(decimal_string(0), "0");
    assert_eq!(decimal_string(7), "7");
    assert_eq!(decimal_string(418), "418");
    assert_eq!(decimal_string(u32::MAX), "4294967295");
}

#[test]
fn styling_keeps_text() {
    let style = StyleConfig { bold: true, italic: true, color: Color::Red };
    assert_eq!(style.attributes(), vec![TextAttribute::Bold, TextAttribute::Italic]);
    let styled = style.style("Dune");
    assert!(styled.contains("Dune"));
    assert_eq!(visible(&styled), "Dune");
    let plain = StyleConfig { bold: false, italic: false, color: Color::White };
    assert!(plain.attributes().is_empty());
}

/// One of the two forms the terminal library writes: with colors, or with
/// colors switched off (`NO_COLOR`).
fn either(out: &str, colored: &str, uncolored: &str) -> bool {
    out == colored || out == uncolored
}

#[test]
fn styling_escape_codes() {
    let bold_red = StyleConfig { bold: true, italic: true, color: Color::Red };
    assert!(either(
        &bold_red.style("Dune"),
        "\u{1b}[38;5;9m\u{1b}[1m\u{1b}[3mDune\u{1b}[0m",
        "\u{1b}[m\u{1b}[1m\u{1b}[3mDune\u{1b}[0m",
    ));
    let white = StyleConfig { bold: false, italic: false, color: Color::White };
    assert!(either(&white.style("x"), "\u{1b}[38;5;15mx\u{1b}[39m", "\u{1b}[mx\u{1b}[m"));
    let rgb = StyleConfig { bold: false, italic: false, color: Color::Rgb { r: 1, g: 22, b: 255 } };
    assert!(either(&rgb.style("y"), "\u{1b}[38;2;1;22;255my\u{1b}[39m", "\u{1b}[my\u{1b}[m"));
    let ansi = StyleConfig { bold: true, italic: false, color: Color::AnsiValue(200) };
    assert!(either(&ansi.style("z"), "\u{1b}[38;5;200m\u{1b}[1mz\u{1b}[0m", "\u{1b}[m\u{1b}[1mz\u{1b}[0m"));
    let reset = StyleConfig { bold: false, italic: true, color: Color::Reset };
    assert!(either(&reset.style("w"), "\u{1b}[39m\u{1b}[3mw\u{1b}[0m", "\u{1b}[m\u{1b}[3mw\u{1b}[0m"));
}

#[test]
fn layouts() {
    let out = OutputConfig::with(false, "<", ">", "Note:", " / ", StyleConfig::default());
    assert_eq!(shown(out.format_str("x")), "<Note: x>");
    let config = Config::default();
    let items = vec![
        Genre { id: Uuid(1), name: text("A"), deleted: false }.render(&config),
        Genre { id: Uuid(2), name: text("B"), deleted: false }.render(&config),
    ];
    assert_eq!(
        shown(out.format_vec(items)),
        format!("<Note: A ({}) / B (00000000-0000-0000-0000-000000000002)>", ONE)
    );
    assert_eq!(shown(out.format_vec(vec![])), "<Note: >");
}

#[test]
fn named_records() {
    let config = Config::default();
    let genre = Genre { id: Uuid(1), name: text("Horror"), deleted: false };
    assert_eq!(shown(genre.render(&config)), format!("Horror ({})", ONE));
    let mood = Mood { id: Uuid(1), name: text("Dark"), deleted: false };
    assert_eq!(shown(mood.render(&config)), "Dark");
    let mut shows_ids = Config::default();
    shows_ids.output_mood.display_uuid = true;
    assert_eq!(shown(mood.render(&shows_ids)), format!("Dark ({})", ONE));
}

#[test]
fn authors() {
    let config = Config::default();
    assert_eq!(shown(Author::unknown().render(&config).unwrap()), "UNKOWN AUTHOR");
    let stoker = Author::created(Uuid(1), Some(text("Bram Stoker")));
    assert_eq!(shown(stoker.render(&config).unwrap()), "Bram Stoker");
    assert_eq!(shown(Author::created(Uuid(1), None).render(&config).unwrap()), "");
    let mut odd = Author::unknown();
    odd.id = Uuid(5);
    assert!(matches!(odd.render(&config), Err(AuthorError::UnknownSpecial)));
    let mut shows_ids = Config::default();
    shows_ids.output_author.display_uuid = true;
    assert_eq!(
        shown(Author::unknown().render(&shows_ids).unwrap()),
        "UNKOWN AUTHOR (00000000-0000-0000-0000-000000000000)"
    );
    assert_eq!(shown(Author::unknown().render_line(&shows_ids).unwrap()), "UNKOWN AUTHOR");
}

#[test]
fn timestamps_shown() {
    assert_eq!(shown(OptionalTimestamp(None).render()), "Not specified");
    assert_eq!(shown(OptionalTimestamp(Some(at(0))).render()), "1970-01-01 00:00:00 UTC");
    let style = StyleConfig::default();
    assert_eq!(shown(at(0).render(at(3 * DAY), &style)), "3 days ago");
}

fn dracula(release: Option<Timestamp>) -> Book {
    let mut b = Book::created(Uuid(1), text("Dracula"), Some(Author::created(Uuid(2), Some(text("Bram Stoker")))), None);
    b.release_date = OptionalTimestamp(release);
    b
}

#[test]
fn books_shown() {
    let config = Config::default();
    let now = at(10 * DAY);
    assert_eq!(shown(dracula(None).render_line(now, &config)), format!("Dracula ({})", ONE));
    assert_eq!(
        shown(dracula(Some(at(8 * DAY))).render_line(now, &config)),
        format!("Dracula, released 2 days ago ({})", ONE)
    );
    let mut b = dracula(Some(at(8 * DAY)));
    b.genres = Some(vec![Genre { id: Uuid(3), name: text("Horror"), deleted: false }]);
    assert_eq!(
        shown(b.render_terminal(now, &config).unwrap()),
        format!(
            "Dracula [Written by: Bram Stoker] [Released: 2 days ago] [Genres: Horror (00000000-0000-0000-0000-000000000003)] ({})",
            ONE
        )
    );
    let mut broken = dracula(None);
    let mut odd = Author::unknown();
    odd.id = Uuid(9);
    broken.authors = Some(vec![odd]);
    assert!(matches!(broken.render_terminal(now, &config), Err(AuthorError::UnknownSpecial)));
}

fn edition(isbn: Option<&str>, title: Option<&str>) -> Edition {
    Edition::created(
        Uuid(4),
        &dracula(None),
        title.map(text),
        None,
        isbn.map(text),
        Some(418),
        None,
    )
}

const FOUR: &str = "00000000-0000-0000-0000-000000000004";

#[test]
fn editions_shown() {
    let config = Config::default();
    assert_eq!(shown(edition(None, None).render_line(&config)), format!("Dracula ({})", FOUR));
    assert_eq!(shown(edition(None, Some("Norton")).render_line(&config)), format!("Norton ({})", FOUR));
    assert_eq!(shown(edition(Some("978-1"), None).render_line(&config)), "Dracula (978-1)");
    assert_eq!(shown(edition(Some("978-1"), Some("Norton")).render_line(&config)), "Norton (978-1)");
    let book = dracula(None);
    assert_eq!(
        shown(edition(Some("978-1"), None).render_terminal(&book, at(0), &config).unwrap()),
        "Dracula [Written by: Bram Stoker] [Page count: 418] (978-1)"
    );
    assert_eq!(
        shown(edition(None, None).render_terminal(&book, at(0), &config).unwrap()),
        format!("Dracula [Written by: Bram Stoker] [Page count: 418] ({})", FOUR)
    );
}

#[test]
fn reviews_shown() {
    let config = Config::default();
    let book = dracula(None);
    let r = Review::created(Uuid(5), &book, Some(85), Some(false), None, at(0));
    assert_eq!(shown(r.render_line(&config)), "Dracula");
    assert_eq!(
        shown(r.render_terminal(&book, at(2 * DAY), &config).unwrap()),
        format!(
            "Dracula ({}) [Rating: 85] [Recommended: NO] [Written by: Bram Stoker] [Last updated: 2 days ago] (00000000-0000-0000-0000-000000000005)",
            ONE
        )
    );
    let e = edition(None, None);
    let er = EditionReview::created(Uuid(6), &e, None, Some(true), at(0));
    assert_eq!(shown(er.render_line(&config)), "Dracula (00000000-0000-0000-0000-000000000006)");
    assert_eq!(
        shown(er.render_terminal(&e, &book, at(0), &config).unwrap()),
        format!(
            "Dracula ({}) [Recommended: YES] [Written by: Bram Stoker] [Last updated: now ago] (00000000-0000-0000-0000-000000000006)",
            FOUR
        )
    );
}

#[test]
fn progress_shown() {
    let config = Config::default();
    let now = at(DAY);
    let started = Progress::created(Uuid(7), Uuid(4), at(0), PagesProgress::Started);
    assert_eq!(shown(started.render_line(now, &config)), "Started book a day ago");
    let pages = Progress::created(Uuid(7), Uuid(4), at(0), PagesProgress::Pages(12));
    assert_eq!(shown(pages.render_line(now, &config)), "a day ago: 12 pages");
    let e = edition(Some("978-1"), None);
    assert_eq!(
        shown(pages.render_terminal(&e, now, &config)),
        "Dracula (978-1): 12 pages (a day ago)"
    );
    let finished = Progress::created(Uuid(7), Uuid(4), at(0), PagesProgress::Finished);
    assert_eq!(shown(finished.render_terminal(&e, now, &config)), "Dracula (978-1): Finished book a day ago");
}

#[test]
fn prices_shown() {
    let config = Config::default();
    let p = Price::created(text("$20"), Some(at(0)));
    assert_eq!(shown(p.render(at(2 * DAY), &config)), "Purchased for $20 2 days ago");
    assert_eq!(shown(Price::created(text("$20"), None).render(at(0), &config)), "Purchased for $20");
}

#[test]
fn isbn_text_for_editions() {
    let isbn = Isbn::parse("9781492067665").unwrap();
    let t = isbn.try_to_text(&StyleConfig::default()).unwrap();
    assert_eq!(visible(&t.0), "978-1-4920-6766-5");
}

#[test]
fn listing_lines() {
    let config = Config::default();
    let genre = Genre { id: Uuid(1), name: text("Horror"), deleted: false };
    assert_eq!(shown(prefixed(" • ", genre.render(&config))), format!(" • Horror ({})", ONE));
    let q = removal_question(genre.render(&config));
    assert_eq!(shown(q), format!("Are you sure you want to remove Horror ({})?", ONE));
}

#[test]
fn prefix_keeps_escape_codes() {
    let config = Config::default();
    let genre = Genre { id: Uuid(1), name: text("Horror"), deleted: false };
    let bare = genre.render(&config).into_string();
    let with_prefix = prefixed(" • ", genre.render(&config)).into_string();
    assert_eq!(with_prefix, format!(" • {}", bare));
}
