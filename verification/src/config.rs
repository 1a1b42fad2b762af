use vstd::prelude::*;
use vstd::string::StringExecFns;

use crate::display::decimal_text;
use crate::render::{Piece, Rendered};

verus! {

/// The colors a piece of output can be shown in: the named terminal colors,
/// a red-green-blue color, or an entry of the 256-color palette.
#[derive(Clone, Copy, Debug, PartialEq, Eq, Structural)]
pub enum Color {
    Reset,
    Black,
    DarkGrey,
    Red,
    DarkRed,
    Green,
    DarkGreen,
    Yellow,
    DarkYellow,
    Blue,
    DarkBlue,
    Magenta,
    DarkMagenta,
    Cyan,
    DarkCyan,
    White,
    Grey,
    Rgb { r: u8, g: u8, b: u8 },
    AnsiValue(u8),
}

/// The control sequence introducer: escape and `[`.
pub open spec fn csi() -> Seq<char> {
    seq!['\x1b', '[']
}

/// A foreground color as the terminal is told it: the default color, an
/// entry of the 256-color palette, or a red-green-blue color.
#[derive(Clone, Copy, Debug, PartialEq, Eq, Structural)]
pub enum Foreground {
    Reset,
    Palette(u8),
    Rgb { r: u8, g: u8, b: u8 },
}

/// How a color is told to the terminal: the named colors are the first
/// sixteen entries of the palette.
pub open spec fn foreground_of(c: Color) -> Foreground {
    match c {
        Color::Reset => Foreground::Reset,
        Color::Black => Foreground::Palette(0),
        Color::DarkRed => Foreground::Palette(1),
        Color::DarkGreen => Foreground::Palette(2),
        Color::DarkYellow => Foreground::Palette(3),
        Color::DarkBlue => Foreground::Palette(4),
        Color::DarkMagenta => Foreground::Palette(5),
        Color::DarkCyan => Foreground::Palette(6),
        Color::Grey => Foreground::Palette(7),
        Color::DarkGrey => Foreground::Palette(8),
        Color::Red => Foreground::Palette(9),
        Color::Green => Foreground::Palette(10),
        Color::Yellow => Foreground::Palette(11),
        Color::Blue => Foreground::Palette(12),
        Color::Magenta => Foreground::Palette(13),
        Color::Cyan => Foreground::Palette(14),
        Color::White => Foreground::Palette(15),
        Color::Rgb { r, g, b } => Foreground::Rgb { r, g, b },
        Color::AnsiValue(v) => Foreground::Palette(v),
    }
}

impl Color {
    /// How the color is told to the terminal.
    pub fn foreground(&self) -> (f: Foreground)
        ensures
            f == foreground_of(*self),
    {
        match *self {
            Color::Reset => Foreground::Reset,
            Color::Black => Foreground::Palette(0),
            Color::DarkRed => Foreground::Palette(1),
            Color::DarkGreen => Foreground::Palette(2),
            Color::DarkYellow => Foreground::Palette(3),
            Color::DarkBlue => Foreground::Palette(4),
            Color::DarkMagenta => Foreground::Palette(5),
            Color::DarkCyan => Foreground::Palette(6),
            Color::Grey => Foreground::Palette(7),
            Color::DarkGrey => Foreground::Palette(8),
            Color::Red => Foreground::Palette(9),
            Color::Green => Foreground::Palette(10),
            Color::Yellow => Foreground::Palette(11),
            Color::Blue => Foreground::Palette(12),
            Color::Magenta => Foreground::Palette(13),
            Color::Cyan => Foreground::Palette(14),
            Color::White => Foreground::Palette(15),
            Color::Rgb { r, g, b } => Foreground::Rgb { r, g, b },
            Color::AnsiValue(v) => Foreground::Palette(v),
        }
    }
}

/// The select-graphic-rendition parameters that set a foreground color.
pub open spec fn foreground_parameters(f: Foreground) -> Seq<char> {
    match f {
        Foreground::Reset => "39"@,
        Foreground::Palette(n) => "38;5;"@ + decimal_text(n as nat),
        Foreground::Rgb { r, g, b } => "38;2;"@ + decimal_text(r as nat) + ";"@ + decimal_text(
            g as nat,
        ) + ";"@ + decimal_text(b as nat),
    }
}

/// The escape codes written before a text in foreground `f`, bold and italic
/// as asked: the color (its parameters left out when colors are switched off,
/// `colored` false), then bold, then italic.
pub open spec fn sgr_open_fg(f: Foreground, bold: bool, italic: bool, colored: bool) -> Seq<char> {
    csi() + (if colored {
        foreground_parameters(f)
    } else {
        Seq::empty()
    }) + "m"@ + (if bold {
        csi() + "1m"@
    } else {
        Seq::empty()
    }) + (if italic {
        csi() + "3m"@
    } else {
        Seq::empty()
    })
}

/// The escape codes written before a text in color `c`.
pub open spec fn sgr_open(c: Color, bold: bool, italic: bool, colored: bool) -> Seq<char> {
    sgr_open_fg(foreground_of(c), bold, italic, colored)
}

/// The escape codes written after such a text: a full reset when an
/// attribute was set, else the default foreground color.
pub open spec fn sgr_close(attributes: bool, colored: bool) -> Seq<char> {
    if attributes {
        csi() + "0m"@
    } else {
        csi() + (if colored {
            "39"@
        } else {
            Seq::empty()
        }) + "m"@
    }
}

/// `out` is how the terminal library writes `text` in foreground `f` with
/// these attributes: nothing at all (a console that takes no escape codes),
/// or the text between the escape codes of the style, colors on or off.
pub open spec fn written_fg(out: Seq<char>, text: Seq<char>, f: Foreground, bold: bool, italic: bool) -> bool {
    ||| out == Seq::<char>::empty()
    ||| exists|colored: bool|
        out == sgr_open_fg(f, bold, italic, colored) + text + sgr_close(bold || italic, colored)
}

/// `out` is how the terminal library writes `text` in color `c` with these
/// attributes.
pub open spec fn written_styled(out: Seq<char>, text: Seq<char>, c: Color, bold: bool, italic: bool) -> bool {
    written_fg(out, text, foreground_of(c), bold, italic)
}

/// How a piece of output is styled.
#[derive(Clone, Copy, Debug, PartialEq, Eq, Structural)]
pub struct StyleConfig {
    pub bold: bool,
    pub italic: bool,
    pub color: Color,
}

impl Default for StyleConfig {
    /// Plain white text.
    fn default() -> (r: Self)
        ensures
            r == (StyleConfig { bold: false, italic: false, color: Color::White }),
    {
        StyleConfig { bold: false, italic: false, color: Color::White }
    }
}

/// The attributes a piece of output can be shown with.
#[derive(Clone, Copy, Debug, PartialEq, Eq, Structural)]
pub enum TextAttribute {
    Bold,
    Italic,
}

/// crossterm's attribute type, carried through unopened.
#[verifier::external_type_specification]
#[verifier::external_body]
pub struct ExAttribute(crossterm::style::Attribute);

/// The crossterm attribute for a text attribute (`Attribute::Bold`,
/// `Attribute::Italic`). Nothing is claimed of the opaque value.
#[verifier::external_body]
fn crossterm_attribute(a: TextAttribute) -> (r: crossterm::style::Attribute) {
    match a {
        TextAttribute::Bold => crossterm::style::Attribute::Bold,
        TextAttribute::Italic => crossterm::style::Attribute::Italic,
    }
}

/// Writes a text with crossterm: a `ContentStyle` with the foreground color
/// (`Color::Reset`, `Color::AnsiValue` or `Color::Rgb`) and the attributes,
/// applied to the text and written as a string (`PrintStyledContent`).
/// Claimed, as crossterm's source writes it: `ESC[`, the color's parameters
/// (`39`, `38;5;n` or `38;2;r;g;b`; none when `NO_COLOR` is set) and `m`,
/// then `ESC[1m` for bold and `ESC[3m` for italic, the text, then `ESC[0m`
/// when an attribute was set, else `ESC[39m` (`ESC[m` under `NO_COLOR`). On
/// a Windows console without escape-code support crossterm writes nothing.
/// Which of these happens depends on the environment.
#[verifier::external_body]
fn render_styled(text: &str, fg: Foreground, attributes: &[TextAttribute]) -> (r: String)
    ensures
        written_fg(
            r@,
            text@,
            fg,
            attributes@.contains(TextAttribute::Bold),
            attributes@.contains(TextAttribute::Italic),
        ),
{
    let converted: Vec<crossterm::style::Attribute> = attributes.iter().map(|a| crossterm_attribute(*a)).collect();
    let color = match fg {
        Foreground::Reset => crossterm::style::Color::Reset,
        Foreground::Palette(n) => crossterm::style::Color::AnsiValue(n),
        Foreground::Rgb { r, g, b } => crossterm::style::Color::Rgb { r, g, b },
    };
    let attributes = crossterm::style::Attributes::from(converted.as_slice());
    crossterm::style::ContentStyle { foreground_color: Some(color), attributes, ..Default::default() }.apply(text).to_string()
}

/// The attributes for the bold and italic flags of a style: bold first.
pub open spec fn attributes_of(bold: bool, italic: bool) -> Seq<TextAttribute> {
    (if bold {
        seq![TextAttribute::Bold]
    } else {
        Seq::empty()
    }) + (if italic {
        seq![TextAttribute::Italic]
    } else {
        Seq::empty()
    })
}

/// Writes a text in a color with attributes, as the terminal library does.
pub fn style_text(text: &str, color: Color, attributes: &Vec<TextAttribute>) -> (r: String)
    ensures
        written_styled(
            r@,
            text@,
            color,
            attributes@.contains(TextAttribute::Bold),
            attributes@.contains(TextAttribute::Italic),
        ),
{
    render_styled(text, color.foreground(), attributes.as_slice())
}

/// `out` is how the terminal library writes `text` in `style`.
pub open spec fn styled_by(out: Seq<char>, text: Seq<char>, style: StyleConfig) -> bool {
    written_styled(out, text, style.color, style.bold, style.italic)
}

impl StyleConfig {
    /// The attributes of the style: bold if set, then italic if set.
    pub fn attributes(&self) -> (r: Vec<TextAttribute>)
        ensures
            r@ == attributes_of(self.bold, self.italic),
            r@.contains(TextAttribute::Bold) == self.bold,
            r@.contains(TextAttribute::Italic) == self.italic,
    {
        let mut r: Vec<TextAttribute> = Vec::new();
        if self.bold {
            r.push(TextAttribute::Bold);
        }
        if self.italic {
            r.push(TextAttribute::Italic);
        }
        proof {
            assert(r@ =~= attributes_of(self.bold, self.italic));
            if self.bold {
                assert(r@[0] == TextAttribute::Bold);
            }
            if self.italic {
                assert(r@[r@.len() - 1] == TextAttribute::Italic);
            }
        }
        r
    }

    /// The text styled as this configuration says: its color and attributes.
    pub fn style(&self, s: &str) -> (r: String)
        ensures
            styled_by(r@, s@, *self),
    {
        let attributes = self.attributes();
        style_text(s, self.color, &attributes)
    }
}

/// How one kind of output is laid out: prefix, description, content, suffix,
/// each with its style, and the separator between the items of a list.
#[derive(Debug)]
pub struct OutputConfig {
    pub display_uuid: bool,
    pub prefix: String,
    pub suffix: String,
    pub description: String,
    pub separator: String,
    pub style_prefix: StyleConfig,
    pub style_suffix: StyleConfig,
    pub style_description: StyleConfig,
    pub style_separator: StyleConfig,
    pub style_content: StyleConfig,
}

/// The pieces of a laid-out output: styled prefix and description, a space,
/// the body, and the styled suffix.
pub open spec fn framed(o: OutputConfig, body: Seq<Piece>) -> Seq<Piece> {
    seq![(seq![o.style_prefix], o.prefix@), (seq![o.style_description], o.description@), (Seq::empty(), " "@)]
        + body + seq![(seq![o.style_suffix], o.suffix@)]
}

/// The pieces of several items, with a separator piece between each two.
pub open spec fn separated(items: Seq<Seq<Piece>>, sep: Piece) -> Seq<Piece>
    decreases items.len(),
{
    if items.len() == 0 {
        Seq::empty()
    } else if items.len() == 1 {
        items[0]
    } else {
        separated(items.drop_last(), sep) + seq![sep] + items.last()
    }
}

/// The pieces of each output in a list.
pub open spec fn pieces_of(items: Seq<Rendered>) -> Seq<Seq<Piece>> {
    items.map_values(|r: Rendered| r.pieces())
}

impl OutputConfig {
    /// Writes the prefix, the description and the space before the body.
    fn open_frame(&self) -> (r: Rendered)
        ensures
            r.pieces() == seq![(seq![self.style_prefix], self.prefix@), (seq![self.style_description], self.description@), (Seq::<StyleConfig>::empty(), " "@)],
    {
        let mut r = Rendered::new();
        r.styled(self.prefix.as_str(), &self.style_prefix);
        r.styled(self.description.as_str(), &self.style_description);
        r.raw(" ");
        proof {
            assert(r.pieces() =~= seq![(seq![self.style_prefix], self.prefix@), (seq![self.style_description], self.description@), (Seq::<StyleConfig>::empty(), " "@)]);
        }
        r
    }

    /// Lays out content that is already rendered, without styling it.
    pub fn format(&self, content: Rendered) -> (r: Rendered)
        ensures
            r.pieces() == framed(*self, content.pieces()),
    {
        let mut r = self.open_frame();
        r.append(content);
        r.styled(self.suffix.as_str(), &self.style_suffix);
        r
    }

    /// Lays out a plain value, styled as content.
    pub fn format_str(&self, content: &str) -> (r: Rendered)
        ensures
            r.pieces() == framed(*self, seq![(seq![self.style_content], content@)]),
    {
        let mut r = self.open_frame();
        r.styled(content, &self.style_content);
        r.styled(self.suffix.as_str(), &self.style_suffix);
        proof {
            assert(r.pieces() =~= framed(*self, seq![(seq![self.style_content], content@)]));
        }
        r
    }

    /// Lays out a value that is already rendered as a single piece, styled as
    /// content on top of its own style.
    pub fn format_restyled(&self, content: Rendered) -> (r: Rendered)
        requires
            content.pieces().len() == 1,
        ensures
            r.pieces() == framed(
                *self,
                seq![(content.pieces()[0].0.push(self.style_content), content.pieces()[0].1)],
            ),
    {
        let ghost piece = content.pieces()[0];
        let mut r = self.open_frame();
        r.restyled(content, &self.style_content);
        r.styled(self.suffix.as_str(), &self.style_suffix);
        proof {
            assert(r.pieces() =~= framed(*self, seq![(piece.0.push(self.style_content), piece.1)]));
        }
        r
    }

    /// Lays out a list of rendered items, separated by the styled separator.
    pub fn format_vec(&self, items: Vec<Rendered>) -> (r: Rendered)
        ensures
            r.pieces() == framed(
                *self,
                separated(pieces_of(items@), (seq![self.style_separator], self.separator@)),
            ),
    {
        let ghost sep = (seq![self.style_separator], self.separator@);
        let ghost all = pieces_of(items@);
        let mut r = self.open_frame();
        let ghost start = r.pieces();
        let mut input = items;
        let ghost given = input@;
        let mut i: usize = 0;
        let n = input.len();
        while input.len() > 0
            invariant
                n == all.len(),
                all == pieces_of(given),
                i + input.len() == n,
                input@ == given.skip(i as int),
                r.pieces() == start + separated(all.take(i as int), sep),
                sep == (seq![self.style_separator], self.separator@),
            decreases input.len(),
        {
            let item = input.remove(0);
            proof {
                assert(input@ =~= given.skip(i + 1));
                assert(item == given[i as int]);
                assert(all.take(i + 1).drop_last() =~= all.take(i as int));
            }
            if i > 0 {
                r.styled(self.separator.as_str(), &self.style_separator);
            }
            r.append(item);
            proof {
                if i == 0 {
                    assert(all.take(1) =~= seq![all[0]]);
                    assert(start + Seq::<Piece>::empty() =~= start);
                }
                assert(r.pieces() =~= start + separated(all.take(i + 1), sep));
            }
            i = i + 1;
        }
        proof {
            assert(all.take(n as int) =~= all);
        }
        r.styled(self.suffix.as_str(), &self.style_suffix);
        proof {
            assert(r.pieces() =~= framed(*self, separated(all, sep)));
        }
        r
    }

    /// A layout with the given texts and content style, and default styles for
    /// the rest (the description in italics).
    pub fn with(
        display_uuid: bool,
        prefix: &str,
        suffix: &str,
        description: &str,
        separator: &str,
        style_content: StyleConfig,
    ) -> (r: OutputConfig)
        ensures
            is_layout(r, display_uuid, prefix@, suffix@, description@, separator@, style_content),
    {
        OutputConfig {
            display_uuid,
            prefix: prefix.to_string(),
            suffix: suffix.to_string(),
            description: description.to_string(),
            separator: separator.to_string(),
            style_prefix: StyleConfig::default(),
            style_suffix: StyleConfig::default(),
            style_description: StyleConfig { bold: false, italic: true, color: Color::White },
            style_separator: StyleConfig::default(),
            style_content,
        }
    }
}

/// `o` shows the given texts with the given content style; prefix, suffix and
/// separator are plain white, the description white italics.
pub open spec fn is_layout(
    o: OutputConfig,
    display_uuid: bool,
    prefix: Seq<char>,
    suffix: Seq<char>,
    description: Seq<char>,
    separator: Seq<char>,
    style_content: StyleConfig,
) -> bool {
    &&& o.display_uuid == display_uuid
    &&& o.prefix@ == prefix
    &&& o.suffix@ == suffix
    &&& o.description@ == description
    &&& o.separator@ == separator
    &&& o.style_prefix == StyleConfig { bold: false, italic: false, color: Color::White }
    &&& o.style_suffix == StyleConfig { bold: false, italic: false, color: Color::White }
    &&& o.style_description == StyleConfig { bold: false, italic: true, color: Color::White }
    &&& o.style_separator == StyleConfig { bold: false, italic: false, color: Color::White }
    &&& o.style_content == style_content
}

impl Default for OutputConfig {
    /// `[` content `]`, no description, `, ` between items, uuids hidden.
    fn default() -> (r: Self)
        ensures
            is_layout(r, false, "["@, "]"@, ""@, ", "@, StyleConfig { bold: false, italic: false, color: Color::White }),
    {
        OutputConfig::with(false, "[", "]", "", ", ", StyleConfig::default())
    }
}

/// The configuration of the program: where the database is and how each kind
/// of output is shown.
#[derive(Debug)]
pub struct Config {
    pub database_location: String,
    pub output_uuid: OutputConfig,
    pub output_timestamp: OutputConfig,
    pub output_author: OutputConfig,
    pub output_mood: OutputConfig,
    pub output_pace: OutputConfig,
    pub output_book: OutputConfig,
    pub output_genre: OutputConfig,
    pub output_edition: OutputConfig,
    pub output_progress: OutputConfig,
    pub output_language: OutputConfig,
    pub output_publisher: OutputConfig,
    pub output_edition_review: OutputConfig,
    pub output_rating: OutputConfig,
    pub output_recommended_true: OutputConfig,
    pub output_recommended_false: OutputConfig,
    pub output_last_updated: OutputConfig,
    pub output_page_count: OutputConfig,
    pub output_release_date: OutputConfig,
    pub output_series: OutputConfig,
    pub output_review: OutputConfig,
    pub output_isbn: OutputConfig,
    pub output_format: OutputConfig,
    pub output_binding: OutputConfig,
    pub output_dimensions: OutputConfig,
    pub output_price: OutputConfig,
    pub output_part_index: OutputConfig,
    pub output_error: OutputConfig,
}

impl Default for Config {
    /// The built-in configuration.
    fn default() -> (r: Self)
        ensures
            r.database_location@ == "~/.local/share/tomex/database"@,
            is_layout(r.output_uuid, false, "("@, ")"@, ""@, ", "@, StyleConfig { bold: false, italic: false, color: Color::DarkGrey }),
            is_layout(r.output_timestamp, false, "["@, "]"@, ""@, ", "@, StyleConfig { bold: false, italic: false, color: Color::Cyan }),
            is_layout(r.output_author, false, "["@, "]"@, "Written by:"@, " and "@, StyleConfig { bold: false, italic: false, color: Color::Yellow }),
            is_layout(r.output_mood, false, "["@, "]"@, "Moods:"@, ", "@, StyleConfig { bold: false, italic: false, color: Color::Magenta }),
            is_layout(r.output_pace, false, "["@, "]"@, "Pace:"@, ", "@, StyleConfig { bold: false, italic: false, color: Color::Blue }),
            is_layout(r.output_book, false, "["@, "]"@, ""@, ", "@, StyleConfig { bold: false, italic: false, color: Color::Green }),
            is_layout(r.output_genre, false, "["@, "]"@, "Genres:"@, ", "@, StyleConfig { bold: false, italic: false, color: Color::DarkCyan }),
            is_layout(r.output_edition, true, "["@, "]"@, ""@, ", "@, StyleConfig { bold: true, italic: false, color: Color::Green }),
            is_layout(r.output_progress, false, "["@, "]"@, ""@, ", "@, StyleConfig { bold: true, italic: false, color: Color::Green }),
            is_layout(r.output_language, false, "["@, "]"@, "Written in:"@, " and "@, StyleConfig { bold: false, italic: false, color: Color::DarkYellow }),
            is_layout(r.output_publisher, false, "["@, "]"@, "Publisher:"@, ", "@, StyleConfig { bold: false, italic: false, color: Color::DarkMagenta }),
            is_layout(r.output_edition_review, false, "["@, "]"@, ""@, ", "@, StyleConfig { bold: false, italic: false, color: Color::Green }),
            is_layout(r.output_rating, false, "["@, "]"@, "Rating:"@, ", "@, StyleConfig { bold: false, italic: false, color: Color::Yellow }),
            is_layout(r.output_recommended_true, false, "["@, "]"@, "Recommended:"@, ", "@, StyleConfig { bold: true, italic: false, color: Color::Green }),
            is_layout(r.output_recommended_false, false, "["@, "]"@, "Recommended:"@, ", "@, StyleConfig { bold: true, italic: false, color: Color::Red }),
            is_layout(r.output_last_updated, false, "["@, "]"@, "Last updated:"@, ", "@, StyleConfig { bold: false, italic: false, color: Color::White }),
            is_layout(r.output_page_count, false, "["@, "]"@, "Page count:"@, ", "@, StyleConfig { bold: false, italic: false, color: Color::Blue }),
            is_layout(r.output_release_date, false, "["@, "]"@, "Released:"@, ", "@, StyleConfig { bold: false, italic: false, color: Color::White }),
            is_layout(r.output_series, false, "["@, "]"@, ""@, ", "@, StyleConfig { bold: false, italic: false, color: Color::DarkGreen }),
            is_layout(r.output_review, false, "["@, "]"@, ""@, ", "@, StyleConfig { bold: false, italic: false, color: Color::White }),
            is_layout(r.output_isbn, false, "["@, "]"@, ""@, ", "@, StyleConfig { bold: false, italic: false, color: Color::White }),
            is_layout(r.output_format, false, "["@, "]"@, "Format:"@, ", "@, StyleConfig { bold: false, italic: false, color: Color::DarkBlue }),
            is_layout(r.output_binding, false, "["@, "]"@, "Binding:"@, ", "@, StyleConfig { bold: false, italic: false, color: Color::DarkBlue }),
            is_layout(r.output_dimensions, false, "["@, "]"@, ""@, ", "@, StyleConfig { bold: false, italic: false, color: Color::White }),
            is_layout(r.output_price, false, "["@, "]"@, ""@, ", "@, StyleConfig { bold: false, italic: false, color: Color::Yellow }),
            is_layout(r.output_part_index, false, "["@, "]"@, "Volume"@, ", "@, StyleConfig { bold: false, italic: false, color: Color::Cyan }),
            is_layout(r.output_error, false, "["@, "]"@, "Error"@, ", "@, StyleConfig { bold: false, italic: false, color: Color::Red }),
    {
        Config {
            database_location: "~/.local/share/tomex/database".to_string(),
            output_uuid: OutputConfig::with(false, "(", ")", "", ", ", StyleConfig { bold: false, italic: false, color: Color::DarkGrey }),
            output_timestamp: OutputConfig::with(false, "[", "]", "", ", ", StyleConfig { bold: false, italic: false, color: Color::Cyan }),
            output_author: OutputConfig::with(false, "[", "]", "Written by:", " and ", StyleConfig { bold: false, italic: false, color: Color::Yellow }),
            output_mood: OutputConfig::with(false, "[", "]", "Moods:", ", ", StyleConfig { bold: false, italic: false, color: Color::Magenta }),
            output_pace: OutputConfig::with(false, "[", "]", "Pace:", ", ", StyleConfig { bold: false, italic: false, color: Color::Blue }),
            output_book: OutputConfig::with(false, "[", "]", "", ", ", StyleConfig { bold: false, italic: false, color: Color::Green }),
            output_genre: OutputConfig::with(false, "[", "]", "Genres:", ", ", StyleConfig { bold: false, italic: false, color: Color::DarkCyan }),
            output_edition: OutputConfig::with(true, "[", "]", "", ", ", StyleConfig { bold: true, italic: false, color: Color::Green }),
            output_progress: OutputConfig::with(false, "[", "]", "", ", ", StyleConfig { bold: true, italic: false, color: Color::Green }),
            output_language: OutputConfig::with(false, "[", "]", "Written in:", " and ", StyleConfig { bold: false, italic: false, color: Color::DarkYellow }),
            output_publisher: OutputConfig::with(false, "[", "]", "Publisher:", ", ", StyleConfig { bold: false, italic: false, color: Color::DarkMagenta }),
            output_edition_review: OutputConfig::with(false, "[", "]", "", ", ", StyleConfig { bold: false, italic: false, color: Color::Green }),
            output_rating: OutputConfig::with(false, "[", "]", "Rating:", ", ", StyleConfig { bold: false, italic: false, color: Color::Yellow }),
            output_recommended_true: OutputConfig::with(false, "[", "]", "Recommended:", ", ", StyleConfig { bold: true, italic: false, color: Color::Green }),
            output_recommended_false: OutputConfig::with(false, "[", "]", "Recommended:", ", ", StyleConfig { bold: true, italic: false, color: Color::Red }),
            output_last_updated: OutputConfig::with(false, "[", "]", "Last updated:", ", ", StyleConfig { bold: false, italic: false, color: Color::White }),
            output_page_count: OutputConfig::with(false, "[", "]", "Page count:", ", ", StyleConfig { bold: false, italic: false, color: Color::Blue }),
            output_release_date: OutputConfig::with(false, "[", "]", "Released:", ", ", StyleConfig { bold: false, italic: false, color: Color::White }),
            output_series: OutputConfig::with(false, "[", "]", "", ", ", StyleConfig { bold: false, italic: false, color: Color::DarkGreen }),
            output_review: OutputConfig::with(false, "[", "]", "", ", ", StyleConfig { bold: false, italic: false, color: Color::White }),
            output_isbn: OutputConfig::with(false, "[", "]", "", ", ", StyleConfig { bold: false, italic: false, color: Color::White }),
            output_format: OutputConfig::with(false, "[", "]", "Format:", ", ", StyleConfig { bold: false, italic: false, color: Color::DarkBlue }),
            output_binding: OutputConfig::with(false, "[", "]", "Binding:", ", ", StyleConfig { bold: false, italic: false, color: Color::DarkBlue }),
            output_dimensions: OutputConfig::with(false, "[", "]", "", ", ", StyleConfig { bold: false, italic: false, color: Color::White }),
            output_price: OutputConfig::with(false, "[", "]", "", ", ", StyleConfig { bold: false, italic: false, color: Color::Yellow }),
            output_part_index: OutputConfig::with(false, "[", "]", "Volume", ", ", StyleConfig { bold: false, italic: false, color: Color::Cyan }),
            output_error: OutputConfig::with(false, "[", "]", "Error", ", ", StyleConfig { bold: false, italic: false, color: Color::Red }),
        }
    }
}

} // verus!
