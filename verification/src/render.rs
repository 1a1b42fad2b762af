use vstd::prelude::*;
use vstd::string::StringExecFns;

use crate::config::{
    csi, foreground_of, foreground_parameters, sgr_close, sgr_open, sgr_open_fg, styled_by,
    Foreground, StyleConfig,
};
use crate::display::{decimal_text, digit_char};

verus! {

/// A piece of output: the styles it is shown in, innermost first (none for
/// plain text), and its text.
pub type Piece = (Seq<StyleConfig>, Seq<char>);

/// How the terminal library wrote one style around a piece: `Some(colored)`
/// for the escape codes of the style, with colors on or off, and `None` when
/// it wrote nothing at all (a console that takes no escape codes).
pub type Mode = Option<bool>;

/// The text `text` written in the styles `styles` (innermost first), each
/// written as `modes` says.
pub open spec fn piece_text(styles: Seq<StyleConfig>, modes: Seq<Mode>, text: Seq<char>) -> Seq<char>
    decreases styles.len(),
{
    if styles.len() == 0 {
        text
    } else {
        let inner = piece_text(styles.drop_last(), modes.drop_last(), text);
        let st = styles.last();
        match modes.last() {
            Some(colored) => sgr_open(st.color, st.bold, st.italic, colored) + inner + sgr_close(
                st.bold || st.italic,
                colored,
            ),
            None => Seq::empty(),
        }
    }
}

/// The output made of pieces, each written in its styles as its modes say.
pub open spec fn assembled(pieces: Seq<Piece>, modes: Seq<Seq<Mode>>) -> Seq<char>
    decreases pieces.len(),
{
    if pieces.len() == 0 {
        Seq::empty()
    } else {
        let i = pieces.len() - 1;
        assembled(pieces.drop_last(), modes) + piece_text(pieces[i].0, modes[i], pieces[i].1)
    }
}

/// The output of pieces depends only on the modes at their positions.
proof fn lemma_assembled_prefix(pieces: Seq<Piece>, m1: Seq<Seq<Mode>>, m2: Seq<Seq<Mode>>)
    requires
        m1.len() >= pieces.len(),
        m2.len() >= pieces.len(),
        forall|i: int| 0 <= i < pieces.len() ==> m1[i] == m2[i],
    ensures
        assembled(pieces, m1) == assembled(pieces, m2),
    decreases pieces.len(),
{
    if pieces.len() > 0 {
        lemma_assembled_prefix(pieces.drop_last(), m1, m2);
    }
}

/// The output of two runs of pieces is the output of the first followed by
/// that of the second.
proof fn lemma_assembled_concat(a: Seq<Piece>, ma: Seq<Seq<Mode>>, b: Seq<Piece>, mb: Seq<Seq<Mode>>)
    requires
        ma.len() == a.len(),
        mb.len() == b.len(),
    ensures
        assembled(a + b, ma + mb) == assembled(a, ma) + assembled(b, mb),
    decreases b.len(),
{
    if b.len() == 0 {
        assert(a + b =~= a);
        lemma_assembled_prefix(a, ma + mb, ma);
    } else {
        let b0 = b.drop_last();
        let mb0 = mb.drop_last();
        lemma_assembled_concat(a, ma, b0, mb0);
        assert((a + b).drop_last() =~= a + b0);
        lemma_assembled_prefix(a + b0, ma + mb, ma + mb0);
        lemma_assembled_prefix(b0, mb, mb0);
        assert((a + b)[(a + b).len() - 1] == b[b.len() - 1]);
        assert((ma + mb)[(a + b).len() - 1] == mb[b.len() - 1]);
    }
}

/// A text that the terminal library wrote in one more style around `inner`
/// has the mode in which it did.
proof fn lemma_styled_mode(out: Seq<char>, inner: Seq<char>, style: StyleConfig) -> (m: Mode)
    requires
        styled_by(out, inner, style),
    ensures
        out == match m {
            Some(colored) => sgr_open(style.color, style.bold, style.italic, colored) + inner
                + sgr_close(style.bold || style.italic, colored),
            None => Seq::<char>::empty(),
        },
{
    if out == Seq::<char>::empty() {
        None
    } else {
        let colored = choose|colored: bool|
            out == sgr_open_fg(foreground_of(style.color), style.bold, style.italic, colored) + inner
                + sgr_close(style.bold || style.italic, colored);
        Some(colored)
    }
}

/// Position of the first `m` in a text (its length when there is none).
pub open spec fn first_m(s: Seq<char>) -> nat
    decreases s.len(),
{
    if s.len() == 0 {
        0
    } else if s[0] == 'm' {
        0
    } else {
        1 + first_m(s.drop_first())
    }
}

/// The text as a terminal shows it: every escape sequence, from an escape
/// character through the next `m`, left out.
pub open spec fn visible(s: Seq<char>) -> Seq<char>
    decreases s.len(),
{
    if s.len() == 0 {
        Seq::empty()
    } else if s[0] == '\x1b' {
        if first_m(s) < s.len() {
            visible(s.skip((first_m(s) + 1) as int))
        } else {
            Seq::empty()
        }
    } else {
        seq![s[0]] + visible(s.drop_first())
    }
}

/// Every escape sequence of the text ends within it.
pub open spec fn closed(s: Seq<char>) -> bool
    decreases s.len(),
{
    if s.len() == 0 {
        true
    } else if s[0] == '\x1b' {
        first_m(s) < s.len() && closed(s.skip((first_m(s) + 1) as int))
    } else {
        closed(s.drop_first())
    }
}

/// The text holds no escape character.
pub open spec fn no_escape(s: Seq<char>) -> bool {
    forall|i: int| 0 <= i < s.len() ==> s[i] != '\x1b'
}

/// The text holds no `m`.
pub open spec fn no_m(s: Seq<char>) -> bool {
    forall|i: int| 0 <= i < s.len() ==> s[i] != 'm'
}

/// The texts of the pieces, one after the other.
pub open spec fn pieces_text(pieces: Seq<Piece>) -> Seq<char>
    decreases pieces.len(),
{
    if pieces.len() == 0 {
        Seq::empty()
    } else {
        pieces_text(pieces.drop_last()) + pieces[pieces.len() - 1].1
    }
}

/// Every style of every piece was written with its escape codes.
pub open spec fn all_written(modes: Seq<Seq<Mode>>) -> bool {
    forall|i: int, j: int| 0 <= i < modes.len() && 0 <= j < modes[i].len() ==> (#[trigger] modes[i][j]) is Some
}

proof fn lemma_first_m_concat(x: Seq<char>, y: Seq<char>)
    ensures
        no_m(x) ==> first_m(x + y) == x.len() + first_m(y),
        first_m(x) < x.len() ==> first_m(x + y) == first_m(x),
    decreases x.len(),
{
    if x.len() > 0 {
        assert((x + y).drop_first() =~= x.drop_first() + y);
        assert((x + y)[0] == x[0]);
        lemma_first_m_concat(x.drop_first(), y);
        if no_m(x) {
            assert forall|i: int| 0 <= i < x.drop_first().len() implies x.drop_first()[i] != 'm' by {
                assert(x.drop_first()[i] == x[i + 1]);
            }
        }
    } else {
        assert(x + y =~= y);
    }
}

/// An escape sequence in front of a text is not shown and keeps it closed.
proof fn lemma_code_front(p: Seq<char>, y: Seq<char>)
    requires
        no_m(p),
    ensures
        visible(csi() + p + "m"@ + y) == visible(y),
        closed(y) ==> closed(csi() + p + "m"@ + y),
{
    reveal_strlit("m");
    let s = csi() + p + "m"@ + y;
    let head = csi() + p;
    assert(no_m(head)) by {
        assert forall|i: int| 0 <= i < head.len() implies head[i] != 'm' by {
            if i >= 2 {
                assert(head[i] == p[i - 2]);
            }
        }
    }
    assert(s =~= head + ("m"@ + y));
    lemma_first_m_concat(head, "m"@ + y);
    assert(("m"@ + y)[0] == 'm');
    assert(first_m("m"@ + y) == 0);
    assert(s[0] == '\x1b');
    assert(s.skip((head.len() + 1) as int) =~= y);
}

proof fn lemma_visible_concat(x: Seq<char>, y: Seq<char>)
    requires
        closed(x),
    ensures
        visible(x + y) == visible(x) + visible(y),
        closed(y) ==> closed(x + y),
    decreases x.len(),
{
    if x.len() == 0 {
        assert(x + y =~= y);
    } else if x[0] == '\x1b' {
        let k = first_m(x);
        lemma_first_m_concat(x, y);
        assert((x + y)[0] == x[0]);
        assert((x + y).skip((k + 1) as int) =~= x.skip((k + 1) as int) + y);
        lemma_visible_concat(x.skip((k + 1) as int), y);
    } else {
        assert((x + y)[0] == x[0]);
        assert((x + y).drop_first() =~= x.drop_first() + y);
        lemma_visible_concat(x.drop_first(), y);
    }
}

proof fn lemma_plain_visible(t: Seq<char>)
    requires
        no_escape(t),
    ensures
        closed(t),
        visible(t) == t,
    decreases t.len(),
{
    if t.len() > 0 {
        assert(t[0] != '\x1b');
        lemma_plain_visible(t.drop_first());
        assert(seq![t[0]] + t.drop_first() =~= t);
    }
}

proof fn lemma_decimal_no_m(n: nat)
    ensures
        no_m(decimal_text(n)),
    decreases n,
{
    if n >= 10 {
        lemma_decimal_no_m(n / 10);
        let d = n % 10;
        assert(digit_char(d) != 'm');
        let t = decimal_text(n);
        assert(t == decimal_text(n / 10).push(digit_char(d)));
    } else {
        assert(digit_char(n) != 'm');
    }
}

proof fn lemma_no_m_concat(a: Seq<char>, b: Seq<char>)
    requires
        no_m(a),
        no_m(b),
    ensures
        no_m(a + b),
{
    assert forall|i: int| 0 <= i < (a + b).len() implies (a + b)[i] != 'm' by {
        if i >= a.len() {
            assert((a + b)[i] == b[i - a.len()]);
        }
    }
}

proof fn lemma_parameters_no_m(f: Foreground)
    ensures
        no_m(foreground_parameters(f)),
{
    reveal_strlit("39");
    reveal_strlit("38;5;");
    reveal_strlit("38;2;");
    reveal_strlit(";");
    match f {
        Foreground::Reset => {},
        Foreground::Palette(n) => {
            lemma_decimal_no_m(n as nat);
            lemma_no_m_concat("38;5;"@, decimal_text(n as nat));
        },
        Foreground::Rgb { r, g, b } => {
            lemma_decimal_no_m(r as nat);
            lemma_decimal_no_m(g as nat);
            lemma_decimal_no_m(b as nat);
            lemma_no_m_concat("38;2;"@, decimal_text(r as nat));
            lemma_no_m_concat("38;2;"@ + decimal_text(r as nat), ";"@);
            lemma_no_m_concat("38;2;"@ + decimal_text(r as nat) + ";"@, decimal_text(g as nat));
            lemma_no_m_concat("38;2;"@ + decimal_text(r as nat) + ";"@ + decimal_text(g as nat), ";"@);
            lemma_no_m_concat(
                "38;2;"@ + decimal_text(r as nat) + ";"@ + decimal_text(g as nat) + ";"@,
                decimal_text(b as nat),
            );
        },
    }
}

/// A text written in one more style, with its escape codes, shows as the
/// text and stays closed.
proof fn lemma_style_layer(st: StyleConfig, colored: bool, inner: Seq<char>)
    requires
        closed(inner),
    ensures
        visible(sgr_open(st.color, st.bold, st.italic, colored) + inner + sgr_close(
            st.bold || st.italic,
            colored,
        )) == visible(inner),
        closed(sgr_open(st.color, st.bold, st.italic, colored) + inner + sgr_close(
            st.bold || st.italic,
            colored,
        )),
{
    reveal_strlit("m");
    reveal_strlit("1m");
    reveal_strlit("3m");
    reveal_strlit("0m");
    reveal_strlit("39");
    reveal_strlit("1");
    reveal_strlit("3");
    reveal_strlit("0");
    let fp = if colored {
        foreground_parameters(foreground_of(st.color))
    } else {
        Seq::<char>::empty()
    };
    lemma_parameters_no_m(foreground_of(st.color));
    let close = sgr_close(st.bold || st.italic, colored);
    let cp = if st.bold || st.italic {
        "0"@
    } else if colored {
        "39"@
    } else {
        Seq::<char>::empty()
    };
    assert("1m"@ =~= "1"@ + "m"@);
    assert("3m"@ =~= "3"@ + "m"@);
    assert("0m"@ =~= "0"@ + "m"@);
    assert(close =~= csi() + cp + "m"@ + Seq::<char>::empty());
    lemma_code_front(cp, Seq::<char>::empty());
    assert(visible(Seq::<char>::empty()) == Seq::<char>::empty());
    lemma_visible_concat(inner, close);
    let body = inner + close;
    let b3 = if st.italic {
        csi() + "3"@ + "m"@ + body
    } else {
        body
    };
    if st.italic {
        lemma_code_front("3"@, body);
    }
    let b2 = if st.bold {
        csi() + "1"@ + "m"@ + b3
    } else {
        b3
    };
    if st.bold {
        lemma_code_front("1"@, b3);
    }
    lemma_code_front(fp, b2);
    let open = sgr_open(st.color, st.bold, st.italic, colored);
    assert(open + inner + close =~= csi() + fp + "m"@ + b2);
}

/// A piece written with the escape codes of all its styles shows as its text
/// and is closed.
proof fn lemma_piece_visible(styles: Seq<StyleConfig>, modes: Seq<Mode>, t: Seq<char>)
    requires
        no_escape(t),
        modes.len() == styles.len(),
        forall|j: int| 0 <= j < modes.len() ==> (#[trigger] modes[j]) is Some,
    ensures
        visible(piece_text(styles, modes, t)) == t,
        closed(piece_text(styles, modes, t)),
    decreases styles.len(),
{
    if styles.len() == 0 {
        lemma_plain_visible(t);
    } else {
        let m2 = modes.drop_last();
        assert forall|j: int| 0 <= j < m2.len() implies (#[trigger] m2[j]) is Some by {
            assert(m2[j] == modes[j]);
        }
        lemma_piece_visible(styles.drop_last(), m2, t);
        assert(modes[modes.len() - 1] is Some);
        lemma_style_layer(styles.last(), modes.last()->0, piece_text(styles.drop_last(), m2, t));
    }
}

/// What a terminal shows of rendered output whose escape codes were all
/// written (no console that drops them) is the texts of its pieces, one after
/// the other, when those texts hold no escape character.
pub proof fn lemma_visible_is_pieces_text(pieces: Seq<Piece>, modes: Seq<Seq<Mode>>)
    requires
        modes.len() == pieces.len(),
        forall|i: int| 0 <= i < pieces.len() ==> (#[trigger] modes[i]).len() == pieces[i].0.len(),
        all_written(modes),
        forall|i: int| 0 <= i < pieces.len() ==> no_escape(#[trigger] pieces[i].1),
    ensures
        visible(assembled(pieces, modes)) == pieces_text(pieces),
        closed(assembled(pieces, modes)),
    decreases pieces.len(),
{
    if pieces.len() > 0 {
        let n = pieces.len() - 1;
        let p2 = pieces.drop_last();
        let m2 = modes.drop_last();
        assert forall|i: int| 0 <= i < p2.len() implies (#[trigger] m2[i]).len() == p2[i].0.len() by {
            assert(p2[i] == pieces[i]);
            assert(m2[i] == modes[i]);
        }
        assert forall|i: int| 0 <= i < p2.len() implies no_escape(#[trigger] p2[i].1) by {
            assert(p2[i] == pieces[i]);
        }
        assert forall|i: int, j: int| 0 <= i < m2.len() && 0 <= j < m2[i].len() implies (
        #[trigger] m2[i][j]) is Some by {
            assert(m2[i] == modes[i]);
        }
        lemma_visible_is_pieces_text(p2, m2);
        lemma_assembled_prefix(p2, modes, m2);
        assert(modes[n].len() == pieces[n].0.len());
        assert forall|j: int| 0 <= j < modes[n].len() implies (#[trigger] modes[n][j]) is Some by {
            assert(modes[n][j] is Some);
        }
        assert(no_escape(pieces[n].1));
        lemma_piece_visible(pieces[n].0, modes[n], pieces[n].1);
        lemma_visible_concat(assembled(p2, modes), piece_text(pieces[n].0, modes[n], pieces[n].1));
    }
}

/// Output under construction: the text written so far, which is its pieces
/// written in their styles as the terminal library did.
pub struct Rendered {
    text: String,
    pieces: Ghost<Seq<Piece>>,
    modes: Ghost<Seq<Seq<Mode>>>,
}

impl Rendered {
    #[verifier::type_invariant]
    spec fn assembled_so_far(self) -> bool {
        &&& self.modes@.len() == self.pieces@.len()
        &&& forall|i: int|
            0 <= i < self.pieces@.len() ==> (#[trigger] self.modes@[i]).len()
                == self.pieces@[i].0.len()
        &&& self.text@ == assembled(self.pieces@, self.modes@)
    }

    /// The pieces written so far.
    pub closed spec fn pieces(self) -> Seq<Piece> {
        self.pieces@
    }

    /// How each style of each piece written so far was written.
    pub closed spec fn modes(self) -> Seq<Seq<Mode>> {
        self.modes@
    }

    /// The text written so far.
    pub closed spec fn text(self) -> Seq<char> {
        self.text@
    }

    /// Nothing written yet.
    pub fn new() -> (r: Rendered)
        ensures
            r.pieces() == Seq::<Piece>::empty(),
            r.modes() == Seq::<Seq<Mode>>::empty(),
            r.text() == Seq::<char>::empty(),
    {
        Rendered { text: String::new(), pieces: Ghost(Seq::empty()), modes: Ghost(Seq::empty()) }
    }

    /// Writes a text as it is.
    pub fn raw(&mut self, s: &str)
        ensures
            final(self).pieces() == old(self).pieces().push((Seq::<StyleConfig>::empty(), s@)),
            final(self).modes() == old(self).modes().push(Seq::<Mode>::empty()),
            final(self).text() == old(self).text() + s@,
    {
        proof {
            use_type_invariant(&*self);
        }
        let mut text = self.text.clone();
        text.append(s);
        let ghost pieces = self.pieces@.push((Seq::<StyleConfig>::empty(), s@));
        let ghost modes = self.modes@.push(Seq::<Mode>::empty());
        proof {
            assert(pieces.drop_last() =~= self.pieces@);
            lemma_assembled_prefix(self.pieces@, modes, self.modes@);
        }
        *self = Rendered { text, pieces: Ghost(pieces), modes: Ghost(modes) };
    }

    /// Writes a text in a style.
    pub fn styled(&mut self, s: &str, style: &StyleConfig)
        ensures
            final(self).pieces() == old(self).pieces().push((seq![*style], s@)),
            final(self).modes().len() == old(self).modes().len() + 1,
            final(self).modes().drop_last() == old(self).modes(),
            final(self).modes().last().len() == 1,
            final(self).text() == old(self).text() + piece_text(
                seq![*style],
                final(self).modes().last(),
                s@,
            ),
    {
        proof {
            use_type_invariant(&*self);
        }
        let styled = style.style(s);
        let ghost m = lemma_styled_mode(styled@, s@, *style);
        let ghost ms = seq![m];
        proof {
            assert(seq![*style].drop_last() =~= Seq::<StyleConfig>::empty());
            assert(ms.drop_last() =~= Seq::<Mode>::empty());
            assert(piece_text(Seq::<StyleConfig>::empty(), Seq::<Mode>::empty(), s@) == s@);
            assert(styled@ == piece_text(seq![*style], ms, s@));
        }
        let mut text = self.text.clone();
        text.append(styled.as_str());
        let ghost pieces = self.pieces@.push((seq![*style], s@));
        let ghost modes = self.modes@.push(ms);
        proof {
            assert(pieces.drop_last() =~= self.pieces@);
            assert(modes.drop_last() =~= self.modes@);
            lemma_assembled_prefix(self.pieces@, modes, self.modes@);
        }
        *self = Rendered { text, pieces: Ghost(pieces), modes: Ghost(modes) };
    }

    /// Writes another output after this one.
    pub fn append(&mut self, other: Rendered)
        ensures
            final(self).pieces() == old(self).pieces() + other.pieces(),
            final(self).modes() == old(self).modes() + other.modes(),
            final(self).text() == old(self).text() + other.text(),
    {
        proof {
            use_type_invariant(&*self);
            use_type_invariant(&other);
            lemma_assembled_concat(self.pieces@, self.modes@, other.pieces@, other.modes@);
        }
        let mut text = self.text.clone();
        text.append(other.text.as_str());
        let ghost pieces = self.pieces@ + other.pieces@;
        let ghost modes = self.modes@ + other.modes@;
        proof {
            assert forall|i: int| 0 <= i < pieces.len() implies (#[trigger] modes[i]).len()
                == pieces[i].0.len() by {
                if i >= self.pieces@.len() {
                    assert(modes[i] == other.modes@[i - self.pieces@.len()]);
                    assert(pieces[i] == other.pieces@[i - self.pieces@.len()]);
                }
            }
        }
        *self = Rendered { text, pieces: Ghost(pieces), modes: Ghost(modes) };
    }

    /// Writes another output that is a single piece, in one style more: the
    /// piece's text keeps its escape codes and gets the style's around them.
    pub fn restyled(&mut self, other: Rendered, style: &StyleConfig)
        requires
            other.pieces().len() == 1,
        ensures
            final(self).pieces() == old(self).pieces().push(
                (other.pieces()[0].0.push(*style), other.pieces()[0].1),
            ),
            final(self).modes().len() == old(self).modes().len() + 1,
            final(self).modes().drop_last() == old(self).modes(),
            final(self).modes().last().drop_last() == other.modes()[0],
            final(self).text() == old(self).text() + piece_text(
                other.pieces()[0].0.push(*style),
                final(self).modes().last(),
                other.pieces()[0].1,
            ),
    {
        proof {
            use_type_invariant(&*self);
            use_type_invariant(&other);
        }
        let inner = other.text;
        let ghost piece = other.pieces@[0];
        let ghost pm = other.modes@[0];
        proof {
            assert(other.pieces@.drop_last() =~= Seq::<Piece>::empty());
            assert(assembled(other.pieces@.drop_last(), other.modes@) =~= Seq::<char>::empty());
            assert(inner@ =~= piece_text(piece.0, pm, piece.1));
        }
        let outer = style.style(inner.as_str());
        let ghost m = lemma_styled_mode(outer@, inner@, *style);
        let ghost ms = pm.push(m);
        proof {
            assert(piece.0.push(*style).drop_last() =~= piece.0);
            assert(ms.drop_last() =~= pm);
            assert(outer@ == piece_text(piece.0.push(*style), ms, piece.1));
        }
        let mut text = self.text.clone();
        text.append(outer.as_str());
        let ghost pieces = self.pieces@.push((piece.0.push(*style), piece.1));
        let ghost modes = self.modes@.push(ms);
        proof {
            assert(pieces.drop_last() =~= self.pieces@);
            assert(modes.drop_last() =~= self.modes@);
            lemma_assembled_prefix(self.pieces@, modes, self.modes@);
        }
        *self = Rendered { text, pieces: Ghost(pieces), modes: Ghost(modes) };
    }

    /// The text written: the pieces, each in its styles.
    pub fn into_string(self) -> (s: String)
        ensures
            s@ == self.text(),
            s@ == assembled(self.pieces(), self.modes()),
            self.modes().len() == self.pieces().len(),
            forall|i: int|
                0 <= i < self.pieces().len() ==> (#[trigger] self.modes()[i]).len()
                    == self.pieces()[i].0.len(),
    {
        proof {
            use_type_invariant(&self);
        }
        self.text
    }
}

} // verus!
