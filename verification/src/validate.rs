use vstd::prelude::*;

verus! {

/// Outcome of checking a user's input before it is accepted.
#[derive(Clone, Debug, PartialEq, Eq)]
pub enum Validation {
    Valid,
    Invalid(String),
}

/// Characters with the Unicode `White_Space` property.
pub open spec fn unicode_white_space(c: char) -> bool {
    let u = c as u32;
    ||| 0x09 <= u <= 0x0d
    ||| u == 0x20
    ||| u == 0x85
    ||| u == 0xa0
    ||| u == 0x1680
    ||| 0x2000 <= u <= 0x200a
    ||| u == 0x2028
    ||| u == 0x2029
    ||| u == 0x202f
    ||| u == 0x205f
    ||| u == 0x3000
}

/// Whether `c` has the Unicode `White_Space` property (what
/// `char::is_whitespace` tests).
pub(crate) fn char_is_whitespace(c: char) -> (r: bool)
    ensures
        r == unicode_white_space(c),
{
    let u = c as u32;
    (0x09 <= u && u <= 0x0d) || u == 0x20 || u == 0x85 || u == 0xa0 || u == 0x1680 || (0x2000
        <= u && u <= 0x200a) || u == 0x2028 || u == 0x2029 || u == 0x202f || u == 0x205f || u
        == 0x3000
}

/// Whether a text holds nothing but white space (so that trimming it leaves
/// the empty string).
pub open spec fn is_blank(s: Seq<char>) -> bool {
    forall|i: int| 0 <= i < s.len() ==> unicode_white_space(#[trigger] s[i])
}

/// Whether `input.trim()` is empty.
pub fn trims_to_empty(input: &str) -> (r: bool)
    ensures
        r == is_blank(input@),
{
    let n = input.unicode_len();
    let mut i: usize = 0;
    while i < n
        invariant
            n == input@.len(),
            i <= n,
            forall|k: int| 0 <= k < i ==> unicode_white_space(#[trigger] input@[k]),
        decreases n - i,
    {
        let c = input.get_char(i);
        if !char_is_whitespace(c) {
            return false;
        }
        i = i + 1;
    }
    true
}

/// Whether `c` is one of the ASCII digits `0`..`9`.
pub open spec fn is_ascii_digit(c: char) -> bool {
    '0' <= c && c <= '9'
}

/// The number that a string of ASCII digits writes in decimal.
pub open spec fn decimal_value(s: Seq<char>) -> nat
    decreases s.len(),
{
    if s.len() == 0 {
        0
    } else {
        decimal_value(s.drop_last()) * 10 + ((s.last() as nat) - 48) as nat
    }
}

/// The text without a leading `+`, if it has one.
pub open spec fn unsigned_body(s: Seq<char>) -> Seq<char> {
    if s.len() > 0 && s[0] == '+' {
        s.drop_first()
    } else {
        s
    }
}

/// Whether the text holds one or more ASCII digits and nothing else.
pub open spec fn all_digits(s: Seq<char>) -> bool {
    s.len() > 0 && forall|i: int| 0 <= i < s.len() ==> is_ascii_digit(#[trigger] s[i])
}

/// What `str::parse::<u32>` reads from a text: an optional `+` followed by one
/// or more ASCII digits whose value fits in a `u32`; anything else is refused.
pub open spec fn u32_text(s: Seq<char>) -> Option<u32> {
    if all_digits(unsigned_body(s)) && decimal_value(unsigned_body(s)) <= u32::MAX {
        Some(decimal_value(unsigned_body(s)) as u32)
    } else {
        None
    }
}

/// A number written with more digits is no smaller than the number its first
/// digits write.
proof fn lemma_decimal_prefix(s: Seq<char>, k: int)
    requires
        0 <= k <= s.len(),
        forall|i: int| 0 <= i < s.len() ==> is_ascii_digit(#[trigger] s[i]),
    ensures
        decimal_value(s.take(k)) <= decimal_value(s),
    decreases s.len(),
{
    if k < s.len() {
        let t = s.drop_last();
        assert(t.take(k) =~= s.take(k));
        assert forall|i: int| 0 <= i < t.len() implies is_ascii_digit(#[trigger] t[i]) by {
            assert(t[i] == s[i]);
        }
        lemma_decimal_prefix(t, k);
    } else {
        assert(s.take(k) =~= s);
    }
}

/// Reads a whole number as `str::parse::<u32>` does: an optional `+`, then
/// one or more ASCII digits whose value fits in a `u32`.
pub(crate) fn parse_u32(s: &str) -> (r: Option<u32>)
    ensures
        r == u32_text(s@),
{
    let n = s.unicode_len();
    let mut st: usize = 0;
    if n > 0 && s.get_char(0) == '+' {
        st = 1;
    }
    let ghost body = unsigned_body(s@);
    assert(body =~= s@.skip(st as int));
    if st == n {
        return None;
    }
    let mut i: usize = st;
    let mut acc: u64 = 0;
    assert(body.take(0) =~= Seq::<char>::empty());
    while i < n
        invariant
            n == s@.len(),
            st <= i <= n,
            st < n,
            body == s@.skip(st as int),
            body == unsigned_body(s@),
            forall|k: int| st <= k < i ==> is_ascii_digit(#[trigger] s@[k]),
            acc == decimal_value(body.take(i - st)),
            acc <= u32::MAX,
        decreases n - i,
    {
        let c = s.get_char(i);
        assert(body[i - st] == c);
        if !('0' <= c && c <= '9') {
            assert(!is_ascii_digit(body[i - st]));
            return None;
        }
        assert(body.take(i + 1 - st).drop_last() =~= body.take(i - st));
        assert(body.take(i + 1 - st).last() == c);
        acc = acc * 10 + ((c as u32) - 48) as u64;
        i = i + 1;
        if acc > 0xffff_ffff {
            proof {
                if all_digits(body) {
                    lemma_decimal_prefix(body, i - st);
                }
            }
            return None;
        }
    }
    proof {
        assert(body.take(n - st) =~= body);
        assert forall|k: int| 0 <= k < body.len() implies is_ascii_digit(#[trigger] body[k]) by {
            assert(body[k] == s@[k + st]);
        }
    }
    Some(acc as u32)
}

/// Accepts any text that is not blank.
pub fn validate_non_empty(input: &str) -> (v: Validation)
    ensures
        is_blank(input@) ==> (v matches Validation::Invalid(msg) && msg@ == "Empty string not allowed"@),
        !is_blank(input@) ==> v == Validation::Valid,
{
    if trims_to_empty(input) {
        return Validation::Invalid("Empty string not allowed".to_string());
    }
    Validation::Valid
}

/// A rating: a whole number from 0 to 100.
pub fn validate_rating(input: &str) -> (v: Validation)
    ensures
        u32_text(input@) is None ==> (v matches Validation::Invalid(msg) && msg@ == "Input isn't a valid number"@),
        u32_text(input@) matches Some(n) && n <= 100 ==> v == Validation::Valid,
        u32_text(input@) matches Some(n) && n > 100 ==> (v matches Validation::Invalid(msg) && msg@ == "Rating has to be between 0-100"@),
{
    match parse_u32(input) {
        Some(n) => {
            if n <= 100 {
                Validation::Valid
            } else {
                Validation::Invalid("Rating has to be between 0-100".to_string())
            }
        },
        None => Validation::Invalid("Input isn't a valid number".to_string()),
    }
}

/// The page a reader has reached: a whole number, no larger than the page
/// count of the edition when that is known.
pub fn validate_page_reached(input: &str, max_pages: Option<u32>) -> (v: Validation)
    ensures
        u32_text(input@) is None ==> (v matches Validation::Invalid(msg) && msg@ == "Input isn't a valid number"@),
        u32_text(input@) matches Some(n) && (max_pages is None || n <= max_pages->0) ==> v
            == Validation::Valid,
        u32_text(input@) matches Some(n) && max_pages matches Some(m) && n > m ==> (v matches Validation::Invalid(msg) && msg@ == "Input has to be lower than number of pages in edition"@),
{
    match parse_u32(input) {
        Some(n) => match max_pages {
            Some(m) => {
                if n <= m {
                    Validation::Valid
                } else {
                    Validation::Invalid(
                        "Input has to be lower than number of pages in edition".to_string(),
                    )
                }
            },
            None => Validation::Valid,
        },
        None => Validation::Invalid("Input isn't a valid number".to_string()),
    }
}

/// A page count: any whole number.
pub fn validate_page_count(input: &str) -> (v: Validation)
    ensures
        u32_text(input@) is None ==> (v matches Validation::Invalid(msg) && msg@ == "Input isn't a valid number"@),
        u32_text(input@) is Some ==> v == Validation::Valid,
{
    match parse_u32(input) {
        Some(_) => Validation::Valid,
        None => Validation::Invalid("Input isn't a valid number".to_string()),
    }
}

} // verus!
