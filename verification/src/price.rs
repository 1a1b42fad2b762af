use vstd::prelude::*;

use crate::records::Price;
use crate::text::Text;
use crate::timestamp::{OptionalTimestamp, Timestamp};
use crate::validate::Validation;

verus! {

/// Whether `liquidity_check` recognises a text as an amount of money: a
/// number with a currency symbol or code before or after it.
pub uninterp spec fn is_monetary(s: Seq<char>) -> bool;

/// `liquidity_check::validate`.
#[verifier::external_body]
fn monetary(s: &str) -> (r: bool)
    ensures
        r == is_monetary(s@),
{
    liquidity_check::validate(s)
}

/// Accepts exactly the texts recognised as an amount of money.
pub fn validate_price(input: &str) -> (v: Validation)
    ensures
        is_monetary(input@) ==> v == Validation::Valid,
        !is_monetary(input@) ==> (v matches Validation::Invalid(msg) && msg@
            == "Not recognised as monetary value"@),
{
    if monetary(input) {
        Validation::Valid
    } else {
        Validation::Invalid("Not recognised as monetary value".to_string())
    }
}

impl Price {
    /// The price paid, as entered, and when it was paid if known.
    pub fn created(value: Text, timestamp: Option<Timestamp>) -> (r: Price)
        ensures
            r.value == value,
            r.timestamp == OptionalTimestamp(timestamp),
    {
        Price { value, timestamp: OptionalTimestamp(timestamp) }
    }
}

} // verus!
