use vstd::prelude::*;

verus! {

/// Whether `chrono` can represent the instant `millis` milliseconds after the
/// Unix epoch as a `DateTime<Utc>`: whether it falls between the first
/// millisecond of 1 January of year -262143 and the last of 31 December of
/// year 262142, the range of `chrono`'s dates.
pub open spec fn millis_representable(millis: i64) -> bool {
    -8_334_601_228_800_000 <= millis <= 8_210_266_876_799_999
}

/// `chrono::DateTime::<Utc>::from_timestamp_millis(millis).is_some()`.
/// Claimed: it is `Some` exactly for the instants within `chrono`'s range of
/// dates (`NaiveDate::MIN` to `NaiveDate::MAX`, years -262143 to 262142).
#[verifier::external_body]
fn chrono_accepts_millis(millis: i64) -> (r: bool)
    ensures
        r == millis_representable(millis),
{
    chrono::DateTime::from_timestamp_millis(millis).is_some()
}

/// Reads a date or date-time written in one of the many forms `dateparser`
/// knows, as milliseconds since the epoch (`dateparser::parse`). Nothing is
/// claimed of the result: for forms without a time zone or without a date the
/// crate fills in the machine's local zone and the current date.
#[verifier::external_body]
pub(crate) fn parse_date_text(s: &str) -> (r: Option<i64>) {
    dateparser::parse(s).ok().map(|t| t.timestamp_millis())
}

/// The current instant, in milliseconds since the epoch (`chrono::Utc::now`).
/// Claimed: it lies within chrono's range (it comes from a `DateTime<Utc>`).
#[verifier::external_body]
fn current_millis() -> (r: i64)
    ensures
        millis_representable(r),
{
    chrono::Utc::now().timestamp_millis()
}

/// The rough English description of a duration in the past that
/// `chrono_humanize` gives for `millis` milliseconds, such as "2 days ago".
pub uninterp spec fn humanized_past(millis: i64) -> Seq<char>;

/// `HumanTime::from(TimeDelta::milliseconds(millis)).to_text_en(Rough, Past)`.
/// `TimeDelta::milliseconds` panics on `i64::MIN` only.
#[verifier::external_body]
fn humanize_millis(millis: i64) -> (r: String)
    requires
        millis != i64::MIN,
    ensures
        r@ == humanized_past(millis),
{
    chrono_humanize::HumanTime::from(chrono::TimeDelta::milliseconds(millis)).to_text_en(
        chrono_humanize::Accuracy::Rough,
        chrono_humanize::Tense::Past,
    )
}

/// The text `chrono` writes for the instant `millis` milliseconds after the
/// epoch (`Display` of `DateTime<Utc>`, such as "2023-05-01 12:00:00 UTC").
pub uninterp spec fn utc_text(millis: i64) -> Seq<char>;

/// Writes an instant with `DateTime<Utc>`'s `Display`.
#[verifier::external_body]
fn format_utc(millis: i64) -> (r: String)
    requires
        millis_representable(millis),
    ensures
        r@ == utc_text(millis),
{
    chrono::DateTime::from_timestamp_millis(millis).unwrap().to_string()
}

/// Whether `y` is a leap year of the Gregorian calendar.
pub open spec fn is_leap_year(y: int) -> bool {
    (y % 4 == 0 && y % 100 != 0) || y % 400 == 0
}

/// The number of days of month `m` (1 to 12) of year `y`.
pub open spec fn days_in_month(y: int, m: int) -> int {
    if m == 2 {
        if is_leap_year(y) {
            29
        } else {
            28
        }
    } else if m == 4 || m == 6 || m == 9 || m == 11 {
        30
    } else {
        31
    }
}

/// The number of days from 1 January 1970 to the given day of the proleptic
/// Gregorian calendar (negative before it), counted in cycles of 400 years
/// that start on 1 March.
pub open spec fn days_from_civil(y: int, m: int, d: int) -> int {
    let yy = if m <= 2 {
        y - 1
    } else {
        y
    };
    let era = yy / 400;
    let yoe = yy - era * 400;
    let mp = if m > 2 {
        m - 3
    } else {
        m + 9
    };
    let doy = (153 * mp + 2) / 5 + d - 1;
    let doe = yoe * 365 + yoe / 4 - yoe / 100 + doy;
    era * 146097 + doe - 719468
}

/// The instant, in milliseconds since the epoch, of `hour`:00:00 UTC on the
/// given day of the proleptic Gregorian calendar: nothing when the month, the
/// day or the hour does not exist, or the year is outside chrono's range of
/// dates (-262143 to 262142).
pub open spec fn date_millis(year: i32, month: u32, day: u32, hour: u32) -> Option<i64> {
    if -262143 <= year <= 262142 && 1 <= month <= 12 && 1 <= day <= days_in_month(
        year as int,
        month as int,
    ) && hour < 24 {
        Some(
            (days_from_civil(year as int, month as int, day as int) * 86_400_000 + hour * 3_600_000) as i64,
        )
    } else {
        None
    }
}

/// `NaiveDate::from_ymd_opt(year, month, day)` at `hour`:00:00
/// (`and_hms_opt`), in UTC, as milliseconds since the epoch. Claimed: chrono
/// documents `from_ymd_opt` as giving nothing exactly for an out-of-range
/// year or an invalid month or day of the proleptic Gregorian calendar, and
/// `and_hms_opt` as giving nothing exactly for an hour above 23; the instant
/// is counted in days from the epoch, and lies within chrono's range.
#[verifier::external_body]
fn naive_date_millis(year: i32, month: u32, day: u32, hour: u32) -> (r: Option<i64>)
    ensures
        r == date_millis(year, month, day, hour),
        r matches Some(m) ==> millis_representable(m),
{
    match chrono::NaiveDate::from_ymd_opt(year, month, day) {
        Some(date) => match date.and_hms_opt(hour, 0, 0) {
            Some(t) => Some(t.and_utc().timestamp_millis()),
            None => None,
        },
        None => None,
    }
}

/// An instant in UTC, kept as milliseconds since the Unix epoch.
#[derive(Clone, Copy, Debug, PartialEq, Eq, Structural)]
pub struct Timestamp {
    millis: i64,
}

/// Errors met when reading a stored value back from the database.
#[derive(Clone, Copy, Debug, PartialEq, Eq, Structural)]
pub enum DecodeError {
    /// A non-optional timestamp that is outside chrono's range.
    Timestamp,
    /// A reading-progress value that is neither -1, 0 nor a page number.
    PagesProgress,
}

impl DecodeError {
    /// The message reported for the error.
    pub fn message(&self) -> (s: String)
        ensures
            self is Timestamp ==> s@ == "Couldn't decode non-optional timestamp"@,
            self is PagesProgress ==> s@ == "Invalid pages_progress value"@,
    {
        match self {
            DecodeError::Timestamp => "Couldn't decode non-optional timestamp".to_string(),
            DecodeError::PagesProgress => "Invalid pages_progress value".to_string(),
        }
    }
}

impl View for Timestamp {
    type V = i64;

    /// The instant, in milliseconds since the epoch.
    closed spec fn view(&self) -> i64 {
        self.millis
    }
}

impl View for OptionalTimestamp {
    type V = Option<i64>;

    open spec fn view(&self) -> Option<i64> {
        match self.0 {
            Some(t) => Some(t@),
            None => None,
        }
    }
}

/// What a stored non-optional timestamp reads back as: the instant, or
/// nothing (an error) when chrono cannot represent it.
pub open spec fn timestamp_from_stored(value: i64) -> Option<i64> {
    if millis_representable(value) {
        Some(value)
    } else {
        None
    }
}

/// The stored value of an optional timestamp: 0 when missing.
pub open spec fn optional_to_stored(o: Option<i64>) -> i64 {
    match o {
        Some(m) => m,
        None => 0,
    }
}

/// What a stored optional timestamp reads back as.
pub open spec fn optional_from_stored(value: i64) -> Option<i64> {
    if value == 0 || !millis_representable(value) {
        None
    } else {
        Some(value)
    }
}

impl Timestamp {
    #[verifier::type_invariant]
    spec fn representable(self) -> bool {
        millis_representable(self.millis)
    }

    /// Every timestamp is an instant that chrono can represent.
    pub fn check_representable(&self)
        ensures
            millis_representable(self@),
    {
        proof {
            use_type_invariant(self);
        }
    }

    /// The instant `millis` milliseconds after the epoch, if chrono can
    /// represent it.
    pub fn from_millis(millis: i64) -> (r: Option<Timestamp>)
        ensures
            millis_representable(millis) ==> (r matches Some(t) && t@ == millis),
            !millis_representable(millis) ==> r is None,
    {
        if chrono_accepts_millis(millis) {
            Some(Timestamp { millis })
        } else {
            None
        }
    }

    /// The Unix epoch, the default timestamp.
    pub fn epoch() -> (r: Timestamp)
        ensures
            r@ == 0,
    {
        let ok = chrono_accepts_millis(0);
        assert(ok);
        Timestamp { millis: 0 }
    }

    /// The current instant.
    pub fn now() -> (r: Timestamp)
        ensures
            millis_representable(r@),
    {
        let m = current_millis();
        Timestamp { millis: m }
    }

    /// The instant at `hour`:00:00 UTC of a calendar day, if the day exists
    /// and `hour` is below 24.
    pub fn at_hour(year: i32, month: u32, day: u32, hour: u32) -> (r: Option<Timestamp>)
        ensures
            match date_millis(year, month, day, hour) {
                Some(m) => r matches Some(t) && t@ == m,
                None => r is None,
            },
    {
        match naive_date_millis(year, month, day, hour) {
            Some(m) => Some(Timestamp { millis: m }),
            None => None,
        }
    }

    /// How long ago the instant was, as of `now`, in rough English words.
    pub fn humanize(&self, now: Timestamp) -> (s: String)
        ensures
            s@ == humanized_past((self@ - now@) as i64),
    {
        proof {
            use_type_invariant(self);
            use_type_invariant(&now);
        }
        humanize_millis(self.millis - now.millis)
    }

    /// The instant written out in UTC.
    pub fn to_utc_string(&self) -> (s: String)
        ensures
            s@ == utc_text(self@),
    {
        proof {
            use_type_invariant(self);
        }
        format_utc(self.millis)
    }

    /// Milliseconds since the epoch.
    pub fn millis(&self) -> (m: i64)
        ensures
            m == self@,
    {
        self.millis
    }

    /// The value written to the database: milliseconds since the epoch.
    pub fn encode(&self) -> (v: i64)
        ensures
            v == self@,
    {
        self.millis
    }

    /// Reads a non-optional timestamp from its stored value.
    pub fn decode(value: i64) -> (r: Result<Timestamp, DecodeError>)
        ensures
            timestamp_from_stored(value) matches Some(m) ==> (r matches Ok(t) && t@ == m),
            timestamp_from_stored(value) is None ==> r == Err::<Timestamp, DecodeError>(
                DecodeError::Timestamp,
            ),
    {
        match Timestamp::from_millis(value) {
            Some(t) => Ok(t),
            None => Err(DecodeError::Timestamp),
        }
    }
}

/// A timestamp that may be missing; stored as 0 when missing.
#[derive(Clone, Copy, Debug, PartialEq, Eq, Structural)]
pub struct OptionalTimestamp(pub Option<Timestamp>);

impl OptionalTimestamp {
    /// The value written to the database: 0 for a missing timestamp,
    /// milliseconds since the epoch otherwise.
    pub fn encode(&self) -> (v: i64)
        ensures
            v == optional_to_stored(self@),
    {
        match self.0 {
            None => 0,
            Some(t) => t.encode(),
        }
    }

    /// Reads an optional timestamp from its stored value: 0 and values chrono
    /// cannot represent read as missing.
    pub fn decode(value: i64) -> (r: OptionalTimestamp)
        ensures
            r@ == optional_from_stored(value),
    {
        if value == 0 {
            return OptionalTimestamp(None);
        }
        OptionalTimestamp(Timestamp::from_millis(value))
    }
}

/// Reading back the stored value of a timestamp gives the same instant.
/// (Every `Timestamp` holds an instant chrono can represent; see
/// `Timestamp::check_representable`.)
pub proof fn lemma_timestamp_round_trip(t: Timestamp)
    requires
        millis_representable(t@),
    ensures
        timestamp_from_stored(t@) == Some(t@),
{
}

/// Reading back the stored value of an optional timestamp gives the same
/// value, except for an instant exactly at the epoch, which is stored as 0
/// and so reads back as missing.
pub proof fn lemma_optional_timestamp_round_trip(o: OptionalTimestamp)
    requires
        o@ matches Some(m) ==> millis_representable(m),
    ensures
        o@ != Some(0i64) ==> optional_from_stored(optional_to_stored(o@)) == o@,
        o@ == Some(0i64) ==> optional_from_stored(optional_to_stored(o@)) is None,
{
}

/// A stored value that reads back as an instant is stored again unchanged.
pub proof fn lemma_optional_stored_round_trip(value: i64)
    requires
        optional_from_stored(value) is Some,
    ensures
        optional_to_stored(optional_from_stored(value)) == value,
{
}

} // verus!
