use tomex::progress::PagesProgress;
use tomex::timestamp::{DecodeError, OptionalTimestamp, Timestamp};

const DAY: i64 = 86_400_000;

#[test]
fn timestamp_codec_round_trip() {
    let t = Timestamp::from_millis(1_700_000_000_123).unwrap();
    assert_eq!(t.encode(), 1_700_000_000_123);
    assert_eq!(Timestamp::decode(t.encode()).unwrap().millis(), 1_700_000_000_123);
}

#[test]
fn timestamp_range_edges() {
    assert!(Timestamp::from_millis(8_210_266_876_799_999).is_some());
    assert!(Timestamp::from_millis(8_210_266_876_800_000).is_none());
    assert!(Timestamp::from_millis(-8_334_601_228_800_000).is_some());
    assert!(Timestamp::from_millis(-8_334_601_228_800_001).is_none());
    assert_eq!(Timestamp::decode(i64::MAX), Err(DecodeError::Timestamp));
    assert_eq!(DecodeError::Timestamp.message(), "Couldn't decode non-optional timestamp");
}

#[test]
fn optional_timestamp_codec() {
    assert_eq!(OptionalTimestamp(None).encode(), 0);
    assert_eq!(OptionalTimestamp::decode(0), OptionalTimestamp(None));
    let t = Timestamp::from_millis(5 * DAY).unwrap();
    assert_eq!(OptionalTimestamp(Some(t)).encode(), 5 * DAY);
    assert_eq!(OptionalTimestamp::decode(5 * DAY), OptionalTimestamp(Some(t)));
    assert_eq!(OptionalTimestamp::decode(i64::MIN), OptionalTimestamp(None));
}

#[test]
fn optional_timestamp_at_epoch_reads_back_missing() {
    let epoch = OptionalTimestamp(Some(Timestamp::epoch()));
    assert_eq!(OptionalTimestamp::decode(epoch.encode()), OptionalTimestamp(None));
}

#[test]
fn humanized_durations() {
    let now = Timestamp::from_millis(100 * DAY).unwrap();
    let two_days_ago = Timestamp::from_millis(98 * DAY).unwrap();
    assert_eq!(two_days_ago.humanize(now), "2 days ago");
    assert_eq!(now.humanize(now), "now ago");
}

#[test]
fn utc_text() {
    assert_eq!(Timestamp::epoch().to_utc_string(), "1970-01-01 00:00:00 UTC");
}

#[test]
fn calendar_days() {
    let noon = Timestamp::at_hour(2023, 5, 1, 12).unwrap();
    assert_eq!(noon.millis(), 1_682_942_400_000);
    assert!(Timestamp::at_hour(2023, 2, 30, 12).is_none());
    assert!(Timestamp::at_hour(2023, 1, 1, 24).is_none());
    assert_eq!(Timestamp::at_hour(1970, 1, 1, 0).unwrap().millis(), 0);
    assert_eq!(Timestamp::at_hour(1969, 12, 31, 0).unwrap().millis(), -86_400_000);
    assert!(Timestamp::at_hour(2024, 2, 29, 0).is_some());
    assert!(Timestamp::at_hour(2000, 2, 29, 0).is_some());
    assert!(Timestamp::at_hour(1900, 2, 29, 0).is_none());
    assert!(Timestamp::at_hour(2023, 0, 1, 0).is_none());
    assert!(Timestamp::at_hour(262143, 1, 1, 0).is_none());
    assert!(Timestamp::at_hour(262142, 12, 31, 23).is_some());
}

#[test]
fn now_is_after_2020() {
    assert!(Timestamp::now().millis() > 1_577_836_800_000);
}

#[test]
fn pages_progress_codec() {
    assert_eq!(PagesProgress::Started.encode(), 0);
    assert_eq!(PagesProgress::Finished.encode(), -1);
    assert_eq!(PagesProgress::Pages(42).encode(), 42);
    assert_eq!(PagesProgress::decode(0), Ok(PagesProgress::Started));
    assert_eq!(PagesProgress::decode(-1), Ok(PagesProgress::Finished));
    assert_eq!(PagesProgress::decode(42), Ok(PagesProgress::Pages(42)));
    assert_eq!(PagesProgress::decode(-2), Err(DecodeError::PagesProgress));
    assert_eq!(DecodeError::PagesProgress.message(), "Invalid pages_progress value");
}

#[test]
fn pages_zero_reads_back_as_started() {
    assert_eq!(PagesProgress::decode(PagesProgress::Pages(0).encode()), Ok(PagesProgress::Started));
}
