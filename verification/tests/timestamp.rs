use get_cookie::chrome::chrome_timestamp_to_time;
use get_cookie::cookie::Timestamp;

#[test]
fn zero_means_no_timestamp() {
    assert_eq!(chrome_timestamp_to_time(0), None);
}

#[test]
fn known_literal_maps_to_calendar_instant() {
    // 2021-03-01T00:00:00Z is 1614556800 Unix seconds, which lies
    // 11_644_473_600 seconds after the store's 1601 epoch.
    let got = chrome_timestamp_to_time(13259030400000000);
    assert_eq!(got, Some(Timestamp { secs: 1614556800, micros: 0 }));

    // Cross-check the calendar rendering with an independent library.
    let rendered = chrono::DateTime::from_timestamp(got.unwrap().secs, 0)
        .unwrap()
        .to_rfc3339();
    assert_eq!(rendered, "2021-03-01T00:00:00+00:00");
}

#[test]
fn reference_literal_maps_exactly() {
    // 13264449600000000 microseconds after 1601 is 1619976000 Unix seconds.
    let got = chrome_timestamp_to_time(13264449600000000);
    assert_eq!(got, Some(Timestamp { secs: 1619976000, micros: 0 }));
    let rendered = chrono::DateTime::from_timestamp(got.unwrap().secs, 0)
        .unwrap()
        .to_rfc3339();
    assert_eq!(rendered, "2021-05-02T17:20:00+00:00");
}

#[test]
fn microsecond_residue_is_kept() {
    let got = chrome_timestamp_to_time(11644473600000000 + 1_500_250);
    assert_eq!(got, Some(Timestamp { secs: 1, micros: 500_250 }));
}

#[test]
fn instants_before_1970_split_without_negative_residue() {
    // One microsecond before the Unix epoch.
    let got = chrome_timestamp_to_time(11644473600000000 - 1);
    assert_eq!(got, Some(Timestamp { secs: -1, micros: 999_999 }));
}

#[test]
fn instants_before_1601_are_still_exact() {
    // One second before the store's own epoch.
    let got = chrome_timestamp_to_time(-1_000_000);
    assert_eq!(got, Some(Timestamp { secs: -11_644_473_601, micros: 0 }));
}

#[test]
fn the_extreme_input_still_splits_exactly() {
    // -(2^63) microseconds after 1601: the split still lands on a residue
    // below one second, with no overflow anywhere.
    let got = chrome_timestamp_to_time(i64::MIN);
    assert_eq!(got, Some(Timestamp { secs: -9_235_016_510_455, micros: 224_192 }));
}
