use sl::humanize::humanize_age;
use sl::humanize::humanize_size;

fn size(bytes: u64) -> (String, String) {
    humanize_size(bytes)
}

#[test]
fn size_zero_is_dash() {
    let (magnitude, unit) = size(0);
    assert_eq!(magnitude, "-");
    assert_eq!(unit, "");
}

#[test]
fn size_below_kilo_keeps_raw_bytes() {
    assert_eq!(size(1), ("1".to_string(), "B".to_string()));
    assert_eq!(size(500), ("500".to_string(), "B".to_string()));
    assert_eq!(size(1023), ("1023".to_string(), "B".to_string()));
}

#[test]
fn size_at_thresholds_moves_to_higher_unit() {
    assert_eq!(size(1024), ("1.0".to_string(), "K".to_string()));
    assert_eq!(size(1024 * 1024), ("1.0".to_string(), "M".to_string()));
    assert_eq!(size(1024 * 1024 * 1024), ("1.0".to_string(), "G".to_string()));
    assert_eq!(
        size(1024 * 1024 * 1024 * 1024),
        ("1.0".to_string(), "T".to_string())
    );
}

#[test]
fn size_rounds_half_away_from_zero() {
    // 1127 bytes = 11.0058 tenths of a K: the half in the last place
    // rounds away from zero.
    assert_eq!(size(1127), ("1.1".to_string(), "K".to_string()));
    // 1587.2 bytes would be 1.55 K: 1588 rounds up to 1.6.
    assert_eq!(size(1588), ("1.6".to_string(), "K".to_string()));
    assert_eq!(size(1536), ("1.5".to_string(), "K".to_string()));
}

#[test]
fn size_magnitude_spans_its_unit() {
    assert_eq!(size(1024 * 1023), ("1023.0".to_string(), "K".to_string()));
    // The last byte count that still rounds below the boundary...
    assert_eq!(size(1048524), ("1023.9".to_string(), "K".to_string()));
    // ...and from the next one on, just under the megabyte threshold,
    // the magnitude rounds up to the boundary value itself.
    assert_eq!(size(1048525), ("1024.0".to_string(), "K".to_string()));
    assert_eq!(size(1024 * 1024 - 1), ("1024.0".to_string(), "K".to_string()));
}

#[test]
fn size_clamps_at_largest_unit() {
    let (magnitude, unit) = size(u64::MAX);
    assert_eq!(unit, "T");
    assert_eq!(magnitude, "16777216.0");
}

#[test]
fn age_buckets_at_spec_thresholds() {
    assert_eq!(humanize_age(0), "0 secs ago");
    assert_eq!(humanize_age(59), "59 secs ago");
    assert_eq!(humanize_age(60), "1 mins ago");
    assert_eq!(humanize_age(3600), "1 hrs ago");
    assert_eq!(humanize_age(86400), "1 days ago");
}

#[test]
fn age_rounds_to_nearest_integer() {
    assert_eq!(humanize_age(89), "1 mins ago");
    assert_eq!(humanize_age(90), "2 mins ago");
    assert_eq!(humanize_age(3599), "60 mins ago");
    assert_eq!(humanize_age(5399), "1 hrs ago");
    assert_eq!(humanize_age(5400), "2 hrs ago");
    assert_eq!(humanize_age(86399), "24 hrs ago");
    assert_eq!(humanize_age(129600), "2 days ago");
    assert_eq!(humanize_age(172800), "2 days ago");
}
