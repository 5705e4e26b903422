use plantbuddy::clock::{default_timerange, timerange_until_now};

fn is_server_timestamp(t: &str) -> bool {
    let b = t.as_bytes();
    b.len() == 24
        && b[4] == b'-'
        && b[7] == b'-'
        && b[10] == b'T'
        && b[13] == b':'
        && b[16] == b':'
        && t.ends_with(".000Z")
}

#[test]
fn default_range_starts_in_2019_and_ends_now() {
    let (from, to) = default_timerange();
    assert_eq!(from, "2019-01-01T00:00:00.000Z");
    assert!(is_server_timestamp(&to));
    assert!(to.as_str() > "2020");
}

#[test]
fn range_until_now_of_a_span() {
    let (from, to) = timerange_until_now(chrono::TimeDelta::weeks(100)).unwrap();
    assert!(is_server_timestamp(&from));
    assert!(is_server_timestamp(&to));
    assert!(from < to);
}

#[test]
fn range_beyond_the_calendar_is_refused() {
    assert_eq!(timerange_until_now(chrono::TimeDelta::MAX), None);
}
