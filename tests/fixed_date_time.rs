use hatena_blog::{FixedDateTime, FixedDateTimeParseError};

#[test]
fn string_conversion_test() {
    let s1 = "2021-02-03T16:17:18+09:00";
    let s2 = "2021-02-03T16:17:18+00:00";
    let s3 = "2021-02-03T16:17:18Z";
    assert_eq!(FixedDateTime::from_str(s1).unwrap().to_string(), s1);
    assert_eq!(FixedDateTime::from_str(s2).unwrap().to_string(), s3);
    assert_eq!(FixedDateTime::from_str(s3).unwrap().to_string(), s3);
}

#[test]
fn fractional_seconds_are_dropped() {
    let d = "2021-02-03T16:17:18.250+09:00".parse::<FixedDateTime>().unwrap();
    assert_eq!(d.to_string(), "2021-02-03T16:17:18+09:00");
}

#[test]
fn malformed_date_is_refused() {
    assert_eq!(
        FixedDateTime::from_str("2021-02-03").map(|d| d.to_string()),
        Err(FixedDateTimeParseError)
    );
}
