use chrono::{DateTime, Utc};
use regex::Regex;
use unique_codes::clock::{
    ClockService, FIRST_SECOND, FIRST_SECOND_OF_YEAR_0, LAST_SECOND, LAST_SECOND_OF_YEAR_9999,
    NANOS_PER_SECOND,
};

#[test]
fn test_created_on() {
    let service = ClockService::new();
    let created_on = service.created_on();
    let parsed = DateTime::parse_from_rfc3339(&created_on);
    assert!(parsed.is_ok());
}

#[test]
fn created_on_is_not_empty() {
    let created_on = ClockService::new().created_on();
    assert!(!created_on.is_empty());
    assert!(created_on.len() >= 25);
}

#[test]
fn created_on_has_the_form_of_a_utc_timestamp() {
    let form = Regex::new(
        r"^([0-9]{4}|\+[0-9]{5,})-[0-9]{2}-[0-9]{2}T[0-9]{2}:[0-9]{2}:[0-9]{2}(\.[0-9]{3}|\.[0-9]{6}|\.[0-9]{9})?\+00:00$",
    )
    .unwrap();
    for _ in 0..50 {
        let created_on = ClockService::new().created_on();
        assert!(form.is_match(&created_on), "unexpected {:?}", created_on);
    }
}

#[test]
fn created_on_is_the_current_time() {
    let before = Utc::now();
    let created_on = ClockService::new().created_on();
    let after = Utc::now();
    let parsed = DateTime::parse_from_rfc3339(&created_on).unwrap();
    assert_eq!(parsed.offset().local_minus_utc(), 0);
    assert!(before <= parsed && parsed <= after);
}

fn text_at(secs: i64, nanos: u32) -> Option<String> {
    ClockService::new().created_on_at(secs, nanos)
}

#[test]
fn created_on_at_writes_a_given_instant() {
    assert_eq!(text_at(1_577_934_245, 0), Some("2020-01-02T03:04:05+00:00".to_string()));
    assert_eq!(text_at(0, 0), Some("1970-01-01T00:00:00+00:00".to_string()));
    assert_eq!(text_at(1_614_834_367, 89_000_000), Some("2021-03-04T05:06:07.089+00:00".to_string()));
}

#[test]
fn created_on_at_writes_the_fraction_in_three_six_or_nine_digits() {
    assert_eq!(text_at(1_577_934_245, 0).unwrap(), "2020-01-02T03:04:05+00:00");
    assert_eq!(text_at(1_577_934_245, 500_000_000).unwrap(), "2020-01-02T03:04:05.500+00:00");
    assert_eq!(text_at(1_577_934_245, 1_000_000).unwrap(), "2020-01-02T03:04:05.001+00:00");
    assert_eq!(text_at(1_577_934_245, 1_000).unwrap(), "2020-01-02T03:04:05.000001+00:00");
    assert_eq!(text_at(1_577_934_245, 1).unwrap(), "2020-01-02T03:04:05.000000001+00:00");
    assert_eq!(text_at(1_577_934_245, 999_999_999).unwrap(), "2020-01-02T03:04:05.999999999+00:00");
}

#[test]
fn created_on_at_knows_the_leap_day() {
    assert_eq!(text_at(1_582_934_400, 0).unwrap(), "2020-02-29T00:00:00+00:00");
    assert_eq!(text_at(1_614_556_799, 0).unwrap(), "2021-02-28T23:59:59+00:00");
    assert_eq!(text_at(1_614_556_800, 0).unwrap(), "2021-03-01T00:00:00+00:00");
}

#[test]
fn created_on_at_writes_the_years_before_1970() {
    assert_eq!(text_at(-1, 0).unwrap(), "1969-12-31T23:59:59+00:00");
    assert_eq!(text_at(FIRST_SECOND_OF_YEAR_0, 0).unwrap(), "0000-01-01T00:00:00+00:00");
}

#[test]
fn created_on_at_writes_a_sign_outside_the_years_of_four_digits() {
    assert_eq!(text_at(LAST_SECOND_OF_YEAR_9999, 0).unwrap(), "9999-12-31T23:59:59+00:00");
    assert_eq!(text_at(LAST_SECOND_OF_YEAR_9999 + 1, 0).unwrap(), "+10000-01-01T00:00:00+00:00");
    assert_eq!(text_at(FIRST_SECOND_OF_YEAR_0 - 1, 0).unwrap(), "-0001-12-31T23:59:59+00:00");
}

#[test]
fn created_on_at_reaches_the_ends_of_the_calendar() {
    assert_eq!(FIRST_SECOND, -8_334_601_228_800);
    assert_eq!(LAST_SECOND, 8_210_266_876_799);
    assert_eq!(text_at(LAST_SECOND, 999_999_999).unwrap(), "+262142-12-31T23:59:59.999999999+00:00");
    assert_eq!(text_at(FIRST_SECOND, 0).unwrap(), "-262143-01-01T00:00:00+00:00");
    assert_eq!(DateTime::from_timestamp(LAST_SECOND, 999_999_999), Some(DateTime::<Utc>::MAX_UTC));
    assert_eq!(DateTime::from_timestamp(FIRST_SECOND, 0), Some(DateTime::<Utc>::MIN_UTC));
}

#[test]
fn created_on_at_gives_nothing_outside_the_calendar() {
    assert_eq!(text_at(LAST_SECOND + 1, 0), None);
    assert_eq!(text_at(FIRST_SECOND - 1, 0), None);
    assert_eq!(text_at(i64::MAX, 0), None);
    assert_eq!(text_at(i64::MIN, 0), None);
}

#[test]
fn created_on_at_gives_nothing_for_a_second_of_too_many_nanoseconds() {
    assert_eq!(NANOS_PER_SECOND, 1_000_000_000);
    assert_eq!(text_at(0, 1_000_000_000), None);
    assert_eq!(text_at(59, 1_500_000_000), None);
    assert_eq!(text_at(0, u32::MAX), None);
}

#[test]
fn created_on_at_is_parsed_back_to_the_instant() {
    let instants: [(i64, u32); 8] = [
        (0, 0),
        (1_577_934_245, 0),
        (1_582_934_400, 123_000_000),
        (1_614_556_799, 999_999_999),
        (-1, 1),
        (FIRST_SECOND_OF_YEAR_0, 0),
        (LAST_SECOND_OF_YEAR_9999, 999_999_999),
        (951_782_400, 456_000),
    ];
    for (secs, nanos) in instants {
        let text = text_at(secs, nanos).unwrap();
        let parsed = DateTime::parse_from_rfc3339(&text);
        assert!(parsed.is_ok(), "unexpected {:?}", text);
        let parsed = parsed.unwrap();
        assert_eq!(parsed.timestamp(), secs);
        assert_eq!(parsed.timestamp_subsec_nanos(), nanos);
    }
}

#[test]
fn created_on_at_past_the_year_9999_is_not_parsed() {
    let text = text_at(LAST_SECOND_OF_YEAR_9999 + 1, 0).unwrap();
    assert!(DateTime::parse_from_rfc3339(&text).is_err());
}

#[test]
fn created_on_at_has_the_form_of_a_utc_timestamp() {
    let form = Regex::new(
        r"^([0-9]{4}|\+[0-9]{5,}|-[0-9]{4,})-[0-9]{2}-[0-9]{2}T[0-9]{2}:[0-9]{2}:[0-9]{2}(\.[0-9]{3}|\.[0-9]{6}|\.[0-9]{9})?\+00:00$",
    )
    .unwrap();
    let mut secs: i64 = FIRST_SECOND;
    while secs <= LAST_SECOND {
        for nanos in [0u32, 7, 7_000, 7_000_000] {
            let text = text_at(secs, nanos).unwrap();
            assert!(form.is_match(&text), "unexpected {:?}", text);
            assert!(text.len() >= 25);
            let four_digits = FIRST_SECOND_OF_YEAR_0 <= secs && secs <= LAST_SECOND_OF_YEAR_9999;
            assert_eq!(text.as_bytes()[0].is_ascii_digit(), four_digits);
            assert_eq!(DateTime::parse_from_rfc3339(&text).is_ok(), four_digits);
        }
        secs += 12_345_678_901;
    }
}

#[test]
fn created_on_is_what_created_on_at_writes_for_the_reading() {
    let created_on = ClockService::new().created_on();
    let parsed = DateTime::parse_from_rfc3339(&created_on).unwrap();
    assert!(parsed.timestamp() >= 0);
    assert_eq!(
        text_at(parsed.timestamp(), parsed.timestamp_subsec_nanos()),
        Some(created_on)
    );
}

#[test]
fn created_on_at_of_the_years_of_four_digits_is_parsed() {
    let mut secs: i64 = FIRST_SECOND_OF_YEAR_0;
    while secs <= LAST_SECOND_OF_YEAR_9999 {
        for nanos in [0u32, 250_000_000, 999_999_999] {
            let text = text_at(secs, nanos).unwrap();
            let parsed = DateTime::parse_from_rfc3339(&text).unwrap();
            assert_eq!(parsed.timestamp(), secs);
            assert_eq!(parsed.timestamp_subsec_nanos(), nanos);
            assert_eq!(parsed.offset().local_minus_utc(), 0);
        }
        secs += 86_400 * 37 + 3_601;
    }
}
