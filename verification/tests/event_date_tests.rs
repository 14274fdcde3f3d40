use gbf_recruitment::event_date::{
    date_from_parse, default_expiry_date, has_overlong_offset, parse_event_date, EventDate,
    DEFAULT_HOUR, MAX_YEAR, MIN_YEAR,
};

#[test]
fn dates_are_checked_against_the_calendar() {
    assert!(EventDate::new(2024, 12, 25, 21, 0, 0).is_some());
    assert!(EventDate::new(2024, 2, 29, 0, 0, 0).is_some());
    assert!(EventDate::new(2023, 2, 29, 0, 0, 0).is_none());
    assert!(EventDate::new(1900, 2, 29, 0, 0, 0).is_none());
    assert!(EventDate::new(2000, 2, 29, 0, 0, 0).is_some());
    assert!(EventDate::new(-4, 2, 29, 0, 0, 0).is_some());
    assert!(EventDate::new(-100, 2, 29, 0, 0, 0).is_none());
    assert!(EventDate::new(2023, 4, 31, 0, 0, 0).is_none());
    assert!(EventDate::new(2023, 4, 30, 23, 59, 59).is_some());
    assert!(EventDate::new(2023, 0, 1, 0, 0, 0).is_none());
    assert!(EventDate::new(2023, 13, 1, 0, 0, 0).is_none());
    assert!(EventDate::new(2023, 1, 0, 0, 0, 0).is_none());
    assert!(EventDate::new(2023, 1, 32, 0, 0, 0).is_none());
    assert!(EventDate::new(2023, 1, 1, 24, 0, 0).is_none());
    assert!(EventDate::new(2023, 1, 1, 0, 60, 0).is_none());
    assert!(EventDate::new(2023, 1, 1, 0, 0, 60).is_none());
    assert!(EventDate::new(MAX_YEAR, 12, 31, 23, 59, 59).is_some());
    assert!(EventDate::new(MAX_YEAR + 1, 1, 1, 0, 0, 0).is_none());
    assert!(EventDate::new(MIN_YEAR, 1, 1, 0, 0, 0).is_some());
    assert!(EventDate::new(MIN_YEAR - 1, 1, 1, 0, 0, 0).is_none());
}

#[test]
fn the_calendar_agrees_with_chrono() {
    for year in [-401, -400, -100, -4, -1, 0, 1, 4, 100, 1900, 2000, 2023, 2024, 2100] {
        for month in 0..14u32 {
            for day in 0..33u32 {
                assert_eq!(
                    EventDate::new(year, month, day, 12, 0, 0).is_some(),
                    chrono::NaiveDate::from_ymd_opt(year, month, day).is_some(),
                    "{}-{}-{}",
                    year,
                    month,
                    day
                );
            }
        }
    }
}

#[test]
fn fields_are_kept() {
    let date = EventDate::new(2024, 3, 9, 7, 5, 59).unwrap();
    assert_eq!(date.year(), 2024);
    assert_eq!(date.month(), 3);
    assert_eq!(date.day(), 9);
    assert_eq!(date.hour(), 7);
    assert_eq!(date.minute(), 5);
    assert_eq!(date.second(), 59);
    let evening = date.at_default_time();
    assert_eq!(evening, EventDate::new(2024, 3, 9, 21, 0, 0).unwrap());
}

#[test]
fn dates_are_shown_with_two_digits_each() {
    assert_eq!(EventDate::new(2024, 12, 25, 21, 0, 0).unwrap().month_day_time(), "12/25 21:00");
    assert_eq!(EventDate::new(2024, 3, 9, 7, 5, 59).unwrap().month_day_time(), "03/09 07:05");
    assert_eq!(EventDate::new(-4, 2, 29, 0, 0, 0).unwrap().month_day_time(), "02/29 00:00");
    assert_eq!(EventDate::new(MAX_YEAR, 1, 1, 23, 59, 0).unwrap().month_day_time(), "01/01 23:59");
}

#[test]
fn test_default_expiry_date() {
    let before = EventDate::now();
    let result = default_expiry_date();
    let after = EventDate::now();

    // Check that the date is today
    assert!(result.day() == before.day() || result.day() == after.day());
    assert!(result.month() == before.month() || result.month() == after.month());
    assert!(result.year() == before.year() || result.year() == after.year());

    // Check that the time is 21:00:00
    assert_eq!(result.hour(), 21);
    assert_eq!(result.minute(), 0);
    assert_eq!(result.second(), 0);
    assert_eq!(DEFAULT_HOUR, 21);
}

#[test]
fn now_is_a_date_of_the_calendar() {
    let now = EventDate::now();
    assert_eq!(
        EventDate::new(now.year(), now.month(), now.day(), now.hour(), now.minute(), now.second()),
        Some(now)
    );
    assert!(now.year() >= 2024);
}

#[test]
fn test_parse_event_date_empty_string() {
    // Test empty string - should return default value
    let result = parse_event_date("").unwrap();
    let default = default_expiry_date();

    assert_eq!(result.year(), default.year());
    assert_eq!(result.month(), default.month());
    assert_eq!(result.day(), default.day());
    assert_eq!(result.hour(), default.hour());
    assert_eq!(result.minute(), default.minute());
}

#[test]
fn test_parse_event_date_whitespace_only() {
    // Test whitespace-only input - should return default value
    let result = parse_event_date("   \t\n  ").unwrap();
    let default = default_expiry_date();

    assert_eq!(result.year(), default.year());
    assert_eq!(result.month(), default.month());
    assert_eq!(result.day(), default.day());
    assert_eq!(result.hour(), default.hour());
    assert_eq!(result.minute(), default.minute());
}

#[test]
fn a_full_date_is_read_as_local_time() {
    let result = parse_event_date("  2024-12-25 15:30  ").unwrap();
    assert_eq!(result, EventDate::new(2024, 12, 25, 15, 30, 0).unwrap());
    let result = parse_event_date("2024-02-29 06:07:08").unwrap();
    assert_eq!(result, EventDate::new(2024, 2, 29, 6, 7, 8).unwrap());
}

#[test]
fn a_time_alone_is_read_as_today() {
    let today = EventDate::now();
    let result = parse_event_date("15:30").unwrap();
    let after = EventDate::now();
    assert!(result.day() == today.day() || result.day() == after.day());
    assert_eq!(result.hour(), 15);
    assert_eq!(result.minute(), 30);
}

#[test]
fn input_that_is_no_date_is_refused_with_the_input_quoted() {
    let error = parse_event_date("  invalid date format ").unwrap_err();
    assert!(error.starts_with("Failed to parse date string 'invalid date format': "));
    assert!(error.len() > "Failed to parse date string 'invalid date format': ".len());
    let error = parse_event_date("random text 123").unwrap_err();
    assert!(error.starts_with("Failed to parse date string 'random text 123': "));
    assert!(parse_event_date("今日 21:00").is_err());
}

#[test]
fn what_the_parser_answered_decides() {
    assert_eq!(
        date_from_parse("x", Ok((2024, 12, 25, 21, 0, 0))),
        Ok(EventDate::new(2024, 12, 25, 21, 0, 0).unwrap())
    );
    assert_eq!(
        date_from_parse("2/30", Ok((2024, 2, 30, 12, 0, 0))),
        Err("Failed to parse date string '2/30': date out of range".to_string())
    );
    assert_eq!(
        date_from_parse("soon", Err("no format matched".to_string())),
        Err("Failed to parse date string 'soon': no format matched".to_string())
    );
}

#[test]
fn a_zone_offset_of_a_day_or_more_is_refused() {
    for input in [
        "2021-02-21 +2400",
        "2021-02-21 +9900",
        "2021-02-21+2400",
        "2021-02-21 -2400",
        "2021-02-21 +24:00",
        "2021-02-21 +2400Z",
        "2021-02-21 +24000",
        "2021-02-21 10:00:00 +2430",
        "2021-02-21 10:00 -99:59",
        "6:00 PM +2500",
        "May 27, 2021 02:45:27 +3000a",
        "  2021-02-21 +2400 \n",
    ] {
        assert!(has_overlong_offset(input.trim()), "{}", input);
        assert_eq!(
            parse_event_date(input),
            Err(format!(
                "Failed to parse date string '{}': time zone offset out of range",
                input.trim()
            )),
            "{}",
            input
        );
    }
}

#[test]
fn a_zone_offset_below_a_day_is_read() {
    for input in [
        "2021-02-21 +2359",
        "2021-02-21 -2359",
        "2017-07-19 03:21:51+00:00",
        "2014-04-26 13:13:43 +0800",
        "2019-11-29 08:08-08",
        "2024-12-25 15:30",
        "2024-12-25",
        "2021-02-21 +2460",
        "2021-02-21 +24",
        "2021-02-21 +24:0",
        "+2400 2021-02-21",
    ] {
        assert!(!has_overlong_offset(input), "{}", input);
    }
    let utc = parse_event_date("2017-07-19 03:21:51+00:00").unwrap();
    let same = parse_event_date("2017-07-19 12:21:51+09:00").unwrap();
    assert_eq!(utc, same);
    let before = parse_event_date("2017-07-19 03:21:51 +2359").unwrap();
    assert_ne!(before, utc);
}

#[test]
fn no_input_with_a_zone_makes_the_parser_give_up() {
    let heads = [
        "2021-02-21",
        "2021-02-21 ",
        "2021-02-21 10:00",
        "2021-02-21 10:00:00 ",
        "2021-02-21 10:00:00.5 ",
        "10:00 ",
        "6:00 PM ",
        "May 27, 2021 02:45:27 ",
        "May 27, 2021 at 02:45:27 PM ",
        "",
    ];
    let hours = [0, 1, 12, 23, 24, 25, 59, 99];
    let minutes = ["00", "30", "59", "60", "99", "0", "a0", ""];
    let tails = ["", "a", "Z", "0", ":", "+", " "];
    let mut refused = 0;
    let mut handed_on = 0;
    for head in heads {
        for sign in ["+", "-"] {
            for hour in hours {
                for colon in ["", ":", "::"] {
                    for minute in minutes {
                        for tail in tails {
                            let input =
                                format!("{}{}{:02}{}{}{}", head, sign, hour, colon, minute, tail);
                            let result = parse_event_date(&input);
                            if has_overlong_offset(input.trim()) {
                                assert!(result.unwrap_err().ends_with("offset out of range"));
                                refused += 1;
                            } else {
                                handed_on += 1;
                            }
                        }
                    }
                }
            }
        }
    }
    assert!(refused > 1000);
    assert!(handed_on > 10000);
}
