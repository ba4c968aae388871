use pingstat::stamp::LocalStamp;

#[test]
fn file_name_holds_date_and_zero_padded_time() {
    let stamp = LocalStamp::new(2022, 8, 1, 9, 5, 3, 0, 7200).unwrap();
    assert_eq!(stamp.report_file_name(), "pings_2022-08-01_09-05-03.json");
    let late = LocalStamp::new(1999, 12, 31, 23, 59, 59, 999_999_999, -3600).unwrap();
    assert_eq!(late.report_file_name(), "pings_1999-12-31_23-59-59.json");
}

#[test]
fn file_name_pads_early_years() {
    let stamp = LocalStamp::new(7, 12, 31, 0, 0, 0, 0, 0).unwrap();
    assert_eq!(stamp.report_file_name(), "pings_0007-12-31_00-00-00.json");
    let zero = LocalStamp::new(0, 1, 1, 0, 0, 0, 0, 0).unwrap();
    assert_eq!(zero.report_file_name(), "pings_0000-01-01_00-00-00.json");
    let last = LocalStamp::new(9999, 12, 31, 23, 59, 59, 0, 0).unwrap();
    assert_eq!(last.report_file_name(), "pings_9999-12-31_23-59-59.json");
}

#[test]
fn start_time_carries_the_offset() {
    let stamp = LocalStamp::new(2022, 8, 1, 9, 5, 3, 0, 7200).unwrap();
    assert_eq!(stamp.to_rfc3339(), "2022-08-01T09:05:03+02:00");
    let west = LocalStamp::new(2022, 8, 1, 9, 5, 3, 500_000_000, -19_800).unwrap();
    assert_eq!(west.to_rfc3339(), "2022-08-01T09:05:03.500-05:30");
    let utc = LocalStamp::new(7, 12, 31, 23, 59, 59, 123_456_789, 0).unwrap();
    assert_eq!(utc.to_rfc3339(), "0007-12-31T23:59:59.123456789+00:00");
}

#[test]
fn widest_offsets_are_accepted() {
    let east = LocalStamp::new(2022, 1, 1, 0, 0, 0, 0, 86_399).unwrap();
    assert_eq!(east.to_rfc3339(), "2022-01-01T00:00:00+24:00");
    let west = LocalStamp::new(0, 1, 1, 0, 0, 0, 0, -86_399).unwrap();
    assert_eq!(west.report_file_name(), "pings_0000-01-01_00-00-00.json");
    assert!(LocalStamp::new(2022, 1, 1, 0, 0, 0, 0, 86_400).is_none());
    assert!(LocalStamp::new(2022, 1, 1, 0, 0, 0, 0, -86_400).is_none());
}

#[test]
fn leap_days_follow_the_gregorian_rule() {
    assert!(LocalStamp::new(2024, 2, 29, 0, 0, 0, 0, 0).is_some());
    assert!(LocalStamp::new(2023, 2, 29, 0, 0, 0, 0, 0).is_none());
    assert!(LocalStamp::new(2000, 2, 29, 0, 0, 0, 0, 0).is_some());
    assert!(LocalStamp::new(1900, 2, 29, 0, 0, 0, 0, 0).is_none());
    assert!(LocalStamp::new(0, 2, 29, 0, 0, 0, 0, 0).is_some());
    assert!(LocalStamp::new(2024, 2, 30, 0, 0, 0, 0, 0).is_none());
}

#[test]
fn every_valid_day_is_accepted_and_formatted() {
    for year in [0u32, 1, 1900, 2000, 2023, 2024, 9999] {
        for month in 1..=12u32 {
            let mut days = 0;
            for day in 1..=31u32 {
                if let Some(stamp) = LocalStamp::new(year, month, day, 12, 0, 0, 0, 0) {
                    days += 1;
                    assert_eq!(
                        stamp.report_file_name(),
                        format!("pings_{year:04}-{month:02}-{day:02}_12-00-00.json")
                    );
                }
            }
            let leap = year % 4 == 0 && (year % 100 != 0 || year % 400 == 0);
            let expected = match month {
                2 => {
                    if leap {
                        29
                    } else {
                        28
                    }
                }
                4 | 6 | 9 | 11 => 30,
                _ => 31,
            };
            assert_eq!(days, expected);
        }
    }
}

#[test]
fn fields_out_of_range_are_refused() {
    assert!(LocalStamp::new(10_000, 1, 1, 0, 0, 0, 0, 0).is_none());
    assert!(LocalStamp::new(2022, 0, 1, 0, 0, 0, 0, 0).is_none());
    assert!(LocalStamp::new(2022, 13, 1, 0, 0, 0, 0, 0).is_none());
    assert!(LocalStamp::new(2022, 1, 0, 0, 0, 0, 0, 0).is_none());
    assert!(LocalStamp::new(2022, 1, 32, 0, 0, 0, 0, 0).is_none());
    assert!(LocalStamp::new(2022, 4, 31, 0, 0, 0, 0, 0).is_none());
    assert!(LocalStamp::new(2022, 1, 1, 24, 0, 0, 0, 0).is_none());
    assert!(LocalStamp::new(2022, 1, 1, 0, 60, 0, 0, 0).is_none());
    assert!(LocalStamp::new(2022, 1, 1, 0, 0, 60, 0, 0).is_none());
    assert!(LocalStamp::new(2022, 1, 1, 0, 0, 0, 1_000_000_000, 0).is_none());
    assert!(LocalStamp::new(2022, 1, 1, 23, 59, 59, 999_999_999, 0).is_some());
}
