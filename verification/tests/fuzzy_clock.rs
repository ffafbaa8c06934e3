use rebar::fuzzydate::{fuzzy_date_of, get_date_part, get_fuzzy_date, get_time_part, hour_to_word, LocalDateTime};

fn at(month: u32, day: u32, weekday: u32, hour: u32, minute: u32) -> LocalDateTime {
    LocalDateTime::new(month, day, weekday, hour, minute).expect("fields in range")
}

fn time(hour: u32, minute: u32) -> String {
    get_time_part(&at(1, 1, 0, hour, minute))
}

#[test]
fn hour_words_on_a_twelve_hour_clock() {
    assert_eq!(hour_to_word(0), "TWELVE");
    assert_eq!(hour_to_word(12), "TWELVE");
    assert_eq!(hour_to_word(1), "ONE");
    assert_eq!(hour_to_word(13), "ONE");
    assert_eq!(hour_to_word(23), "ELEVEN");
    assert_eq!(hour_to_word(24), "UNKNOWN");
}

#[test]
fn every_hour_of_the_day_has_a_word() {
    for h in 0..24 {
        assert_ne!(hour_to_word(h), "UNKNOWN");
        assert_eq!(hour_to_word(h), hour_to_word(h % 12 + if h % 12 == 0 { 12 } else { 0 }));
    }
}

#[test]
fn time_phrases_for_each_five_minutes() {
    assert_eq!(time(14, 0), "TWO O'CLOCK");
    assert_eq!(time(14, 2), "TWO O'CLOCK");
    assert_eq!(time(14, 3), "FIVE past TWO");
    assert_eq!(time(14, 8), "TEN past TWO");
    assert_eq!(time(14, 13), "QUARTER past TWO");
    assert_eq!(time(14, 18), "TWENTY past TWO");
    assert_eq!(time(14, 23), "TWENTY FIVE past TWO");
    assert_eq!(time(14, 28), "HALF past TWO");
    assert_eq!(time(14, 32), "HALF past TWO");
    assert_eq!(time(14, 33), "TWENTY FIVE to THREE");
    assert_eq!(time(14, 38), "TWENTY to THREE");
    assert_eq!(time(14, 43), "QUARTER to THREE");
    assert_eq!(time(14, 48), "TEN to THREE");
    assert_eq!(time(14, 53), "FIVE to THREE");
    assert_eq!(time(14, 57), "FIVE to THREE");
    assert_eq!(time(14, 58), "THREE O'CLOCK");
    assert_eq!(time(14, 59), "THREE O'CLOCK");
}

#[test]
fn the_hour_after_twelve_is_one() {
    assert_eq!(time(12, 45), "QUARTER to ONE");
    assert_eq!(time(0, 59), "ONE O'CLOCK");
    assert_eq!(time(23, 58), "TWELVE O'CLOCK");
    assert_eq!(time(0, 15), "QUARTER past TWELVE");
}

#[test]
fn fuzzy_time_rounds_to_the_nearest_five_minutes() {
    for h in 0..24 {
        for m in 0..58 {
            assert_eq!(time(h, m), time(h, 5 * ((m + 2) / 5)));
        }
        assert_eq!(time(h, 58), time((h + 1) % 24, 0));
        assert_eq!(time(h, 59), time((h + 1) % 24, 0));
    }
}

#[test]
fn fuzzy_time_reads_a_twelve_hour_clock() {
    for h in 0..12 {
        for m in 0..60 {
            assert_eq!(time(h, m), time(h + 12, m));
            assert!(!time(h, m).is_empty());
            assert!(!time(h, m).contains("UNKNOWN"));
            assert!(!time(h + 12, m).contains("UNKNOWN"));
        }
    }
}

#[test]
fn date_part_names_weekday_month_and_day() {
    assert_eq!(get_date_part(&at(1, 5, 0, 9, 0)), "MON JAN 5,");
    assert_eq!(get_date_part(&at(6, 12, 3, 9, 0)), "THU JUNE 12,");
    assert_eq!(get_date_part(&at(7, 4, 4, 9, 0)), "FRI JULY 4,");
    assert_eq!(get_date_part(&at(9, 30, 6, 9, 0)), "SUN SEPT 30,");
    assert_eq!(get_date_part(&at(12, 31, 2, 9, 0)), "WED DEC 31,");
}

#[test]
fn fuzzy_date_joins_date_and_time() {
    assert_eq!(fuzzy_date_of(&at(1, 5, 0, 14, 4)), "MON JAN 5, FIVE past TWO");
    assert_eq!(fuzzy_date_of(&at(11, 20, 5, 23, 58)), "SAT NOV 20, TWELVE O'CLOCK");
}

#[test]
fn out_of_range_fields_are_refused() {
    assert!(LocalDateTime::new(0, 1, 0, 0, 0).is_none());
    assert!(LocalDateTime::new(13, 1, 0, 0, 0).is_none());
    assert!(LocalDateTime::new(1, 0, 0, 0, 0).is_none());
    assert!(LocalDateTime::new(1, 32, 0, 0, 0).is_none());
    assert!(LocalDateTime::new(1, 1, 7, 0, 0).is_none());
    assert!(LocalDateTime::new(1, 1, 0, 24, 0).is_none());
    assert!(LocalDateTime::new(1, 1, 0, 0, 60).is_none());
    let d = LocalDateTime::new(12, 31, 6, 23, 59).unwrap();
    assert_eq!((d.month(), d.day(), d.weekday(), d.hour(), d.minute()), (12, 31, 6, 23, 59));
}

#[test]
fn fuzzy_date_of_now_has_the_expected_shape() {
    let text = get_fuzzy_date();
    let weekdays = ["MON ", "TUE ", "WED ", "THU ", "FRI ", "SAT ", "SUN "];
    assert!(weekdays.iter().any(|w| text.starts_with(w)), "{}", text);
    let (date, time) = text.split_once(", ").expect("a comma after the day");
    let day: u32 = date.rsplit(' ').next().unwrap().parse().unwrap();
    assert!((1..=31).contains(&day));
    assert!(time.ends_with(" O'CLOCK") || time.contains(" past ") || time.contains(" to "), "{}", text);
}
