use regex::Regex;
use tabledit::date::{
    has_date_shape, has_loose_date_shape, normalize_date, parse_date, Date,
};

#[test]
fn date_new_accepts_days_of_the_calendar() {
    assert_eq!(Date::new(4, 3, 2023), Some(Date { day: 4, month: 3, year: 2023 }));
    assert_eq!(Date::new(29, 2, 2024), Some(Date { day: 29, month: 2, year: 2024 }));
    assert_eq!(Date::new(29, 2, 2000), Some(Date { day: 29, month: 2, year: 2000 }));
    assert_eq!(Date::new(31, 12, 0), Some(Date { day: 31, month: 12, year: 0 }));
}

#[test]
fn date_new_refuses_days_that_do_not_exist() {
    assert_eq!(Date::new(29, 2, 2023), None);
    assert_eq!(Date::new(29, 2, 1900), None);
    assert_eq!(Date::new(31, 4, 2023), None);
    assert_eq!(Date::new(0, 1, 2023), None);
    assert_eq!(Date::new(1, 0, 2023), None);
    assert_eq!(Date::new(1, 13, 2023), None);
    assert_eq!(Date::new(32, 1, 2023), None);
    assert_eq!(Date::new(1, 1, 400000), None);
    assert_eq!(Date::new(1, 1, -400000), None);
}

#[test]
fn date_new_knows_the_length_of_every_month() {
    let lengths = [31, 28, 31, 30, 31, 30, 31, 31, 30, 31, 30, 31];
    for (i, len) in lengths.iter().enumerate() {
        let month = i as u32 + 1;
        assert!(Date::new(*len, month, 2023).is_some(), "month {}", month);
        assert!(Date::new(*len + 1, month, 2023).is_none(), "month {}", month);
    }
}

#[test]
fn is_before_orders_dates() {
    let a = Date { day: 4, month: 3, year: 2023 };
    let b = Date { day: 5, month: 3, year: 2023 };
    let c = Date { day: 1, month: 4, year: 2023 };
    let d = Date { day: 1, month: 1, year: 2024 };
    assert!(a.is_before(&b));
    assert!(b.is_before(&c));
    assert!(c.is_before(&d));
    assert!(!b.is_before(&a));
    assert!(!a.is_before(&a));
    assert!(!d.is_before(&c));
}

#[test]
fn has_date_shape_wants_two_two_and_four_digits() {
    assert!(has_date_shape("03/04/2023"));
    assert!(has_date_shape("99/99/0000"));
    assert!(!has_date_shape("3/4/2023"));
    assert!(!has_date_shape("03/04/23"));
    assert!(!has_date_shape("2023-03-04"));
    assert!(!has_date_shape("03-04-2023"));
    assert!(!has_date_shape("03/04/2023 "));
    assert!(!has_date_shape(""));
    assert!(!has_date_shape("ab/cd/efgh"));
}

#[test]
fn parse_date_reads_day_then_month_then_year() {
    assert_eq!(parse_date("03/04/2023"), Some(Date { day: 3, month: 4, year: 2023 }));
    assert_eq!(parse_date("13/01/2023"), Some(Date { day: 13, month: 1, year: 2023 }));
    assert_eq!(parse_date("29/02/2024"), Some(Date { day: 29, month: 2, year: 2024 }));
}

#[test]
fn parse_date_refuses_wrong_shapes_and_wrong_days() {
    assert_eq!(parse_date("3/4/2023"), None);
    assert_eq!(parse_date("2023-03-04"), None);
    assert_eq!(parse_date("01/13/2023"), None);
    assert_eq!(parse_date("31/02/2023"), None);
    assert_eq!(parse_date("00/01/2023"), None);
    assert_eq!(parse_date(""), None);
}

#[test]
fn normalize_date_pads_day_and_month() {
    assert_eq!(normalize_date("3/4/2023"), "03/04/2023");
    assert_eq!(normalize_date("13/4/2023"), "13/04/2023");
    assert_eq!(normalize_date("3/14/2023"), "03/14/2023");
    assert_eq!(normalize_date("03/04/2023"), "03/04/2023");
}

#[test]
fn normalize_date_leaves_other_text_alone() {
    assert_eq!(normalize_date("2023-03-04"), "2023-03-04");
    assert_eq!(normalize_date("123/4/2023"), "123/4/2023");
    assert_eq!(normalize_date("3/4/23"), "3/4/23");
    assert_eq!(normalize_date("3/4/20233"), "3/4/20233");
    assert_eq!(normalize_date("/4/2023"), "/4/2023");
    assert_eq!(normalize_date("a/4/2023"), "a/4/2023");
    assert_eq!(normalize_date(""), "");
    assert_eq!(normalize_date("tomorrow"), "tomorrow");
}

#[test]
fn date_shapes_agree_with_the_patterns() {
    let strict = Regex::new(r"^\d{2}/\d{2}/\d{4}$").unwrap();
    let loose = Regex::new(r"^(\d{1,2})/(\d{1,2})/(\d{4})$").unwrap();
    let samples = [
        "", "1/1/2000", "01/1/2000", "1/01/2000", "01/01/2000", "001/01/2000", "01/001/2000",
        "01/01/200", "01/01/20000", "1//2000", "/1/2000", "1/1/", "a/1/2000", "1/b/2000",
        "1/1/c000", "01-01-2000", "01/01/2000\n", " 01/01/2000", "99/99/9999", "1/1/2000/1",
        "11/11/1111", "1/11/1111", "11/1/1111", "////////", "12345678", "1234567890",
    ];
    for s in samples {
        assert_eq!(has_date_shape(s), strict.is_match(s), "strict, input {:?}", s);
        assert_eq!(has_loose_date_shape(s), loose.is_match(s), "loose, input {:?}", s);
        let expected = match loose.captures(s) {
            Some(caps) => format!(
                "{:0>2}/{:0>2}/{}",
                caps.get(1).unwrap().as_str(),
                caps.get(2).unwrap().as_str(),
                caps.get(3).unwrap().as_str()
            ),
            None => s.to_string(),
        };
        assert_eq!(normalize_date(s), expected, "normalize, input {:?}", s);
    }
}
