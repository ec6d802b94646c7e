use shiny_live_history_diagram::date::date_or_error;
use shiny_live_history_diagram::date::CalendarDate;
use shiny_live_history_diagram::parse_date_permissive;

#[test]
fn slashed_and_hyphenated_dates_agree() {
    let slashed = parse_date_permissive("2021/07/04").unwrap();
    let hyphenated = parse_date_permissive("2021-07-04").unwrap();
    assert_eq!(slashed, hyphenated);
    assert_eq!(
        slashed,
        CalendarDate {
            year: 2021,
            month: 7,
            day: 4
        }
    );
}

#[test]
fn other_formats_fail_with_the_text() {
    let err = parse_date_permissive("04.07.2021").unwrap_err();
    assert_eq!(err.text, "04.07.2021");
    let err = parse_date_permissive("July 4, 2021").unwrap_err();
    assert_eq!(err.text, "July 4, 2021");
    let err = parse_date_permissive("").unwrap_err();
    assert_eq!(err.text, "");
    assert!(parse_date_permissive("2021/07-04").is_err());
    assert!(parse_date_permissive("20210704").is_err());
}

#[test]
fn days_that_no_calendar_has_fail() {
    assert!(parse_date_permissive("2021/02/30").is_err());
    assert!(parse_date_permissive("2021-13-01").is_err());
    assert!(parse_date_permissive("2020/02/29").is_ok());
    assert!(parse_date_permissive("2021/02/29").is_err());
}

#[test]
fn parser_knows_nothing_of_the_unknown_date() {
    let err = parse_date_permissive("0000/00/00").unwrap_err();
    assert_eq!(err.text, "0000/00/00");
}

#[test]
fn last_day_of_a_year() {
    assert_eq!(
        parse_date_permissive("1999-12-31").unwrap(),
        CalendarDate {
            year: 1999,
            month: 12,
            day: 31
        }
    );
}

#[test]
fn a_reading_is_settled_as_it_came() {
    let date = CalendarDate {
        year: 2005,
        month: 7,
        day: 26,
    };
    assert_eq!(date_or_error(Ok(date), "whatever").unwrap(), date);
    let failure = chrono::NaiveDate::parse_from_str("x", "%Y").unwrap_err();
    let err = date_or_error(Err(failure), "the text").unwrap_err();
    assert_eq!(err.text, "the text");
}
