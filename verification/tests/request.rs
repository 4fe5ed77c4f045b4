use date_generator::month::Month;
use date_generator::request::{Request, UsageError, YEAR};

#[test]
fn the_year_is_2020() {
    assert_eq!(YEAR, 2020);
}

#[test]
fn request_keeps_what_it_was_made_of() {
    let request = Request::new(Month::March, 3, 4).unwrap();
    assert_eq!(request.month(), Month::March);
    assert_eq!(request.start(), 3);
    assert_eq!(request.end(), 4);
}

#[test]
fn request_for_one_day() {
    assert!(Request::new(Month::January, 5, 5).is_ok());
    assert!(Request::new(Month::December, 31, 31).is_ok());
}

#[test]
fn request_for_a_whole_month() {
    assert!(Request::new(Month::January, 1, 31).is_ok());
    assert!(Request::new(Month::February, 1, 29).is_ok());
    assert!(Request::new(Month::April, 1, 30).is_ok());
}

#[test]
fn february_has_no_thirtieth() {
    assert_eq!(Request::new(Month::February, 28, 30), Err(UsageError::DayOutOfRange));
}

#[test]
fn start_after_end_is_refused() {
    assert_eq!(Request::new(Month::March, 5, 3), Err(UsageError::StartAfterEnd));
}

#[test]
fn day_zero_is_refused() {
    assert_eq!(Request::new(Month::March, 0, 3), Err(UsageError::DayOutOfRange));
    assert_eq!(Request::new(Month::March, 0, 0), Err(UsageError::DayOutOfRange));
}

#[test]
fn day_past_the_month_is_refused() {
    assert_eq!(Request::new(Month::April, 1, 31), Err(UsageError::DayOutOfRange));
    assert_eq!(Request::new(Month::January, 1, 32), Err(UsageError::DayOutOfRange));
    assert_eq!(Request::new(Month::January, 32, 32), Err(UsageError::DayOutOfRange));
    assert_eq!(Request::new(Month::June, 1, u32::MAX), Err(UsageError::DayOutOfRange));
}

#[test]
fn order_of_the_days_is_looked_at_first() {
    assert_eq!(Request::new(Month::February, 40, 35), Err(UsageError::StartAfterEnd));
    assert_eq!(Request::new(Month::February, 1, 0), Err(UsageError::StartAfterEnd));
}
