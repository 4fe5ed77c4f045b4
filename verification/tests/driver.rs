use date_generator::calendar::{make_date, CalendarError};
use date_generator::driver::{date_lines, recap_line};
use date_generator::month::Month;
use date_generator::request::Request;

const LENGTHS_2020: [u32; 12] = [31, 29, 31, 30, 31, 30, 31, 31, 30, 31, 30, 31];

fn lines(month: Month, start: u32, end: u32) -> Vec<String> {
    date_lines(&Request::new(month, start, end).unwrap())
}

fn printed(month: Month, start: u32, end: u32) -> String {
    let mut out = String::new();
    for line in lines(month, start, end) {
        out.push_str(&line);
        out.push('\n');
    }
    out
}

fn is_recap(line: &str) -> bool {
    line.starts_with("******************** Recap: ")
}

fn day_of_heading(line: &str) -> u32 {
    let words: Vec<&str> = line.split(' ').collect();
    assert_eq!(words.len(), 5);
    assert_eq!(words[0], "**");
    assert_eq!(words[4], "**\n\n");
    words[3].parse().unwrap()
}

#[test]
fn two_weekdays_of_march() {
    assert_eq!(printed(Month::March, 3, 4), "** Wed Mar 4 **\n\n\n** Tue Mar 3 **\n\n\n");
}

#[test]
fn first_days_of_march_with_two_sundays() {
    assert_eq!(
        lines(Month::March, 1, 8),
        vec![
            "******************** Recap: Mar 1 - Mar 8 **************************\n\n",
            "** Sun Mar 8 **\n\n",
            "** Sat Mar 7 **\n\n",
            "** Fri Mar 6 **\n\n",
            "** Thu Mar 5 **\n\n",
            "** Wed Mar 4 **\n\n",
            "** Tue Mar 3 **\n\n",
            "** Mon Mar 2 **\n\n",
            "******************** Recap: Feb 23 - Mar 1 **************************\n\n",
            "** Sun Mar 1 **\n\n",
        ]
    );
}

#[test]
fn first_sunday_of_january() {
    assert_eq!(
        lines(Month::January, 5, 5),
        vec![
            "******************** Recap: Dec 29 - Jan 5 **************************\n\n",
            "** Sun Jan 5 **\n\n",
        ]
    );
}

#[test]
fn last_days_of_february() {
    assert_eq!(lines(Month::February, 28, 29), vec!["** Sat Feb 29 **\n\n", "** Fri Feb 28 **\n\n"]);
}

#[test]
fn one_heading_for_each_day_and_one_recap_for_each_sunday() {
    let sundays = [4, 4, 5, 4, 5, 4, 4, 5, 4, 4, 5, 4];
    for ordinal in 1..=12u32 {
        let length = LENGTHS_2020[ordinal as usize - 1];
        let all = lines(Month::from_num(ordinal), 1, length);
        let recaps = all.iter().filter(|line| is_recap(line)).count();
        assert_eq!(recaps, sundays[ordinal as usize - 1]);
        assert_eq!(all.len() - recaps, length as usize);
    }
    let some = lines(Month::March, 9, 21);
    assert_eq!(some.iter().filter(|line| is_recap(line)).count(), 1);
    assert_eq!(some.iter().filter(|line| !is_recap(line)).count(), 13);
}

#[test]
fn recaps_stand_right_before_sunday_headings() {
    for ordinal in 1..=12u32 {
        let all = lines(Month::from_num(ordinal), 1, LENGTHS_2020[ordinal as usize - 1]);
        for (at, line) in all.iter().enumerate() {
            if is_recap(line) {
                assert!(all[at + 1].starts_with("** Sun "));
            }
            if line.starts_with("** Sun ") {
                assert!(at >= 1 && is_recap(&all[at - 1]));
            }
        }
        assert!(!is_recap(all.last().unwrap()));
    }
}

#[test]
fn recap_names_the_sunday_that_follows_it() {
    let all = lines(Month::November, 1, 30);
    assert_eq!(
        all[all.len() - 2],
        "******************** Recap: Oct 25 - Nov 1 **************************\n\n"
    );
    assert_eq!(all[all.len() - 1], "** Sun Nov 1 **\n\n");
    assert_eq!(all[0], "** Mon Nov 30 **\n\n");
    assert_eq!(all[1], "******************** Recap: Nov 22 - Nov 29 **************************\n\n");
    assert_eq!(all[2], "** Sun Nov 29 **\n\n");
}

#[test]
fn headings_run_from_the_last_day_to_the_first() {
    for ordinal in 1..=12u32 {
        let length = LENGTHS_2020[ordinal as usize - 1];
        let all = lines(Month::from_num(ordinal), 1, length);
        let days: Vec<u32> =
            all.iter().filter(|line| !is_recap(line)).map(|line| day_of_heading(line)).collect();
        let expected: Vec<u32> = (1..=length).rev().collect();
        assert_eq!(days, expected);
    }
}

#[test]
fn every_line_ends_in_two_line_ends() {
    for line in lines(Month::May, 1, 31) {
        assert!(line.ends_with("\n\n"));
        assert_eq!(line.matches('\n').count(), 2);
    }
}

#[test]
fn recap_line_of_a_sunday() {
    let sunday = make_date(2020, 3, 1).unwrap();
    assert_eq!(
        recap_line(sunday),
        Ok(String::from("******************** Recap: Feb 23 - Mar 1 **************************\n\n"))
    );
}

#[test]
fn recap_line_spans_seven_days() {
    let day = make_date(2020, 3, 12).unwrap();
    assert_eq!(
        recap_line(day),
        Ok(String::from("******************** Recap: Mar 5 - Mar 12 **************************\n\n"))
    );
}

#[test]
fn recap_line_before_the_calendar_begins() {
    assert_eq!(recap_line(make_date(1, 1, 3).unwrap()), Err(CalendarError::UnderflowDate));
}
