//! Date headings for a journal: one heading per day of a range within a
//! month of a fixed year, newest day first, with a recap banner ahead of
//! every Sunday.

pub mod calendar;
pub mod driver;
pub mod formatter;
pub mod month;
pub mod request;
pub mod weekday;
