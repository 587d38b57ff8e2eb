//! Row and date-selection logic for a personal task planner.
//!
//! Two components make up the library: [`date_row::DateRow`], which
//! normalizes a calendar selection into a canonical whole-day timestamp
//! and renders it as "Today" or a formatted date, and
//! [`reminder_row::ReminderRow`], which keeps a list row consistent with
//! a persisted reminder record after a modal editor closes.

pub mod date_row;
pub mod datetime;
pub mod reminder_row;

pub use date_row::DateRow;
pub use datetime::DateTime;
pub use reminder_row::Reminder;
pub use reminder_row::ReminderRow;
