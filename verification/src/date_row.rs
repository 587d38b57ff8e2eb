//! A calendar-backed date selector row.
//!
//! [`DateRow`] holds a calendar selection (the month zero-based, as the
//! calendar control stores it), a clearable/optional flag, and the
//! subtitle text derived from the selection. Selecting a day or
//! clearing the selection yields the timestamp that a change event
//! carries: the chosen day at local midnight, or the sentinel cleared
//! timestamp.
//!
//! The current day enters as an argument wherever the subtitle is
//! recomputed: whether the selection reads "Today" depends on it, and
//! only the caller can know it.

use vstd::prelude::*;
use crate::datetime::DateTime;
use crate::datetime::date_text;
use crate::datetime::format_date;
use crate::datetime::same_day;
use crate::datetime::spec_cleared;
use crate::datetime::spec_days_in_month;

verus! {

/// The mathematical state of a [`DateRow`].
pub struct DateRowState {
    pub year: int,
    /// Zero-based month, as the calendar control stores it.
    pub month: int,
    pub day: int,
    pub clear_option: bool,
    pub clear_visible: bool,
    pub subtitle: Seq<char>,
}

/// A row wrapping a calendar control: it normalizes the chosen day into
/// a whole-day timestamp and renders it as "Today" or a formatted date.
pub struct DateRow {
    year: i32,
    /// Zero-based month, as the calendar control stores it.
    month: u8,
    day: u8,
    clear_option: bool,
    clear_visible: bool,
    subtitle: String,
}

impl View for DateRow {
    type V = DateRowState;

    closed spec fn view(&self) -> DateRowState {
        DateRowState {
            year: self.year as int,
            month: self.month as int,
            day: self.day as int,
            clear_option: self.clear_option,
            clear_visible: self.clear_visible,
            subtitle: self.subtitle@,
        }
    }
}

/// The subtitle a selection earns: the localizable "Today" caption when
/// the target falls on the current calendar day, its formatted date
/// otherwise. The comparison is by calendar-day identity, never by
/// instant equality.
pub open spec fn subtitle_text(t: DateTime, today: DateTime) -> Seq<char> {
    if same_day(t, today) {
        "Today"@
    } else {
        date_text(t)
    }
}

/// State after `set_datetime(t)`: the calendar holds `t`'s calendar
/// day (month decremented to the zero-based form), the subtitle is
/// recomputed against `today`, and the clear affordance is revealed if
/// the clearable option is on.
pub open spec fn set_datetime_state(s: DateRowState, t: DateTime, today: DateTime) -> DateRowState {
    DateRowState {
        year: t.year as int,
        month: t.month - 1,
        day: t.day as int,
        clear_visible: s.clear_visible || s.clear_option,
        subtitle: subtitle_text(t, today),
        ..s
    }
}

/// The whole-day timestamp the calendar currently denotes: the selected
/// day at local midnight, the stored month incremented back to its
/// one-based form.
pub open spec fn calculated_datetime(s: DateRowState) -> DateTime {
    DateTime {
        year: s.year as i32,
        month: (s.month + 1) as u8,
        day: s.day as u8,
        hour: 0,
        minute: 0,
        second: 0,
    }
}

/// State after the clear affordance is used: the affordance hides, the
/// subtitle blanks; the selection and the clearable option stay.
pub open spec fn cleared_state(s: DateRowState) -> DateRowState {
    DateRowState { clear_visible: false, subtitle: Seq::<char>::empty(), ..s }
}

/// State after the user picks the day `(year, month, day)` on the
/// calendar (month zero-based): the selection moves there, the clear
/// affordance is revealed if the clearable option is on, and the
/// subtitle is recomputed against `today` for the newly denoted
/// whole-day timestamp.
pub open spec fn day_selected_state(
    s: DateRowState,
    year: int,
    month: int,
    day: int,
    today: DateTime,
) -> DateRowState {
    let picked = DateRowState { year: year, month: month, day: day, ..s };
    DateRowState {
        clear_visible: s.clear_visible || s.clear_option,
        subtitle: subtitle_text(calculated_datetime(picked), today),
        ..picked
    }
}

impl DateRow {
    /// The selection denotes a real calendar day, within the range the
    /// calendar control accepts.
    pub open spec fn wf(&self) -> bool {
        &&& 1 <= self@.year <= 9999
        &&& 0 <= self@.month <= 11
        &&& 1 <= self@.day <= spec_days_in_month(self@.year, self@.month + 1)
    }

    /// A fresh selector: the calendar opens on the current day `today`,
    /// no subtitle yet, the clearable option off and the clear
    /// affordance hidden.
    pub fn new(today: &DateTime) -> (r: DateRow)
        requires
            today.wf(),
        ensures
            r.wf(),
            r@.year == today.year,
            r@.month == today.month - 1,
            r@.day == today.day,
            !r@.clear_option,
            !r@.clear_visible,
            r@.subtitle == Seq::<char>::empty(),
    {
        DateRow {
            year: today.year,
            month: today.month - 1,
            day: today.day,
            clear_option: false,
            clear_visible: false,
            subtitle: String::new(),
        }
    }

    /// Whether the clearable option is on.
    pub fn clear_option(&self) -> (r: bool)
        ensures
            r == self@.clear_option,
    {
        self.clear_option
    }

    /// Turns the clearable option on or off. Purely a property write:
    /// an already visible clear affordance is not withdrawn.
    pub fn set_clear_option(&mut self, value: bool)
        ensures
            final(self)@ == (DateRowState { clear_option: value, ..old(self)@ }),
            final(self).wf() == old(self).wf(),
    {
        self.clear_option = value;
    }

    /// Whether the clear affordance is currently shown.
    pub fn clear_visible(&self) -> (r: bool)
        ensures
            r == self@.clear_visible,
    {
        self.clear_visible
    }

    /// The subtitle currently displayed.
    pub fn subtitle(&self) -> (r: &str)
        ensures
            r@ == self@.subtitle,
    {
        self.subtitle.as_str()
    }

    /// Moves the calendar to `datetime`'s calendar day, refreshes the
    /// subtitle against `today`, and reveals the clear affordance if
    /// the clearable option is on. Always succeeds on well-formed
    /// timestamps.
    pub fn set_datetime(&mut self, datetime: &DateTime, today: &DateTime)
        requires
            datetime.wf(),
            today.wf(),
        ensures
            final(self).wf(),
            final(self)@ == set_datetime_state(old(self)@, *datetime, *today),
    {
        self.year = datetime.year;
        self.month = datetime.month - 1;
        self.day = datetime.day;
        self.refresh_row(datetime, today);
        self.show_clear_button();
    }

    /// Reads the calendar selection back as a whole-day timestamp: the
    /// selected day at local midnight. A pure read, deterministic in
    /// the calendar state.
    pub fn calculate_datetime(&self) -> (r: DateTime)
        requires
            self.wf(),
        ensures
            r == calculated_datetime(self@),
            r.wf(),
    {
        DateTime {
            year: self.year,
            month: self.month + 1,
            day: self.day,
            hour: 0,
            minute: 0,
            second: 0,
        }
    }

    /// Recomputes the subtitle for `datetime` against `today`.
    fn refresh_row(&mut self, datetime: &DateTime, today: &DateTime)
        requires
            datetime.wf(),
            today.wf(),
        ensures
            final(self)@ == (DateRowState { subtitle: subtitle_text(*datetime, *today), ..old(
                self,
            )@ }),
            final(self).wf() == old(self).wf(),
    {
        if datetime.is_same_day(today) {
            self.subtitle = String::from_str("Today");
        } else {
            self.subtitle = format_date(datetime);
        }
    }

    /// Reveals the clear affordance, but only if the clearable option
    /// is on.
    fn show_clear_button(&mut self)
        ensures
            final(self)@ == (DateRowState {
                clear_visible: old(self)@.clear_visible || old(self)@.clear_option,
                ..old(self)@
            }),
            final(self).wf() == old(self).wf(),
    {
        if self.clear_option {
            self.clear_visible = true;
        }
    }

    /// The user used the clear affordance: it hides, the subtitle
    /// blanks, and the change event carries the sentinel cleared
    /// timestamp — never a null — so that listeners can tell "no date"
    /// apart from any real selection.
    pub fn handle_clear_clicked(&mut self) -> (event: DateTime)
        ensures
            final(self)@ == cleared_state(old(self)@),
            final(self).wf() == old(self).wf(),
            !final(self)@.clear_visible,
            final(self)@.subtitle == Seq::<char>::empty(),
            event == spec_cleared(),
    {
        self.clear_visible = false;
        self.subtitle = String::new();
        DateTime::cleared()
    }

    /// The user picked the day `(year, month, day)` on the calendar
    /// (month zero-based): the selection moves there, the clear
    /// affordance is revealed per the clearable option, the subtitle is
    /// recomputed, and the change event carries the freshly calculated
    /// whole-day timestamp.
    pub fn handle_day_selected(&mut self, year: i32, month: u8, day: u8, today: &DateTime) -> (event:
        DateTime)
        requires
            1 <= year <= 9999,
            month <= 11,
            1 <= day <= spec_days_in_month(year as int, month + 1),
            today.wf(),
        ensures
            final(self).wf(),
            final(self)@ == day_selected_state(old(self)@, year as int, month as int, day as int, *today),
            event == calculated_datetime(final(self)@),
            event.wf(),
    {
        self.year = year;
        self.month = month;
        self.day = day;
        self.show_clear_button();
        let datetime = self.calculate_datetime();
        self.refresh_row(&datetime, today);
        datetime
    }
}

/// For any timestamp on the current calendar day, setting it yields the
/// "Today" subtitle, whatever its time-of-day.
pub proof fn lemma_set_datetime_today(s: DateRowState, t: DateTime, today: DateTime)
    requires
        same_day(t, today),
    ensures
        set_datetime_state(s, t, today).subtitle == "Today"@,
{
}

/// For any timestamp off the current calendar day, setting it yields
/// the formatted "Month Day, Year" subtitle.
pub proof fn lemma_set_datetime_other_day(s: DateRowState, t: DateTime, today: DateTime)
    requires
        !same_day(t, today),
    ensures
        set_datetime_state(s, t, today).subtitle == date_text(t),
{
}

/// Reading the calendar back after setting a timestamp yields the same
/// calendar day at time-of-day 00:00:00, for every well-formed
/// timestamp.
pub proof fn lemma_calculate_after_set(s: DateRowState, t: DateTime, today: DateTime)
    requires
        t.wf(),
    ensures
        same_day(calculated_datetime(set_datetime_state(s, t, today)), t),
        calculated_datetime(set_datetime_state(s, t, today)).hour == 0,
        calculated_datetime(set_datetime_state(s, t, today)).minute == 0,
        calculated_datetime(set_datetime_state(s, t, today)).second == 0,
{
}

/// While the clearable option is off, no transition ever shows the
/// clear affordance, whatever the selection history: setting a date,
/// picking a day and clearing all keep it hidden, and none of them
/// touches the option itself.
pub proof fn lemma_clear_option_off_never_shown(
    s: DateRowState,
    t: DateTime,
    today: DateTime,
    year: int,
    month: int,
    day: int,
)
    requires
        !s.clear_option,
        !s.clear_visible,
    ensures
        !set_datetime_state(s, t, today).clear_visible,
        !set_datetime_state(s, t, today).clear_option,
        !day_selected_state(s, year, month, day, today).clear_visible,
        !day_selected_state(s, year, month, day, today).clear_option,
        !cleared_state(s).clear_visible,
        !cleared_state(s).clear_option,
{
}

} // verus!
