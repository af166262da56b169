//! The shared calendar: who can come on which day. The server sends, for
//! each day of a month, what every member has entered; this module turns
//! that into what a day of the calendar page shows.

use crate::date::{is_calendar_date, Date};
use crate::text::{decimal, decimal_text};
use vstd::prelude::*;
use vstd::string::StringExecFns;

verus! {

/// What one member has entered for one day.
#[derive(Clone, Debug, PartialEq, Eq)]
pub struct Availability {
    pub username: String,
    /// When on that day; empty where the member gave no time.
    pub time: String,
    pub available: bool,
    /// Whether the member belongs to the main group.
    pub is_main_group: bool,
}

/// One day of the calendar as the server sends it.
#[derive(Clone, Debug, PartialEq, Eq)]
pub struct CalendarDay {
    pub date: Date,
    pub events: Vec<Availability>,
}

/// One day of the calendar as the page shows it.
#[derive(Clone, Debug, PartialEq, Eq)]
pub struct Day {
    /// Who can come, separated by commas.
    pub available: String,
    /// Who cannot come, separated by commas.
    pub unavailable: String,
    pub date: Date,
    /// The time the reader has entered.
    pub time: String,
    /// Whether the reader can come.
    pub me_available: bool,
    /// Whether nobody of the main group has said no.
    pub full_group: bool,
}

/// A month of a year, as the calendar page is asked for.
#[derive(Clone, Copy, Debug, PartialEq, Eq, Structural)]
pub struct CalendarQuery {
    pub year: i32,
    pub month: u32,
}

/// How a member who can come is listed: by name, with the time in
/// parentheses where one was given.
pub open spec fn entry_text(entry: Availability) -> Seq<char> {
    if entry.time@.len() == 0 {
        entry.username@
    } else {
        entry.username@ + " ("@ + entry.time@ + ")"@
    }
}

/// The list entries of those who can come, in the order of `entries`.
pub open spec fn available_texts(entries: Seq<Availability>) -> Seq<Seq<char>>
    decreases entries.len(),
{
    if entries.len() == 0 {
        Seq::empty()
    } else {
        let earlier = available_texts(entries.drop_last());
        if entries.last().available {
            earlier.push(entry_text(entries.last()))
        } else {
            earlier
        }
    }
}

/// The names of those who cannot come, in the order of `entries`.
pub open spec fn unavailable_texts(entries: Seq<Availability>) -> Seq<Seq<char>>
    decreases entries.len(),
{
    if entries.len() == 0 {
        Seq::empty()
    } else {
        let earlier = unavailable_texts(entries.drop_last());
        if !entries.last().available {
            earlier.push(entries.last().username@)
        } else {
            earlier
        }
    }
}

/// The parts written one after the other with a comma and a blank between
/// each two of them.
pub open spec fn comma_separated(parts: Seq<Seq<char>>) -> Seq<char>
    decreases parts.len(),
{
    if parts.len() == 0 {
        Seq::empty()
    } else if parts.len() == 1 {
        parts[0]
    } else {
        comma_separated(parts.drop_last()) + ", "@ + parts.last()
    }
}

/// The first entry of the member called `username`, if there is one.
pub open spec fn entry_of(entries: Seq<Availability>, username: Seq<char>) -> Option<Availability>
    decreases entries.len(),
{
    if entries.len() == 0 {
        None
    } else {
        let earlier = entry_of(entries.drop_last(), username);
        if earlier is Some {
            earlier
        } else if entries.last().username@ == username {
            Some(entries.last())
        } else {
            None
        }
    }
}

/// Whether every member of the main group who has an entry can come.
pub open spec fn main_group_complete(entries: Seq<Availability>) -> bool {
    forall|i: int|
        0 <= i < entries.len() && (#[trigger] entries[i]).is_main_group ==> entries[i].available
}

impl Day {
    /// Whether this is what the page shows of `day` to the member called
    /// `username`. A member without an entry is shown as not available and
    /// without a time.
    pub open spec fn shows(self, day: CalendarDay, username: Seq<char>) -> bool {
        &&& self.date == day.date
        &&& self.available@ == comma_separated(available_texts(day.events@))
        &&& self.unavailable@ == comma_separated(unavailable_texts(day.events@))
        &&& self.full_group == main_group_complete(day.events@)
        &&& match entry_of(day.events@, username) {
            Some(own) => self.me_available == own.available && self.time@ == own.time@,
            None => !self.me_available && self.time@.len() == 0,
        }
    }
}

/// Adds one more part to a comma separated text.
fn append_part(text: &mut String, part: &str, Ghost(parts): Ghost<Seq<Seq<char>>>, first: bool)
    requires
        old(text)@ == comma_separated(parts),
        first == (parts.len() == 0),
    ensures
        final(text)@ == comma_separated(parts.push(part@)),
{
    proof {
        assert(parts.push(part@).drop_last() =~= parts);
        if first {
            assert(old(text)@ + part@ =~= part@);
        }
    }
    if !first {
        text.append(", ");
    }
    text.append(part);
}

/// What the page shows of `day` to the member called `username`.
pub fn summarize_day(day: &CalendarDay, username: &String) -> (shown: Day)
    ensures
        shown.shows(*day, username@),
{
    let entries = &day.events;
    let mut available = String::new();
    let mut unavailable = String::new();
    let mut none_available = true;
    let mut none_unavailable = true;
    let mut found = false;
    let mut me_available = false;
    let mut time = String::new();
    let mut full_group = true;
    let mut index: usize = 0;
    while index < entries.len()
        invariant
            index <= entries.len(),
            entries@ == day.events@,
            available@ == comma_separated(available_texts(entries@.subrange(0, index as int))),
            unavailable@ == comma_separated(
                unavailable_texts(entries@.subrange(0, index as int)),
            ),
            none_available == (available_texts(entries@.subrange(0, index as int)).len() == 0),
            none_unavailable == (unavailable_texts(entries@.subrange(0, index as int)).len()
                == 0),
            found == (entry_of(entries@.subrange(0, index as int), username@) is Some),
            match entry_of(entries@.subrange(0, index as int), username@) {
                Some(own) => me_available == own.available && time@ == own.time@,
                None => !me_available && time@.len() == 0,
            },
            full_group == main_group_complete(entries@.subrange(0, index as int)),
        decreases entries.len() - index,
    {
        let entry = &entries[index];
        let ghost seen = entries@.subrange(0, index as int);
        let ghost next = entries@.subrange(0, index + 1);
        proof {
            assert(next.drop_last() =~= seen);
            assert(next.last() == *entry);
            assert(main_group_complete(next) == (main_group_complete(seen) && (entry.is_main_group
                ==> entry.available))) by {
                if main_group_complete(seen) && (entry.is_main_group ==> entry.available) {
                    assert forall|i: int|
                        0 <= i < next.len() && (#[trigger] next[i]).is_main_group implies next[i].available by {
                        if i < index {
                            assert(seen[i] == next[i]);
                        }
                    }
                }
                if main_group_complete(next) {
                    assert(next[index as int] == *entry);
                    assert forall|i: int|
                        0 <= i < seen.len() && (#[trigger] seen[i]).is_main_group implies seen[i].available by {
                        assert(seen[i] == next[i]);
                    }
                }
            }
        }
        if entry.available {
            if entry.time.as_str().is_empty() {
                append_part(
                    &mut available,
                    entry.username.as_str(),
                    Ghost(available_texts(seen)),
                    none_available,
                );
            } else {
                let listed = String::from_str(entry.username.as_str()).concat(" (").concat(
                    entry.time.as_str(),
                ).concat(")");
                append_part(
                    &mut available,
                    listed.as_str(),
                    Ghost(available_texts(seen)),
                    none_available,
                );
            }
            none_available = false;
        } else {
            append_part(
                &mut unavailable,
                entry.username.as_str(),
                Ghost(unavailable_texts(seen)),
                none_unavailable,
            );
            none_unavailable = false;
        }
        if !found && entry.username == *username {
            found = true;
            me_available = entry.available;
            time = entry.time.clone();
        }
        if entry.is_main_group && !entry.available {
            full_group = false;
        }
        index = index + 1;
    }
    proof {
        assert(entries@.subrange(0, index as int) =~= entries@);
    }
    Day { available, unavailable, date: day.date, time, me_available, full_group }
}

/// What the page shows of each of `days` to the member called `username`.
pub fn summarize_days(days: &Vec<CalendarDay>, username: &String) -> (shown: Vec<Day>)
    ensures
        shown@.len() == days@.len(),
        forall|i: int| 0 <= i < days@.len() ==> (#[trigger] shown@[i]).shows(days@[i], username@),
{
    let mut shown: Vec<Day> = Vec::new();
    let mut index: usize = 0;
    while index < days.len()
        invariant
            index <= days.len(),
            shown@.len() == index,
            forall|i: int| 0 <= i < index ==> (#[trigger] shown@[i]).shows(days@[i], username@),
        decreases days.len() - index,
    {
        shown.push(summarize_day(&days[index], username));
        index = index + 1;
    }
    shown
}

/// The German name of a month.
pub open spec fn german_month(month: int) -> Seq<char> {
    if month == 1 {
        "Januar"@
    } else if month == 2 {
        "Februar"@
    } else if month == 3 {
        "März"@
    } else if month == 4 {
        "April"@
    } else if month == 5 {
        "Mai"@
    } else if month == 6 {
        "Juni"@
    } else if month == 7 {
        "Juli"@
    } else if month == 8 {
        "August"@
    } else if month == 9 {
        "September"@
    } else if month == 10 {
        "Oktober"@
    } else if month == 11 {
        "November"@
    } else {
        "Dezember"@
    }
}

/// The German name of the month with this number, January being 1.
pub fn month_to_german(month: u32) -> (name: String)
    requires
        1 <= month <= 12,
    ensures
        name@ == german_month(month as int),
{
    if month == 1 {
        "Januar"
    } else if month == 2 {
        "Februar"
    } else if month == 3 {
        "März"
    } else if month == 4 {
        "April"
    } else if month == 5 {
        "Mai"
    } else if month == 6 {
        "Juni"
    } else if month == 7 {
        "Juli"
    } else if month == 8 {
        "August"
    } else if month == 9 {
        "September"
    } else if month == 10 {
        "Oktober"
    } else if month == 11 {
        "November"
    } else {
        "Dezember"
    }.to_owned()
}

/// A day written as in German: the day, a full stop, the month's name and
/// the year.
pub open spec fn german_date(date: Date) -> Seq<char> {
    decimal_text(date.spec_day() as int) + ". "@ + german_month(date.spec_month() as int) + " "@
        + decimal_text(date.spec_year() as int)
}

fn write_german_date(text: String, date: &Date) -> (written: String)
    ensures
        written@ == text@ + german_date(*date),
{
    let day = decimal(date.day() as i64);
    let month = month_to_german(date.month());
    let year = decimal(date.year() as i64);
    let written = text.concat(day.as_str()).concat(". ").concat(month.as_str()).concat(" ").concat(
        year.as_str(),
    );
    proof {
        assert(written@ =~= text@ + german_date(*date));
    }
    written
}

/// The title of the form in which a member plans a day.
pub fn planning_title(date: &Date) -> (title: String)
    ensures
        title@ == "Planung für "@ + german_date(*date),
{
    write_german_date(String::from_str("Planung für "), date)
}

/// The label of the switch by which a member says that they can come.
pub fn availability_label(date: &Date) -> (label: String)
    ensures
        label@ == "Ich kann am "@ + german_date(*date),
{
    write_german_date(String::from_str("Ich kann am "), date)
}

/// The style classes of a day: every day is a `day`, a day before today is
/// in the past, and a day on which the main group is complete is marked.
pub open spec fn day_class_names(today: Date, date: Date, full_group: bool) -> Seq<Seq<char>> {
    seq!["day"@] + (if today.is_later_than(date) {
        seq!["day-in-past"@]
    } else {
        Seq::empty()
    }) + (if full_group {
        seq!["fullgroup-day"@]
    } else {
        Seq::empty()
    })
}

pub fn day_classes(today: &Date, date: &Date, full_group: bool) -> (classes: Vec<&'static str>)
    ensures
        classes@.map_values(|class: &str| class@) == day_class_names(*today, *date, full_group),
{
    let mut classes: Vec<&'static str> = Vec::new();
    classes.push("day");
    if today.after(date) {
        classes.push("day-in-past");
    }
    if full_group {
        classes.push("fullgroup-day");
    }
    proof {
        assert(classes@.map_values(|class: &str| class@) =~= day_class_names(
            *today,
            *date,
            full_group,
        ));
    }
    classes
}

/// Whether the entries of a day are shown unfolded: those of today and of
/// days to come, and those of days of another month than today's.
pub fn day_is_open(today: &Date, date: &Date) -> (open: bool)
    ensures
        open == (!today.is_later_than(*date) || date.spec_month() != today.spec_month()),
{
    !today.after(date) || date.month() != today.month()
}

impl CalendarQuery {
    /// Whether the calendar has a month `month` of a year `year`.
    pub open spec fn known_month(year: int, month: int) -> bool {
        &&& i32::MIN <= year <= i32::MAX
        &&& 1 <= month <= 12
        &&& is_calendar_date(year as i32, month as u32, 1)
    }

    /// The month before this one, as year and month.
    pub open spec fn month_before(self) -> (int, int) {
        if self.month == 1 {
            (self.year - 1, 12)
        } else {
            (self.year as int, self.month - 1)
        }
    }

    /// The month after this one, as year and month.
    pub open spec fn month_after(self) -> (int, int) {
        if self.month == 12 {
            (self.year + 1, 1)
        } else {
            (self.year as int, self.month + 1)
        }
    }

    /// The month before this one, if this is a month of a year and the
    /// calendar has the month before.
    pub open spec fn before(self) -> Option<CalendarQuery> {
        if 1 <= self.month <= 12 && Self::known_month(
            self.month_before().0,
            self.month_before().1,
        ) {
            Some(
                CalendarQuery {
                    year: self.month_before().0 as i32,
                    month: self.month_before().1 as u32,
                },
            )
        } else {
            None
        }
    }

    /// The month after this one, if this is a month of a year and the
    /// calendar has the month after.
    pub open spec fn following(self) -> Option<CalendarQuery> {
        if 1 <= self.month <= 12 && Self::known_month(
            self.month_after().0,
            self.month_after().1,
        ) {
            Some(
                CalendarQuery {
                    year: self.month_after().0 as i32,
                    month: self.month_after().1 as u32,
                },
            )
        } else {
            None
        }
    }

    /// The month of a day. The calendar has that month, so its first day
    /// is found.
    pub fn from(date: Date) -> (query: Self)
        ensures
            query == (CalendarQuery { year: date.spec_year(), month: date.spec_month() }),
            CalendarQuery::known_month(query.year as int, query.month as int),
            is_calendar_date(query.year, query.month, 1),
    {
        CalendarQuery { year: date.year(), month: date.month() }
    }

    /// The first day of the month, if the calendar has that month.
    pub fn first_day(&self) -> (day: Option<Date>)
        ensures
            day is Some <==> is_calendar_date(self.year, self.month, 1),
            day matches Some(date) ==> date.spec_year() == self.year && date.spec_month()
                == self.month && date.spec_day() == 1,
    {
        Date::from_ymd_opt(self.year, self.month, 1)
    }

    fn checked(year: i64, month: i64) -> (query: Option<Self>)
        requires
            i32::MIN - 1 <= year <= i32::MAX + 1,
            0 <= month <= 13,
        ensures
            query == if Self::known_month(year as int, month as int) {
                Some(CalendarQuery { year: year as i32, month: month as u32 })
            } else {
                None
            },
    {
        if year < i32::MIN as i64 || year > i32::MAX as i64 || month < 1 || month > 12 {
            return None;
        }
        let query = CalendarQuery { year: year as i32, month: month as u32 };
        if query.first_day().is_some() {
            Some(query)
        } else {
            None
        }
    }

    /// The month before this one, if this is a month of a year and the
    /// calendar has the month before.
    pub fn previous(&self) -> (query: Option<Self>)
        ensures
            query == self.before(),
    {
        if self.month < 1 || self.month > 12 {
            None
        } else if self.month == 1 {
            Self::checked(self.year as i64 - 1, 12)
        } else {
            Self::checked(self.year as i64, self.month as i64 - 1)
        }
    }

    /// The month after this one, if this is a month of a year and the
    /// calendar has the month after.
    pub fn next(&self) -> (query: Option<Self>)
        ensures
            query == self.following(),
    {
        if self.month < 1 || self.month > 12 {
            None
        } else if self.month == 12 {
            Self::checked(self.year as i64 + 1, 1)
        } else {
            Self::checked(self.year as i64, self.month as i64 + 1)
        }
    }
}

/// Going on to the next month and back again leads to the month one
/// started from.
pub proof fn lemma_next_month_leads_back(query: CalendarQuery)
    requires
        CalendarQuery::known_month(query.year as int, query.month as int),
    ensures
        query.following() matches Some(next) ==> next.before() == Some(query),
{
}

/// Going back to the month before and on again leads to the month one
/// started from.
pub proof fn lemma_previous_month_leads_back(query: CalendarQuery)
    requires
        CalendarQuery::known_month(query.year as int, query.month as int),
    ensures
        query.before() matches Some(previous) ==> previous.following() == Some(query),
{
}

/// What the form in which a member plans a day does once saving has ended.
#[derive(Clone, Copy, Debug, PartialEq, Eq, Structural)]
pub struct DaySaved {
    /// Whether the calendar is loaded anew.
    pub refresh: bool,
    /// Whether the form is closed.
    pub close: bool,
    /// Whether the form says that saving failed.
    pub error: bool,
}

/// After the day is saved the calendar is loaded anew and the form closes;
/// after a failure the form stays open and says so.
pub fn day_saved<T, E>(saved: &Result<T, E>) -> (done: DaySaved)
    ensures
        done == if saved is Ok {
            (DaySaved { refresh: true, close: true, error: false })
        } else {
            (DaySaved { refresh: false, close: false, error: true })
        },
{
    match saved {
        Ok(_) => DaySaved { refresh: true, close: true, error: false },
        Err(_) => DaySaved { refresh: false, close: false, error: true },
    }
}

} // verus!
