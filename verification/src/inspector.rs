//! The decisions of the inspector view that do not draw anything: which
//! layout to use, what a key does, and small conversions for its tables and
//! charts.

use vstd::prelude::*;
use crate::text::{owned, same_text};

verus! {

/// The height of the terminal, in rows, below which the automatic layout is
/// the compact one.
pub const COMPACT_BELOW_ROWS: u16 = 14;

/// The layout that the settings ask for.
#[derive(Clone, Copy, Debug, PartialEq, Eq, Structural)]
pub enum LayoutStyle {
    /// Compact on a low terminal, full otherwise.
    Auto,
    Compact,
    Full,
}

/// A key as the inspector tells keys apart.
#[derive(Clone, Copy, Debug, PartialEq, Eq, Structural)]
pub enum Key {
    Char(char),
    Up,
    Down,
    Other,
}

/// What the caller is to do after a key.
#[derive(Clone, Copy, Debug, PartialEq, Eq, Structural)]
pub enum InputAction {
    Continue,
    Redraw,
    Delete(usize),
}

/// Where a key moves the inspected entry.
#[derive(Clone, Copy, Debug, PartialEq, Eq, Structural)]
pub enum Movement {
    Stay,
    Previous,
    Next,
}

/// A count as a bar of a chart shows it: nothing below zero.
pub open spec fn spec_u64_or_zero(num: i64) -> u64 {
    if num < 0 {
        0
    } else {
        num as u64
    }
}

/// A count as a bar of a chart shows it: nothing below zero.
pub fn u64_or_zero(num: i64) -> (count: u64)
    ensures
        count == spec_u64_or_zero(num),
        count == 0 || count == num,
{
    if num < 0 {
        0
    } else {
        num as u64
    }
}

/// The name of the day with a given number, Sunday being day 0.
pub open spec fn day_name(num: Seq<char>) -> Seq<char> {
    if num == "0"@ {
        "Sunday"@
    } else if num == "1"@ {
        "Monday"@
    } else if num == "2"@ {
        "Tuesday"@
    } else if num == "3"@ {
        "Wednesday"@
    } else if num == "4"@ {
        "Thursday"@
    } else if num == "5"@ {
        "Friday"@
    } else if num == "6"@ {
        "Saturday"@
    } else {
        "Invalid day"@
    }
}

/// The name of the day with a given number, Sunday being day 0.
pub fn num_to_day(num: &str) -> (day: String)
    ensures
        day@ == day_name(num@),
{
    if same_text(num, "0") {
        owned("Sunday")
    } else if same_text(num, "1") {
        owned("Monday")
    } else if same_text(num, "2") {
        owned("Tuesday")
    } else if same_text(num, "3") {
        owned("Wednesday")
    } else if same_text(num, "4") {
        owned("Thursday")
    } else if same_text(num, "5") {
        owned("Friday")
    } else if same_text(num, "6") {
        owned("Saturday")
    } else {
        owned("Invalid day")
    }
}

/// Whether the inspector draws its compact layout.
pub open spec fn spec_is_compact(style: LayoutStyle, height: u16) -> bool {
    match style {
        LayoutStyle::Auto => height < COMPACT_BELOW_ROWS,
        LayoutStyle::Compact => true,
        LayoutStyle::Full => false,
    }
}

/// Whether the inspector draws its compact layout on a terminal of `height`
/// rows.
pub fn is_compact(style: LayoutStyle, height: u16) -> (compact: bool)
    ensures
        compact == spec_is_compact(style, height),
{
    match style {
        LayoutStyle::Auto => height < COMPACT_BELOW_ROWS,
        LayoutStyle::Compact => true,
        LayoutStyle::Full => false,
    }
}

/// What a key does in the inspector.
pub open spec fn spec_input(selected: usize, key: Key, ctrl: bool) -> (InputAction, Movement) {
    match key {
        Key::Char(c) => if c == 'd' && ctrl {
            (InputAction::Delete(selected), Movement::Stay)
        } else {
            (InputAction::Continue, Movement::Stay)
        },
        Key::Up => (InputAction::Redraw, Movement::Previous),
        Key::Down => (InputAction::Redraw, Movement::Next),
        Key::Other => (InputAction::Continue, Movement::Stay),
    }
}

/// What a key does in the inspector: Ctrl-D asks to delete the selected
/// entry, the arrows move to the entry before or after and ask to redraw, any
/// other key changes nothing.
pub fn input(selected: usize, key: Key, ctrl: bool) -> (outcome: (InputAction, Movement))
    ensures
        outcome == spec_input(selected, key, ctrl),
{
    match key {
        Key::Char(c) => {
            if c == 'd' && ctrl {
                (InputAction::Delete(selected), Movement::Stay)
            } else {
                (InputAction::Continue, Movement::Stay)
            }
        },
        Key::Up => (InputAction::Redraw, Movement::Previous),
        Key::Down => (InputAction::Redraw, Movement::Next),
        Key::Other => (InputAction::Continue, Movement::Stay),
    }
}

/// The size of a number of seconds, whatever its sign.
pub open spec fn magnitude(seconds: i64) -> int {
    if seconds < 0 {
        -(seconds as int)
    } else {
        seconds as int
    }
}

/// The minutes and seconds of a time difference as they are shown after its
/// hours: both without sign and below 60.
pub fn minutes_and_seconds(seconds: i64) -> (parts: (i64, i64))
    ensures
        parts.0 == (magnitude(seconds) / 60) % 60,
        parts.1 == magnitude(seconds) % 60,
        0 <= parts.0 < 60,
        0 <= parts.1 < 60,
{
    let size: u64 = if seconds < 0 {
        ((-(seconds + 1)) as u64) + 1
    } else {
        seconds as u64
    };
    (((size / 60) % 60) as i64, (size % 60) as i64)
}

/// What `time::Date::parse` reads from a text under the description
/// `[day]-[month]-[year]`: the year, the month from 1 and the day of the date,
/// or `None` where the text is no such date.
pub uninterp spec fn parsed_date(text: Seq<char>) -> Option<(i32, u8, u8)>;

/// What `time::Date::format` writes for a date under the description
/// `[month]/[year repr:last_two]`, or `None` where the three numbers are no
/// date or the date cannot be written.
pub uninterp spec fn month_label(year: i32, month: u8, day: u8) -> Option<Seq<char>>;

/// Reads a date with `time::Date::parse` under the description
/// `[day]-[month]-[year]`.
///
/// Trusted: the result depends on the text alone; nothing is claimed of which
/// texts are dates.
#[verifier::external_body]
pub(crate) fn parse_date(text: &str) -> (date: Option<(i32, u8, u8)>)
    ensures
        date == parsed_date(text@),
{
    let description = time::format_description::parse_borrowed::<1>("[day]-[month]-[year]").ok()?;
    let date = time::Date::parse(text, &description).ok()?;
    Some((date.year(), u8::from(date.month()), date.day()))
}

/// Writes a date with `time::Date::format` under the description
/// `[month]/[year repr:last_two]`.
///
/// Trusted: the result depends on the three numbers alone; nothing is claimed
/// of what is written.
#[verifier::external_body]
pub(crate) fn format_month(year: i32, month: u8, day: u8) -> (label: Option<String>)
    ensures
        label is Some <==> month_label(year, month, day) is Some,
        label matches Some(text) ==> month_label(year, month, day) == Some(text@),
{
    let description = time::format_description::parse_borrowed::<1>("[month]/[year repr:last_two]").ok()?;
    let month = time::Month::try_from(month).ok()?;
    let date = time::Date::from_calendar_date(year, month, day).ok()?;
    date.format(&description).ok()
}

/// Whether a date, given as year, month and day, lies before another.
pub open spec fn date_before(a: (i32, u8, u8), b: (i32, u8, u8)) -> bool {
    a.0 < b.0 || (a.0 == b.0 && (a.1 < b.1 || (a.1 == b.1 && a.2 < b.2)))
}

/// Whether each entry has a date that can be read and written.
pub open spec fn readable(durations: Seq<(String, i64)>) -> bool {
    forall|i: int|
        0 <= i < durations.len() ==> (#[trigger] parsed_date(durations[i].0@) matches Some(date)
            && month_label(date.0, date.1, date.2) is Some)
}

/// Whether the entry at position `a` comes before the one at position `b` in
/// the order of the chart: by date, and for one date by position.
pub open spec fn entry_before(durations: Seq<(String, i64)>, a: int, b: int) -> bool {
    let first = parsed_date(durations[a].0@)->0;
    let second = parsed_date(durations[b].0@)->0;
    date_before(first, second) || (first == second && a < b)
}

/// Whether `order` lists the positions of the entries by date, entries of one
/// date in the order in which they came. Such a list names each position
/// once.
pub open spec fn orders(order: Seq<int>, durations: Seq<(String, i64)>) -> bool {
    &&& order.len() == durations.len()
    &&& forall|k: int| 0 <= k < order.len() ==> 0 <= #[trigger] order[k] < durations.len()
    &&& forall|i: int, j: int|
        0 <= i < j < order.len() ==> entry_before(durations, #[trigger] order[i], #[trigger] order[j])
}

/// Whether `sorted` holds the entries in the order `order`, each with its
/// date written as month and year.
pub open spec fn sorted_as(sorted: Seq<(String, i64)>, order: Seq<int>, durations: Seq<(String, i64)>) -> bool {
    &&& sorted.len() == order.len()
    &&& forall|k: int|
        0 <= k < sorted.len() ==> {
            let entry = durations[order[k]];
            let date = parsed_date(entry.0@)->0;
            &&& (#[trigger] sorted[k]).1 == entry.1
            &&& month_label(date.0, date.1, date.2) == Some(sorted[k].0@)
        }
}

/// Whether `sorted` is `durations` by date, entries of one date in the order
/// in which they came, each with its date written as month and year.
pub open spec fn sorted_by_date(sorted: Seq<(String, i64)>, durations: Seq<(String, i64)>) -> bool {
    exists|order: Seq<int>| #[trigger] orders(order, durations) && sorted_as(sorted, order, durations)
}

/// A list that orders the entries names no position twice; as it is as long
/// as the entries are many, it names each position once.
pub proof fn order_names_no_position_twice(order: Seq<int>, durations: Seq<(String, i64)>)
    requires
        orders(order, durations),
    ensures
        forall|i: int, j: int|
            0 <= i < j < order.len() ==> #[trigger] order[i] != #[trigger] order[j],
{
    assert forall|i: int, j: int| 0 <= i < j < order.len() implies #[trigger] order[i]
        != #[trigger] order[j] by {
        assert(entry_before(durations, order[i], order[j]));
    }
}

/// An entry on its way through the sort: its date and where it came from.
#[derive(Clone, Copy)]
struct Dated {
    year: i32,
    month: u8,
    day: u8,
    position: usize,
}

impl Dated {
    /// Whether this is the entry at its position, with the date of that entry.
    spec fn is_entry_of(self, durations: Seq<(String, i64)>) -> bool {
        &&& self.position < durations.len()
        &&& parsed_date(durations[self.position as int].0@) == Some((self.year, self.month, self.day))
    }

    /// Whether this entry comes before another: by date, and for one date by
    /// position.
    spec fn before(self, other: Dated) -> bool {
        date_before((self.year, self.month, self.day), (other.year, other.month, other.day)) || ((
            self.year,
            self.month,
            self.day,
        ) == (other.year, other.month, other.day) && self.position < other.position)
    }

    /// Whether this entry comes before another.
    fn comes_before(&self, other: &Dated) -> (earlier: bool)
        ensures
            earlier == self.before(*other),
    {
        if self.year != other.year {
            self.year < other.year
        } else if self.month != other.month {
            self.month < other.month
        } else if self.day != other.day {
            self.day < other.day
        } else {
            self.position < other.position
        }
    }
}

/// Sorts entries by date and position with an insertion sort.
fn sort_dated(items: &mut Vec<Dated>, Ghost(durations): Ghost<Seq<(String, i64)>>)
    requires
        forall|k: int| 0 <= k < old(items)@.len() ==> (#[trigger] old(items)@[k]).is_entry_of(durations),
        forall|i: int, j: int|
            0 <= i < j < old(items)@.len() ==> (#[trigger] old(items)@[i]).position != (
            #[trigger] old(items)@[j]).position,
    ensures
        final(items)@.len() == old(items)@.len(),
        forall|k: int| 0 <= k < final(items)@.len() ==> (#[trigger] final(items)@[k]).is_entry_of(durations),
        forall|i: int, j: int|
            0 <= i < j < final(items)@.len() ==> (#[trigger] final(items)@[i]).before(
                #[trigger] final(items)@[j],
            ),
{
    let count: usize = items.len();
    let mut sorted_to: usize = 0;
    while sorted_to < count
        invariant
            sorted_to <= count,
            items@.len() == count,
            forall|k: int| 0 <= k < count ==> (#[trigger] items@[k]).is_entry_of(durations),
            forall|i: int, j: int|
                0 <= i < j < count ==> (#[trigger] items@[i]).position != (#[trigger] items@[j]).position,
            forall|i: int, j: int|
                0 <= i < j < sorted_to ==> (#[trigger] items@[i]).before(#[trigger] items@[j]),
        decreases count - sorted_to,
    {
        let mut at: usize = sorted_to;
        while at > 0 && items[at].comes_before(&items[at - 1])
            invariant
                at <= sorted_to < count,
                items@.len() == count,
                forall|k: int| 0 <= k < count ==> (#[trigger] items@[k]).is_entry_of(durations),
                forall|i: int, j: int|
                    0 <= i < j < count ==> (#[trigger] items@[i]).position != (
                    #[trigger] items@[j]).position,
                forall|i: int, j: int|
                    0 <= i < j <= sorted_to && i != at && j != at ==> (#[trigger] items@[i]).before(
                        #[trigger] items@[j],
                    ),
                forall|j: int| at < j <= sorted_to ==> items@[at as int].before(#[trigger] items@[j]),
            decreases at,
        {
            let moved = items[at];
            let passed = items[at - 1];
            items.set(at - 1, moved);
            items.set(at, passed);
            at = at - 1;
        }
        proof {
            if at > 0 {
                let here = items@[at as int];
                let left = items@[at - 1];
                assert(left.position != here.position);
                assert(left.before(here));
                assert forall|i: int| 0 <= i < at implies (#[trigger] items@[i]).before(here) by {
                    if i < at - 1 {
                        assert(items@[i].before(left));
                    }
                }
            }
        }
        sorted_to = sorted_to + 1;
    }
}

/// The entries of the chart of durations over time: sorted by date, entries
/// of one date in the order in which they came, and each date written as
/// month and year. Every entry must have a date that can be read and written.
pub fn sort_duration_over_time(durations: &Vec<(String, i64)>) -> (sorted: Vec<(String, i64)>)
    requires
        readable(durations@),
    ensures
        sorted_by_date(sorted@, durations@),
{
    let mut items: Vec<Dated> = Vec::new();
    let mut position: usize = 0;
    while position < durations.len()
        invariant
            position <= durations.len(),
            readable(durations@),
            items@.len() == position,
            forall|k: int| 0 <= k < position ==> (#[trigger] items@[k]).is_entry_of(durations@),
            forall|k: int| 0 <= k < position ==> (#[trigger] items@[k]).position == k,
        decreases durations.len() - position,
    {
        match parse_date(durations[position].0.as_str()) {
            Some((year, month, day)) => {
                items.push(Dated { year, month, day, position });
            },
            None => {
                proof {
                    assert(parsed_date(durations@[position as int].0@) is Some);
                }
                unreached::<()>();
            },
        }
        position = position + 1;
    }
    sort_dated(&mut items, Ghost(durations@));
    let ghost order = Seq::new(items@.len(), |k: int| items@[k].position as int);
    proof {
        assert forall|i: int, j: int| 0 <= i < j < order.len() implies entry_before(
            durations@,
            #[trigger] order[i],
            #[trigger] order[j],
        ) by {
            assert(items@[i].is_entry_of(durations@));
            assert(items@[j].is_entry_of(durations@));
            assert(items@[i].before(items@[j]));
        }
        assert forall|k: int| 0 <= k < order.len() implies 0 <= #[trigger] order[k] < durations@.len() by {
            assert(items@[k].is_entry_of(durations@));
        }
        assert(orders(order, durations@));
    }
    let mut sorted: Vec<(String, i64)> = Vec::new();
    let mut next: usize = 0;
    while next < items.len()
        invariant
            next <= items@.len(),
            items@.len() == order.len(),
            readable(durations@),
            forall|k: int| 0 <= k < items@.len() ==> (#[trigger] items@[k]).is_entry_of(durations@),
            forall|k: int| 0 <= k < items@.len() ==> #[trigger] order[k] == items@[k].position,
            sorted_as(sorted@, order.take(next as int), durations@),
        decreases items@.len() - next,
    {
        let item = items[next];
        proof {
            assert(item.is_entry_of(durations@));
            assert(parsed_date(durations@[item.position as int].0@) is Some);
        }
        let ghost before = sorted@;
        match format_month(item.year, item.month, item.day) {
            Some(label) => {
                sorted.push((label, durations[item.position].1));
            },
            None => {
                unreached::<()>();
            },
        }
        next = next + 1;
        proof {
            let prefix = order.take(next as int);
            assert forall|k: int| 0 <= k < sorted@.len() implies {
                let entry = durations@[prefix[k]];
                let date = parsed_date(entry.0@)->0;
                &&& (#[trigger] sorted@[k]).1 == entry.1
                &&& month_label(date.0, date.1, date.2) == Some(sorted@[k].0@)
            } by {
                if k < next - 1 {
                    assert(sorted@[k] == before[k]);
                    assert(order.take(next - 1)[k] == prefix[k]);
                }
            }
        }
    }
    proof {
        assert(order.take(next as int) =~= order);
    }
    sorted
}

/// The entries of the chart of durations over time, as
/// `sort_duration_over_time` gives them, or `None` where an entry has a date
/// that cannot be read or written.
pub fn checked_sort_duration_over_time(durations: &Vec<(String, i64)>) -> (sorted: Option<
    Vec<(String, i64)>,
>)
    ensures
        sorted is Some <==> readable(durations@),
        sorted matches Some(entries) ==> sorted_by_date(entries@, durations@),
{
    let mut position: usize = 0;
    while position < durations.len()
        invariant
            position <= durations.len(),
            forall|i: int|
                0 <= i < position ==> (#[trigger] parsed_date(durations@[i].0@) matches Some(date)
                    && month_label(date.0, date.1, date.2) is Some),
        decreases durations.len() - position,
    {
        match parse_date(durations[position].0.as_str()) {
            Some((year, month, day)) => {
                if format_month(year, month, day).is_none() {
                    return None;
                }
            },
            None => {
                return None;
            },
        }
        position = position + 1;
    }
    Some(sort_duration_over_time(durations))
}

} // verus!
