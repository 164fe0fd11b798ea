//! Calendar days and the countdown to kindergarten.
use vstd::prelude::*;
use crate::text::{decimal, digits_of};
use crate::goal::max;
use chrono::Datelike;

verus! {

/// A leap year of the proleptic Gregorian calendar.
pub open spec fn is_leap_year(y: int) -> bool {
    (y % 4 == 0 && y % 100 != 0) || y % 400 == 0
}

/// The number of days in month `m` (1 to 12) of year `y`.
pub open spec fn days_in_month(y: int, m: int) -> int {
    if m == 2 {
        if is_leap_year(y) { 29 } else { 28 }
    } else if m == 4 || m == 6 || m == 9 || m == 11 {
        30
    } else {
        31
    }
}

/// The days of year `y` before the first of month `m`.
pub open spec fn days_before_month(y: int, m: int) -> int
    decreases m,
{
    if m <= 1 { 0 } else { days_before_month(y, m - 1) + days_in_month(y, m - 1) }
}

/// A date that exists in the proleptic Gregorian calendar, within the years
/// that `chrono::NaiveDate` holds (-262143 to 262142).
pub open spec fn is_calendar_date(y: i32, m: u32, d: u32) -> bool {
    is_calendar_ymd(y as int, m as int, d as int)
}

/// `is_calendar_date` over mathematical integers.
pub open spec fn is_calendar_ymd(y: int, m: int, d: int) -> bool {
    &&& -262143 <= y <= 262142
    &&& 1 <= m <= 12
    &&& 1 <= d <= days_in_month(y, m)
}

/// The day number of a date: days since the first of January of year 1,
/// which is day 1 (what `Datelike::num_days_from_ce` gives).
pub open spec fn day_number(y: int, m: int, d: int) -> int {
    let p = y - 1;
    365 * p + p / 4 - p / 100 + p / 400 + days_before_month(y, m) + d
}

/// The day number of a calendar date, or `None` when the date does not exist.
///
/// Calls `chrono::NaiveDate::from_ymd_opt` and `Datelike::num_days_from_ce`;
/// trusted to give `Some` exactly for existing dates in chrono's range, with
/// the day number counted from the first of January of year 1.
#[verifier::external_body]
fn calendar_day(year: i32, month: u32, day: u32) -> (r: Option<i32>)
    ensures
        r is Some <==> is_calendar_date(year, month, day),
        r matches Some(n) ==> n == day_number(year as int, month as int, day as int),
{
    match chrono::NaiveDate::from_ymd_opt(year, month, day) {
        Some(date) => Some(date.num_days_from_ce()),
        None => None,
    }
}

/// Amelia's birthday, 18 January 2025: where the reading timeline starts.
pub open spec fn birthday() -> int {
    day_number(2025, 1, 18)
}

/// The first day of kindergarten, 1 September 2030: the goal's deadline.
pub open spec fn kindergarten_start() -> int {
    day_number(2030, 9, 1)
}

/// The day number of Amelia's birthday.
pub fn birthday_day() -> (n: i32)
    ensures
        n == birthday(),
{
    match calendar_day(2025, 1, 18) {
        Some(n) => n,
        None => 0,
    }
}

/// The day number of the first day of kindergarten.
pub fn kindergarten_day() -> (n: i32)
    ensures
        n == kindergarten_start(),
{
    proof {
        reveal_with_fuel(days_before_month, 9);
    }
    match calendar_day(2030, 9, 1) {
        Some(n) => n,
        None => 0,
    }
}

/// Days counted on the way to kindergarten.
pub struct Countdown {
    /// Days from today until kindergarten starts; 0 once it has started.
    pub days_left: i64,
    /// Days from the birthday until today; 0 before the birthday.
    pub days_elapsed: i64,
    /// Days from the birthday until kindergarten starts.
    pub total_days: i64,
}

/// The countdown as of `today`, a day number.
pub open spec fn spec_countdown(today: int) -> (int, int, int) {
    (
        max(kindergarten_start() - today, 0),
        max(today - birthday(), 0),
        kindergarten_start() - birthday(),
    )
}

/// The countdown to kindergarten as of the day numbered `today`.
pub fn countdown(today: i32) -> (c: Countdown)
    ensures
        (c.days_left as int, c.days_elapsed as int, c.total_days as int) == spec_countdown(today as int),
{
    let k = kindergarten_day() as i64;
    let b = birthday_day() as i64;
    let t = today as i64;
    let left = k - t;
    let elapsed = t - b;
    Countdown {
        days_left: if left > 0 { left } else { 0 },
        days_elapsed: if elapsed > 0 { elapsed } else { 0 },
        total_days: k - b,
    }
}

/// Between the birthday and the first day of kindergarten, the days elapsed
/// and the days left add up to the whole span; after the start, none are left.
pub proof fn law_countdown_splits_span(today: int)
    ensures
        birthday() <= today <= kindergarten_start() ==> spec_countdown(today).0 + spec_countdown(today).1
            == spec_countdown(today).2,
        today >= kindergarten_start() ==> spec_countdown(today).0 == 0,
        today <= birthday() ==> spec_countdown(today).1 == 0,
{
}

/// The day number of some date that `chrono::NaiveDate` can hold.
pub open spec fn is_day_number(n: int) -> bool {
    exists|y: int, m: int, d: int| is_calendar_ymd(y, m, d) && day_number(y, m, d) == n
}

/// The calendar date (year, month, day) whose day number is `n`.
pub open spec fn civil_date(n: int) -> (int, int, int) {
    choose|t: (int, int, int)| is_calendar_ymd(t.0, t.1, t.2) && day_number(t.0, t.1, t.2) == n
}

/// `s` with zeros in front, to at least `width` characters.
pub open spec fn zero_padded(s: Seq<char>, width: int) -> Seq<char> {
    Seq::new(if width > s.len() { (width - s.len()) as nat } else { 0 }, |_i: int| '0') + s
}

/// A year as chrono prints it: four digits for years 0 to 9999, otherwise
/// a sign and at least four digits.
pub open spec fn year_text(y: int) -> Seq<char> {
    if 0 <= y <= 9999 {
        zero_padded(decimal(y), 4)
    } else if y < 0 {
        seq!['-'] + zero_padded(digits_of((-y) as nat), 4)
    } else {
        seq!['+'] + zero_padded(digits_of(y as nat), 4)
    }
}

/// The three-letter English abbreviation of month `m`.
pub open spec fn month_abbreviation(m: int) -> Seq<char> {
    if m == 1 { "Jan"@ } else if m == 2 { "Feb"@ } else if m == 3 { "Mar"@ }
    else if m == 4 { "Apr"@ } else if m == 5 { "May"@ } else if m == 6 { "Jun"@ }
    else if m == 7 { "Jul"@ } else if m == 8 { "Aug"@ } else if m == 9 { "Sep"@ }
    else if m == 10 { "Oct"@ } else if m == 11 { "Nov"@ } else { "Dec"@ }
}

/// The English name of month `m`.
pub open spec fn month_name(m: int) -> Seq<char> {
    if m == 1 { "January"@ } else if m == 2 { "February"@ } else if m == 3 { "March"@ }
    else if m == 4 { "April"@ } else if m == 5 { "May"@ } else if m == 6 { "June"@ }
    else if m == 7 { "July"@ } else if m == 8 { "August"@ } else if m == 9 { "September"@ }
    else if m == 10 { "October"@ } else if m == 11 { "November"@ } else { "December"@ }
}

/// A date written `YYYY-MM-DD`.
pub open spec fn iso_date_text(n: int) -> Seq<char> {
    let (y, m, d) = civil_date(n);
    year_text(y) + "-"@ + zero_padded(decimal(m), 2) + "-"@ + zero_padded(decimal(d), 2)
}

/// A date written like `Jan 5, 2025`.
pub open spec fn short_date_text(n: int) -> Seq<char> {
    let (y, m, d) = civil_date(n);
    month_abbreviation(m) + " "@ + decimal(d) + ", "@ + year_text(y)
}

/// A date written like `January 5, 2025`.
pub open spec fn long_date_text(n: int) -> Seq<char> {
    let (y, m, d) = civil_date(n);
    month_name(m) + " "@ + decimal(d) + ", "@ + year_text(y)
}

/// The date with day number `day`, written `YYYY-MM-DD`.
///
/// Calls `chrono::NaiveDate::from_num_days_from_ce_opt` and the date's
/// `Display`, which writes the year as four digits (with a sign outside
/// 0 to 9999), then the month and day as two digits each, separated by `-`;
/// trusted to do so for every day number of a date chrono holds.
#[verifier::external_body]
pub(crate) fn iso_date(day: i32) -> (r: String)
    requires
        is_day_number(day as int),
    ensures
        r@ == iso_date_text(day as int),
{
    chrono::NaiveDate::from_num_days_from_ce_opt(day).unwrap_or_default().to_string()
}

/// The date with day number `day`, written like `Jan 5, 2025`.
///
/// Calls `chrono::NaiveDate::format` with `%b %-d, %Y`: the month's
/// three-letter abbreviation, the day without padding, a comma and the year
/// as `%Y` writes it; trusted to do so for every day number of a date chrono
/// holds.
#[verifier::external_body]
pub(crate) fn short_date(day: i32) -> (r: String)
    requires
        is_day_number(day as int),
    ensures
        r@ == short_date_text(day as int),
{
    chrono::NaiveDate::from_num_days_from_ce_opt(day).unwrap_or_default().format("%b %-d, %Y").to_string()
}

/// The date with day number `day`, written like `January 5, 2025`.
///
/// Calls `chrono::NaiveDate::format` with `%B %-d, %Y`: the month's full
/// name, the day without padding, a comma and the year as `%Y` writes it;
/// trusted to do so for every day number of a date chrono holds.
#[verifier::external_body]
pub(crate) fn long_date(day: i32) -> (r: String)
    requires
        is_day_number(day as int),
    ensures
        r@ == long_date_text(day as int),
{
    chrono::NaiveDate::from_num_days_from_ce_opt(day).unwrap_or_default().format("%B %-d, %Y").to_string()
}

} // verus!
