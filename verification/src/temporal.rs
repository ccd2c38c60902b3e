//! Temporal resolver: maps a local wall-clock instant to the soonest
//! upcoming or currently-active `(Day, Meal)` pair at the primary venue,
//! parses user-supplied day and meal tokens, and holds the venues'
//! hard-coded operating-hour tables.

use vstd::prelude::*;
use crate::text::{contains_ci, contains_ci_s, eq_ci, eq_ci_s};

verus! {

/// Day of the week.
#[derive(Clone, Copy, Debug, PartialEq, Eq, Structural)]
pub enum Day {
    Monday,
    Tuesday,
    Wednesday,
    Thursday,
    Friday,
    Saturday,
    Sunday,
}

/// A meal slot.  `Other` carries a user-supplied category filter verbatim;
/// it is used only as a filter value and never echoed as a display title.
#[derive(Clone, Debug, PartialEq, Eq)]
pub enum Meal {
    Breakfast,
    Lunch,
    Dinner,
    Other(String),
}

/// A local wall-clock instant: the day of the week and the number of
/// seconds since local midnight.
#[derive(Clone, Copy, Debug)]
pub struct Timestamp {
    pub day: Day,
    pub secs: u32,
}

/// Seconds in a day; `Timestamp::secs` is always below this.
pub const SECS_PER_DAY: u32 = 86400;

/// Primary venue breakfast opens at 7:00 on weekdays.
pub const PAV_BREAKFAST_WEEKDAY_START: u32 = 25200;

/// Primary venue breakfast opens at 9:00 on weekends.
pub const PAV_BREAKFAST_WEEKEND_START: u32 = 32400;

/// Primary venue breakfast closes at 10:30.
pub const PAV_BREAKFAST_END: u32 = 37800;

/// Primary venue lunch opens at 11:00.
pub const PAV_LUNCH_START: u32 = 39600;

/// Primary venue lunch closes at 14:30.
pub const PAV_LUNCH_END: u32 = 52200;

/// Primary venue dinner opens at 17:00.
pub const PAV_DINNER_START: u32 = 61200;

/// Primary venue dinner closes at 20:00.
pub const PAV_DINNER_END: u32 = 72000;

/// Secondary venue dinner opens at 17:00.
pub const YAB_DINNER_START: u32 = 61200;

/// Secondary venue dinner closes at 20:30.
pub const YAB_DINNER_END: u32 = 73800;

impl Timestamp {
    /// A timestamp is well-formed when its time of day is in range.
    pub open spec fn wf(self) -> bool {
        self.secs < SECS_PER_DAY
    }
}

/// Saturday and Sunday are weekend days.
pub open spec fn spec_is_weekend(d: Day) -> bool {
    d is Saturday || d is Sunday
}

/// Saturday and Sunday are weekend days.
pub fn is_weekend(d: Day) -> (r: bool)
    ensures
        r == spec_is_weekend(d),
{
    match d {
        Day::Saturday => true,
        Day::Sunday => true,
        _ => false,
    }
}

/// The instant the primary venue's breakfast window opens on day `d`.
pub open spec fn spec_breakfast_start(d: Day) -> u32 {
    if spec_is_weekend(d) {
        PAV_BREAKFAST_WEEKEND_START
    } else {
        PAV_BREAKFAST_WEEKDAY_START
    }
}

/// The day after `d`.
pub open spec fn spec_next_day(d: Day) -> Day {
    match d {
        Day::Monday => Day::Tuesday,
        Day::Tuesday => Day::Wednesday,
        Day::Wednesday => Day::Thursday,
        Day::Thursday => Day::Friday,
        Day::Friday => Day::Saturday,
        Day::Saturday => Day::Sunday,
        Day::Sunday => Day::Monday,
    }
}

/// The day after `d`.
pub fn next_day(d: Day) -> (r: Day)
    ensures
        r == spec_next_day(d),
{
    match d {
        Day::Monday => Day::Tuesday,
        Day::Tuesday => Day::Wednesday,
        Day::Wednesday => Day::Thursday,
        Day::Thursday => Day::Friday,
        Day::Friday => Day::Saturday,
        Day::Saturday => Day::Sunday,
        Day::Sunday => Day::Monday,
    }
}

/// The soonest upcoming or currently-active meal at the primary venue.
/// A meal remains current through the last instant of its window, and a
/// window's start instant already belongs to the meal that is starting,
/// so at every boundary the about-to-start meal wins — a policy choice
/// of this resolver, not a guarantee from the venues.  After dinner the
/// answer rolls over to the next day's breakfast.
pub open spec fn spec_next_meal(ts: Timestamp) -> (Day, Meal) {
    if ts.secs <= PAV_BREAKFAST_END {
        (ts.day, Meal::Breakfast)
    } else if ts.secs <= PAV_LUNCH_END {
        (ts.day, Meal::Lunch)
    } else if ts.secs <= PAV_DINNER_END {
        (ts.day, Meal::Dinner)
    } else {
        (spec_next_day(ts.day), Meal::Breakfast)
    }
}

/// The soonest upcoming or currently-active meal at the primary venue.
pub fn next_meal(ts: &Timestamp) -> (r: (Day, Meal))
    requires
        ts.wf(),
    ensures
        r == spec_next_meal(*ts),
{
    if ts.secs <= PAV_BREAKFAST_END {
        (ts.day, Meal::Breakfast)
    } else if ts.secs <= PAV_LUNCH_END {
        (ts.day, Meal::Lunch)
    } else if ts.secs <= PAV_DINNER_END {
        (ts.day, Meal::Dinner)
    } else {
        (next_day(ts.day), Meal::Breakfast)
    }
}

/// Every instant inside the primary venue's Friday lunch window resolves
/// to `(Friday, Lunch)`.
pub proof fn lemma_friday_lunch_window(ts: Timestamp)
    requires
        ts.wf(),
        ts.day == Day::Friday,
        PAV_LUNCH_START <= ts.secs <= PAV_LUNCH_END,
    ensures
        spec_next_meal(ts) == (Day::Friday, Meal::Lunch),
{
}

/// One second before a meal window opens, the about-to-start meal is
/// already the answer: the window boundary is inclusive of the start
/// instant, so the prior meal never claims it.
pub proof fn lemma_imminent_meal_wins(ts: Timestamp)
    requires
        ts.wf(),
    ensures
        ts.secs + 1 == spec_breakfast_start(ts.day) ==> spec_next_meal(ts) == (
            ts.day,
            Meal::Breakfast,
        ),
        ts.secs + 1 == PAV_LUNCH_START ==> spec_next_meal(ts) == (ts.day, Meal::Lunch),
        ts.secs + 1 == PAV_DINNER_START ==> spec_next_meal(ts) == (ts.day, Meal::Dinner),
{
}

/// The full name of a day, in the lower-case form used for catalog
/// group matching.
pub open spec fn spec_day_name(d: Day) -> Seq<char> {
    match d {
        Day::Monday => "monday"@,
        Day::Tuesday => "tuesday"@,
        Day::Wednesday => "wednesday"@,
        Day::Thursday => "thursday"@,
        Day::Friday => "friday"@,
        Day::Saturday => "saturday"@,
        Day::Sunday => "sunday"@,
    }
}

/// The full name of a day.
pub fn day_name(d: Day) -> (r: &'static str)
    ensures
        r@ == spec_day_name(d),
{
    match d {
        Day::Monday => "monday",
        Day::Tuesday => "tuesday",
        Day::Wednesday => "wednesday",
        Day::Thursday => "thursday",
        Day::Friday => "friday",
        Day::Saturday => "saturday",
        Day::Sunday => "sunday",
    }
}

/// The conventional three-letter abbreviation of a day.
pub open spec fn spec_day_abbrev(d: Day) -> Seq<char> {
    match d {
        Day::Monday => "mon"@,
        Day::Tuesday => "tue"@,
        Day::Wednesday => "wed"@,
        Day::Thursday => "thu"@,
        Day::Friday => "fri"@,
        Day::Saturday => "sat"@,
        Day::Sunday => "sun"@,
    }
}

/// A token names day `d` when it equals, up to case, the day's full name
/// or its three-letter abbreviation.
pub open spec fn spec_token_is_day(t: Seq<char>, d: Day) -> bool {
    eq_ci_s(t, spec_day_name(d)) || eq_ci_s(t, spec_day_abbrev(d))
}

/// Whether the token names day `d`.
fn token_is_day(t: &str, d: Day) -> (r: bool)
    ensures
        r == spec_token_is_day(t@, d),
{
    eq_ci(t, day_name(d)) || {
        let abbrev = match d {
            Day::Monday => "mon",
            Day::Tuesday => "tue",
            Day::Wednesday => "wed",
            Day::Thursday => "thu",
            Day::Friday => "fri",
            Day::Saturday => "sat",
            Day::Sunday => "sun",
        };
        eq_ci(t, abbrev)
    }
}

/// The day a token names, testing the days in week order.
pub open spec fn spec_parse_day(t: Seq<char>) -> Option<Day> {
    if spec_token_is_day(t, Day::Monday) {
        Some(Day::Monday)
    } else if spec_token_is_day(t, Day::Tuesday) {
        Some(Day::Tuesday)
    } else if spec_token_is_day(t, Day::Wednesday) {
        Some(Day::Wednesday)
    } else if spec_token_is_day(t, Day::Thursday) {
        Some(Day::Thursday)
    } else if spec_token_is_day(t, Day::Friday) {
        Some(Day::Friday)
    } else if spec_token_is_day(t, Day::Saturday) {
        Some(Day::Saturday)
    } else if spec_token_is_day(t, Day::Sunday) {
        Some(Day::Sunday)
    } else {
        None
    }
}

/// Parse a free-text token as a day name or abbreviation,
/// case-insensitively.  An unrecognized token yields `None`, so the
/// caller keeps its prior value.
pub fn parse_day(token: &str) -> (r: Option<Day>)
    ensures
        r == spec_parse_day(token@),
        match r {
            Some(d) => spec_token_is_day(token@, d),
            None => forall|d: Day| !spec_token_is_day(token@, d),
        },
{
    if token_is_day(token, Day::Monday) {
        Some(Day::Monday)
    } else if token_is_day(token, Day::Tuesday) {
        Some(Day::Tuesday)
    } else if token_is_day(token, Day::Wednesday) {
        Some(Day::Wednesday)
    } else if token_is_day(token, Day::Thursday) {
        Some(Day::Thursday)
    } else if token_is_day(token, Day::Friday) {
        Some(Day::Friday)
    } else if token_is_day(token, Day::Saturday) {
        Some(Day::Saturday)
    } else {
        if token_is_day(token, Day::Sunday) {
            Some(Day::Sunday)
        } else {
            proof {
                assert forall|d: Day| !spec_token_is_day(token@, d) by {
                    match d {
                        Day::Monday => {},
                        Day::Tuesday => {},
                        Day::Wednesday => {},
                        Day::Thursday => {},
                        Day::Friday => {},
                        Day::Saturday => {},
                        Day::Sunday => {},
                    }
                }
            }
            None
        }
    }
}

/// Resolve a free-text meal token.  Only the three literal meal names are
/// recognized, by case-insensitive substring; anything else becomes
/// `Other(token)`, kept verbatim as a filter value.
pub fn resolve_meal(token: &str) -> (r: Meal)
    ensures
        contains_ci_s(token@, "breakfast"@) ==> r == Meal::Breakfast,
        !contains_ci_s(token@, "breakfast"@) && contains_ci_s(token@, "lunch"@) ==> r
            == Meal::Lunch,
        !contains_ci_s(token@, "breakfast"@) && !contains_ci_s(token@, "lunch"@)
            && contains_ci_s(token@, "dinner"@) ==> r == Meal::Dinner,
        !contains_ci_s(token@, "breakfast"@) && !contains_ci_s(token@, "lunch"@)
            && !contains_ci_s(token@, "dinner"@) ==> (r matches Meal::Other(t) && t@ == token@),
{
    if contains_ci(token, "breakfast") {
        Meal::Breakfast
    } else if contains_ci(token, "lunch") {
        Meal::Lunch
    } else if contains_ci(token, "dinner") {
        Meal::Dinner
    } else {
        Meal::Other(String::from_str(token))
    }
}

/// The secondary venue serves a single evening meal, and only on
/// weekdays; this gates whether the aggregator queries it at all.
pub open spec fn spec_secondary_venue_dinner_slot(d: Day) -> bool {
    !spec_is_weekend(d)
}

/// Whether the secondary venue serves its dinner on day `d`.
pub fn is_secondary_venue_dinner_slot(d: Day) -> (r: bool)
    ensures
        r == spec_secondary_venue_dinner_slot(d),
{
    !is_weekend(d)
}

/// The textual form of a meal used for category filtering: the
/// lower-case meal name, or the carried text of `Other`.
pub open spec fn spec_meal_query(m: Meal) -> Seq<char> {
    match m {
        Meal::Breakfast => "breakfast"@,
        Meal::Lunch => "lunch"@,
        Meal::Dinner => "dinner"@,
        Meal::Other(t) => t@,
    }
}

/// The textual form of a meal used for category filtering.
pub fn meal_query(m: &Meal) -> (r: String)
    ensures
        r@ == spec_meal_query(*m),
{
    match m {
        Meal::Breakfast => String::from_str("breakfast"),
        Meal::Lunch => String::from_str("lunch"),
        Meal::Dinner => String::from_str("dinner"),
        Meal::Other(t) => t.clone(),
    }
}

/// The current local wall-clock instant.
///
/// Relies on `chrono::Local::now` for the clock, `Datelike::weekday` for
/// the day of the week, and `Timelike::num_seconds_from_midnight`, which
/// chrono documents as below 86400.  The clock's value itself cannot be
/// pinned down: only the range of the time of day is stated.
#[verifier::external_body]
pub fn now_timestamp() -> (r: Timestamp)
    ensures
        r.wf(),
{
    let now = chrono::Local::now();
    let day = match chrono::Datelike::weekday(&now) {
        chrono::Weekday::Mon => Day::Monday,
        chrono::Weekday::Tue => Day::Tuesday,
        chrono::Weekday::Wed => Day::Wednesday,
        chrono::Weekday::Thu => Day::Thursday,
        chrono::Weekday::Fri => Day::Friday,
        chrono::Weekday::Sat => Day::Saturday,
        chrono::Weekday::Sun => Day::Sunday,
    };
    Timestamp { day, secs: chrono::Timelike::num_seconds_from_midnight(&now) }
}

} // verus!
