//! What is asked of the service: the date as it is written in a request, the
//! two ways to ask for phases, and the route and the parameters of each.

use crate::text::{
    decimal, decimal_string, lemma_decimal_len, lemma_written_number_reads_back, numeral_value,
    padded_decimal, push_decimal, push_padded_decimal,
};
use vstd::prelude::*;

verus! {

/// A date as a request writes it: the year in at least four digits, the
/// month and the day in at least two, filled with zeros, with a hyphen
/// between them.
pub open spec fn date_text(year: u16, month: u8, day: u8) -> Seq<char> {
    padded_decimal(year as nat, 4) + seq!['-'] + padded_decimal(month as nat, 2) + seq!['-']
        + padded_decimal(day as nat, 2)
}

/// Writes a date as a request takes it, such as `2025-04-25`. The three
/// numbers are written as they are: whether they are a date of the calendar
/// is not asked.
pub fn format_date(year: u16, month: u8, day: u8) -> (date: String)
    ensures
        date@ == date_text(year, month, day),
{
    proof {
        reveal_strlit("-");
    }
    let mut date = String::new();
    push_padded_decimal(&mut date, year as u128, 4);
    date.append("-");
    push_padded_decimal(&mut date, month as u128, 2);
    date.append("-");
    push_padded_decimal(&mut date, day as u128, 2);
    date
}

/// A date with a year of up to four digits and a month and a day of up to
/// two is written in ten characters, zero-filled, with hyphens after the
/// year and after the month, and the three runs of digits read back as the
/// year, the month and the day.
pub proof fn lemma_date_text_reads_back(year: u16, month: u8, day: u8)
    requires
        year <= 9999,
        month <= 99,
        day <= 99,
    ensures
        date_text(year, month, day).len() == 10,
        date_text(year, month, day)[4] == '-',
        date_text(year, month, day)[7] == '-',
        numeral_value(date_text(year, month, day).subrange(0, 4), 9999) == Some(year as nat),
        numeral_value(date_text(year, month, day).subrange(5, 7), 99) == Some(month as nat),
        numeral_value(date_text(year, month, day).subrange(8, 10), 99) == Some(day as nat),
{
    let y = padded_decimal(year as nat, 4);
    let m = padded_decimal(month as nat, 2);
    let d = padded_decimal(day as nat, 2);
    lemma_decimal_len(year as nat);
    lemma_decimal_len(month as nat);
    lemma_decimal_len(day as nat);
    lemma_written_number_reads_back(year as nat, 4, 9999);
    lemma_written_number_reads_back(month as nat, 2, 99);
    lemma_written_number_reads_back(day as nat, 2, 99);
    let text = date_text(year, month, day);
    assert(text.subrange(0, 4) =~= y);
    assert(text.subrange(5, 7) =~= m);
    assert(text.subrange(8, 10) =~= d);
}

/// The address of the service, where no other is given.
pub fn default_base_url() -> (url: &'static str)
    ensures
        url@ == "https://aa.usno.navy.mil"@,
{
    "https://aa.usno.navy.mil"
}

/// The address of a route of the service: the route behind the base
/// address.
pub fn endpoint(base_url: &str, route: &str) -> (url: String)
    ensures
        url@ == base_url@ + route@,
{
    let mut url = String::from_str(base_url);
    url.append(route);
    url
}

/// The route of the data of a single day.
pub fn one_day_route() -> (route: &'static str)
    ensures
        route@ == "/api/rstt/oneday"@,
{
    "/api/rstt/oneday"
}

/// A request for the data of a single day: the date, the place and the
/// offset from UTC, each as the text that is sent.
#[derive(Clone, Debug, PartialEq, Eq)]
pub struct OneDayArgs {
    pub date: String,
    pub coords: String,
    pub tz: String,
}

/// A request for the data of a single day, as sequences of characters.
pub struct OneDayArgsView {
    pub date: Seq<char>,
    pub coords: Seq<char>,
    pub tz: Seq<char>,
}

impl View for OneDayArgs {
    type V = OneDayArgsView;

    open spec fn view(&self) -> OneDayArgsView {
        OneDayArgsView { date: self.date@, coords: self.coords@, tz: self.tz@ }
    }
}

impl OneDayArgsView {
    /// The parameters of the request, each a name and a value, in order.
    pub open spec fn params(self) -> Seq<(Seq<char>, Seq<char>)> {
        seq![("date"@, self.date), ("coords"@, self.coords), ("tz"@, self.tz)]
    }
}

impl OneDayArgs {
    /// Asks for the data of a day at a place. The date is written from its
    /// three numbers as they are given; the place and the offset are taken
    /// as the text that the caller has written them in, and pass through
    /// unchanged.
    pub fn new(year: u16, month: u8, day: u8, coords: String, tz: String) -> (args: OneDayArgs)
        ensures
            args@ == (OneDayArgsView {
                date: date_text(year, month, day),
                coords: coords@,
                tz: tz@,
            }),
    {
        OneDayArgs { date: format_date(year, month, day), coords, tz }
    }

    /// The route that the request goes to.
    pub fn route(&self) -> (route: &'static str)
        ensures
            route@ == "/api/rstt/oneday"@,
    {
        one_day_route()
    }

    /// The parameters of the request, each a name and a value, in order.
    pub fn query(&self) -> (params: Vec<(String, String)>)
        ensures
            params_view(params@) == self@.params(),
    {
        let mut params: Vec<(String, String)> = Vec::new();
        params.push((String::from_str("date"), self.date.clone()));
        params.push((String::from_str("coords"), self.coords.clone()));
        params.push((String::from_str("tz"), self.tz.clone()));
        params
    }
}

/// The least and the greatest number of phases that can be asked for.
pub const MIN_COUNT: u16 = 1;

pub const MAX_COUNT: u16 = 99;

/// A request for phases of the moon.
#[derive(Clone, Debug, PartialEq, Eq)]
pub enum PhaseArgs {
    /// All phases of a year.
    Year { year: u16 },
    /// A number of phases from a date on.
    ByDate { date: String, nump: u16 },
}

/// A request for phases, with its date as a sequence of characters.
pub enum PhaseArgsView {
    Year { year: u16 },
    ByDate { date: Seq<char>, nump: u16 },
}

impl View for PhaseArgs {
    type V = PhaseArgsView;

    open spec fn view(&self) -> PhaseArgsView {
        match *self {
            PhaseArgs::Year { year } => PhaseArgsView::Year { year },
            PhaseArgs::ByDate { date, nump } => PhaseArgsView::ByDate { date: date@, nump },
        }
    }
}

/// Why a request could not be made.
#[derive(Clone, Copy, Debug, PartialEq, Eq, Structural)]
pub enum QueryError {
    /// The number of phases asked for is not between 1 and 99.
    InvalidCount { count: u16 },
}

impl QueryError {
    /// The message of the error, with the number that was turned down.
    pub open spec fn message_text(self) -> Seq<char> {
        match self {
            QueryError::InvalidCount { count } =>
                "Invalid count, must be between 1 and 99 inclusive found: "@ + decimal(
                    count as nat,
                ),
        }
    }

    /// A description of the error for a reader.
    pub fn message(&self) -> (message: String)
        ensures
            message@ == self.message_text(),
    {
        match self {
            QueryError::InvalidCount { count } => {
                let mut message = String::from_str(
                    "Invalid count, must be between 1 and 99 inclusive found: ",
                );
                push_decimal(&mut message, *count as u128);
                message
            },
        }
    }
}

/// Whether `count` phases can be asked for.
pub open spec fn is_count(count: u16) -> bool {
    MIN_COUNT <= count <= MAX_COUNT
}

impl PhaseArgsView {
    /// Whether the request is one that the constructors make: a request by
    /// date asks for 1 to 99 phases.
    pub open spec fn is_valid(self) -> bool {
        match self {
            PhaseArgsView::Year { .. } => true,
            PhaseArgsView::ByDate { nump, .. } => is_count(nump),
        }
    }

    /// The route that the request goes to, which its kind alone decides.
    pub open spec fn route_text(self) -> Seq<char> {
        match self {
            PhaseArgsView::Year { .. } => "/api/moon/phases/year"@,
            PhaseArgsView::ByDate { .. } => "/api/moon/phases/date"@,
        }
    }

    /// The parameters of the request, each a name and a value, in order.
    pub open spec fn params(self) -> Seq<(Seq<char>, Seq<char>)> {
        match self {
            PhaseArgsView::Year { year } => seq![("year"@, decimal(year as nat))],
            PhaseArgsView::ByDate { date, nump } => seq![
                ("date"@, date),
                ("nump"@, decimal(nump as nat)),
            ],
        }
    }
}

/// Parameters as sequences of characters.
pub open spec fn params_view(params: Seq<(String, String)>) -> Seq<(Seq<char>, Seq<char>)> {
    Seq::new(params.len(), |i: int| (params[i].0@, params[i].1@))
}

impl PhaseArgs {
    /// Asks for all phases of `year`.
    pub fn year(year: u16) -> (args: PhaseArgs)
        ensures
            args@ == (PhaseArgsView::Year { year }),
            args@.is_valid(),
    {
        PhaseArgs::Year { year }
    }

    /// Asks for `count` phases from the given date on. The date is written
    /// as it is given. A count below 1 or above 99 is turned down.
    pub fn by_date(year: u16, month: u8, day: u8, count: u16) -> (args: Result<
        PhaseArgs,
        QueryError,
    >)
        ensures
            args.is_ok() <==> is_count(count),
            args matches Ok(made) ==> made@ == (PhaseArgsView::ByDate {
                date: date_text(year, month, day),
                nump: count,
            }) && made@.is_valid(),
            args matches Err(error) ==> error == (QueryError::InvalidCount { count }),
    {
        if count < MIN_COUNT || count > MAX_COUNT {
            return Err(QueryError::InvalidCount { count });
        }
        Ok(PhaseArgs::ByDate { date: format_date(year, month, day), nump: count })
    }

    /// The route that the request goes to: one for a year, another for a
    /// date.
    pub fn route(&self) -> (route: &'static str)
        ensures
            route@ == self@.route_text(),
    {
        match self {
            PhaseArgs::Year { .. } => "/api/moon/phases/year",
            PhaseArgs::ByDate { .. } => "/api/moon/phases/date",
        }
    }

    /// The parameters of the request, each a name and a value, in order.
    pub fn query(&self) -> (params: Vec<(String, String)>)
        ensures
            params_view(params@) == self@.params(),
    {
        let mut params: Vec<(String, String)> = Vec::new();
        match self {
            PhaseArgs::Year { year } => {
                params.push((String::from_str("year"), decimal_string(*year as u128)));
            },
            PhaseArgs::ByDate { date, nump } => {
                params.push((String::from_str("date"), date.clone()));
                params.push((String::from_str("nump"), decimal_string(*nump as u128)));
            },
        }
        params
    }
}

/// A request for phases by date in the making. The four marks say which of
/// the year, the month, the day and the count have been given: each can be
/// given once, and the request can be made only when all four have been.
#[derive(Clone, Copy, Debug)]
pub struct ByDateBuilder<const YEAR: bool, const MONTH: bool, const DAY: bool, const COUNT: bool> {
    pub year: u16,
    pub month: u8,
    pub day: u8,
    pub count: u16,
}

impl<const MONTH: bool, const DAY: bool, const COUNT: bool> ByDateBuilder<
    false,
    MONTH,
    DAY,
    COUNT,
> {
    /// Gives the year.
    pub fn year(self, year: u16) -> (builder: ByDateBuilder<true, MONTH, DAY, COUNT>)
        ensures
            builder.year == year,
            builder.month == self.month,
            builder.day == self.day,
            builder.count == self.count,
    {
        ByDateBuilder { year, month: self.month, day: self.day, count: self.count }
    }
}

impl<const YEAR: bool, const DAY: bool, const COUNT: bool> ByDateBuilder<YEAR, false, DAY, COUNT> {
    /// Gives the month.
    pub fn month(self, month: u8) -> (builder: ByDateBuilder<YEAR, true, DAY, COUNT>)
        ensures
            builder.year == self.year,
            builder.month == month,
            builder.day == self.day,
            builder.count == self.count,
    {
        ByDateBuilder { year: self.year, month, day: self.day, count: self.count }
    }
}

impl<const YEAR: bool, const MONTH: bool, const COUNT: bool> ByDateBuilder<
    YEAR,
    MONTH,
    false,
    COUNT,
> {
    /// Gives the day.
    pub fn day(self, day: u8) -> (builder: ByDateBuilder<YEAR, MONTH, true, COUNT>)
        ensures
            builder.year == self.year,
            builder.month == self.month,
            builder.day == day,
            builder.count == self.count,
    {
        ByDateBuilder { year: self.year, month: self.month, day, count: self.count }
    }
}

impl<const YEAR: bool, const MONTH: bool, const DAY: bool> ByDateBuilder<YEAR, MONTH, DAY, false> {
    /// Gives the number of phases asked for.
    pub fn count(self, count: u16) -> (builder: ByDateBuilder<YEAR, MONTH, DAY, true>)
        ensures
            builder.year == self.year,
            builder.month == self.month,
            builder.day == self.day,
            builder.count == count,
    {
        ByDateBuilder { year: self.year, month: self.month, day: self.day, count }
    }
}

impl ByDateBuilder<true, true, true, true> {
    /// Makes the request, or turns down a count below 1 or above 99.
    pub fn build(self) -> (args: Result<PhaseArgs, QueryError>)
        ensures
            args.is_ok() <==> is_count(self.count),
            args matches Ok(made) ==> made@ == (PhaseArgsView::ByDate {
                date: date_text(self.year, self.month, self.day),
                nump: self.count,
            }) && made@.is_valid(),
            args matches Err(error) ==> error == (QueryError::InvalidCount { count: self.count }),
    {
        PhaseArgs::by_date(self.year, self.month, self.day, self.count)
    }
}

impl PhaseArgs {
    /// Starts a request for phases by date, with no input given yet. The
    /// four numbers stand at zero until they are given.
    pub fn build_by_date() -> (builder: ByDateBuilder<false, false, false, false>)
        ensures
            builder.year == 0,
            builder.month == 0,
            builder.day == 0,
            builder.count == 0,
    {
        ByDateBuilder { year: 0, month: 0, day: 0, count: 0 }
    }
}

} // verus!
