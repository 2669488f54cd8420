//! Filters: which records a request asks for.
//!
//! A filter is read from the raw parameters of a request and checked before
//! anything else is done with them. What a filter lets through is defined
//! over the timestamp and the line of a record.

use crate::calendar::{CivilDate, Date, Moment, Timestamp};
use crate::grammar::{date_of, is_line_code, line_code, moment_of, parse_date, parse_timestamp};
use crate::models::{RequestDate, RequestLine, RequestTimeFrame};
use vstd::prelude::*;

verus! {

/// The parameters that a request can carry.
#[derive(Clone, Copy, Debug, PartialEq, Eq, Structural)]
pub enum Parameter {
    Date,
    LowerLimit,
    UpperLimit,
    Line,
}

/// Why the parameters of a request were rejected.
#[derive(Clone, Copy, Debug, PartialEq, Eq, Structural)]
pub enum ValidationError {
    /// A parameter that the request needs is not there.
    Missing(Parameter),
    /// A parameter is not written in its form.
    Malformed(Parameter),
}

/// The five kinds of filters.
#[derive(Clone, Copy, Debug, PartialEq, Eq, Structural)]
pub enum FilterKind {
    All,
    ExactDate,
    TimeRange,
    PrimeTime,
    LineAndDate,
}

/// A checked filter.
#[derive(Clone, Debug, PartialEq, Eq)]
pub enum Filter {
    /// Every record.
    All,
    /// The records of one day.
    ExactDate(Date),
    /// The records after the first timestamp, up to and including the second.
    TimeRange(Timestamp, Timestamp),
    /// The records of the peak hours of working days.
    PrimeTime,
    /// The records of one line on one day.
    LineAndDate(String, Date),
}

/// The mathematical model of a [`Filter`].
pub enum FilterView {
    All,
    ExactDate(CivilDate),
    TimeRange(Moment, Moment),
    PrimeTime,
    LineAndDate(Seq<char>, CivilDate),
}

/// Whether `at` lies in the peak hours, from 06:00 to 09:00 or from 16:00 to
/// 19:00, the later bound excluded, of a day from Monday to Friday.
pub open spec fn is_prime_time(at: Moment) -> bool {
    let second = at.time.second_of_day();
    &&& (6 * 3600 <= second < 9 * 3600 || 16 * 3600 <= second < 19 * 3600)
    &&& at.date.weekday().is_working_day()
}

impl FilterView {
    /// The kind of the filter.
    pub open spec fn kind(self) -> FilterKind {
        match self {
            FilterView::All => FilterKind::All,
            FilterView::ExactDate(_) => FilterKind::ExactDate,
            FilterView::TimeRange(_, _) => FilterKind::TimeRange,
            FilterView::PrimeTime => FilterKind::PrimeTime,
            FilterView::LineAndDate(_, _) => FilterKind::LineAndDate,
        }
    }

    /// Whether the filter lets a record of line `line` with timestamp `at`
    /// through, be it an observation or a notice. A day is compared with the
    /// day of the timestamp, a time range with the timestamp itself.
    pub open spec fn admits(self, line: Seq<char>, at: Moment) -> bool {
        match self {
            FilterView::All => true,
            FilterView::ExactDate(date) => at.date == date,
            FilterView::TimeRange(lower, upper) => lower.instant() < at.instant() <= upper.instant(),
            FilterView::PrimeTime => is_prime_time(at),
            FilterView::LineAndDate(code, date) => line == code && at.date == date,
        }
    }

    /// The dates, timestamps and line codes in the filter are valid.
    pub open spec fn valid(self) -> bool {
        match self {
            FilterView::All => true,
            FilterView::ExactDate(date) => date.valid(),
            FilterView::TimeRange(lower, upper) => lower.valid() && upper.valid(),
            FilterView::PrimeTime => true,
            FilterView::LineAndDate(code, date) => is_line_code(code) && date.valid(),
        }
    }
}

impl View for Filter {
    type V = FilterView;

    open spec fn view(&self) -> FilterView {
        match self {
            Filter::All => FilterView::All,
            Filter::ExactDate(date) => FilterView::ExactDate(date@),
            Filter::TimeRange(lower, upper) => FilterView::TimeRange(lower@, upper@),
            Filter::PrimeTime => FilterView::PrimeTime,
            Filter::LineAndDate(code, date) => FilterView::LineAndDate(code@, date@),
        }
    }
}

/// The raw parameters of a request, each as it was sent or absent.
#[derive(Clone, Debug, PartialEq, Eq)]
pub struct RawParams {
    pub date: Option<String>,
    pub lower_limit: Option<String>,
    pub upper_limit: Option<String>,
    pub line: Option<String>,
}

/// The mathematical model of [`RawParams`].
pub struct RawView {
    pub date: Option<Seq<char>>,
    pub lower_limit: Option<Seq<char>>,
    pub upper_limit: Option<Seq<char>>,
    pub line: Option<Seq<char>>,
}

/// The text of a parameter, if it was sent.
pub open spec fn text_view(text: Option<String>) -> Option<Seq<char>> {
    match text {
        Some(s) => Some(s@),
        None => None,
    }
}

impl View for RawParams {
    type V = RawView;

    open spec fn view(&self) -> RawView {
        RawView {
            date: text_view(self.date),
            lower_limit: text_view(self.lower_limit),
            upper_limit: text_view(self.upper_limit),
            line: text_view(self.line),
        }
    }
}

/// The date that `text` writes.
pub open spec fn checked_date(text: Seq<char>) -> Result<CivilDate, ValidationError> {
    match date_of(text) {
        None => Err(ValidationError::Malformed(Parameter::Date)),
        Some(date) => Ok(date),
    }
}

/// The two timestamps that `lower` and `upper` write. The lower limit is
/// checked first.
pub open spec fn checked_limits(lower: Seq<char>, upper: Seq<char>) -> Result<
    (Moment, Moment),
    ValidationError,
> {
    match moment_of(lower) {
        None => Err(ValidationError::Malformed(Parameter::LowerLimit)),
        Some(from) => match moment_of(upper) {
            None => Err(ValidationError::Malformed(Parameter::UpperLimit)),
            Some(to) => Ok((from, to)),
        },
    }
}

/// The line code that `text` writes.
pub open spec fn checked_line(text: Seq<char>) -> Result<Seq<char>, ValidationError> {
    if is_line_code(text) {
        Ok(text)
    } else {
        Err(ValidationError::Malformed(Parameter::Line))
    }
}

/// The filter of kind `kind` that the parameters `raw` give, or the first
/// thing that is wrong with them. A parameter that the kind needs and that
/// was not sent is reported before any malformed one; within each of the two
/// groups the order is date, lower limit, upper limit, line. Parameters that
/// the kind does not use are ignored.
pub open spec fn filter_of(kind: FilterKind, raw: RawView) -> Result<FilterView, ValidationError> {
    match kind {
        FilterKind::All => Ok(FilterView::All),
        FilterKind::PrimeTime => Ok(FilterView::PrimeTime),
        FilterKind::ExactDate => match raw.date {
            None => Err(ValidationError::Missing(Parameter::Date)),
            Some(text) => match checked_date(text) {
                Err(e) => Err(e),
                Ok(date) => Ok(FilterView::ExactDate(date)),
            },
        },
        FilterKind::TimeRange => match (raw.lower_limit, raw.upper_limit) {
            (None, _) => Err(ValidationError::Missing(Parameter::LowerLimit)),
            (Some(_), None) => Err(ValidationError::Missing(Parameter::UpperLimit)),
            (Some(lower), Some(upper)) => match checked_limits(lower, upper) {
                Err(e) => Err(e),
                Ok(limits) => Ok(FilterView::TimeRange(limits.0, limits.1)),
            },
        },
        FilterKind::LineAndDate => match (raw.date, raw.line) {
            (None, _) => Err(ValidationError::Missing(Parameter::Date)),
            (Some(_), None) => Err(ValidationError::Missing(Parameter::Line)),
            (Some(date_text), Some(line_text)) => match checked_date(date_text) {
                Err(e) => Err(e),
                Ok(date) => match checked_line(line_text) {
                    Err(e) => Err(e),
                    Ok(code) => Ok(FilterView::LineAndDate(code, date)),
                },
            },
        },
    }
}

impl RequestDate {
    /// The date that the parameter writes.
    pub fn parse(&self) -> (r: Result<Date, ValidationError>)
        ensures
            match r {
                Ok(date) => checked_date(self.date@) == Ok::<CivilDate, ValidationError>(date@),
                Err(e) => checked_date(self.date@) == Err::<CivilDate, ValidationError>(e),
            },
    {
        match parse_date(self.date.as_str()) {
            Some(date) => Ok(date),
            None => Err(ValidationError::Malformed(Parameter::Date)),
        }
    }
}

impl RequestTimeFrame {
    /// The two timestamps that the parameters write, the lower limit first.
    /// The lower limit is checked first.
    pub fn parse(&self) -> (r: Result<(Timestamp, Timestamp), ValidationError>)
        ensures
            match r {
                Ok(limits) => checked_limits(self.lower_limit@, self.upper_limit@) == Ok::<
                    (Moment, Moment),
                    ValidationError,
                >((limits.0@, limits.1@)),
                Err(e) => checked_limits(self.lower_limit@, self.upper_limit@) == Err::<
                    (Moment, Moment),
                    ValidationError,
                >(e),
            },
    {
        let lower = match parse_timestamp(self.lower_limit.as_str()) {
            Some(at) => at,
            None => {
                return Err(ValidationError::Malformed(Parameter::LowerLimit));
            },
        };
        let upper = match parse_timestamp(self.upper_limit.as_str()) {
            Some(at) => at,
            None => {
                return Err(ValidationError::Malformed(Parameter::UpperLimit));
            },
        };
        Ok((lower, upper))
    }
}

impl RequestLine {
    /// The line code that the parameter writes.
    pub fn parse(&self) -> (r: Result<String, ValidationError>)
        ensures
            match r {
                Ok(code) => checked_line(self.line@) == Ok::<Seq<char>, ValidationError>(code@),
                Err(e) => checked_line(self.line@) == Err::<Seq<char>, ValidationError>(e),
            },
    {
        if line_code(self.line.as_str()) {
            Ok(self.line.clone())
        } else {
            Err(ValidationError::Malformed(Parameter::Line))
        }
    }
}

impl RawParams {
    /// The date parameter, if it was sent.
    pub fn request_date(&self) -> (r: Result<RequestDate, ValidationError>)
        ensures
            match r {
                Ok(request) => self@.date == Some(request.date@),
                Err(e) => self@.date is None && e == ValidationError::Missing(Parameter::Date),
            },
    {
        match &self.date {
            Some(text) => Ok(RequestDate { date: text.clone() }),
            None => Err(ValidationError::Missing(Parameter::Date)),
        }
    }

    /// The two limits of a time range, if both were sent; else the first
    /// that is missing.
    pub fn request_time_frame(&self) -> (r: Result<RequestTimeFrame, ValidationError>)
        ensures
            match r {
                Ok(request) => self@.lower_limit == Some(request.lower_limit@)
                    && self@.upper_limit == Some(request.upper_limit@),
                Err(e) => if self@.lower_limit is None {
                    e == ValidationError::Missing(Parameter::LowerLimit)
                } else {
                    self@.upper_limit is None && e == ValidationError::Missing(
                        Parameter::UpperLimit,
                    )
                },
            },
    {
        let lower_limit = match &self.lower_limit {
            Some(text) => text.clone(),
            None => {
                return Err(ValidationError::Missing(Parameter::LowerLimit));
            },
        };
        let upper_limit = match &self.upper_limit {
            Some(text) => text.clone(),
            None => {
                return Err(ValidationError::Missing(Parameter::UpperLimit));
            },
        };
        Ok(RequestTimeFrame { lower_limit, upper_limit })
    }

    /// The line parameter, if it was sent.
    pub fn request_line(&self) -> (r: Result<RequestLine, ValidationError>)
        ensures
            match r {
                Ok(request) => self@.line == Some(request.line@),
                Err(e) => self@.line is None && e == ValidationError::Missing(Parameter::Line),
            },
    {
        match &self.line {
            Some(text) => Ok(RequestLine { line: text.clone() }),
            None => Err(ValidationError::Missing(Parameter::Line)),
        }
    }
}

/// Reads and checks the filter of kind `kind` from the parameters `raw`.
pub fn parse_filter(kind: FilterKind, raw: &RawParams) -> (r: Result<Filter, ValidationError>)
    ensures
        match r {
            Ok(filter) => filter_of(kind, raw@) == Ok::<FilterView, ValidationError>(filter@),
            Err(e) => filter_of(kind, raw@) == Err::<FilterView, ValidationError>(e),
        },
        r matches Ok(filter) ==> filter@.valid() && filter@.kind() == kind,
{
    match kind {
        FilterKind::All => Ok(Filter::All),
        FilterKind::PrimeTime => Ok(Filter::PrimeTime),
        FilterKind::ExactDate => {
            let request = match raw.request_date() {
                Ok(request) => request,
                Err(e) => {
                    return Err(e);
                },
            };
            match request.parse() {
                Ok(date) => Ok(Filter::ExactDate(date)),
                Err(e) => Err(e),
            }
        },
        FilterKind::TimeRange => {
            let request = match raw.request_time_frame() {
                Ok(request) => request,
                Err(e) => {
                    return Err(e);
                },
            };
            match request.parse() {
                Ok(limits) => Ok(Filter::TimeRange(limits.0, limits.1)),
                Err(e) => Err(e),
            }
        },
        FilterKind::LineAndDate => {
            let request = match raw.request_date() {
                Ok(request) => request,
                Err(e) => {
                    return Err(e);
                },
            };
            let line = match raw.request_line() {
                Ok(request) => request,
                Err(e) => {
                    return Err(e);
                },
            };
            let date = match request.parse() {
                Ok(date) => date,
                Err(e) => {
                    return Err(e);
                },
            };
            match line.parse() {
                Ok(code) => Ok(Filter::LineAndDate(code, date)),
                Err(e) => Err(e),
            }
        },
    }
}

impl Filter {
    /// The kind of the filter.
    pub fn kind(&self) -> (r: FilterKind)
        ensures
            r == self@.kind(),
    {
        match self {
            Filter::All => FilterKind::All,
            Filter::ExactDate(_) => FilterKind::ExactDate,
            Filter::TimeRange(_, _) => FilterKind::TimeRange,
            Filter::PrimeTime => FilterKind::PrimeTime,
            Filter::LineAndDate(_, _) => FilterKind::LineAndDate,
        }
    }

    /// Whether the filter lets a record of line `line` with timestamp `at`
    /// through, be it an observation or a notice.
    pub fn admits(&self, line: &String, at: &Timestamp) -> (r: bool)
        ensures
            r == self@.admits(line@, at@),
    {
        match self {
            Filter::All => true,
            Filter::ExactDate(date) => at.date.same_day(date),
            Filter::TimeRange(lower, upper) => lower.before(at) && at.not_after(upper),
            Filter::PrimeTime => prime_time(at),
            Filter::LineAndDate(code, date) => *line == *code && at.date.same_day(date),
        }
    }
}

/// Whether `at` lies in the peak hours of a working day.
pub fn prime_time(at: &Timestamp) -> (r: bool)
    ensures
        r == is_prime_time(at@),
{
    let second: u32 = at.time.second_of_day();
    let peak = (second >= 6 * 3600 && second < 9 * 3600) || (second >= 16 * 3600 && second < 19
        * 3600);
    peak && at.date.weekday().working_day()
}

/// The filter of one day lets a record through exactly when the day of
/// its timestamp is that day, whatever its time of day.
pub proof fn lemma_admits_exact_date(date: CivilDate, line: Seq<char>, at: Moment)
    ensures
        FilterView::ExactDate(date).admits(line, at) <==> at.date == date,
{
}

/// The filter of a time range lets a record through exactly when its
/// timestamp lies after the lower limit and not after the upper limit. A
/// record at the lower limit never passes; one at the upper limit passes if
/// the lower limit lies before the upper.
pub proof fn lemma_admits_time_range(lower: Moment, upper: Moment, line: Seq<char>, at: Moment)
    ensures
        FilterView::TimeRange(lower, upper).admits(line, at) <==> lower.instant() < at.instant()
            <= upper.instant(),
        !FilterView::TimeRange(lower, upper).admits(line, lower),
        lower.instant() < upper.instant() ==> FilterView::TimeRange(lower, upper).admits(
            line,
            upper,
        ),
{
}

} // verus!
