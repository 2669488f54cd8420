//! The records that the service hands out and the parameters it takes in.

use crate::calendar::{CivilDate, Date};
use vstd::prelude::*;

verus! {

/// A single-precision number as the store delivers it: its IEEE 754 bit
/// pattern. The library carries averages through without computing on them.
#[derive(Clone, Copy, Debug, PartialEq, Eq, Structural)]
pub struct Real {
    pub bits: u32,
}

/// How to reach the store: all four values are mandatory.
#[derive(Clone, Debug, PartialEq, Eq)]
pub struct Config {
    pub dbhost: String,
    pub dbuser: String,
    pub dbpass: String,
    pub dbname: String,
}

/// The average delay of one line.
#[derive(Clone, Debug, PartialEq, Eq)]
pub struct LineDelay {
    pub line: String,
    pub avg_delay: Real,
}

/// The average delay of one line at one station.
#[derive(Clone, Debug, PartialEq, Eq)]
pub struct StationDelay {
    pub name: String,
    pub line: String,
    pub avg_delay: Real,
}

/// A notice about a station.
#[derive(Clone, Debug, PartialEq, Eq)]
pub struct StationInfo {
    pub name: String,
    pub short: String,
    pub long: String,
    pub date: Date,
}

/// A notice about an incident on a line.
#[derive(Clone, Debug, PartialEq, Eq)]
pub struct Incident {
    pub station: String,
    pub line: String,
    pub train_number: i32,
    pub incident: String,
    pub date: Date,
}

/// The one shape in which every failure is reported.
#[derive(Clone, Debug, PartialEq, Eq)]
pub struct JsonError {
    pub status: String,
    pub message: String,
}

/// The parameter of the requests that select one day.
#[derive(Clone, Debug, PartialEq, Eq)]
pub struct RequestDate {
    pub date: String,
}

/// The parameters of the requests that select a time range.
#[derive(Clone, Debug, PartialEq, Eq)]
pub struct RequestTimeFrame {
    pub lower_limit: String,
    pub upper_limit: String,
}

/// The parameter of the requests that select one line.
#[derive(Clone, Debug, PartialEq, Eq)]
pub struct RequestLine {
    pub line: String,
}

/// One record of any of the four shapes.
#[derive(Clone, Debug, PartialEq, Eq)]
pub enum Record {
    Line(LineDelay),
    Station(StationDelay),
    Info(StationInfo),
    Incident(Incident),
}

/// The mathematical model of a [`Record`].
pub enum RecordView {
    Line { line: Seq<char>, avg_delay: Real },
    Station { name: Seq<char>, line: Seq<char>, avg_delay: Real },
    Info { name: Seq<char>, short: Seq<char>, long: Seq<char>, date: CivilDate },
    Incident {
        station: Seq<char>,
        line: Seq<char>,
        train_number: int,
        incident: Seq<char>,
        date: CivilDate,
    },
}

impl View for LineDelay {
    type V = RecordView;

    open spec fn view(&self) -> RecordView {
        RecordView::Line { line: self.line@, avg_delay: self.avg_delay }
    }
}

impl View for StationDelay {
    type V = RecordView;

    open spec fn view(&self) -> RecordView {
        RecordView::Station { name: self.name@, line: self.line@, avg_delay: self.avg_delay }
    }
}

impl View for StationInfo {
    type V = RecordView;

    open spec fn view(&self) -> RecordView {
        RecordView::Info {
            name: self.name@,
            short: self.short@,
            long: self.long@,
            date: self.date@,
        }
    }
}

impl View for Incident {
    type V = RecordView;

    open spec fn view(&self) -> RecordView {
        RecordView::Incident {
            station: self.station@,
            line: self.line@,
            train_number: self.train_number as int,
            incident: self.incident@,
            date: self.date@,
        }
    }
}

impl View for Record {
    type V = RecordView;

    open spec fn view(&self) -> RecordView {
        match self {
            Record::Line(r) => r@,
            Record::Station(r) => r@,
            Record::Info(r) => r@,
            Record::Incident(r) => r@,
        }
    }
}

/// The models of a list of records, in the same order.
pub open spec fn record_views(records: Seq<Record>) -> Seq<RecordView> {
    Seq::new(records.len(), |i: int| records[i]@)
}

} // verus!
