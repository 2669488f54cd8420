//! Turning the rows that the store returns into typed records.
//!
//! A row is a list of cells. Each record shape expects a fixed type in each
//! of its leading columns; cells beyond them are ignored. The first column
//! that does not hold a value of its type is reported.

use crate::calendar::{CivilDate, Date};
use crate::models::{
    Incident, LineDelay, Real, Record, RecordView, StationDelay, StationInfo, record_views,
};
use vstd::prelude::*;

verus! {

/// The types of the columns that the records are read from.
#[derive(Clone, Copy, Debug, PartialEq, Eq, Structural)]
pub enum SqlType {
    Text,
    Real,
    Integer,
    Date,
}

/// One cell of a row.
#[derive(Clone, Debug, PartialEq, Eq)]
pub enum SqlValue {
    /// No value.
    Null,
    Text(String),
    Real(Real),
    Integer(i32),
    Date(Date),
    /// A value of a type that no record is read from.
    Other,
}

/// What is wrong with a cell.
#[derive(Clone, Copy, Debug, PartialEq, Eq, Structural)]
pub enum Defect {
    /// The row has no such column.
    Absent,
    /// The cell holds no value.
    Null,
    /// The cell holds a value of another type.
    WrongType,
}

/// Why a row could not be turned into a record.
#[derive(Clone, Copy, Debug, PartialEq, Eq, Structural)]
pub struct MappingError {
    pub column: usize,
    pub expected: SqlType,
    pub defect: Defect,
}

/// The four shapes of records.
#[derive(Clone, Copy, Debug, PartialEq, Eq, Structural)]
pub enum Shape {
    LineDelay,
    StationDelay,
    StationInfo,
    Incident,
}

impl SqlValue {
    /// The type of the value that the cell holds, if it holds one that a
    /// record can be read from.
    pub open spec fn sql_type(self) -> Option<SqlType> {
        match self {
            SqlValue::Text(_) => Some(SqlType::Text),
            SqlValue::Real(_) => Some(SqlType::Real),
            SqlValue::Integer(_) => Some(SqlType::Integer),
            SqlValue::Date(_) => Some(SqlType::Date),
            _ => None,
        }
    }
}

impl Shape {
    /// The types of the columns of a record of this shape, in order.
    pub open spec fn columns(self) -> Seq<SqlType> {
        match self {
            Shape::LineDelay => seq![SqlType::Text, SqlType::Real],
            Shape::StationDelay => seq![SqlType::Text, SqlType::Text, SqlType::Real],
            Shape::StationInfo => seq![
                SqlType::Text,
                SqlType::Text,
                SqlType::Text,
                SqlType::Date,
            ],
            Shape::Incident => seq![
                SqlType::Text,
                SqlType::Text,
                SqlType::Integer,
                SqlType::Text,
                SqlType::Date,
            ],
        }
    }
}

/// What is wrong with column `column` of `row` when a value of type
/// `expected` is to be read from it; `None` when nothing is.
pub open spec fn defect_at(row: Seq<SqlValue>, column: int, expected: SqlType) -> Option<Defect> {
    if column < 0 || column >= row.len() {
        Some(Defect::Absent)
    } else if row[column] is Null {
        Some(Defect::Null)
    } else if row[column].sql_type() == Some(expected) {
        None
    } else {
        Some(Defect::WrongType)
    }
}

/// The first defect of `row` among the columns `from`, `from + 1`, ... of
/// `columns`.
pub open spec fn first_defect(row: Seq<SqlValue>, columns: Seq<SqlType>, from: int) -> Option<
    MappingError,
>
    decreases columns.len() - from,
{
    if from < 0 || from >= columns.len() {
        None
    } else {
        match defect_at(row, from, columns[from]) {
            Some(defect) => Some(
                MappingError { column: from as usize, expected: columns[from], defect },
            ),
            None => first_defect(row, columns, from + 1),
        }
    }
}

/// The text in column `column`.
pub open spec fn text_at(row: Seq<SqlValue>, column: int) -> Seq<char> {
    match row[column] {
        SqlValue::Text(s) => s@,
        _ => Seq::empty(),
    }
}

/// The number in column `column`.
pub open spec fn real_at(row: Seq<SqlValue>, column: int) -> Real {
    match row[column] {
        SqlValue::Real(x) => x,
        _ => Real { bits: 0 },
    }
}

/// The integer in column `column`.
pub open spec fn integer_at(row: Seq<SqlValue>, column: int) -> int {
    match row[column] {
        SqlValue::Integer(x) => x as int,
        _ => 0,
    }
}

/// The date in column `column`.
pub open spec fn date_at(row: Seq<SqlValue>, column: int) -> CivilDate {
    match row[column] {
        SqlValue::Date(d) => d@,
        _ => CivilDate { year: 1, month: 1, day: 1 },
    }
}

/// The record that a row without defects holds: its cells, column by column.
pub open spec fn record_of(row: Seq<SqlValue>, shape: Shape) -> RecordView {
    match shape {
        Shape::LineDelay => RecordView::Line { line: text_at(row, 0), avg_delay: real_at(row, 1) },
        Shape::StationDelay => RecordView::Station {
            name: text_at(row, 0),
            line: text_at(row, 1),
            avg_delay: real_at(row, 2),
        },
        Shape::StationInfo => RecordView::Info {
            name: text_at(row, 0),
            short: text_at(row, 1),
            long: text_at(row, 2),
            date: date_at(row, 3),
        },
        Shape::Incident => RecordView::Incident {
            station: text_at(row, 0),
            line: text_at(row, 1),
            train_number: integer_at(row, 2),
            incident: text_at(row, 3),
            date: date_at(row, 4),
        },
    }
}

/// What mapping `row` to a record of shape `shape` gives: the record, or the
/// first defect among the shape's columns.
pub open spec fn mapped(row: Seq<SqlValue>, shape: Shape) -> Result<RecordView, MappingError> {
    match first_defect(row, shape.columns(), 0) {
        Some(e) => Err(e),
        None => Ok(record_of(row, shape)),
    }
}

/// What mapping a list of rows gives: the records in the order of the rows,
/// or the defect of the first row that has one.
pub open spec fn mapped_all(rows: Seq<Seq<SqlValue>>, shape: Shape) -> Result<
    Seq<RecordView>,
    MappingError,
>
    decreases rows.len(),
{
    if rows.len() == 0 {
        Ok(Seq::empty())
    } else {
        match mapped_all(rows.drop_last(), shape) {
            Err(e) => Err(e),
            Ok(records) => match mapped(rows.last(), shape) {
                Err(e) => Err(e),
                Ok(record) => Ok(records.push(record)),
            },
        }
    }
}

/// The rows as sequences of cells.
pub open spec fn row_views(rows: Seq<Vec<SqlValue>>) -> Seq<Seq<SqlValue>> {
    Seq::new(rows.len(), |i: int| rows[i]@)
}

/// Reads a text from column `column`.
pub fn read_text(row: &Vec<SqlValue>, column: usize) -> (r: Result<String, MappingError>)
    ensures
        match r {
            Ok(s) => defect_at(row@, column as int, SqlType::Text) is None && s@ == text_at(
                row@,
                column as int,
            ),
            Err(e) => defect_at(row@, column as int, SqlType::Text) == Some(e.defect) && e.column
                == column && e.expected == SqlType::Text,
        },
{
    if column >= row.len() {
        return Err(MappingError { column, expected: SqlType::Text, defect: Defect::Absent });
    }
    match &row[column] {
        SqlValue::Text(s) => Ok(s.clone()),
        SqlValue::Null => Err(
            MappingError { column, expected: SqlType::Text, defect: Defect::Null },
        ),
        _ => Err(MappingError { column, expected: SqlType::Text, defect: Defect::WrongType }),
    }
}

/// Reads a single-precision number from column `column`.
pub fn read_real(row: &Vec<SqlValue>, column: usize) -> (r: Result<Real, MappingError>)
    ensures
        match r {
            Ok(x) => defect_at(row@, column as int, SqlType::Real) is None && x == real_at(
                row@,
                column as int,
            ),
            Err(e) => defect_at(row@, column as int, SqlType::Real) == Some(e.defect) && e.column
                == column && e.expected == SqlType::Real,
        },
{
    if column >= row.len() {
        return Err(MappingError { column, expected: SqlType::Real, defect: Defect::Absent });
    }
    match &row[column] {
        SqlValue::Real(x) => Ok(*x),
        SqlValue::Null => Err(
            MappingError { column, expected: SqlType::Real, defect: Defect::Null },
        ),
        _ => Err(MappingError { column, expected: SqlType::Real, defect: Defect::WrongType }),
    }
}

/// Reads an integer from column `column`.
pub fn read_integer(row: &Vec<SqlValue>, column: usize) -> (r: Result<i32, MappingError>)
    ensures
        match r {
            Ok(x) => defect_at(row@, column as int, SqlType::Integer) is None && x == integer_at(
                row@,
                column as int,
            ),
            Err(e) => defect_at(row@, column as int, SqlType::Integer) == Some(e.defect)
                && e.column == column && e.expected == SqlType::Integer,
        },
{
    if column >= row.len() {
        return Err(MappingError { column, expected: SqlType::Integer, defect: Defect::Absent });
    }
    match &row[column] {
        SqlValue::Integer(x) => Ok(*x),
        SqlValue::Null => Err(
            MappingError { column, expected: SqlType::Integer, defect: Defect::Null },
        ),
        _ => Err(MappingError { column, expected: SqlType::Integer, defect: Defect::WrongType }),
    }
}

/// Reads a date from column `column`.
pub fn read_date(row: &Vec<SqlValue>, column: usize) -> (r: Result<Date, MappingError>)
    ensures
        match r {
            Ok(d) => defect_at(row@, column as int, SqlType::Date) is None && d@ == date_at(
                row@,
                column as int,
            ),
            Err(e) => defect_at(row@, column as int, SqlType::Date) == Some(e.defect) && e.column
                == column && e.expected == SqlType::Date,
        },
{
    if column >= row.len() {
        return Err(MappingError { column, expected: SqlType::Date, defect: Defect::Absent });
    }
    match &row[column] {
        SqlValue::Date(d) => Ok(*d),
        SqlValue::Null => Err(
            MappingError { column, expected: SqlType::Date, defect: Defect::Null },
        ),
        _ => Err(MappingError { column, expected: SqlType::Date, defect: Defect::WrongType }),
    }
}

/// Reads the average delay of a line from a row of two columns.
pub fn map_line_delay(row: &Vec<SqlValue>) -> (r: Result<LineDelay, MappingError>)
    ensures
        match r {
            Ok(record) => mapped(row@, Shape::LineDelay) == Ok::<RecordView, MappingError>(
                record@,
            ),
            Err(e) => mapped(row@, Shape::LineDelay) == Err::<RecordView, MappingError>(e),
        },
{
    proof {
        reveal_with_fuel(first_defect, 3);
    }
    let line = match read_text(row, 0) {
        Ok(v) => v,
        Err(e) => {
            return Err(e);
        },
    };
    let avg_delay = match read_real(row, 1) {
        Ok(v) => v,
        Err(e) => {
            return Err(e);
        },
    };
    Ok(LineDelay { line, avg_delay })
}

/// Reads the average delay of a line at a station from a row of three columns.
pub fn map_station_delay(row: &Vec<SqlValue>) -> (r: Result<StationDelay, MappingError>)
    ensures
        match r {
            Ok(record) => mapped(row@, Shape::StationDelay) == Ok::<RecordView, MappingError>(
                record@,
            ),
            Err(e) => mapped(row@, Shape::StationDelay) == Err::<RecordView, MappingError>(e),
        },
{
    proof {
        reveal_with_fuel(first_defect, 4);
    }
    let name = match read_text(row, 0) {
        Ok(v) => v,
        Err(e) => {
            return Err(e);
        },
    };
    let line = match read_text(row, 1) {
        Ok(v) => v,
        Err(e) => {
            return Err(e);
        },
    };
    let avg_delay = match read_real(row, 2) {
        Ok(v) => v,
        Err(e) => {
            return Err(e);
        },
    };
    Ok(StationDelay { name, line, avg_delay })
}

/// Reads a station notice from a row of four columns.
pub fn map_station_info(row: &Vec<SqlValue>) -> (r: Result<StationInfo, MappingError>)
    ensures
        match r {
            Ok(record) => mapped(row@, Shape::StationInfo) == Ok::<RecordView, MappingError>(
                record@,
            ),
            Err(e) => mapped(row@, Shape::StationInfo) == Err::<RecordView, MappingError>(e),
        },
{
    proof {
        reveal_with_fuel(first_defect, 5);
    }
    let name = match read_text(row, 0) {
        Ok(v) => v,
        Err(e) => {
            return Err(e);
        },
    };
    let short = match read_text(row, 1) {
        Ok(v) => v,
        Err(e) => {
            return Err(e);
        },
    };
    let long = match read_text(row, 2) {
        Ok(v) => v,
        Err(e) => {
            return Err(e);
        },
    };
    let date = match read_date(row, 3) {
        Ok(v) => v,
        Err(e) => {
            return Err(e);
        },
    };
    Ok(StationInfo { name, short, long, date })
}

/// Reads an incident notice from a row of five columns.
pub fn map_incident(row: &Vec<SqlValue>) -> (r: Result<Incident, MappingError>)
    ensures
        match r {
            Ok(record) => mapped(row@, Shape::Incident) == Ok::<RecordView, MappingError>(
                record@,
            ),
            Err(e) => mapped(row@, Shape::Incident) == Err::<RecordView, MappingError>(e),
        },
{
    proof {
        reveal_with_fuel(first_defect, 6);
    }
    let station = match read_text(row, 0) {
        Ok(v) => v,
        Err(e) => {
            return Err(e);
        },
    };
    let line = match read_text(row, 1) {
        Ok(v) => v,
        Err(e) => {
            return Err(e);
        },
    };
    let train_number = match read_integer(row, 2) {
        Ok(v) => v,
        Err(e) => {
            return Err(e);
        },
    };
    let incident = match read_text(row, 3) {
        Ok(v) => v,
        Err(e) => {
            return Err(e);
        },
    };
    let date = match read_date(row, 4) {
        Ok(v) => v,
        Err(e) => {
            return Err(e);
        },
    };
    Ok(Incident { station, line, train_number, incident, date })
}

/// Reads a record of shape `shape` from `row`.
pub fn map_row(shape: Shape, row: &Vec<SqlValue>) -> (r: Result<Record, MappingError>)
    ensures
        match r {
            Ok(record) => mapped(row@, shape) == Ok::<RecordView, MappingError>(record@),
            Err(e) => mapped(row@, shape) == Err::<RecordView, MappingError>(e),
        },
{
    match shape {
        Shape::LineDelay => match map_line_delay(row) {
            Ok(record) => Ok(Record::Line(record)),
            Err(e) => Err(e),
        },
        Shape::StationDelay => match map_station_delay(row) {
            Ok(record) => Ok(Record::Station(record)),
            Err(e) => Err(e),
        },
        Shape::StationInfo => match map_station_info(row) {
            Ok(record) => Ok(Record::Info(record)),
            Err(e) => Err(e),
        },
        Shape::Incident => match map_incident(row) {
            Ok(record) => Ok(Record::Incident(record)),
            Err(e) => Err(e),
        },
    }
}

/// Reads one record of shape `shape` from each row, in the order of the
/// rows; stops at the first row with a defect and reports that defect.
pub fn map_rows(shape: Shape, rows: &Vec<Vec<SqlValue>>) -> (r: Result<Vec<Record>, MappingError>)
    ensures
        match r {
            Ok(records) => mapped_all(row_views(rows@), shape) == Ok::<
                Seq<RecordView>,
                MappingError,
            >(record_views(records@)),
            Err(e) => mapped_all(row_views(rows@), shape) == Err::<Seq<RecordView>, MappingError>(
                e,
            ),
        },
{
    let mut records: Vec<Record> = Vec::new();
    let mut i: usize = 0;
    assert(row_views(rows@).take(0) =~= Seq::<Seq<SqlValue>>::empty());
    assert(record_views(records@) =~= Seq::<RecordView>::empty());
    while i < rows.len()
        invariant
            i <= rows.len(),
            mapped_all(row_views(rows@).take(i as int), shape) == Ok::<
                Seq<RecordView>,
                MappingError,
            >(record_views(records@)),
        decreases rows.len() - i,
    {
        let ghost done = row_views(rows@).take(i as int);
        let ghost next = row_views(rows@).take(i + 1);
        assert(next.drop_last() =~= done);
        assert(next.last() == rows@[i as int]@);
        match map_row(shape, &rows[i]) {
            Ok(record) => {
                let ghost before = record_views(records@);
                records.push(record);
                assert(record_views(records@) =~= before.push(record@));
            },
            Err(e) => {
                proof {
                    lemma_defect_stays(row_views(rows@), shape, i + 1, e);
                }
                return Err(e);
            },
        }
        i = i + 1;
    }
    assert(row_views(rows@).take(i as int) =~= row_views(rows@));
    Ok(records)
}

/// A defect found among the first `n` rows is the defect of the whole list.
proof fn lemma_defect_stays(rows: Seq<Seq<SqlValue>>, shape: Shape, n: int, e: MappingError)
    requires
        0 <= n <= rows.len(),
        mapped_all(rows.take(n), shape) == Err::<Seq<RecordView>, MappingError>(e),
    ensures
        mapped_all(rows, shape) == Err::<Seq<RecordView>, MappingError>(e),
    decreases rows.len() - n,
{
    if n < rows.len() {
        assert(rows.take(n + 1).drop_last() =~= rows.take(n));
        lemma_defect_stays(rows, shape, n + 1, e);
    } else {
        assert(rows.take(n) =~= rows);
    }
}

} // verus!
