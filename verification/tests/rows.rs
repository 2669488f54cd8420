use backend::calendar::Date;
use backend::models::{Incident, LineDelay, Real, Record, StationDelay, StationInfo};
use backend::rows::{
    map_incident, map_line_delay, map_row, map_rows, map_station_delay, map_station_info,
    read_date, read_integer, read_real, read_text, Defect, MappingError, Shape, SqlType, SqlValue,
};

fn text(s: &str) -> SqlValue {
    SqlValue::Text(String::from(s))
}

fn number(x: f32) -> SqlValue {
    SqlValue::Real(Real { bits: x.to_bits() })
}

fn date(year: u16, month: u8, day: u8) -> Date {
    Date::new(year, month, day).unwrap()
}

fn error(column: usize, expected: SqlType, defect: Defect) -> MappingError {
    MappingError { column, expected, defect }
}

#[test]
fn a_line_delay_is_read() {
    let row = vec![text("1"), number(2.5)];
    let record = map_line_delay(&row).unwrap();
    assert_eq!(record.line, "1");
    assert_eq!(f32::from_bits(record.avg_delay.bits), 2.5);
}

#[test]
fn a_station_delay_is_read() {
    let row = vec![text("A"), text("1"), number(5.0)];
    assert_eq!(
        map_station_delay(&row),
        Ok(StationDelay {
            name: String::from("A"),
            line: String::from("1"),
            avg_delay: Real { bits: 5.0f32.to_bits() },
        })
    );
}

#[test]
fn a_station_info_is_read() {
    let row = vec![text("A"), text("short"), text("long"), SqlValue::Date(date(2024, 3, 10))];
    assert_eq!(
        map_station_info(&row),
        Ok(StationInfo {
            name: String::from("A"),
            short: String::from("short"),
            long: String::from("long"),
            date: date(2024, 3, 10),
        })
    );
}

#[test]
fn an_incident_is_read() {
    let row = vec![
        text("A"),
        text("1"),
        SqlValue::Integer(4711),
        text("signal failure"),
        SqlValue::Date(date(2024, 3, 10)),
    ];
    assert_eq!(
        map_incident(&row),
        Ok(Incident {
            station: String::from("A"),
            line: String::from("1"),
            train_number: 4711,
            incident: String::from("signal failure"),
            date: date(2024, 3, 10),
        })
    );
}

#[test]
fn columns_beyond_the_shape_are_ignored() {
    let row = vec![text("1"), number(2.5), SqlValue::Null, SqlValue::Other];
    assert!(map_line_delay(&row).is_ok());
}

#[test]
fn a_null_average_is_a_defect() {
    let row = vec![text("1"), SqlValue::Null];
    assert_eq!(map_line_delay(&row), Err(error(1, SqlType::Real, Defect::Null)));
    let row = vec![text("A"), text("1"), SqlValue::Null];
    assert_eq!(map_station_delay(&row), Err(error(2, SqlType::Real, Defect::Null)));
}

#[test]
fn a_train_number_that_is_no_number_is_a_defect() {
    let row = vec![
        text("A"),
        text("1"),
        text("forty-seven"),
        text("signal failure"),
        SqlValue::Date(date(2024, 3, 10)),
    ];
    assert_eq!(map_incident(&row), Err(error(2, SqlType::Integer, Defect::WrongType)));
}

#[test]
fn a_short_row_is_a_defect() {
    assert_eq!(map_line_delay(&vec![]), Err(error(0, SqlType::Text, Defect::Absent)));
    assert_eq!(map_line_delay(&vec![text("1")]), Err(error(1, SqlType::Real, Defect::Absent)));
    assert_eq!(
        map_station_info(&vec![text("A"), text("b"), text("c")]),
        Err(error(3, SqlType::Date, Defect::Absent))
    );
}

#[test]
fn the_first_defect_is_reported() {
    let row = vec![SqlValue::Null, SqlValue::Other, SqlValue::Null];
    assert_eq!(map_station_delay(&row), Err(error(0, SqlType::Text, Defect::Null)));
    let row = vec![text("A"), SqlValue::Other, SqlValue::Null];
    assert_eq!(map_station_delay(&row), Err(error(1, SqlType::Text, Defect::WrongType)));
    let row = vec![text("A"), text("b"), number(1.0), SqlValue::Integer(1)];
    assert_eq!(map_station_info(&row), Err(error(2, SqlType::Text, Defect::WrongType)));
    let row = vec![text("A"), text("b"), text("c"), SqlValue::Integer(1)];
    assert_eq!(map_station_info(&row), Err(error(3, SqlType::Date, Defect::WrongType)));
    let row = vec![text("A"), text("1"), SqlValue::Integer(1), text("x"), SqlValue::Null];
    assert_eq!(map_incident(&row), Err(error(4, SqlType::Date, Defect::Null)));
}

#[test]
fn single_cells_are_read() {
    let row = vec![
        text("a"),
        number(1.5),
        SqlValue::Integer(-3),
        SqlValue::Date(date(2024, 1, 1)),
        SqlValue::Null,
        SqlValue::Other,
    ];
    assert_eq!(read_text(&row, 0), Ok(String::from("a")));
    assert_eq!(read_real(&row, 1), Ok(Real { bits: 1.5f32.to_bits() }));
    assert_eq!(read_integer(&row, 2), Ok(-3));
    assert_eq!(read_date(&row, 3), Ok(date(2024, 1, 1)));
    assert_eq!(read_text(&row, 1), Err(error(1, SqlType::Text, Defect::WrongType)));
    assert_eq!(read_real(&row, 0), Err(error(0, SqlType::Real, Defect::WrongType)));
    assert_eq!(read_integer(&row, 4), Err(error(4, SqlType::Integer, Defect::Null)));
    assert_eq!(read_date(&row, 5), Err(error(5, SqlType::Date, Defect::WrongType)));
    assert_eq!(read_date(&row, 6), Err(error(6, SqlType::Date, Defect::Absent)));
    assert_eq!(read_text(&row, usize::MAX), Err(error(usize::MAX, SqlType::Text, Defect::Absent)));
}

#[test]
fn a_row_is_read_in_the_shape_that_is_asked_for() {
    let row = vec![text("A"), text("1"), number(5.0)];
    assert_eq!(
        map_row(Shape::StationDelay, &row),
        Ok(Record::Station(StationDelay {
            name: String::from("A"),
            line: String::from("1"),
            avg_delay: Real { bits: 5.0f32.to_bits() },
        }))
    );
    assert_eq!(
        map_row(Shape::LineDelay, &row),
        Err(error(1, SqlType::Real, Defect::WrongType))
    );
    assert_eq!(
        map_row(Shape::StationInfo, &row),
        Err(error(2, SqlType::Text, Defect::WrongType))
    );
    assert_eq!(
        map_row(Shape::Incident, &row),
        Err(error(2, SqlType::Integer, Defect::WrongType))
    );
}

#[test]
fn rows_are_read_in_their_order() {
    let rows = vec![
        vec![text("9"), number(1.0)],
        vec![text("1"), number(2.0)],
        vec![text("5"), number(3.0)],
    ];
    let records = map_rows(Shape::LineDelay, &rows).unwrap();
    let expected: Vec<Record> = [("9", 1.0f32), ("1", 2.0), ("5", 3.0)]
        .iter()
        .map(|(line, avg)| {
            Record::Line(LineDelay {
                line: String::from(*line),
                avg_delay: Real { bits: avg.to_bits() },
            })
        })
        .collect();
    assert_eq!(records, expected);
}

#[test]
fn no_rows_give_no_records() {
    assert_eq!(map_rows(Shape::Incident, &vec![]), Ok(vec![]));
}

#[test]
fn the_defect_of_the_first_bad_row_is_reported() {
    let rows = vec![
        vec![text("9"), number(1.0)],
        vec![text("1"), SqlValue::Null],
        vec![SqlValue::Null, number(3.0)],
    ];
    assert_eq!(map_rows(Shape::LineDelay, &rows), Err(error(1, SqlType::Real, Defect::Null)));
}
