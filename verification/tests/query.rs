use backend::calendar::{Date, TimeOfDay, Timestamp};
use backend::filter::{Filter, FilterKind};
use backend::query::{bound_values, build_query, statement_text, Endpoint, SqlParam, Template};
use backend::rows::Shape;

const ALL: [Endpoint; 12] = [
    Endpoint::Stations,
    Endpoint::StationsDate,
    Endpoint::StationsTimeframe,
    Endpoint::StationsPrime,
    Endpoint::Lines,
    Endpoint::LinesDate,
    Endpoint::LinesTimeframe,
    Endpoint::LinesPrime,
    Endpoint::Infos,
    Endpoint::InfosDate,
    Endpoint::InfosTimeframe,
    Endpoint::Incidents,
];

fn day(year: u16, month: u8, day: u8) -> Date {
    Date::new(year, month, day).unwrap()
}

fn at(year: u16, month: u8, d: u8, hour: u8) -> Timestamp {
    Timestamp::new(day(year, month, d), TimeOfDay::new(hour, 0, 0).unwrap())
}

fn filters() -> Vec<Filter> {
    vec![
        Filter::All,
        Filter::ExactDate(day(2024, 3, 10)),
        Filter::TimeRange(at(2024, 3, 10, 8), at(2024, 3, 11, 8)),
        Filter::PrimeTime,
        Filter::LineAndDate(String::from("S1"), day(2024, 3, 10)),
    ]
}

#[test]
fn each_endpoint_has_its_path() {
    let paths: Vec<&str> = ALL.iter().map(|e| e.path()).collect();
    assert_eq!(
        paths,
        vec![
            "/stations",
            "/stations/date",
            "/stations/timeframe",
            "/stations/prime",
            "/lines",
            "/lines/date",
            "/lines/timeframe",
            "/lines/prime",
            "/infos",
            "/infos/date",
            "/infos/timeframe",
            "/incidents",
        ]
    );
}

#[test]
fn each_endpoint_has_its_template() {
    let t = |shape, filter| Template { shape, filter };
    assert_eq!(Endpoint::Stations.template(), t(Shape::StationDelay, FilterKind::All));
    assert_eq!(Endpoint::StationsDate.template(), t(Shape::StationDelay, FilterKind::ExactDate));
    assert_eq!(
        Endpoint::StationsTimeframe.template(),
        t(Shape::StationDelay, FilterKind::TimeRange)
    );
    assert_eq!(Endpoint::StationsPrime.template(), t(Shape::StationDelay, FilterKind::PrimeTime));
    assert_eq!(Endpoint::Lines.template(), t(Shape::LineDelay, FilterKind::All));
    assert_eq!(Endpoint::LinesDate.template(), t(Shape::LineDelay, FilterKind::ExactDate));
    assert_eq!(Endpoint::LinesTimeframe.template(), t(Shape::LineDelay, FilterKind::TimeRange));
    assert_eq!(Endpoint::LinesPrime.template(), t(Shape::LineDelay, FilterKind::PrimeTime));
    assert_eq!(Endpoint::Infos.template(), t(Shape::StationInfo, FilterKind::All));
    assert_eq!(Endpoint::InfosDate.template(), t(Shape::StationInfo, FilterKind::ExactDate));
    assert_eq!(Endpoint::InfosTimeframe.template(), t(Shape::StationInfo, FilterKind::TimeRange));
    assert_eq!(Endpoint::Incidents.template(), t(Shape::Incident, FilterKind::LineAndDate));
}

/// The expression for the line, written out.
const LINE: &str = r"coalesce(substring(transportation_name from '^[\u0009-\u000D\u0020\u0085\u00A0\u1680\u2000-\u200A\u2028\u2029\u202F\u205F\u3000]*[^\u0009-\u000D\u0020\u0085\u00A0\u1680\u2000-\u200A\u2028\u2029\u202F\u205F\u3000]+[\u0009-\u000D\u0020\u0085\u00A0\u1680\u2000-\u200A\u2028\u2029\u202F\u205F\u3000]+([^\u0009-\u000D\u0020\u0085\u00A0\u1680\u2000-\u200A\u2028\u2029\u202F\u205F\u3000]+)'), '')";

const PRIME: &str = "((departureTimePlanned::time >= '06:00:00' and \
     departureTimePlanned::time < '09:00:00') or \
     (departureTimePlanned::time >= '16:00:00' and \
     departureTimePlanned::time < '19:00:00')) and \
     (extract(dow from departureTimePlanned) > 0 and \
     extract(dow from departureTimePlanned) < 6)";

#[test]
fn the_statement_of_all_lines() {
    let query = build_query(Endpoint::Lines, &Filter::All).unwrap();
    assert_eq!(
        query.text,
        r"select coalesce(substring(transportation_name from '^[\u0009-\u000D\u0020\u0085\u00A0\u1680\u2000-\u200A\u2028\u2029\u202F\u205F\u3000]*[^\u0009-\u000D\u0020\u0085\u00A0\u1680\u2000-\u200A\u2028\u2029\u202F\u205F\u3000]+[\u0009-\u000D\u0020\u0085\u00A0\u1680\u2000-\u200A\u2028\u2029\u202F\u205F\u3000]+([^\u0009-\u000D\u0020\u0085\u00A0\u1680\u2000-\u200A\u2028\u2029\u202F\u205F\u3000]+)'), ''), avg(delay)::real from station_delay group by coalesce(substring(transportation_name from '^[\u0009-\u000D\u0020\u0085\u00A0\u1680\u2000-\u200A\u2028\u2029\u202F\u205F\u3000]*[^\u0009-\u000D\u0020\u0085\u00A0\u1680\u2000-\u200A\u2028\u2029\u202F\u205F\u3000]+[\u0009-\u000D\u0020\u0085\u00A0\u1680\u2000-\u200A\u2028\u2029\u202F\u205F\u3000]+([^\u0009-\u000D\u0020\u0085\u00A0\u1680\u2000-\u200A\u2028\u2029\u202F\u205F\u3000]+)'), '');"
    );
    assert!(query.params.is_empty());
}

#[test]
fn the_statement_of_all_stations() {
    let query = build_query(Endpoint::Stations, &Filter::All).unwrap();
    assert_eq!(
        query.text,
        format!(
            "select name, {LINE}, avg(delay)::real from station_delay group by name, {LINE};"
        )
    );
    assert!(query.params.is_empty());
}

#[test]
fn the_statement_of_the_lines_of_a_day() {
    let query = build_query(Endpoint::LinesDate, &Filter::ExactDate(day(2024, 3, 10))).unwrap();
    assert_eq!(
        query.text,
        format!(
            "select {LINE}, avg(delay)::real from station_delay \
             where departureTimePlanned::date = $1::date group by {LINE};"
        )
    );
    assert_eq!(query.params, vec![SqlParam::Date(day(2024, 3, 10))]);
}

#[test]
fn the_statement_of_the_stations_of_a_day() {
    let query = build_query(Endpoint::StationsDate, &Filter::ExactDate(day(2024, 3, 10))).unwrap();
    assert_eq!(
        query.text,
        format!(
            "select name, {LINE}, avg(delay)::real from station_delay \
             where departureTimePlanned::date = $1::date group by name, {LINE};"
        )
    );
    assert_eq!(query.params, vec![SqlParam::Date(day(2024, 3, 10))]);
}

#[test]
fn the_statement_of_the_lines_of_a_time_range() {
    let filter = Filter::TimeRange(at(2024, 3, 10, 8), at(2024, 3, 11, 8));
    let query = build_query(Endpoint::LinesTimeframe, &filter).unwrap();
    assert_eq!(
        query.text,
        format!(
            "select {LINE}, avg(delay)::real from station_delay \
             where departureTimePlanned > $1::timestamp \
             and departureTimePlanned <= $2::timestamp group by {LINE};"
        )
    );
    assert_eq!(
        query.params,
        vec![SqlParam::Timestamp(at(2024, 3, 10, 8)), SqlParam::Timestamp(at(2024, 3, 11, 8))]
    );
}

#[test]
fn the_statement_of_the_stations_of_a_time_range() {
    let filter = Filter::TimeRange(at(2024, 3, 10, 8), at(2024, 3, 11, 8));
    let query = build_query(Endpoint::StationsTimeframe, &filter).unwrap();
    assert_eq!(
        query.text,
        format!(
            "select name, {LINE}, avg(delay)::real from station_delay \
             where departureTimePlanned > $1::timestamp \
             and departureTimePlanned <= $2::timestamp group by name, {LINE};"
        )
    );
    assert_eq!(query.params.len(), 2);
}

#[test]
fn the_statement_of_the_lines_in_prime_time() {
    let query = build_query(Endpoint::LinesPrime, &Filter::PrimeTime).unwrap();
    assert_eq!(
        query.text,
        format!("select {LINE}, avg(delay)::real from station_delay where {PRIME} group by {LINE};")
    );
    assert!(query.params.is_empty());
}

#[test]
fn the_statement_of_the_stations_in_prime_time() {
    let query = build_query(Endpoint::StationsPrime, &Filter::PrimeTime).unwrap();
    assert_eq!(
        query.text,
        format!(
            "select name, {LINE}, avg(delay)::real from station_delay \
             where {PRIME} group by name, {LINE};"
        )
    );
    assert!(query.params.is_empty());
}

#[test]
fn the_statements_of_the_notices() {
    let all = build_query(Endpoint::Infos, &Filter::All).unwrap();
    assert_eq!(
        all.text,
        "select name, urlText, content, date::date from station_info \
         group by (name, urlText, content, date::date);"
    );
    let of_day = build_query(Endpoint::InfosDate, &Filter::ExactDate(day(2024, 3, 10))).unwrap();
    assert_eq!(
        of_day.text,
        "select name, urlText, content, date::date from station_info \
         where date::date = $1::date group by (name, urlText, content, date::date);"
    );
    assert_eq!(of_day.params, vec![SqlParam::Date(day(2024, 3, 10))]);
}

#[test]
fn a_time_range_is_compared_with_the_timestamp_of_a_notice() {
    let filter = Filter::TimeRange(at(2023, 5, 1, 12), at(2023, 5, 1, 14));
    let of_range = build_query(Endpoint::InfosTimeframe, &filter).unwrap();
    assert_eq!(
        of_range.text,
        "select name, urlText, content, date::date from station_info \
         where date > $1::timestamp and date <= $2::timestamp \
         group by (name, urlText, content, date::date);"
    );
    assert_eq!(
        of_range.params,
        vec![SqlParam::Timestamp(at(2023, 5, 1, 12)), SqlParam::Timestamp(at(2023, 5, 1, 14))]
    );
}

#[test]
fn the_statement_of_the_incidents() {
    let filter = Filter::LineAndDate(String::from("S1"), day(2024, 3, 10));
    let query = build_query(Endpoint::Incidents, &filter).unwrap();
    assert_eq!(
        query.text,
        format!(
            "select name, {LINE}, transportation_properties_trainnumber, content, date::date \
             from train_incident where {LINE} = $1::text and date::date = $2::date \
             group by name, {LINE}, transportation_properties_trainnumber, content, date::date;"
        )
    );
    assert_eq!(
        query.params,
        vec![SqlParam::Text(String::from("S1")), SqlParam::Date(day(2024, 3, 10))]
    );
}

#[test]
fn the_expression_for_the_line_lists_all_white_space() {
    // The class between the brackets names every character that is white
    // space, singly or in a range, and no other.
    let class = r"\u0009-\u000D\u0020\u0085\u00A0\u1680\u2000-\u200A\u2028\u2029\u202F\u205F\u3000";
    assert_eq!(LINE.matches(class).count(), 4);
    let mut listed = Vec::new();
    for part in class.split(r"\u").skip(1) {
        let low = u32::from_str_radix(&part[..4], 16).unwrap();
        if part.ends_with('-') {
            listed.push((low, None));
        } else if let Some((first, None)) = listed.last().copied() {
            listed.pop();
            listed.push((first, Some(low)));
        } else {
            listed.push((low, Some(low)));
        }
    }
    for code in 0..=0x10FFFFu32 {
        if let Some(c) = char::from_u32(code) {
            let in_class = listed.iter().any(|(low, high)| *low <= code && code <= high.unwrap());
            assert_eq!(in_class, c.is_whitespace(), "{code:#x}");
        }
    }
}

#[test]
fn a_filter_of_another_kind_gives_no_query() {
    for endpoint in ALL {
        for filter in filters() {
            let fits = filter.kind() == endpoint.template().filter;
            assert_eq!(build_query(endpoint, &filter).is_some(), fits, "{endpoint:?} {filter:?}");
        }
    }
}

#[test]
fn the_text_does_not_depend_on_the_values() {
    let a = build_query(
        Endpoint::Incidents,
        &Filter::LineAndDate(String::from("S1"), day(2024, 3, 10)),
    )
    .unwrap();
    let b = build_query(
        Endpoint::Incidents,
        &Filter::LineAndDate(String::from("MEX19"), day(1999, 12, 31)),
    )
    .unwrap();
    assert_eq!(a.text, b.text);
    assert_ne!(a.params, b.params);
    assert!(!b.text.contains("MEX19"));
    assert!(!b.text.contains("1999"));
    for endpoint in ALL {
        assert_eq!(statement_text(endpoint.template()), statement_text(endpoint.template()));
    }
}

#[test]
fn the_values_of_a_filter_are_bound_in_order() {
    assert!(bound_values(&Filter::All).is_empty());
    assert!(bound_values(&Filter::PrimeTime).is_empty());
    assert_eq!(
        bound_values(&Filter::TimeRange(at(2024, 3, 11, 8), at(2024, 3, 10, 8))),
        vec![SqlParam::Timestamp(at(2024, 3, 11, 8)), SqlParam::Timestamp(at(2024, 3, 10, 8))]
    );
}

#[test]
fn every_statement_has_as_many_placeholders_as_values() {
    for endpoint in ALL {
        for filter in filters() {
            if let Some(query) = build_query(endpoint, &filter) {
                let placeholders = query.text.matches('$').count();
                assert_eq!(placeholders, query.params.len(), "{endpoint:?}");
                for n in 1..=query.params.len() {
                    assert!(query.text.contains(&format!("${n}::")), "{endpoint:?}");
                }
                assert!(query.text.ends_with(';'));
            }
        }
    }
}
