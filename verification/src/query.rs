//! Building the one statement that answers a request.
//!
//! Each endpoint has a template: the shape of its records, which fixes the
//! table, the selected columns and the grouping, and the kind of its filter,
//! which fixes the predicate. The text of a statement is put together from
//! the template alone. The values of a filter never become text: they travel
//! beside it as typed parameters, in the order of the placeholders `$1`,
//! `$2`.

use crate::calendar::{CivilDate, Date, Moment, Timestamp};
use crate::filter::{Filter, FilterKind, FilterView};
use crate::rows::Shape;
use vstd::prelude::*;
use vstd::string::*;

verus! {

/// The twelve endpoints of the service.
#[derive(Clone, Copy, Debug, PartialEq, Eq, Structural)]
pub enum Endpoint {
    Stations,
    StationsDate,
    StationsTimeframe,
    StationsPrime,
    Lines,
    LinesDate,
    LinesTimeframe,
    LinesPrime,
    Infos,
    InfosDate,
    InfosTimeframe,
    Incidents,
}

/// What distinguishes one endpoint from another.
#[derive(Clone, Copy, Debug, PartialEq, Eq, Structural)]
pub struct Template {
    pub shape: Shape,
    pub filter: FilterKind,
}

/// The template of each endpoint.
pub open spec fn template_of(endpoint: Endpoint) -> Template {
    match endpoint {
        Endpoint::Stations => Template { shape: Shape::StationDelay, filter: FilterKind::All },
        Endpoint::StationsDate => Template {
            shape: Shape::StationDelay,
            filter: FilterKind::ExactDate,
        },
        Endpoint::StationsTimeframe => Template {
            shape: Shape::StationDelay,
            filter: FilterKind::TimeRange,
        },
        Endpoint::StationsPrime => Template {
            shape: Shape::StationDelay,
            filter: FilterKind::PrimeTime,
        },
        Endpoint::Lines => Template { shape: Shape::LineDelay, filter: FilterKind::All },
        Endpoint::LinesDate => Template { shape: Shape::LineDelay, filter: FilterKind::ExactDate },
        Endpoint::LinesTimeframe => Template {
            shape: Shape::LineDelay,
            filter: FilterKind::TimeRange,
        },
        Endpoint::LinesPrime => Template { shape: Shape::LineDelay, filter: FilterKind::PrimeTime },
        Endpoint::Infos => Template { shape: Shape::StationInfo, filter: FilterKind::All },
        Endpoint::InfosDate => Template {
            shape: Shape::StationInfo,
            filter: FilterKind::ExactDate,
        },
        Endpoint::InfosTimeframe => Template {
            shape: Shape::StationInfo,
            filter: FilterKind::TimeRange,
        },
        Endpoint::Incidents => Template { shape: Shape::Incident, filter: FilterKind::LineAndDate },
    }
}

/// The path of each endpoint.
pub open spec fn path_of(endpoint: Endpoint) -> Seq<char> {
    match endpoint {
        Endpoint::Stations => "/stations"@,
        Endpoint::StationsDate => "/stations/date"@,
        Endpoint::StationsTimeframe => "/stations/timeframe"@,
        Endpoint::StationsPrime => "/stations/prime"@,
        Endpoint::Lines => "/lines"@,
        Endpoint::LinesDate => "/lines/date"@,
        Endpoint::LinesTimeframe => "/lines/timeframe"@,
        Endpoint::LinesPrime => "/lines/prime"@,
        Endpoint::Infos => "/infos"@,
        Endpoint::InfosDate => "/infos/date"@,
        Endpoint::InfosTimeframe => "/infos/timeframe"@,
        Endpoint::Incidents => "/incidents"@,
    }
}

impl Endpoint {
    /// The path under which the endpoint is reached.
    pub fn path(&self) -> (r: &'static str)
        ensures
            r@ == path_of(*self),
    {
        match self {
            Endpoint::Stations => "/stations",
            Endpoint::StationsDate => "/stations/date",
            Endpoint::StationsTimeframe => "/stations/timeframe",
            Endpoint::StationsPrime => "/stations/prime",
            Endpoint::Lines => "/lines",
            Endpoint::LinesDate => "/lines/date",
            Endpoint::LinesTimeframe => "/lines/timeframe",
            Endpoint::LinesPrime => "/lines/prime",
            Endpoint::Infos => "/infos",
            Endpoint::InfosDate => "/infos/date",
            Endpoint::InfosTimeframe => "/infos/timeframe",
            Endpoint::Incidents => "/incidents",
        }
    }

    /// The template of the endpoint.
    pub fn template(&self) -> (r: Template)
        ensures
            r == template_of(*self),
    {
        match self {
            Endpoint::Stations => Template { shape: Shape::StationDelay, filter: FilterKind::All },
            Endpoint::StationsDate => Template {
                shape: Shape::StationDelay,
                filter: FilterKind::ExactDate,
            },
            Endpoint::StationsTimeframe => Template {
                shape: Shape::StationDelay,
                filter: FilterKind::TimeRange,
            },
            Endpoint::StationsPrime => Template {
                shape: Shape::StationDelay,
                filter: FilterKind::PrimeTime,
            },
            Endpoint::Lines => Template { shape: Shape::LineDelay, filter: FilterKind::All },
            Endpoint::LinesDate => Template {
                shape: Shape::LineDelay,
                filter: FilterKind::ExactDate,
            },
            Endpoint::LinesTimeframe => Template {
                shape: Shape::LineDelay,
                filter: FilterKind::TimeRange,
            },
            Endpoint::LinesPrime => Template {
                shape: Shape::LineDelay,
                filter: FilterKind::PrimeTime,
            },
            Endpoint::Infos => Template { shape: Shape::StationInfo, filter: FilterKind::All },
            Endpoint::InfosDate => Template {
                shape: Shape::StationInfo,
                filter: FilterKind::ExactDate,
            },
            Endpoint::InfosTimeframe => Template {
                shape: Shape::StationInfo,
                filter: FilterKind::TimeRange,
            },
            Endpoint::Incidents => Template {
                shape: Shape::Incident,
                filter: FilterKind::LineAndDate,
            },
        }
    }
}

/// The characters that are white space, as a regular expression lists them
/// between brackets: the code points with the Unicode property White_Space,
/// which are those of [`is_whitespace`](crate::text::is_whitespace).
pub open spec fn whitespace_class() -> Seq<char> {
    "\\u0009-\\u000D\\u0020\\u0085\\u00A0\\u1680\\u2000-\\u200A\\u2028\\u2029\\u202F\\u205F\\u3000"@
}

/// The expression that derives the line from the raw transportation name:
/// its second word, or the empty text where it has fewer than two. The
/// pattern reads: white space or none, a first word, white space, and the
/// second word, which is what the expression gives; a word is a longest run
/// of characters that are not white space.
pub open spec fn line_expression() -> Seq<char> {
    "coalesce(substring(transportation_name from '^["@ + whitespace_class() + "]*[^"@
        + whitespace_class() + "]+["@ + whitespace_class() + "]+([^"@ + whitespace_class()
        + "]+)'), '')"@
}

/// The selected columns and the table of each shape.
pub open spec fn select_clause(shape: Shape) -> Seq<char> {
    match shape {
        Shape::LineDelay => "select "@ + line_expression() + ", avg(delay)::real from station_delay"@,
        Shape::StationDelay => "select name, "@ + line_expression()
            + ", avg(delay)::real from station_delay"@,
        Shape::StationInfo => "select name, urlText, content, date::date from station_info"@,
        Shape::Incident => "select name, "@ + line_expression()
            + ", transportation_properties_trainnumber, content, date::date from train_incident"@,
    }
}

/// The column that holds the timestamp of a record of each shape.
pub open spec fn time_column(shape: Shape) -> Seq<char> {
    match shape {
        Shape::LineDelay => "departureTimePlanned"@,
        Shape::StationDelay => "departureTimePlanned"@,
        Shape::StationInfo => "date"@,
        Shape::Incident => "date"@,
    }
}

/// The predicate of each kind of filter, over the columns of each shape. A
/// day is compared with the day of the record's timestamp; a time range with
/// the timestamp itself, of an observation and of a notice alike.
pub open spec fn where_clause(shape: Shape, kind: FilterKind) -> Seq<char> {
    match kind {
        FilterKind::All => Seq::empty(),
        FilterKind::ExactDate => " where "@ + time_column(shape) + "::date = $1::date"@,
        FilterKind::TimeRange => " where "@ + time_column(shape) + " > $1::timestamp and "@
            + time_column(shape) + " <= $2::timestamp"@,
        FilterKind::PrimeTime => " where (("@ + time_column(shape) + "::time >= '06:00:00' and "@
            + time_column(shape) + "::time < '09:00:00') or ("@ + time_column(shape)
            + "::time >= '16:00:00' and "@ + time_column(shape)
            + "::time < '19:00:00')) and (extract(dow from "@ + time_column(shape)
            + ") > 0 and extract(dow from "@ + time_column(shape) + ") < 6)"@,
        FilterKind::LineAndDate => " where "@ + line_expression() + " = $1::text and "@
            + time_column(shape) + "::date = $2::date"@,
    }
}

/// The grouping of each shape. Delays are grouped by what their average is
/// taken over: the line, or the station and the line. A notice has no
/// average, and every column that is selected of it has to be grouped by: a
/// station notice is grouped by all its columns, an incident by the station
/// and the line first and then by its train number, its text and its day.
/// So notices that are equal in all they show are answered once.
pub open spec fn group_clause(shape: Shape) -> Seq<char> {
    match shape {
        Shape::LineDelay => " group by "@ + line_expression(),
        Shape::StationDelay => " group by name, "@ + line_expression(),
        Shape::StationInfo => " group by (name, urlText, content, date::date)"@,
        Shape::Incident => " group by name, "@ + line_expression()
            + ", transportation_properties_trainnumber, content, date::date"@,
    }
}

/// The text of the statement of a template.
pub open spec fn statement(template: Template) -> Seq<char> {
    select_clause(template.shape) + where_clause(template.shape, template.filter) + group_clause(
        template.shape,
    ) + ";"@
}

/// A value that is bound to a placeholder of a statement.
#[derive(Clone, Debug, PartialEq, Eq)]
pub enum SqlParam {
    Date(Date),
    Timestamp(Timestamp),
    Text(String),
}

/// The mathematical model of a [`SqlParam`].
pub enum ParamView {
    Date(CivilDate),
    Timestamp(Moment),
    Text(Seq<char>),
}

impl View for SqlParam {
    type V = ParamView;

    open spec fn view(&self) -> ParamView {
        match self {
            SqlParam::Date(date) => ParamView::Date(date@),
            SqlParam::Timestamp(at) => ParamView::Timestamp(at@),
            SqlParam::Text(text) => ParamView::Text(text@),
        }
    }
}

/// The values of a filter, in the order of the placeholders.
pub open spec fn params_of(filter: FilterView) -> Seq<ParamView> {
    match filter {
        FilterView::All => Seq::empty(),
        FilterView::ExactDate(date) => seq![ParamView::Date(date)],
        FilterView::TimeRange(lower, upper) => seq![
            ParamView::Timestamp(lower),
            ParamView::Timestamp(upper),
        ],
        FilterView::PrimeTime => Seq::empty(),
        FilterView::LineAndDate(code, date) => seq![ParamView::Text(code), ParamView::Date(date)],
    }
}

/// A statement with the values for its placeholders.
#[derive(Clone, Debug, PartialEq, Eq)]
pub struct Query {
    pub text: String,
    pub params: Vec<SqlParam>,
}

/// The mathematical model of a [`Query`].
pub struct QueryView {
    pub text: Seq<char>,
    pub params: Seq<ParamView>,
}

impl View for Query {
    type V = QueryView;

    open spec fn view(&self) -> QueryView {
        QueryView {
            text: self.text@,
            params: Seq::new(self.params@.len(), |i: int| self.params@[i]@),
        }
    }
}

/// The query that answers a request to `endpoint` with filter `filter`:
/// there is one exactly when the filter is of the kind that the endpoint
/// takes.
pub open spec fn query_for(endpoint: Endpoint, filter: FilterView) -> Option<QueryView> {
    if filter.kind() == template_of(endpoint).filter {
        Some(QueryView { text: statement(template_of(endpoint)), params: params_of(filter) })
    } else {
        None
    }
}

fn whitespace_class_text() -> (r: &'static str)
    ensures
        r@ == whitespace_class(),
{
    "\\u0009-\\u000D\\u0020\\u0085\\u00A0\\u1680\\u2000-\\u200A\\u2028\\u2029\\u202F\\u205F\\u3000"
}

fn append_line_expression(text: &mut String)
    ensures
        final(text)@ == old(text)@ + line_expression(),
{
    let class = whitespace_class_text();
    text.append("coalesce(substring(transportation_name from '^[");
    text.append(class);
    text.append("]*[^");
    text.append(class);
    text.append("]+[");
    text.append(class);
    text.append("]+([^");
    text.append(class);
    text.append("]+)'), '')");
    assert(text@ =~= old(text)@ + line_expression());
}

fn time_column_text(shape: Shape) -> (r: &'static str)
    ensures
        r@ == time_column(shape),
{
    match shape {
        Shape::LineDelay => "departureTimePlanned",
        Shape::StationDelay => "departureTimePlanned",
        Shape::StationInfo => "date",
        Shape::Incident => "date",
    }
}

fn append_select_clause(text: &mut String, shape: Shape)
    ensures
        final(text)@ == old(text)@ + select_clause(shape),
{
    match shape {
        Shape::LineDelay => {
            text.append("select ");
            append_line_expression(text);
            text.append(", avg(delay)::real from station_delay");
        },
        Shape::StationDelay => {
            text.append("select name, ");
            append_line_expression(text);
            text.append(", avg(delay)::real from station_delay");
        },
        Shape::StationInfo => {
            text.append("select name, urlText, content, date::date from station_info");
        },
        Shape::Incident => {
            text.append("select name, ");
            append_line_expression(text);
            text.append(
                ", transportation_properties_trainnumber, content, date::date from train_incident",
            );
        },
    }
    assert(text@ =~= old(text)@ + select_clause(shape));
}

fn append_where_clause(text: &mut String, shape: Shape, kind: FilterKind)
    ensures
        final(text)@ == old(text)@ + where_clause(shape, kind),
{
    let column = time_column_text(shape);
    match kind {
        FilterKind::All => {},
        FilterKind::ExactDate => {
            text.append(" where ");
            text.append(column);
            text.append("::date = $1::date");
        },
        FilterKind::TimeRange => {
            text.append(" where ");
            text.append(column);
            text.append(" > $1::timestamp and ");
            text.append(column);
            text.append(" <= $2::timestamp");
        },
        FilterKind::PrimeTime => {
            text.append(" where ((");
            text.append(column);
            text.append("::time >= '06:00:00' and ");
            text.append(column);
            text.append("::time < '09:00:00') or (");
            text.append(column);
            text.append("::time >= '16:00:00' and ");
            text.append(column);
            text.append("::time < '19:00:00')) and (extract(dow from ");
            text.append(column);
            text.append(") > 0 and extract(dow from ");
            text.append(column);
            text.append(") < 6)");
        },
        FilterKind::LineAndDate => {
            text.append(" where ");
            append_line_expression(text);
            text.append(" = $1::text and ");
            text.append(column);
            text.append("::date = $2::date");
        },
    }
    assert(text@ =~= old(text)@ + where_clause(shape, kind));
}

fn append_group_clause(text: &mut String, shape: Shape)
    ensures
        final(text)@ == old(text)@ + group_clause(shape),
{
    match shape {
        Shape::LineDelay => {
            text.append(" group by ");
            append_line_expression(text);
        },
        Shape::StationDelay => {
            text.append(" group by name, ");
            append_line_expression(text);
        },
        Shape::StationInfo => {
            text.append(" group by (name, urlText, content, date::date)");
        },
        Shape::Incident => {
            text.append(" group by name, ");
            append_line_expression(text);
            text.append(", transportation_properties_trainnumber, content, date::date");
        },
    }
    assert(text@ =~= old(text)@ + group_clause(shape));
}

/// The text of the statement of a template.
pub fn statement_text(template: Template) -> (text: String)
    ensures
        text@ == statement(template),
{
    let mut text = String::new();
    append_select_clause(&mut text, template.shape);
    append_where_clause(&mut text, template.shape, template.filter);
    append_group_clause(&mut text, template.shape);
    text.append(";");
    assert(text@ =~= statement(template));
    text
}

/// The values of a filter, in the order of the placeholders.
pub fn bound_values(filter: &Filter) -> (params: Vec<SqlParam>)
    ensures
        Seq::new(params@.len(), |i: int| params@[i]@) == params_of(filter@),
{
    let mut params: Vec<SqlParam> = Vec::new();
    match filter {
        Filter::All => {},
        Filter::ExactDate(date) => {
            params.push(SqlParam::Date(*date));
        },
        Filter::TimeRange(lower, upper) => {
            params.push(SqlParam::Timestamp(*lower));
            params.push(SqlParam::Timestamp(*upper));
        },
        Filter::PrimeTime => {},
        Filter::LineAndDate(code, date) => {
            params.push(SqlParam::Text(code.clone()));
            params.push(SqlParam::Date(*date));
        },
    }
    assert(Seq::new(params@.len(), |i: int| params@[i]@) =~= params_of(filter@));
    params
}

/// Puts the statement of `template` and the values of `filter` together.
/// The two fit when the filter is of the kind of the template.
pub(crate) fn assemble(template: Template, filter: &Filter) -> (query: Query)
    ensures
        query@ == (QueryView { text: statement(template), params: params_of(filter@) }),
{
    let text = statement_text(template);
    let params = bound_values(filter);
    Query { text, params }
}

/// Builds the query that answers a request to `endpoint` with filter
/// `filter`. There is none when the filter is not of the kind that the
/// endpoint takes.
pub fn build_query(endpoint: Endpoint, filter: &Filter) -> (r: Option<Query>)
    ensures
        match r {
            Some(query) => query_for(endpoint, filter@) == Some(query@),
            None => query_for(endpoint, filter@) is None,
        },
{
    let template = endpoint.template();
    if filter.kind() != template.filter {
        return None;
    }
    Some(assemble(template, filter))
}

/// The text of a statement is fixed by the endpoint: two requests to one
/// endpoint are answered by the same text, whatever values their filters
/// hold, and each query carries the values of its filter as parameters.
pub proof fn lemma_text_is_fixed_by_endpoint(endpoint: Endpoint, a: FilterView, b: FilterView)
    requires
        query_for(endpoint, a) is Some,
        query_for(endpoint, b) is Some,
    ensures
        query_for(endpoint, a)->0.text == query_for(endpoint, b)->0.text,
        query_for(endpoint, a)->0.params == params_of(a),
        query_for(endpoint, b)->0.params == params_of(b),
{
}

} // verus!
