//! One shape for every failure.
//!
//! Whatever goes wrong while a request is served is reported as a
//! [`JsonError`]. A request that was rejected for its parameters is answered
//! with status 400, every other failure with status 500.

use crate::filter::{Parameter, ValidationError};
use crate::models::JsonError;
use crate::rows::{Defect, MappingError, SqlType};
use crate::text::{decimal, decimal_text};
use axum::http::StatusCode;
use vstd::prelude::*;
use vstd::string::*;

verus! {

/// The three statuses that the service answers with.
#[derive(Clone, Copy, Debug, PartialEq, Eq, Structural)]
pub enum Status {
    Success,
    BadRequest,
    InternalServerError,
}

impl Status {
    /// The number of the status.
    pub open spec fn number(self) -> int {
        match self {
            Status::Success => 200,
            Status::BadRequest => 400,
            Status::InternalServerError => 500,
        }
    }

    /// The status as it is written in an error: its number and its name.
    pub open spec fn line(self) -> Seq<char> {
        match self {
            Status::Success => "200 OK"@,
            Status::BadRequest => "400 Bad Request"@,
            Status::InternalServerError => "500 Internal Server Error"@,
        }
    }

    /// The number of the status.
    pub fn code(&self) -> (r: u16)
        ensures
            r == self.number(),
    {
        match self {
            Status::Success => 200,
            Status::BadRequest => 400,
            Status::InternalServerError => 500,
        }
    }
}

/// Writes a status with `to_string` of `axum::http::StatusCode`, on the
/// constants `OK`, `BAD_REQUEST` and `INTERNAL_SERVER_ERROR`. Not proved,
/// but taken from that crate: that a status code is displayed as its number,
/// a space and its canonical reason, and that the reasons of 200, 400 and
/// 500 are "OK", "Bad Request" and "Internal Server Error".
#[verifier::external_body]
fn status_line(status: Status) -> (line: String)
    ensures
        line@ == status.line(),
{
    let code = match status {
        Status::Success => StatusCode::OK,
        Status::BadRequest => StatusCode::BAD_REQUEST,
        Status::InternalServerError => StatusCode::INTERNAL_SERVER_ERROR,
    };
    code.to_string()
}

impl Status {
    /// The status as it is written in an error: its number and its name.
    pub fn text(&self) -> (line: String)
        ensures
            line@ == self.line(),
    {
        status_line(*self)
    }
}

/// What can go wrong while a request is served.
#[derive(Clone, Debug, PartialEq, Eq)]
pub enum Failure {
    /// The parameters of the request were rejected.
    InputValidation(ValidationError),
    /// No connection to the store could be had; the text says why.
    PoolAcquisition(String),
    /// The store did not carry the statement out; the text says why.
    QueryExecution(String),
    /// A row of the result could not be read.
    ResultMapping(MappingError),
}

/// The mathematical model of a [`Failure`].
pub enum FailureView {
    InputValidation(ValidationError),
    PoolAcquisition(Seq<char>),
    QueryExecution(Seq<char>),
    ResultMapping(MappingError),
}

impl View for Failure {
    type V = FailureView;

    open spec fn view(&self) -> FailureView {
        match self {
            Failure::InputValidation(e) => FailureView::InputValidation(*e),
            Failure::PoolAcquisition(text) => FailureView::PoolAcquisition(text@),
            Failure::QueryExecution(text) => FailureView::QueryExecution(text@),
            Failure::ResultMapping(e) => FailureView::ResultMapping(*e),
        }
    }
}

/// The name of a parameter, as it is written in a request.
pub open spec fn parameter_name(parameter: Parameter) -> Seq<char> {
    match parameter {
        Parameter::Date => "date"@,
        Parameter::LowerLimit => "lower_limit"@,
        Parameter::UpperLimit => "upper_limit"@,
        Parameter::Line => "line"@,
    }
}

/// The form in which a parameter has to be written.
pub open spec fn parameter_form(parameter: Parameter) -> Seq<char> {
    match parameter {
        Parameter::Date => "YYYY-MM-DD"@,
        Parameter::LowerLimit => "YYYY-MM-DD hh:mm:ss"@,
        Parameter::UpperLimit => "YYYY-MM-DD hh:mm:ss"@,
        Parameter::Line => "letters and digits"@,
    }
}

/// What is said of rejected parameters.
pub open spec fn validation_message(e: ValidationError) -> Seq<char> {
    match e {
        ValidationError::Missing(parameter) => "missing parameter: "@ + parameter_name(parameter),
        ValidationError::Malformed(parameter) => "malformed parameter: "@ + parameter_name(
            parameter,
        ) + " (expected "@ + parameter_form(parameter) + ")"@,
    }
}

/// The name of a column type.
pub open spec fn column_type_name(t: SqlType) -> Seq<char> {
    match t {
        SqlType::Text => "text"@,
        SqlType::Real => "real"@,
        SqlType::Integer => "integer"@,
        SqlType::Date => "date"@,
    }
}

/// The name of a defect.
pub open spec fn defect_name(defect: Defect) -> Seq<char> {
    match defect {
        Defect::Absent => "no such column"@,
        Defect::Null => "null"@,
        Defect::WrongType => "a value of another type"@,
    }
}

/// What is said of a row that could not be read.
pub open spec fn mapping_message(e: MappingError) -> Seq<char> {
    "column "@ + decimal_text(e.column as nat) + ": expected "@ + column_type_name(e.expected)
        + ", found "@ + defect_name(e.defect)
}

impl FailureView {
    /// Whether the one who sent the request caused the failure.
    pub open spec fn caused_by_client(self) -> bool {
        self is InputValidation
    }

    /// The status that the failure is answered with.
    pub open spec fn status(self) -> Status {
        if self.caused_by_client() {
            Status::BadRequest
        } else {
            Status::InternalServerError
        }
    }

    /// The text that the failure is reported with: for a failure of the
    /// store, the text that came with it.
    pub open spec fn message(self) -> Seq<char> {
        match self {
            FailureView::InputValidation(e) => validation_message(e),
            FailureView::PoolAcquisition(text) => text,
            FailureView::QueryExecution(text) => text,
            FailureView::ResultMapping(e) => mapping_message(e),
        }
    }
}

impl ValidationError {
    /// What is said of the rejected parameters.
    pub fn message(&self) -> (text: String)
        ensures
            text@ == validation_message(*self),
    {
        let parameter = match self {
            ValidationError::Missing(parameter) => *parameter,
            ValidationError::Malformed(parameter) => *parameter,
        };
        let name = match parameter {
            Parameter::Date => "date",
            Parameter::LowerLimit => "lower_limit",
            Parameter::UpperLimit => "upper_limit",
            Parameter::Line => "line",
        };
        match self {
            ValidationError::Missing(_) => {
                let mut text = String::from_str("missing parameter: ");
                text.append(name);
                text
            },
            ValidationError::Malformed(_) => {
                let form = match parameter {
                    Parameter::Date => "YYYY-MM-DD",
                    Parameter::LowerLimit => "YYYY-MM-DD hh:mm:ss",
                    Parameter::UpperLimit => "YYYY-MM-DD hh:mm:ss",
                    Parameter::Line => "letters and digits",
                };
                let mut text = String::from_str("malformed parameter: ");
                text.append(name);
                text.append(" (expected ");
                text.append(form);
                text.append(")");
                text
            },
        }
    }
}

impl MappingError {
    /// What is said of the row that could not be read.
    pub fn message(&self) -> (text: String)
        ensures
            text@ == mapping_message(*self),
    {
        let expected = match self.expected {
            SqlType::Text => "text",
            SqlType::Real => "real",
            SqlType::Integer => "integer",
            SqlType::Date => "date",
        };
        let found = match self.defect {
            Defect::Absent => "no such column",
            Defect::Null => "null",
            Defect::WrongType => "a value of another type",
        };
        let mut text = String::from_str("column ");
        let column = decimal(self.column);
        text.append(column.as_str());
        text.append(": expected ");
        text.append(expected);
        text.append(", found ");
        text.append(found);
        text
    }
}

/// A failure as it is answered: the number of the status and the error.
#[derive(Clone, Debug, PartialEq, Eq)]
pub struct ErrorResponse {
    pub code: u16,
    pub body: JsonError,
}

impl Failure {
    /// The text that the failure is reported with.
    pub fn message(&self) -> (text: String)
        ensures
            text@ == self@.message(),
    {
        match self {
            Failure::InputValidation(e) => e.message(),
            Failure::PoolAcquisition(text) => text.clone(),
            Failure::QueryExecution(text) => text.clone(),
            Failure::ResultMapping(e) => e.message(),
        }
    }

    /// The status that the failure is answered with: 400 for rejected
    /// parameters, 500 for everything else.
    pub fn status(&self) -> (r: Status)
        ensures
            r == self@.status(),
    {
        match self {
            Failure::InputValidation(_) => Status::BadRequest,
            _ => Status::InternalServerError,
        }
    }
}

/// Reports a failure of the server: status 500 with the given text.
pub fn internal_error(message: &str) -> (error: JsonError)
    ensures
        error.status@ == Status::InternalServerError.line(),
        error.message@ == message@,
{
    JsonError { status: Status::InternalServerError.text(), message: String::from_str(message) }
}

/// Reports rejected parameters: status 400 with the given text.
pub fn bad_request(message: &str) -> (error: JsonError)
    ensures
        error.status@ == Status::BadRequest.line(),
        error.message@ == message@,
{
    JsonError { status: Status::BadRequest.text(), message: String::from_str(message) }
}

/// Turns any failure into the one shape in which failures are answered.
pub fn normalize(failure: &Failure) -> (response: ErrorResponse)
    ensures
        response.code == failure@.status().number(),
        response.body.status@ == failure@.status().line(),
        response.body.message@ == failure@.message(),
{
    let status = failure.status();
    let message = failure.message();
    let body = match status {
        Status::BadRequest => bad_request(message.as_str()),
        _ => internal_error(message.as_str()),
    };
    ErrorResponse { code: status.code(), body }
}

} // verus!
