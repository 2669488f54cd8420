use backend::error::{bad_request, internal_error, normalize, Failure, Status};
use backend::filter::{Parameter, ValidationError};
use backend::models::JsonError;
use backend::rows::{Defect, MappingError, SqlType};

#[test]
fn a_server_failure_is_reported_with_status_500() {
    let error = internal_error("connection refused");
    assert_eq!(
        error,
        JsonError {
            status: String::from("500 Internal Server Error"),
            message: String::from("connection refused"),
        }
    );
}

#[test]
fn rejected_parameters_are_reported_with_status_400() {
    let error = bad_request("malformed");
    assert_eq!(error.status, "400 Bad Request");
    assert_eq!(error.message, "malformed");
}

#[test]
fn statuses_are_written_with_number_and_name() {
    assert_eq!(Status::Success.text(), "200 OK");
    assert_eq!(Status::BadRequest.text(), "400 Bad Request");
    assert_eq!(Status::InternalServerError.text(), "500 Internal Server Error");
}

#[test]
fn statuses_have_their_numbers() {
    assert_eq!(Status::Success.code(), 200);
    assert_eq!(Status::BadRequest.code(), 400);
    assert_eq!(Status::InternalServerError.code(), 500);
}

#[test]
fn a_validation_failure_is_the_fault_of_the_client() {
    let failure = Failure::InputValidation(ValidationError::Malformed(Parameter::Date));
    assert_eq!(failure.status(), Status::BadRequest);
    let response = normalize(&failure);
    assert_eq!(response.code, 400);
    assert_eq!(response.body.status, "400 Bad Request");
    assert_eq!(response.body.message, "malformed parameter: date (expected YYYY-MM-DD)");
}

#[test]
fn a_pool_failure_keeps_its_text() {
    let failure = Failure::PoolAcquisition(String::from("Timed out in bb8"));
    assert_eq!(failure.status(), Status::InternalServerError);
    let response = normalize(&failure);
    assert_eq!(response.code, 500);
    assert_eq!(response.body.status, "500 Internal Server Error");
    assert_eq!(response.body.message, "Timed out in bb8");
}

#[test]
fn an_execution_failure_keeps_its_text() {
    let response = normalize(&Failure::QueryExecution(String::from("db error")));
    assert_eq!(response.code, 500);
    assert_eq!(response.body.status, "500 Internal Server Error");
    assert_eq!(response.body.message, "db error");
}

#[test]
fn a_mapping_failure_names_column_and_type() {
    let e = MappingError { column: 12, expected: SqlType::Real, defect: Defect::Null };
    let response = normalize(&Failure::ResultMapping(e));
    assert_eq!(response.code, 500);
    assert_eq!(response.body.status, "500 Internal Server Error");
    assert_eq!(response.body.message, "column 12: expected real, found null");
}

#[test]
fn every_validation_failure_has_its_message() {
    let cases = [
        (ValidationError::Missing(Parameter::Date), "missing parameter: date"),
        (ValidationError::Missing(Parameter::LowerLimit), "missing parameter: lower_limit"),
        (ValidationError::Missing(Parameter::UpperLimit), "missing parameter: upper_limit"),
        (ValidationError::Missing(Parameter::Line), "missing parameter: line"),
        (
            ValidationError::Malformed(Parameter::Date),
            "malformed parameter: date (expected YYYY-MM-DD)",
        ),
        (
            ValidationError::Malformed(Parameter::LowerLimit),
            "malformed parameter: lower_limit (expected YYYY-MM-DD hh:mm:ss)",
        ),
        (
            ValidationError::Malformed(Parameter::UpperLimit),
            "malformed parameter: upper_limit (expected YYYY-MM-DD hh:mm:ss)",
        ),
        (
            ValidationError::Malformed(Parameter::Line),
            "malformed parameter: line (expected letters and digits)",
        ),
    ];
    for (e, text) in cases {
        assert_eq!(e.message(), text);
        assert_eq!(Failure::InputValidation(e).message(), text);
    }
}

#[test]
fn every_mapping_failure_has_its_message() {
    let cases = [
        (0, SqlType::Text, Defect::Absent, "column 0: expected text, found no such column"),
        (1, SqlType::Real, Defect::Null, "column 1: expected real, found null"),
        (
            2,
            SqlType::Integer,
            Defect::WrongType,
            "column 2: expected integer, found a value of another type",
        ),
        (4, SqlType::Date, Defect::Null, "column 4: expected date, found null"),
    ];
    for (column, expected, defect, text) in cases {
        assert_eq!(MappingError { column, expected, defect }.message(), text);
    }
}
