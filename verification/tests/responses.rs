use notes_backend::errors::{status_code, ApiError, ErrorResponse};
use notes_backend::handler::health_checker_handler;

#[test]
fn every_failure_maps_to_its_status_code() {
    assert_eq!(status_code(&ApiError::NotFound), 404);
    assert_eq!(status_code(&ApiError::Conflict), 409);
    assert_eq!(status_code(&ApiError::BadRequest), 400);
    assert_eq!(status_code(&ApiError::Unauthorized), 401);
    assert_eq!(status_code(&ApiError::StoreFailure), 500);
}

#[test]
fn envelope_status_word_tells_client_faults_from_server_faults() {
    let fail = ErrorResponse::of_error(&ApiError::Conflict, "taken".to_owned());
    assert_eq!(fail.status, "fail");
    assert_eq!(fail.message, "taken");
    let error = ErrorResponse::of_error(&ApiError::StoreFailure, "down".to_owned());
    assert_eq!(error.status, "error");
    assert_eq!(error.message, "down");
}

#[test]
fn health_route_answers_its_fixed_message() {
    assert_eq!(
        health_checker_handler(),
        "Build Simple CRUD API with Rust, SQLX, Postgres,and Actix Web"
    );
}
