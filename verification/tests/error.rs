use auth_core::error::{AppError, ErrorResponse};

#[test]
fn status_of_each_failure() {
    assert_eq!(AppError::BadRequest("x".to_string()).status_code(), 400);
    assert_eq!(AppError::Unauthorized("x".to_string()).status_code(), 401);
    assert_eq!(AppError::Conflict("x".to_string()).status_code(), 409);
    assert_eq!(AppError::Internal("x".to_string()).status_code(), 500);
    assert_eq!(AppError::Db.status_code(), 500);
}

#[test]
fn message_of_each_failure() {
    assert_eq!(AppError::BadRequest("bad".to_string()).message(), "bad");
    assert_eq!(AppError::Unauthorized("who".to_string()).message(), "who");
    assert_eq!(AppError::Conflict("taken".to_string()).message(), "taken");
    assert_eq!(AppError::Internal("oops".to_string()).message(), "oops");
    assert_eq!(AppError::Db.message(), "db error");
}

#[test]
fn response_holds_status_and_message() {
    assert_eq!(
        AppError::Conflict("email already exist".to_string()).into_response(),
        ErrorResponse { status: 409, message: "email already exist".to_string() }
    );
    assert_eq!(
        AppError::Db.into_response(),
        ErrorResponse { status: 500, message: "db error".to_string() }
    );
    assert_eq!(
        AppError::BadRequest(String::new()).into_response(),
        ErrorResponse { status: 400, message: String::new() }
    );
    assert_eq!(
        AppError::Unauthorized("invalid token".to_string()).into_response(),
        ErrorResponse { status: 401, message: "invalid token".to_string() }
    );
    assert_eq!(
        AppError::Internal("jwt error".to_string()).into_response(),
        ErrorResponse { status: 500, message: "jwt error".to_string() }
    );
}
