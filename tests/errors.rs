use session_auth::{
    ApiError, LogicError, RepositoryError, UserLogicError, UserRepositoryError,
};

#[test]
fn repository_errors_read_as_text() {
    assert_eq!(UserRepositoryError::NotFound.message(), "not found");
    assert_eq!(UserRepositoryError::DuplicateID.message(), "invalid ID");
    assert_eq!(UserRepositoryError::DuplicateEmail.message(), "invalid email");
    assert_eq!(UserRepositoryError::from("disk full").message(), "disk full");
    assert_eq!(RepositoryError::DuplicateEmail.message(), "invalid email");
    assert_eq!(
        LogicError::RepositoryError(RepositoryError::NotFound).message(),
        "not found"
    );
    assert_eq!(UserLogicError::Unauthorized.message(), "Unauthorized");
}

#[test]
fn logic_errors_map_to_api_errors() {
    assert_eq!(ApiError::from(UserLogicError::Unauthorized), ApiError::Unauthorized);
    assert_eq!(
        ApiError::from(UserLogicError::ValidationError("bad email".to_string())),
        ApiError::InvalidRequest("bad email".to_string())
    );
    assert_eq!(
        ApiError::from(UserLogicError::BcryptError("cost".to_string())),
        ApiError::Other("cost".to_string())
    );
    assert_eq!(
        ApiError::from(UserLogicError::UserRepositoryError(UserRepositoryError::NotFound)),
        ApiError::NotFound
    );
    assert_eq!(
        ApiError::from(UserLogicError::UserRepositoryError(UserRepositoryError::DuplicateEmail)),
        ApiError::InvalidRequest("invalid email".to_string())
    );
    assert_eq!(
        ApiError::from(UserLogicError::UserRepositoryError(UserRepositoryError::DuplicateID)),
        ApiError::InvalidRequest("invalid ID".to_string())
    );
}

#[test]
fn api_errors_have_status_codes_and_bodies() {
    assert_eq!(ApiError::NotFound.status_code(), 404);
    assert_eq!(ApiError::InvalidRequest(String::new()).status_code(), 400);
    assert_eq!(ApiError::Unauthorized.status_code(), 401);
    assert_eq!(ApiError::Other(String::new()).status_code(), 500);
    assert_eq!(ApiError::Unauthorized.error_response().error, "Unauthorized");
    assert_eq!(ApiError::NotFound.error_response().error, "NotFound");
    assert_eq!(ApiError::Other("boom".to_string()).error_response().error, "boom");
}
