use vstd::prelude::*;

verus! {

/// Why a login did not yield a session.
#[derive(Debug, PartialEq, Eq, Structural)]
pub enum AuthenticationError {
    UserNotFound,
    WrongPassword,
}

/// Errors of a user repository.
#[derive(Debug, PartialEq, Eq)]
pub enum UserRepositoryError {
    NotFound,
    DuplicateID,
    DuplicateEmail,
    Other(String),
}

/// The text each repository error is shown as.
pub open spec fn repository_message(kind: &UserRepositoryError) -> Seq<char> {
    match kind {
        UserRepositoryError::NotFound => "not found"@,
        UserRepositoryError::DuplicateID => "invalid ID"@,
        UserRepositoryError::DuplicateEmail => "invalid email"@,
        UserRepositoryError::Other(err) => err@,
    }
}

impl UserRepositoryError {
    /// The error as text.
    pub fn message(&self) -> (r: String)
        ensures
            r@ == repository_message(self),
    {
        match self {
            UserRepositoryError::NotFound => "not found".to_string(),
            UserRepositoryError::DuplicateID => "invalid ID".to_string(),
            UserRepositoryError::DuplicateEmail => "invalid email".to_string(),
            UserRepositoryError::Other(err) => err.clone(),
        }
    }

    /// Any other repository failure, described by `value`.
    pub fn from(value: &str) -> (r: UserRepositoryError)
        ensures
            r matches UserRepositoryError::Other(err) && err@ == value@,
    {
        UserRepositoryError::Other(value.to_string())
    }
}

/// Errors of the user business logic.
#[derive(Debug, PartialEq, Eq)]
pub enum UserLogicError {
    BcryptError(String),
    ValidationError(String),
    UserRepositoryError(UserRepositoryError),
    Unauthorized,
}

/// The text each logic error is shown as.
pub open spec fn logic_message(e: &UserLogicError) -> Seq<char> {
    match e {
        UserLogicError::BcryptError(err) => err@,
        UserLogicError::ValidationError(err) => err@,
        UserLogicError::UserRepositoryError(err) => repository_message(err),
        UserLogicError::Unauthorized => "Unauthorized"@,
    }
}

impl UserLogicError {
    /// The error as text.
    pub fn message(&self) -> (r: String)
        ensures
            r@ == logic_message(self),
    {
        match self {
            UserLogicError::BcryptError(err) => err.clone(),
            UserLogicError::ValidationError(err) => err.clone(),
            UserLogicError::UserRepositoryError(err) => err.message(),
            UserLogicError::Unauthorized => "Unauthorized".to_string(),
        }
    }
}

/// Errors of a user repository of the standalone user service.
#[derive(Debug, PartialEq, Eq)]
pub enum RepositoryError {
    NotFound,
    DuplicateID,
    DuplicateEmail,
    Other(String),
}

impl RepositoryError {
    /// The error as text, as for `UserRepositoryError`.
    pub fn message(&self) -> (r: String)
        ensures
            r@ == match self {
                RepositoryError::NotFound => "not found"@,
                RepositoryError::DuplicateID => "invalid ID"@,
                RepositoryError::DuplicateEmail => "invalid email"@,
                RepositoryError::Other(err) => err@,
            },
    {
        match self {
            RepositoryError::NotFound => "not found".to_string(),
            RepositoryError::DuplicateID => "invalid ID".to_string(),
            RepositoryError::DuplicateEmail => "invalid email".to_string(),
            RepositoryError::Other(err) => err.clone(),
        }
    }
}

/// Errors of the business logic of the standalone user service.
#[derive(Debug, PartialEq, Eq)]
pub enum LogicError {
    BcryptError(String),
    ValidationError(String),
    RepositoryError(RepositoryError),
}

impl LogicError {
    /// The error as text.
    pub fn message(&self) -> (r: String)
        ensures
            r@ == match self {
                LogicError::BcryptError(err) => err@,
                LogicError::ValidationError(err) => err@,
                LogicError::RepositoryError(err) => match err {
                    RepositoryError::NotFound => "not found"@,
                    RepositoryError::DuplicateID => "invalid ID"@,
                    RepositoryError::DuplicateEmail => "invalid email"@,
                    RepositoryError::Other(e) => e@,
                },
            },
    {
        match self {
            LogicError::BcryptError(err) => err.clone(),
            LogicError::ValidationError(err) => err.clone(),
            LogicError::RepositoryError(err) => err.message(),
        }
    }
}

/// A field value that failed its validation, with the reason.
#[derive(Debug)]
pub struct FieldValidationError(pub String);

impl FieldValidationError {
    /// The reason, as text.
    pub fn message(&self) -> (r: String)
        ensures
            r@ == self.0@,
    {
        self.0.clone()
    }
}

/// The body of an error response.
pub struct ErrorResponse {
    pub error: String,
}

/// Errors as the service reports them to its clients.
#[derive(Debug, PartialEq, Eq)]
pub enum ApiError {
    NotFound,
    InvalidRequest(String),
    Unauthorized,
    Other(String),
}

/// The API error a logic error is reported as.
pub open spec fn api_error_of(e: &UserLogicError, r: &ApiError) -> bool {
    match e {
        UserLogicError::Unauthorized => r == ApiError::Unauthorized,
        UserLogicError::BcryptError(err) => r matches ApiError::Other(m) && m@ == err@,
        UserLogicError::ValidationError(err) => r matches ApiError::InvalidRequest(m) && m@ == err@,
        UserLogicError::UserRepositoryError(err) => match err {
            UserRepositoryError::NotFound => r == ApiError::NotFound,
            UserRepositoryError::Other(o) => r matches ApiError::Other(m) && m@ == o@,
            _ => r matches ApiError::InvalidRequest(m) && m@ == repository_message(err),
        },
    }
}

impl ApiError {
    /// The API error that `value` is reported as: missing records are not
    /// found, bad input and duplicates are invalid requests, and the rest
    /// are internal errors.
    pub fn from(value: UserLogicError) -> (r: ApiError)
        ensures
            api_error_of(&value, &r),
    {
        match value {
            UserLogicError::Unauthorized => ApiError::Unauthorized,
            UserLogicError::BcryptError(err) => ApiError::Other(err),
            UserLogicError::ValidationError(err) => ApiError::InvalidRequest(err),
            UserLogicError::UserRepositoryError(err) => match err {
                UserRepositoryError::NotFound => ApiError::NotFound,
                UserRepositoryError::Other(o) => ApiError::Other(o),
                _ => ApiError::InvalidRequest(err.message()),
            },
        }
    }

    /// The HTTP status code of the error.
    pub fn status_code(&self) -> (r: u16)
        ensures
            r == match self {
                ApiError::NotFound => 404u16,
                ApiError::InvalidRequest(_) => 400u16,
                ApiError::Unauthorized => 401u16,
                ApiError::Other(_) => 500u16,
            },
    {
        match self {
            ApiError::NotFound => 404,
            ApiError::InvalidRequest(_) => 400,
            ApiError::Unauthorized => 401,
            ApiError::Other(_) => 500,
        }
    }

    /// The body of the error response: the message the error carries, or
    /// else the name of its kind.
    pub fn error_response(&self) -> (r: ErrorResponse)
        ensures
            r.error@ == match self {
                ApiError::NotFound => "NotFound"@,
                ApiError::InvalidRequest(err) => err@,
                ApiError::Unauthorized => "Unauthorized"@,
                ApiError::Other(err) => err@,
            },
    {
        let error = match self {
            ApiError::NotFound => "NotFound".to_string(),
            ApiError::InvalidRequest(err) => err.clone(),
            ApiError::Unauthorized => "Unauthorized".to_string(),
            ApiError::Other(err) => err.clone(),
        };
        ErrorResponse { error }
    }
}

} // verus!
