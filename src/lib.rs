//! Issuing, signing and verifying short-lived identity sessions.
//!
//! A session binds a subject to an issuer for a window of time. It starts
//! out unsigned, is signed once by a session manager, and is later checked
//! by that same manager: it must be current, recorded in the manager's
//! issuance ledger, and carry a signature made with the manager's key.
pub mod claims;
pub mod config;
pub mod errors;
pub mod id;
pub mod key;
pub mod manager;
pub mod session;
pub mod text;

pub use claims::TokenClaims;
pub use config::{format_address, Environment, Server};
pub use errors::{
    ApiError, AuthenticationError, ErrorResponse, FieldValidationError, LogicError,
    RepositoryError, UserLogicError, UserRepositoryError,
};
pub use id::Id;
pub use key::{Key, KeyError, SigningKey};
pub use manager::{SessionError, SessionManager, SessionManagerBuilder};
pub use session::{Session, SessionBuilder, Signed, Unsigned};
