use session_auth::{SessionError, SessionManager, TokenClaims};

#[test]
fn claims_carry_a_session_and_restore_it() {
    let mut session_manager = SessionManager::build()
        .with_issuer("Sonemas LLC")
        .finish()
        .expect("should be able to create a session manager");
    let session = session_manager.new_session("1234").expect("should be able to create new session");
    let claims = TokenClaims::from_session(&session);
    assert_eq!(claims.sub, "1234");
    assert_eq!(claims.iss, "Sonemas LLC");
    assert_eq!(claims.exp - claims.iat, 3600);
    let restored = claims.into_session();
    assert_eq!(restored, session);
    assert_eq!(session_manager.verify_session(&restored), Ok(()));
}

#[test]
fn claims_with_a_changed_expiry_are_rejected() {
    let mut session_manager = SessionManager::build()
        .finish()
        .expect("should be able to create a session manager");
    let session = session_manager.new_session("1234").expect("should be able to create new session");
    let mut claims = TokenClaims::from_session(&session);
    claims.exp += 3600;
    assert_eq!(
        session_manager.verify_session(&claims.into_session()),
        Err(SessionError::UnknownSession)
    );
}
