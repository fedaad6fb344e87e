use chrono::{Duration, Utc};
use session_auth::{Id, Session};

fn now() -> i64 {
    Utc::now().timestamp()
}

#[test]
fn session_it_can_create_a_valid_session_with_defaults() {
    let session = Session::build("0000").finish();

    assert_eq!(session.id().as_str().is_empty(), false);
    assert_eq!(session.user_id(), "0000");
    assert_eq!(session.is_expired(), false);
    // An unsigned session is never valid; once signed it is.
    assert_eq!(session.is_valid(), false);
    let session = session.add_signature(b"test signature");
    assert_eq!(session.is_valid(), true);
}

#[test]
fn session_it_can_create_a_valid_session_with_custom_values() {
    let issuer = "Sonemas LLC";
    let id = "9876";
    let user_id = "1234";
    let issued_at = now() - Duration::minutes(20).num_seconds();
    let duration = Duration::hours(2).num_seconds();
    let expires_at = issued_at + duration;

    let session = Session::build(user_id)
        .with_issuer(issuer)
        .with_id(Id::from(id))
        .with_duration(duration)
        .issued_at(issued_at)
        .finish();

    assert_eq!(session.id().as_str(), id);
    assert_eq!(session.user_id(), user_id);
    assert_eq!(session.issuer(), issuer);
    assert_eq!(session.issued_at(), issued_at);
    assert_eq!(session.expires_at(), expires_at);
    assert_eq!(session.is_expired(), false);
    assert_eq!(session.is_valid(), false);
    let session = session.add_signature(b"test signature");
    assert_eq!(session.is_valid(), true);
}

#[test]
fn session_it_can_detect_invalid_sessions() {
    let issued_at = now() - Duration::hours(2).num_seconds();

    let session = Session::build("1234").issued_at(issued_at).finish();

    assert_eq!(session.is_expired(), true);
    assert_eq!(session.is_valid(), false);
}

#[test]
fn mod_it_can_create_a_valid_session_with_defaults() {
    let session = Session::build("0000").finish();

    assert_eq!(session.user_id(), "0000");
    assert_eq!(session.is_expired(), false);
    assert_eq!(session.is_valid(), false);

    let session = session.add_signature(b"test signature");
    assert_eq!(session.is_valid(), true);
}

#[test]
fn mod_it_can_create_a_valid_session_with_custom_values() {
    let issuer = "Sonemas LLC";
    let id = Id::from("e295a278-f7c6-4f93-b53e-69187fc2eb79");
    let user_id = "1234";
    let issued_at = now() - Duration::minutes(20).num_seconds();
    let duration = Duration::hours(2).num_seconds();
    let expires_at = issued_at + duration;

    let session = Session::build(user_id)
        .with_issuer(issuer)
        .with_id(id.clone())
        .with_duration(duration)
        .issued_at(issued_at)
        .finish();

    assert_eq!(session.id(), id);
    assert_eq!(session.user_id(), user_id);
    assert_eq!(session.issuer(), issuer);
    assert_eq!(session.issued_at(), issued_at);
    assert_eq!(session.expires_at(), expires_at);
    assert_eq!(session.is_expired(), false);
    assert_eq!(session.is_valid(), false);

    let session = session.add_signature(b"test signature");
    assert_eq!(session.is_valid(), true);
}

#[test]
fn mod_it_can_detect_invalid_sessions() {
    let issued_at = now() - Duration::hours(2).num_seconds();

    let session = Session::build("1234").issued_at(issued_at).finish();

    assert_eq!(session.is_expired(), true);
    assert_eq!(session.is_valid(), false);

    let session = session.add_signature(b"test signature");
    assert_eq!(session.is_valid(), false);
}

#[test]
fn it_can_restore_sessions() {
    let issued_at = now();
    let orig_session = Session::build("1234")
        .issued_at(issued_at)
        .finish()
        .add_signature(b"test signature");
    assert!(!orig_session.is_expired());
    assert!(orig_session.is_valid());

    let session = Session::restore(
        orig_session.id(),
        orig_session.user_id(),
        &orig_session.issuer(),
        orig_session.issued_at(),
        orig_session.expires_at(),
        orig_session.signature(),
    );
    assert_eq!(session, orig_session);
    assert!(!session.is_expired());
    assert!(session.is_valid());
}

#[test]
fn defaults_are_auth_service_and_one_hour() {
    let session = Session::build("42").issued_at(1000).finish();
    assert_eq!(session.issuer(), "auth service");
    assert_eq!(session.expires_at(), 4600);
    assert_eq!(session.id().as_str().len(), 36);
}

#[test]
fn expiry_is_strictly_after_expires_at() {
    let session = Session::build("42")
        .issued_at(1000)
        .with_duration(60)
        .finish()
        .add_signature(b"sig");
    assert!(!session.is_expired_at(1059));
    assert!(!session.is_expired_at(1060));
    assert!(session.is_expired_at(1061));
    assert!(session.is_valid_at(1060));
    assert!(!session.is_valid_at(1061));
}

#[test]
fn sessions_issued_in_the_future_are_not_valid() {
    let session = Session::build("42")
        .issued_at(1000)
        .with_duration(60)
        .finish()
        .add_signature(b"sig");
    assert!(!session.is_valid_at(999));
    assert!(session.is_valid_at(1000));
}

#[test]
fn sessions_without_an_issuer_are_not_valid() {
    let session = Session::build("42")
        .with_issuer("")
        .issued_at(1000)
        .finish()
        .add_signature(b"sig");
    assert!(!session.is_valid_at(1000));
}

#[test]
fn unsigned_sessions_are_never_valid() {
    let session = Session::build("42").issued_at(now()).finish();
    assert!(!session.is_expired());
    assert!(!session.is_valid());
    assert!(!session.is_signed());
    assert!(session.add_signature(b"sig").is_signed());
}

#[test]
fn canonical_representation_uses_epoch_seconds() {
    let session = Session::build("1234")
        .with_id(Id::from("9876"))
        .with_issuer("Sonemas LLC")
        .issued_at(100)
        .with_duration(7200)
        .finish();
    assert_eq!(session.canonical(), "9876:1234:Sonemas LLC:100:7300");
    assert_eq!(session.payload("abc"), "9876:1234:Sonemas LLC:100:7300:abc");

    let early = Session::build("1")
        .with_id(Id::from("x"))
        .with_issuer("i")
        .issued_at(-5)
        .with_duration(5)
        .finish();
    assert_eq!(early.canonical(), "x:1:i:-5:0");
}

#[test]
fn hash_is_the_sha256_of_the_payload() {
    let session = Session::build("1234")
        .with_id(Id::from("9876"))
        .with_issuer("Sonemas LLC")
        .issued_at(100)
        .with_duration(7200)
        .finish();
    assert_eq!(
        session.hash("abc"),
        "62c01972e5a952126ffa2145820b8f8dce945ba5de7e0e96c43c31ea3efe07c1"
    );
}

#[test]
fn restored_sessions_differ_when_an_attribute_differs() {
    let session = Session::build("1234")
        .issued_at(100)
        .finish()
        .add_signature(b"sig");
    let other = Session::restore(
        session.id(),
        "1235".to_string(),
        &session.issuer(),
        session.issued_at(),
        session.expires_at(),
        session.signature(),
    );
    assert_ne!(session, other);
    let resigned = Session::restore(
        session.id(),
        session.user_id(),
        &session.issuer(),
        session.issued_at(),
        session.expires_at(),
        b"sih",
    );
    assert_ne!(session, resigned);
    assert_eq!(session.clone(), session);
}
