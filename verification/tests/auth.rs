use media_catalog_auth::auth_errors::AuthServiceError;
use media_catalog_auth::auth_models::LoginRequest;
use media_catalog_auth::auth_store::{AuthStore, Identity, Session};
use media_catalog_auth::authentication_services::{
    create_session_at, create_session_id, create_session_with, create_user, get_user_id,
    register_user_at, register_user_with, validate_request, validate_request_at,
    validate_user_session, validate_user_session_at,
};
use media_catalog_auth::clock::{expiry_from, SESSION_DURATION_SECS};

fn request(username: &str, pass_hash: &str) -> LoginRequest {
    LoginRequest { username: username.to_string(), pass_hash: pass_hash.to_string() }
}

fn store_with_one_session(expiry: i64) -> AuthStore {
    AuthStore {
        identities: vec![Identity {
            id: "u1".to_string(),
            username: "alice".to_string(),
            pass_hash: "h1".to_string(),
        }],
        sessions: vec![Session {
            id: "s1".to_string(),
            user_id: "u1".to_string(),
            expiry,
        }],
    }
}

#[test]
fn register_then_validate_then_expire() {
    let mut store = AuthStore::new();
    let user = register_user_at(&mut store, request("alice", "h1"), 1_000).unwrap();
    assert_eq!(user.username, "alice");

    let live = validate_user_session_at(&store, user.user_session.clone(), 1_000).unwrap();
    assert_eq!(live.username, "alice");
    assert_eq!(live.user_session, user.user_session);

    let after = validate_user_session_at(
        &store,
        user.user_session.clone(),
        1_000 + SESSION_DURATION_SECS + 1,
    );
    assert_eq!(after.unwrap_err(), AuthServiceError::InvalidSessionToken);
}

#[test]
fn verify_wrong_hash_and_unknown_user_fail_alike() {
    let mut store = AuthStore::new();
    register_user_at(&mut store, request("alice", "h1"), 1_000).unwrap();

    let wrong_hash = get_user_id(&store, "alice".to_string(), "wrong".to_string()).unwrap_err();
    assert_eq!(wrong_hash, AuthServiceError::FailedToAuthenticate);

    let unknown_user = get_user_id(&store, "bob".to_string(), "h1".to_string()).unwrap_err();
    assert_eq!(unknown_user, AuthServiceError::FailedToAuthenticate);

    assert_eq!(wrong_hash, unknown_user);
}

#[test]
fn register_then_verify_succeeds() {
    let mut store = AuthStore::new();
    register_user_at(&mut store, request("alice", "h1"), 1_000).unwrap();
    assert!(get_user_id(&store, "alice".to_string(), "h1".to_string()).is_ok());
}

#[test]
fn duplicate_username_is_rejected_without_a_second_identity() {
    let mut store = AuthStore::new();
    register_user_at(&mut store, request("alice", "h1"), 1_000).unwrap();
    let err = register_user_at(&mut store, request("alice", "other"), 1_000).unwrap_err();
    assert_eq!(err, AuthServiceError::FailedToRegister);
    assert_eq!(store.identities.len(), 1);
    assert_eq!(store.sessions.len(), 1);
}

#[test]
fn issued_session_expires_two_hours_after_issue() {
    let mut store = AuthStore::new();
    register_user_at(&mut store, request("alice", "h1"), 1_000).unwrap();
    let uid = get_user_id(&store, "alice".to_string(), "h1".to_string()).unwrap();

    create_session_at(&mut store, &uid, "alice".to_string(), 50_000).unwrap();
    let issued = store.sessions.last().unwrap();
    assert_eq!(issued.expiry, 50_000 + SESSION_DURATION_SECS);
}

#[test]
fn expiry_from_adds_exactly_two_hours() {
    assert_eq!(expiry_from(1_000), 8_200);
    assert_eq!(SESSION_DURATION_SECS, 7_200);
}

#[test]
fn validate_at_the_boundary_instant_is_expired() {
    let store = store_with_one_session(5_000);
    assert!(validate_user_session_at(&store, "s1".to_string(), 4_999).is_ok());
    let at_boundary = validate_user_session_at(&store, "s1".to_string(), 5_000);
    assert_eq!(at_boundary.unwrap_err(), AuthServiceError::InvalidSessionToken);
    let past = validate_user_session_at(&store, "s1".to_string(), 5_001);
    assert_eq!(past.unwrap_err(), AuthServiceError::InvalidSessionToken);
}

#[test]
fn never_issued_session_fails_like_an_expired_one() {
    let store = store_with_one_session(5_000);
    let absent = validate_user_session_at(&store, "s2".to_string(), 4_000).unwrap_err();
    let expired = validate_user_session_at(&store, "s1".to_string(), 6_000).unwrap_err();
    assert_eq!(absent, AuthServiceError::InvalidSessionToken);
    assert_eq!(absent, expired);
}

#[test]
fn request_gate_outcomes() {
    let store = store_with_one_session(5_000);
    let no_credential = validate_request_at(&store, None, 1_000);
    assert_eq!(no_credential.unwrap_err(), AuthServiceError::GenerallyForbidden);

    let unknown = validate_request_at(&store, Some("nope".to_string()), 1_000);
    assert_eq!(unknown.unwrap_err(), AuthServiceError::InvalidSessionToken);

    let live = validate_request_at(&store, Some("s1".to_string()), 1_000);
    assert_eq!(live, Ok(()));

    let expired = validate_request_at(&store, Some("s1".to_string()), 9_000);
    assert_eq!(expired.unwrap_err(), AuthServiceError::InvalidSessionToken);
}

#[test]
fn verification_returns_the_matching_row_id() {
    let mut store = AuthStore::new();
    let req = request("alice", "h1");
    let user = register_user_with(
        &mut store,
        &req,
        "uid-1".to_string(),
        "sid-1".to_string(),
        1_000,
    )
    .unwrap();
    assert_eq!(user.user_session, "sid-1");
    assert_eq!(get_user_id(&store, "alice".to_string(), "h1".to_string()).unwrap(), "uid-1");
}

#[test]
fn taken_ids_are_refused_and_change_nothing() {
    let mut store = AuthStore::new();
    let req = request("alice", "h1");
    register_user_with(&mut store, &req, "uid-1".to_string(), "sid-1".to_string(), 1_000)
        .unwrap();

    let req2 = request("bob", "h2");
    let same_session = register_user_with(
        &mut store,
        &req2,
        "uid-2".to_string(),
        "sid-1".to_string(),
        1_000,
    );
    assert_eq!(same_session.unwrap_err(), AuthServiceError::FailedToRegister);

    let same_identity = register_user_with(
        &mut store,
        &req2,
        "uid-1".to_string(),
        "sid-2".to_string(),
        1_000,
    );
    assert_eq!(same_identity.unwrap_err(), AuthServiceError::FailedToRegister);

    assert_eq!(store.identities.len(), 1);
    assert_eq!(store.sessions.len(), 1);
}

#[test]
fn issuing_for_an_unknown_identity_fails() {
    let mut store = AuthStore::new();
    let err = create_session_with(
        &mut store,
        &"ghost".to_string(),
        "alice".to_string(),
        "sid-9".to_string(),
        1_000,
    )
    .unwrap_err();
    assert_eq!(err, AuthServiceError::FailedToAuthenticate);
    assert!(store.sessions.is_empty());
}

#[test]
fn one_identity_may_hold_several_live_sessions() {
    let mut store = AuthStore::new();
    register_user_at(&mut store, request("alice", "h1"), 1_000).unwrap();
    let uid = get_user_id(&store, "alice".to_string(), "h1".to_string()).unwrap();
    let a = create_session_at(&mut store, &uid, "alice".to_string(), 2_000).unwrap();
    let b = create_session_at(&mut store, &uid, "alice".to_string(), 3_000).unwrap();
    assert_ne!(a.user_session, b.user_session);
    assert_eq!(store.sessions.len(), 3);
    assert!(validate_user_session_at(&store, a.user_session, 4_000).is_ok());
    assert!(validate_user_session_at(&store, b.user_session, 4_000).is_ok());
}

#[test]
fn session_ids_come_out_as_hyphenated_uuids() {
    let mut store = AuthStore::new();
    let user = register_user_at(&mut store, request("alice", "h1"), 1_000).unwrap();
    assert_eq!(user.user_session.len(), 36);
    assert_eq!(user.user_session.matches('-').count(), 4);
}

#[test]
fn wall_clock_paths_issue_and_validate() {
    let mut store = AuthStore::new();
    let user = create_user(&mut store, request("alice", "h1")).unwrap();
    assert_eq!(user.username, "alice");

    let seen = validate_user_session(&store, user.user_session.clone()).unwrap();
    assert_eq!(seen.username, "alice");

    assert_eq!(validate_request(&store, Some(user.user_session.clone())), Ok(()));
    assert_eq!(
        validate_request(&store, None).unwrap_err(),
        AuthServiceError::GenerallyForbidden
    );

    let uid = get_user_id(&store, "alice".to_string(), "h1".to_string()).unwrap();
    let extra = create_session_id(&mut store, uid, "alice".to_string()).unwrap();
    assert!(validate_user_session(&store, extra.user_session).is_ok());
}

#[test]
fn auth_error_status_codes() {
    assert_eq!(AuthServiceError::FailedToRegister.status_code(), 412);
    assert_eq!(AuthServiceError::FailedToAuthenticate.status_code(), 401);
    assert_eq!(AuthServiceError::InvalidSessionToken.status_code(), 401);
    assert_eq!(AuthServiceError::GenerallyForbidden.status_code(), 403);
    assert_eq!(AuthServiceError::SuspiciousRequest.status_code(), 401);
}

#[test]
fn auth_error_messages() {
    assert_eq!(AuthServiceError::FailedToRegister.message(), "Failed to register user");
    assert_eq!(AuthServiceError::FailedToAuthenticate.message(), "Failed to authenticate user");
    assert_eq!(AuthServiceError::InvalidSessionToken.message(), "Invalid session token");
    assert_eq!(
        AuthServiceError::GenerallyForbidden.message(),
        "User is just not allowed to do this"
    );
    assert_eq!(
        AuthServiceError::SuspiciousRequest.message(),
        "There might be an attacker in the middle"
    );
}
