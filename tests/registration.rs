use argon2::password_hash::rand_core::OsRng;
use argon2::password_hash::SaltString;
use minitiktok_user::auth_gate::{TokenReply, TokenStatus, TransportError};
use minitiktok_user::lease::PoolFailure;
use minitiktok_user::password::hash_password;
use minitiktok_user::registration::{
    credential_check, GraphReply, InsertFailure, RegAction, RegEvent, RegPhase, RegistrationSaga,
};
use minitiktok_user::status::{LoginRes, Status};

const SALT: &str = "c2FsdHNhbHRzYWx0c2FsdA";

fn finish(a: RegAction) -> (LoginRes, bool, bool, bool) {
    match a {
        RegAction::Finish { reply, reset_graph, release_graph, release_store } => {
            (reply, reset_graph, release_graph, release_store)
        }
        _ => panic!("expected the saga to finish"),
    }
}

/// Runs a saga up to the insert, with both connections leased.
fn saga_at_insert(username: &str, password: &str) -> RegistrationSaga {
    let (mut saga, first) =
        RegistrationSaga::start_with_salt(username.to_string(), password.to_string(), SALT.to_string());
    assert!(matches!(first, RegAction::AcquireGraph));
    assert!(matches!(saga.step(RegEvent::GraphLease(Ok(()))), RegAction::AcquireStore));
    match saga.step(RegEvent::StoreLease(Ok(()))) {
        RegAction::InsertCredential { password_hash } => {
            assert!(password_hash.starts_with("$argon2id$"));
            assert_ne!(password_hash, password);
            assert!(password_hash.len() > 50);
        }
        _ => panic!("expected an insert"),
    }
    saga
}

fn saga_at_node(id: i64) -> RegistrationSaga {
    let mut saga = saga_at_insert("bob", "hunter22");
    assert!(matches!(saga.step(RegEvent::Inserted(Ok(1))), RegAction::ResolveId));
    assert!(matches!(
        saga.step(RegEvent::IdResolved(Ok(Some(id)))),
        RegAction::CreateNode { id: i } if i == id
    ));
    saga
}

fn token(status: TokenStatus, token: &str, user_id: i64) -> RegEvent {
    RegEvent::TokenIssued(Ok(TokenReply { status, token: token.to_string(), user_id }))
}

#[test]
fn hash_len_eq_32() {
    let salt = SaltString::generate(&mut OsRng);
    let password = "1".repeat(32);
    let hash = hash_password(&password, salt.as_str()).unwrap();
    assert_eq!(hash.len(), 96, "{hash} len: {}", hash.len());

    let salt = SaltString::generate(&mut OsRng);
    let password = "114514";
    let hash = hash_password(password, salt.as_str()).unwrap();
    assert_eq!(hash.len(), 96, "{hash} len: {}", hash.len());
}

#[test]
fn hash_is_deterministic_for_a_salt_and_refuses_a_short_salt() {
    let a = hash_password("secret123", SALT).unwrap();
    let b = hash_password("secret123", SALT).unwrap();
    let c = hash_password("secret124", SALT).unwrap();
    assert_eq!(a, b);
    assert_ne!(a, c);
    assert_ne!(a, "secret123");
    assert!(hash_password("secret123", "ab").is_none());
}

#[test]
fn register_alice_then_again_conflicts() {
    let mut saga = saga_at_insert("alice", "secret123");
    assert!(matches!(saga.step(RegEvent::Inserted(Ok(1))), RegAction::ResolveId));
    assert!(matches!(saga.step(RegEvent::IdResolved(Ok(Some(42)))), RegAction::CreateNode { id: 42 }));
    assert!(matches!(saga.step(RegEvent::NodeCreated(Ok(GraphReply::Success))), RegAction::DiscardResults));
    assert!(matches!(saga.step(RegEvent::ResultsDiscarded(Ok(GraphReply::Success))), RegAction::IssueToken));
    let (reply, reset, rg, rs) = finish(saga.step(token(TokenStatus::Success, "tok-alice", 99)));
    assert_eq!(reply.status_code(), 0);
    assert_eq!(reply.user_id, 42);
    assert_eq!(reply.token, "tok-alice");
    assert!(!reset && rg && rs);
    assert_eq!(saga.state.phase, RegPhase::Done);
    assert!(matches!(saga.step(RegEvent::Inserted(Ok(1))), RegAction::Nothing));

    let mut again = saga_at_insert("alice", "secret123");
    let failure = InsertFailure { sql_state: Some("23505".to_string()) };
    let (reply, reset, rg, rs) = finish(again.step(RegEvent::Inserted(Err(failure))));
    assert_eq!(reply.status_code(), 403);
    assert_eq!(reply.token, "");
    assert!(!reset && rg && rs);
}

#[test]
fn oversized_username_touches_no_store() {
    let name = "a".repeat(33);
    let (mut saga, first) = RegistrationSaga::start_with_salt(name, "pw".to_string(), SALT.to_string());
    let (reply, reset, rg, rs) = finish(first);
    assert_eq!(reply.status, Status::UsernameTooLong);
    assert_eq!(reply.status_code(), 400);
    assert!(!reset && !rg && !rs);
    assert!(matches!(saga.step(RegEvent::GraphLease(Ok(()))), RegAction::Nothing));
}

#[test]
fn oversized_password_is_a_client_error() {
    let (_, first) = RegistrationSaga::start("carol".to_string(), "p".repeat(33));
    let (reply, _, rg, rs) = finish(first);
    assert_eq!(reply.status, Status::PasswordTooLong);
    assert_eq!(reply.status_code(), 400);
    assert!(!rg && !rs);
}

#[test]
fn credential_length_is_counted_in_bytes() {
    assert_eq!(credential_check(&"a".repeat(32), &"b".repeat(32)), None);
    assert_eq!(credential_check(&"é".repeat(17), &"b".to_string()), Some(Status::UsernameTooLong));
    assert_eq!(credential_check(&"é".repeat(16), &"b".to_string()), None);
}

#[test]
fn start_with_fresh_salt_hashes() {
    let (mut saga, first) = RegistrationSaga::start("dave".to_string(), "pw".to_string());
    assert!(matches!(first, RegAction::AcquireGraph));
    assert!(SALT != saga.salt);
    assert_eq!(saga.salt.len(), 22);
    saga.step(RegEvent::GraphLease(Ok(())));
    assert!(matches!(saga.step(RegEvent::StoreLease(Ok(()))), RegAction::InsertCredential { .. }));
}

#[test]
fn graph_pool_exhaustion_is_bad_gateway() {
    let (mut saga, _) = RegistrationSaga::start_with_salt("erin".to_string(), "pw".to_string(), SALT.to_string());
    let (reply, _, rg, rs) = finish(saga.step(RegEvent::GraphLease(Err(PoolFailure::Exhausted))));
    assert_eq!(reply.status_code(), 502);
    assert!(!rg && !rs);
}

#[test]
fn store_pool_exhaustion_is_bad_gateway() {
    let (mut saga, _) = RegistrationSaga::start_with_salt("erin".to_string(), "pw".to_string(), SALT.to_string());
    saga.step(RegEvent::GraphLease(Ok(())));
    let (reply, _, rg, rs) = finish(saga.step(RegEvent::StoreLease(Err(PoolFailure::BackendUnavailable))));
    assert_eq!(reply.status_code(), 502);
    assert!(rg && !rs);
}

#[test]
fn refused_salt_is_internal_and_releases_both() {
    let (mut saga, _) = RegistrationSaga::start_with_salt("erin".to_string(), "pw".to_string(), "x".to_string());
    saga.step(RegEvent::GraphLease(Ok(())));
    let (reply, _, rg, rs) = finish(saga.step(RegEvent::StoreLease(Ok(()))));
    assert_eq!(reply.status_code(), 500);
    assert!(rg && rs);
}

#[test]
fn insert_outcomes() {
    let (reply, ..) = finish(saga_at_insert("f", "p").step(RegEvent::Inserted(Ok(0))));
    assert_eq!(reply.status, Status::UsernameOccupied);
    let (reply, ..) = finish(saga_at_insert("f", "p").step(RegEvent::Inserted(Ok(2))));
    assert_eq!(reply.status_code(), 500);
    let other = InsertFailure { sql_state: Some("08006".to_string()) };
    let (reply, ..) = finish(saga_at_insert("f", "p").step(RegEvent::Inserted(Err(other))));
    assert_eq!(reply.status_code(), 502);
    let transport = InsertFailure { sql_state: None };
    let (reply, ..) = finish(saga_at_insert("f", "p").step(RegEvent::Inserted(Err(transport))));
    assert_eq!(reply.status_code(), 502);
}

#[test]
fn missing_inserted_row_is_internal() {
    let mut saga = saga_at_insert("g", "p");
    saga.step(RegEvent::Inserted(Ok(1)));
    let (reply, ..) = finish(saga.step(RegEvent::IdResolved(Ok(None))));
    assert_eq!(reply.status_code(), 500);
    let mut saga = saga_at_insert("g", "p");
    saga.step(RegEvent::Inserted(Ok(1)));
    let (reply, ..) = finish(saga.step(RegEvent::IdResolved(Err(TransportError))));
    assert_eq!(reply.status_code(), 502);
}

#[test]
fn node_creation_outcomes() {
    let code = Some("Neo.ClientError.Schema.ConstraintValidationFailed".to_string());
    let (reply, reset, rg, rs) = finish(saga_at_node(5).step(RegEvent::NodeCreated(Ok(GraphReply::Failure { code }))));
    assert_eq!(reply.status_code(), 403);
    assert!(reset && rg && rs);
    let code = Some("Neo.TransientError.General.DatabaseUnavailable".to_string());
    let (reply, reset, ..) = finish(saga_at_node(5).step(RegEvent::NodeCreated(Ok(GraphReply::Failure { code }))));
    assert_eq!(reply.status_code(), 502);
    assert!(reset);
    let (reply, reset, ..) = finish(saga_at_node(5).step(RegEvent::NodeCreated(Ok(GraphReply::Other))));
    assert_eq!(reply.status_code(), 502);
    assert!(reset);
    let (reply, reset, rg, rs) = finish(saga_at_node(5).step(RegEvent::NodeCreated(Err(TransportError))));
    assert_eq!(reply.status_code(), 502);
    assert!(!reset && rg && rs);
}

#[test]
fn discard_failure_is_bad_gateway() {
    let mut saga = saga_at_node(6);
    saga.step(RegEvent::NodeCreated(Ok(GraphReply::Success)));
    let (reply, reset, ..) = finish(saga.step(RegEvent::ResultsDiscarded(Ok(GraphReply::Other))));
    assert_eq!(reply.status_code(), 502);
    assert!(reset);
}

#[test]
fn token_outcomes_after_node() {
    for (status, code) in [(TokenStatus::Fail, 403), (TokenStatus::Unspecified, 403)] {
        let mut saga = saga_at_node(7);
        saga.step(RegEvent::NodeCreated(Ok(GraphReply::Success)));
        saga.step(RegEvent::ResultsDiscarded(Ok(GraphReply::Success)));
        let (reply, _, rg, rs) = finish(saga.step(token(status, "t", 7)));
        assert_eq!(reply.status_code(), code);
        assert_eq!(reply.user_id, 0);
        assert!(rg && rs);
    }
    let mut saga = saga_at_node(7);
    saga.step(RegEvent::NodeCreated(Ok(GraphReply::Success)));
    saga.step(RegEvent::ResultsDiscarded(Ok(GraphReply::Success)));
    let (reply, ..) = finish(saga.step(RegEvent::TokenIssued(Err(TransportError))));
    assert_eq!(reply.status_code(), 502);
}

#[test]
fn unexpected_event_is_internal_and_releases() {
    let mut saga = saga_at_insert("h", "p");
    let (reply, _, rg, rs) = finish(saga.step(RegEvent::GraphLease(Ok(()))));
    assert_eq!(reply.status_code(), 500);
    assert!(rg && rs);
    assert!(matches!(saga.step(RegEvent::Inserted(Ok(1))), RegAction::Nothing));
}
