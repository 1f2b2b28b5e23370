use minitiktok_user::auth_gate::{
    authenticated_identity, login_response, AuthReply, AuthStatus, TokenReply, TokenStatus, TransportError,
};
use minitiktok_user::discovery::{service_endpoint, CatalogEntry, DiscoveryError};
use minitiktok_user::lease::{pool_failure_status, Lease, PoolFailure};
use minitiktok_user::listener::{after_first_poll, DualStep, Readiness};
use minitiktok_user::profile::{
    follows, merge_profile, FanOut, InfoAction, InfoEvent, InfoPhase, InfoRes, ProfileQuery, UserAttributes,
};
use minitiktok_user::status::Status;

fn attributes(id: i64) -> UserAttributes {
    UserAttributes {
        id,
        username: "alice".to_string(),
        avatar: "a.png".to_string(),
        background_image: "b.png".to_string(),
        signature: "hi".to_string(),
    }
}

fn full_fan_out(id: i64, followed: Vec<i64>) -> FanOut {
    FanOut {
        attributes: Ok(Some(attributes(id))),
        follow_count: Ok(Some(3)),
        follower_count: Ok(Some(4)),
        favorite_count: Ok(Some(5)),
        total_favorited: Ok(Some(6)),
        work_count: Ok(Some(7)),
        followed: Ok(followed),
    }
}

fn reply(a: InfoAction) -> InfoRes {
    match a {
        InfoAction::Reply(r) => r,
        _ => panic!("expected a reply"),
    }
}

fn authenticated_query(target: i64, caller: i64) -> ProfileQuery {
    let (mut q, first) = ProfileQuery::new(target, "tok".to_string());
    assert!(matches!(first, InfoAction::Authenticate));
    let ok = AuthReply { status: AuthStatus::Success, user_id: caller };
    match q.step(InfoEvent::Authenticated(Ok(ok))) {
        InfoAction::FanOut { caller: c, target: t } => {
            assert_eq!(c, caller);
            assert_eq!(t, target);
        }
        _ => panic!("expected the fan-out"),
    }
    q
}

#[test]
fn status_codes_and_messages() {
    let all = [
        (Status::Success, 0),
        (Status::UsernameTooLong, 400),
        (Status::PasswordTooLong, 400),
        (Status::Unauthorized, 401),
        (Status::Forbidden, 403),
        (Status::UsernameOccupied, 403),
        (Status::NotFound, 404),
        (Status::InternalError, 500),
        (Status::BadGateway, 502),
    ];
    for (s, code) in all {
        assert_eq!(s.code(), code);
        assert!(!s.message().is_empty());
    }
    let texts = [
        (Status::Success, "Success"),
        (Status::UsernameTooLong, "username too long: max length is 32 bytes"),
        (Status::PasswordTooLong, "password too long: max length is 32 bytes"),
        (Status::Unauthorized, "Unauthorized"),
        (Status::Forbidden, "Forbidden"),
        (Status::UsernameOccupied, "The username has been occupied."),
        (Status::NotFound, "Not Found"),
        (Status::InternalError, "Internal Server Error"),
        (Status::BadGateway, "Bad Gateway"),
    ];
    for (s, text) in texts {
        assert_eq!(s.message(), text);
    }
}

#[test]
fn failure_replies_carry_their_text() {
    let r = login_response(Err(TransportError));
    assert_eq!(r.status.message(), "Bad Gateway");
    let r = login_response(Ok(TokenReply { status: TokenStatus::Fail, token: "x".to_string(), user_id: 1 }));
    assert_eq!(r.status.message(), "Forbidden");
    let (mut q, _) = ProfileQuery::new(1, "bad".to_string());
    let r = reply(q.step(InfoEvent::Authenticated(Ok(AuthReply { status: AuthStatus::AuthFail, user_id: 1 }))));
    assert_eq!(r.status.message(), "Unauthorized");
    let mut f = full_fan_out(9, vec![]);
    f.work_count = Err(TransportError);
    assert_eq!(merge_profile(9, f).status.message(), "Bad Gateway");
}

#[test]
fn login_success_forbidden_and_bad_gateway() {
    let ok = TokenReply { status: TokenStatus::Success, token: "tok".to_string(), user_id: 12 };
    let r = login_response(Ok(ok));
    assert_eq!((r.status_code(), r.user_id, r.token.as_str()), (0, 12, "tok"));
    for status in [TokenStatus::Fail, TokenStatus::Unspecified] {
        let r = login_response(Ok(TokenReply { status, token: "x".to_string(), user_id: 12 }));
        assert_eq!((r.status_code(), r.user_id, r.token.as_str()), (403, 0, ""));
    }
    let r = login_response(Err(TransportError));
    assert_eq!(r.status_code(), 502);
}

#[test]
fn validation_tri_state() {
    assert_eq!(authenticated_identity(AuthReply { status: AuthStatus::Success, user_id: 8 }), Some(8));
    assert_eq!(authenticated_identity(AuthReply { status: AuthStatus::AuthFail, user_id: 8 }), None);
    assert_eq!(authenticated_identity(AuthReply { status: AuthStatus::Unspecified, user_id: 8 }), None);
}

#[test]
fn info_unauthorized_whatever_target() {
    for target in [1, 0, -5, i64::MAX] {
        for status in [AuthStatus::AuthFail, AuthStatus::Unspecified] {
            let (mut q, _) = ProfileQuery::new(target, "bad".to_string());
            let r = reply(q.step(InfoEvent::Authenticated(Ok(AuthReply { status, user_id: 3 }))));
            assert_eq!(r.status.code(), 401);
            assert!(r.user.is_none());
            assert_eq!(q.phase, InfoPhase::Done);
        }
    }
}

#[test]
fn info_validation_transport_failure_is_bad_gateway() {
    let (mut q, _) = ProfileQuery::new(2, "tok".to_string());
    let r = reply(q.step(InfoEvent::Authenticated(Err(TransportError))));
    assert_eq!(r.status.code(), 502);
    assert!(r.user.is_none());
}

#[test]
fn info_missing_target_is_not_found() {
    let mut q = authenticated_query(404, 1);
    let mut f = full_fan_out(404, vec![]);
    f.attributes = Ok(None);
    f.work_count = Err(TransportError);
    let r = reply(q.step(InfoEvent::Gathered(f)));
    assert_eq!(r.status.code(), 404);
    assert!(r.user.is_none());
    assert!(matches!(q.step(InfoEvent::Gathered(full_fan_out(1, vec![]))), InfoAction::Nothing));
}

#[test]
fn info_full_profile() {
    let mut q = authenticated_query(20, 1);
    let r = reply(q.step(InfoEvent::Gathered(full_fan_out(20, vec![20]))));
    assert_eq!(r.status.code(), 0);
    let u = r.user.unwrap();
    assert_eq!((u.id, u.name.as_str(), u.avatar.as_str()), (20, "alice", "a.png"));
    assert_eq!((u.background_image.as_str(), u.signature.as_str()), ("b.png", "hi"));
    assert_eq!(
        (u.follow_count, u.follower_count, u.favorite_count, u.total_favorited, u.work_count),
        (3, 4, 5, 6, 7)
    );
    assert!(u.is_follow);
}

#[test]
fn is_follow_needs_the_target_in_the_subset() {
    let r = merge_profile(20, full_fan_out(20, vec![]));
    assert!(!r.user.unwrap().is_follow);
    let r = merge_profile(20, full_fan_out(20, vec![21]));
    assert!(!r.user.unwrap().is_follow);
    assert!(follows(&vec![1, 2, 20], 20));
    assert!(!follows(&vec![], 20));
}

#[test]
fn counter_transport_failure_fails_fast() {
    for which in 0..6 {
        let mut f = full_fan_out(9, vec![9]);
        match which {
            0 => f.follow_count = Err(TransportError),
            1 => f.follower_count = Err(TransportError),
            2 => f.favorite_count = Err(TransportError),
            3 => f.total_favorited = Err(TransportError),
            4 => f.work_count = Err(TransportError),
            _ => f.followed = Err(TransportError),
        }
        let r = merge_profile(9, f);
        assert_eq!(r.status.code(), 502);
        assert!(r.user.is_none());
    }
    let mut f = full_fan_out(9, vec![]);
    f.attributes = Err(TransportError);
    assert_eq!(merge_profile(9, f).status.code(), 502);
}

#[test]
fn empty_counter_defaults_to_zero() {
    let mut f = full_fan_out(9, vec![]);
    f.follow_count = Ok(None);
    f.work_count = Ok(None);
    let r = merge_profile(9, f);
    assert_eq!(r.status.code(), 0);
    let u = r.user.unwrap();
    assert_eq!((u.follow_count, u.work_count, u.follower_count), (0, 0, 4));
}

#[test]
fn gathering_before_authentication_is_internal() {
    let (mut q, _) = ProfileQuery::new(2, "tok".to_string());
    let r = reply(q.step(InfoEvent::Gathered(full_fan_out(2, vec![]))));
    assert_eq!(r.status.code(), 500);
}

#[test]
fn dual_listener_polls_second_only_when_first_pending() {
    assert!(matches!(after_first_poll(Readiness::Ready(5)), DualStep::Yield(5)));
    assert!(matches!(after_first_poll::<i32>(Readiness::Pending), DualStep::PollSecond));
}

#[test]
fn leases_release_once() {
    assert!(Lease::Held.must_release());
    assert!(!Lease::Unleased.must_release());
    assert!(!Lease::Released.must_release());
    assert_eq!(Lease::Held.finished(), Lease::Released);
    assert_eq!(Lease::Unleased.finished(), Lease::Unleased);
    assert_eq!(pool_failure_status(PoolFailure::Exhausted).code(), 502);
    assert_eq!(pool_failure_status(PoolFailure::BackendUnavailable).code(), 502);
}

#[test]
fn endpoint_from_catalog() {
    let e = |a: Option<&str>, p: Option<u64>| CatalogEntry { address: a.map(|s| s.to_string()), port: p };
    let ok = service_endpoint(vec![e(Some("10.0.0.1"), Some(8500)), e(Some("10.0.0.2"), Some(1))]).unwrap();
    assert_eq!((ok.address.as_str(), ok.port), ("10.0.0.1", 8500));
    assert_eq!(service_endpoint(vec![e(Some("::1"), Some(65535))]).unwrap().port, 65535);
    assert_eq!(service_endpoint(vec![]).err(), Some(DiscoveryError::NoEntry));
    assert_eq!(service_endpoint(vec![e(None, Some(1))]).err(), Some(DiscoveryError::MissingAddress));
    assert_eq!(service_endpoint(vec![e(Some("h"), None)]).err(), Some(DiscoveryError::MissingPort));
    assert_eq!(service_endpoint(vec![e(Some("h"), Some(65536))]).err(), Some(DiscoveryError::PortOutOfRange));
}
