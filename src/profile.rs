//! The profile aggregator: authenticate the caller, fan out the independent
//! lookups about the viewed user, and merge them into one profile.
//!
//! Merge policy: the attributes lookup is load-bearing (absent means not
//! found); a transport failure of any lookup fails the whole request; a
//! counter that answers with no row counts as zero.
use vstd::prelude::*;

use crate::auth_gate::{AuthReply, TransportError, authenticated_identity, identity_of};
use crate::status::{Status, status_code_of};

verus! {

/// The identity attributes of a user, as the profile service holds them.
pub struct UserAttributes {
    pub id: i64,
    pub username: String,
    pub avatar: String,
    pub background_image: String,
    pub signature: String,
}

/// The merged profile view.
pub struct UserInfo {
    pub id: i64,
    pub name: String,
    pub follow_count: i64,
    pub follower_count: i64,
    pub is_follow: bool,
    pub avatar: String,
    pub background_image: String,
    pub signature: String,
    pub total_favorited: i64,
    pub work_count: i64,
    pub favorite_count: i64,
}

/// Body of a profile response: the profile only on success.
pub struct InfoRes {
    pub status: Status,
    pub user: Option<UserInfo>,
}

/// The gathered results of the fan-out, one per lookup. A counter is `None`
/// when its lookup answered with no row.
pub struct FanOut {
    pub attributes: Result<Option<UserAttributes>, TransportError>,
    pub follow_count: Result<Option<i64>, TransportError>,
    pub follower_count: Result<Option<i64>, TransportError>,
    pub favorite_count: Result<Option<i64>, TransportError>,
    pub total_favorited: Result<Option<i64>, TransportError>,
    pub work_count: Result<Option<i64>, TransportError>,
    /// The subset of the queried targets that the caller follows.
    pub followed: Result<Vec<i64>, TransportError>,
}

pub open spec fn no_profile(status: Status) -> InfoRes {
    InfoRes { status, user: None }
}

/// A counter's value: zero for an answer with no row.
pub open spec fn count_or_zero(c: Option<i64>) -> i64 {
    match c {
        Some(v) => v,
        None => 0,
    }
}

pub open spec fn counters_reached(f: FanOut) -> bool {
    &&& f.follow_count is Ok
    &&& f.follower_count is Ok
    &&& f.favorite_count is Ok
    &&& f.total_favorited is Ok
    &&& f.work_count is Ok
    &&& f.followed is Ok
}

/// The response for the gathered lookups about `target`.
pub open spec fn merged_profile(target: i64, f: FanOut) -> InfoRes {
    match f.attributes {
        Err(_) => no_profile(Status::BadGateway),
        Ok(None) => no_profile(Status::NotFound),
        Ok(Some(a)) => if !counters_reached(f) {
            no_profile(Status::BadGateway)
        } else {
            InfoRes {
                status: Status::Success,
                user: Some(
                    UserInfo {
                        id: a.id,
                        name: a.username,
                        follow_count: count_or_zero(f.follow_count->Ok_0),
                        follower_count: count_or_zero(f.follower_count->Ok_0),
                        is_follow: f.followed->Ok_0@.contains(target),
                        avatar: a.avatar,
                        background_image: a.background_image,
                        signature: a.signature,
                        total_favorited: count_or_zero(f.total_favorited->Ok_0),
                        work_count: count_or_zero(f.work_count->Ok_0),
                        favorite_count: count_or_zero(f.favorite_count->Ok_0),
                    },
                ),
            }
        },
    }
}

fn count_of(c: Result<Option<i64>, TransportError>) -> (r: Result<i64, TransportError>)
    ensures
        match c {
            Ok(v) => r == Ok::<i64, TransportError>(count_or_zero(v)),
            Err(_) => r is Err,
        },
{
    match c {
        Ok(Some(v)) => Ok(v),
        Ok(None) => Ok(0),
        Err(e) => Err(e),
    }
}

/// Whether `target` is among the followed identities.
pub fn follows(followed: &Vec<i64>, target: i64) -> (r: bool)
    ensures
        r == followed@.contains(target),
{
    let mut i: usize = 0;
    while i < followed.len()
        invariant
            i <= followed.len(),
            forall|j: int| 0 <= j < i ==> followed@[j] != target,
        decreases followed.len() - i,
    {
        if followed[i] == target {
            return true;
        }
        i = i + 1;
    }
    false
}

/// Merges the gathered lookups about `target` into one profile response.
pub fn merge_profile(target: i64, f: FanOut) -> (r: InfoRes)
    ensures
        r == merged_profile(target, f),
{
    let a = match f.attributes {
        Err(_) => return InfoRes { status: Status::BadGateway, user: None },
        Ok(None) => return InfoRes { status: Status::NotFound, user: None },
        Ok(Some(a)) => a,
    };
    let follow_count = count_of(f.follow_count);
    let follower_count = count_of(f.follower_count);
    let favorite_count = count_of(f.favorite_count);
    let total_favorited = count_of(f.total_favorited);
    let work_count = count_of(f.work_count);
    match (follow_count, follower_count, favorite_count, total_favorited, work_count, f.followed) {
        (Ok(follow_count), Ok(follower_count), Ok(favorite_count), Ok(total_favorited), Ok(work_count), Ok(
            followed,
        )) => {
            let is_follow = follows(&followed, target);
            InfoRes {
                status: Status::Success,
                user: Some(
                    UserInfo {
                        id: a.id,
                        name: a.username,
                        follow_count,
                        follower_count,
                        is_follow,
                        avatar: a.avatar,
                        background_image: a.background_image,
                        signature: a.signature,
                        total_favorited,
                        work_count,
                        favorite_count,
                    },
                ),
            }
        },
        _ => InfoRes { status: Status::BadGateway, user: None },
    }
}

/// Where a profile request stands.
#[derive(Clone, Copy, Debug, PartialEq, Eq, Structural)]
pub enum InfoPhase {
    /// The caller's token is being validated.
    Authenticating,
    /// The lookups about the target are out, on behalf of this caller.
    Gathering { caller: i64 },
    /// A response has been given.
    Done,
}

/// The outcome of the last action, handed to the query.
pub enum InfoEvent {
    Authenticated(Result<AuthReply, TransportError>),
    Gathered(FanOut),
}

/// What the query asks for next.
pub enum InfoAction {
    /// Validate the request's token.
    Authenticate,
    /// Run every lookup about `target`, checking whether `caller` follows it.
    FanOut { caller: i64, target: i64 },
    /// Answer the request.
    Reply(InfoRes),
    /// The query has finished already.
    Nothing,
}

/// One profile request in flight: `token` is the caller's, `target` the
/// identity whose profile is viewed.
pub struct ProfileQuery {
    pub target: i64,
    pub token: String,
    pub phase: InfoPhase,
}

/// One transition of a profile query. An outcome that does not answer the
/// pending action ends the query as an internal error.
pub open spec fn info_step(target: i64, phase: InfoPhase, ev: InfoEvent) -> (InfoPhase, InfoAction) {
    match phase {
        InfoPhase::Done => (InfoPhase::Done, InfoAction::Nothing),
        InfoPhase::Authenticating => match ev {
            InfoEvent::Authenticated(Ok(a)) => match identity_of(a) {
                Some(caller) => (InfoPhase::Gathering { caller }, InfoAction::FanOut { caller, target }),
                None => (InfoPhase::Done, InfoAction::Reply(no_profile(Status::Unauthorized))),
            },
            InfoEvent::Authenticated(Err(_)) => (InfoPhase::Done, InfoAction::Reply(no_profile(Status::BadGateway))),
            InfoEvent::Gathered(_) => (InfoPhase::Done, InfoAction::Reply(no_profile(Status::InternalError))),
        },
        InfoPhase::Gathering { .. } => match ev {
            InfoEvent::Gathered(f) => (InfoPhase::Done, InfoAction::Reply(merged_profile(target, f))),
            InfoEvent::Authenticated(_) => (InfoPhase::Done, InfoAction::Reply(no_profile(Status::InternalError))),
        },
    }
}

impl ProfileQuery {
    /// Starts a profile request; its first action validates the token.
    pub fn new(target: i64, token: String) -> (r: (ProfileQuery, InfoAction))
        ensures
            r.0.target == target,
            r.0.token == token,
            r.0.phase == InfoPhase::Authenticating,
            r.1 is Authenticate,
    {
        (ProfileQuery { target, token, phase: InfoPhase::Authenticating }, InfoAction::Authenticate)
    }

    /// Advances the query with the outcome of the action it asked for last.
    pub fn step(&mut self, ev: InfoEvent) -> (r: InfoAction)
        ensures
            final(self).target == old(self).target,
            final(self).token == old(self).token,
            (final(self).phase, r) == info_step(old(self).target, old(self).phase, ev),
    {
        match self.phase {
            InfoPhase::Done => InfoAction::Nothing,
            InfoPhase::Authenticating => {
                self.phase = InfoPhase::Done;
                match ev {
                    InfoEvent::Authenticated(Ok(a)) => match authenticated_identity(a) {
                        Some(caller) => {
                            self.phase = InfoPhase::Gathering { caller };
                            InfoAction::FanOut { caller, target: self.target }
                        },
                        None => InfoAction::Reply(InfoRes { status: Status::Unauthorized, user: None }),
                    },
                    InfoEvent::Authenticated(Err(_)) => InfoAction::Reply(
                        InfoRes { status: Status::BadGateway, user: None },
                    ),
                    InfoEvent::Gathered(_) => InfoAction::Reply(InfoRes { status: Status::InternalError, user: None }),
                }
            },
            InfoPhase::Gathering { .. } => {
                self.phase = InfoPhase::Done;
                match ev {
                    InfoEvent::Gathered(f) => InfoAction::Reply(merge_profile(self.target, f)),
                    InfoEvent::Authenticated(_) => InfoAction::Reply(
                        InfoRes { status: Status::InternalError, user: None },
                    ),
                }
            },
        }
    }
}

/// A token that does not authenticate is answered with 401 and no profile,
/// whatever identity was asked for.
pub proof fn lemma_failed_authentication_is_unauthorized(target: i64, reply: AuthReply)
    requires
        identity_of(reply) is None,
    ensures
        info_step(target, InfoPhase::Authenticating, InfoEvent::Authenticated(Ok(reply))) == (
            InfoPhase::Done,
            InfoAction::Reply(no_profile(Status::Unauthorized)),
        ),
        status_code_of(Status::Unauthorized) == 401,
{
}

/// With a valid token, a target whose attributes are absent is answered
/// with 404, whatever the other lookups gave.
pub proof fn lemma_missing_target_is_not_found(target: i64, reply: AuthReply, f: FanOut)
    requires
        identity_of(reply) is Some,
        f.attributes == Ok::<Option<UserAttributes>, TransportError>(None),
    ensures
        ({
            let (p1, a1) = info_step(target, InfoPhase::Authenticating, InfoEvent::Authenticated(Ok(reply)));
            &&& a1 == (InfoAction::FanOut { caller: identity_of(reply)->0, target })
            &&& info_step(target, p1, InfoEvent::Gathered(f)) == (
                InfoPhase::Done,
                InfoAction::Reply(no_profile(Status::NotFound)),
            )
        }),
        status_code_of(Status::NotFound) == 404,
{
}

/// Once the target's attributes are found, a transport failure of any other
/// lookup fails the whole profile with 502; a counter that answers with no
/// row counts as zero and the profile still succeeds.
pub proof fn lemma_fan_out_fails_fast(target: i64, f: FanOut)
    requires
        f.attributes matches Ok(Some(_)),
    ensures
        !counters_reached(f) ==> merged_profile(target, f) == no_profile(Status::BadGateway),
        status_code_of(Status::BadGateway) == 502,
        counters_reached(f) ==> merged_profile(target, f).status == Status::Success,
        counters_reached(f) && f.follow_count == Ok::<Option<i64>, TransportError>(None) ==> merged_profile(
            target,
            f,
        ).user->0.follow_count == 0,
        counters_reached(f) && f.follower_count == Ok::<Option<i64>, TransportError>(None) ==> merged_profile(
            target,
            f,
        ).user->0.follower_count == 0,
        counters_reached(f) && f.favorite_count == Ok::<Option<i64>, TransportError>(None) ==> merged_profile(
            target,
            f,
        ).user->0.favorite_count == 0,
        counters_reached(f) && f.total_favorited == Ok::<Option<i64>, TransportError>(None) ==> merged_profile(
            target,
            f,
        ).user->0.total_favorited == 0,
        counters_reached(f) && f.work_count == Ok::<Option<i64>, TransportError>(None) ==> merged_profile(
            target,
            f,
        ).user->0.work_count == 0,
{
}

} // verus!
