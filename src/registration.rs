//! The registration saga: credential row, graph node and session token,
//! created against independent stores without a shared transaction.
//!
//! The identity is assigned by the relational store on insert and read back
//! by username; the graph node is keyed by that identity. If the graph step
//! fails, the credential row stays committed: no step is ever rolled back, a
//! later registration with the same name conflicts at the relational store.
//!
//! The saga is a state machine. Whoever runs it performs each action it asks
//! for and hands back the outcome as the next event, until it finishes.
use vstd::prelude::*;
use vstd::utf8::encode_utf8;

use crate::auth_gate::{TokenReply, TransportError, login_response, login_view};
use crate::lease::{Lease, PoolFailure, after_release, pool_failure_status};
use crate::password::{argon2_phc, fresh_salt, hash_password, text_view};
use crate::status::{LoginRes, LoginView, Status, MAX_CREDENTIAL_LEN, login_failure_view};

verus! {

/// Where the saga stands. The phases only ever move forward.
#[derive(Clone, Copy, Debug, PartialEq, Eq, Structural)]
pub enum RegPhase {
    /// Waiting for a graph-store connection.
    LeasingGraph,
    /// Waiting for a relational-store connection.
    LeasingStore,
    /// The credential row is being inserted.
    Inserting,
    /// The identity of the new row is being read back.
    ResolvingId,
    /// The graph node with this identity is being created.
    CreatingNode { id: i64 },
    /// The node creation's pending results are being discarded.
    DiscardingResults { id: i64 },
    /// A session token is being requested for this identity.
    IssuingToken { id: i64 },
    /// A response has been given; nothing more happens.
    Done,
}

#[derive(Clone, Copy, Debug, PartialEq, Eq, Structural)]
pub struct SagaState {
    pub phase: RegPhase,
    pub graph: Lease,
    pub store: Lease,
}

/// The relational store's answer to a failed insert: its SQLSTATE when the
/// store itself reported the error, none for a transport failure.
pub struct InsertFailure {
    pub sql_state: Option<String>,
}

/// The graph store's answer to a request that reached it.
pub enum GraphReply {
    Success,
    /// A failure, with the `code` entry of its metadata when it is a string.
    Failure { code: Option<String> },
    /// Any other message.
    Other,
}

/// The outcome of the last action, handed to the saga.
pub enum RegEvent {
    GraphLease(Result<(), PoolFailure>),
    StoreLease(Result<(), PoolFailure>),
    /// The number of rows the insert affected, or its failure.
    Inserted(Result<u64, InsertFailure>),
    /// The identity stored for the username, if a row was found.
    IdResolved(Result<Option<i64>, TransportError>),
    NodeCreated(Result<GraphReply, TransportError>),
    ResultsDiscarded(Result<GraphReply, TransportError>),
    TokenIssued(Result<TokenReply, TransportError>),
}

/// What the saga asks for next.
pub enum RegAction {
    AcquireGraph,
    AcquireStore,
    /// Insert the username with this password hash into the credential table.
    InsertCredential { password_hash: String },
    /// Read the identity of the username's row.
    ResolveId,
    /// Create the graph node with this identity and the username.
    CreateNode { id: i64 },
    /// Discard the pending results of the node creation.
    DiscardResults,
    /// Request a session token with the plaintext credentials.
    IssueToken,
    /// Reset the graph session if asked, give the held connections back,
    /// and answer with the reply.
    Finish { reply: LoginRes, reset_graph: bool, release_graph: bool, release_store: bool },
    /// The saga has finished already.
    Nothing,
}

pub enum RegActionView {
    AcquireGraph,
    AcquireStore,
    InsertCredential { password_hash: Seq<char> },
    ResolveId,
    CreateNode { id: i64 },
    DiscardResults,
    IssueToken,
    Finish { reply: LoginView, reset_graph: bool, release_graph: bool, release_store: bool },
    Nothing,
}

impl View for RegAction {
    type V = RegActionView;

    open spec fn view(&self) -> RegActionView {
        match self {
            RegAction::AcquireGraph => RegActionView::AcquireGraph,
            RegAction::AcquireStore => RegActionView::AcquireStore,
            RegAction::InsertCredential { password_hash } => RegActionView::InsertCredential {
                password_hash: password_hash@,
            },
            RegAction::ResolveId => RegActionView::ResolveId,
            RegAction::CreateNode { id } => RegActionView::CreateNode { id: *id },
            RegAction::DiscardResults => RegActionView::DiscardResults,
            RegAction::IssueToken => RegActionView::IssueToken,
            RegAction::Finish { reply, reset_graph, release_graph, release_store } => RegActionView::Finish {
                reply: reply@,
                reset_graph: *reset_graph,
                release_graph: *release_graph,
                release_store: *release_store,
            },
            RegAction::Nothing => RegActionView::Nothing,
        }
    }
}

/// One registration request in flight.
pub struct RegistrationSaga {
    pub username: String,
    pub password: String,
    pub salt: String,
    pub state: SagaState,
}

/// SQLSTATE of a uniqueness violation.
pub const UNIQUE_VIOLATION: &'static str = "23505";

/// Graph-store failure code of a violated uniqueness constraint.
pub const CONSTRAINT_VALIDATION_FAILED: &'static str = "Neo.ClientError.Schema.ConstraintValidationFailed";

pub open spec fn byte_len(s: Seq<char>) -> nat {
    encode_utf8(s).len()
}

/// The status of a request whose credentials are too long, if they are.
pub open spec fn validation_failure(username: Seq<char>, password: Seq<char>) -> Option<Status> {
    if byte_len(username) > MAX_CREDENTIAL_LEN {
        Some(Status::UsernameTooLong)
    } else if byte_len(password) > MAX_CREDENTIAL_LEN {
        Some(Status::PasswordTooLong)
    } else {
        None
    }
}

pub open spec fn is_unique_violation(f: InsertFailure) -> bool {
    match f.sql_state {
        Some(c) => c@ == UNIQUE_VIOLATION@,
        None => false,
    }
}

pub open spec fn is_constraint_failure(code: Option<String>) -> bool {
    match code {
        Some(c) => c@ == CONSTRAINT_VALIDATION_FAILED@,
        None => false,
    }
}

/// The saga ends with this reply: held connections are given back.
pub open spec fn finish(st: SagaState, reply: LoginView, reset_graph: bool) -> (SagaState, RegActionView) {
    (
        SagaState { phase: RegPhase::Done, graph: after_release(st.graph), store: after_release(st.store) },
        RegActionView::Finish {
            reply,
            reset_graph,
            release_graph: st.graph == Lease::Held,
            release_store: st.store == Lease::Held,
        },
    )
}

pub open spec fn fail(st: SagaState, status: Status, reset_graph: bool) -> (SagaState, RegActionView) {
    finish(st, login_failure_view(status), reset_graph)
}

/// The reply once the token service has answered: on success it carries the
/// identity the saga created the graph node with.
pub open spec fn issued_view(reply: Result<TokenReply, TransportError>, id: i64) -> LoginView {
    let v = login_view(reply);
    if v.status == Status::Success {
        LoginView { status: Status::Success, user_id: id, token: v.token }
    } else {
        v
    }
}

pub open spec fn initial_state(username: Seq<char>, password: Seq<char>) -> SagaState {
    SagaState {
        phase: if validation_failure(username, password) is Some { RegPhase::Done } else { RegPhase::LeasingGraph },
        graph: Lease::Unleased,
        store: Lease::Unleased,
    }
}

pub open spec fn initial_action(username: Seq<char>, password: Seq<char>) -> RegActionView {
    match validation_failure(username, password) {
        Some(status) => RegActionView::Finish {
            reply: login_failure_view(status),
            reset_graph: false,
            release_graph: false,
            release_store: false,
        },
        None => RegActionView::AcquireGraph,
    }
}

/// Once the store connection is held, the password hash decides: the
/// credential is inserted with it, or, where none could be made, the saga
/// ends as an internal error. In any other state the saga ends likewise.
pub open spec fn after_hash(st: SagaState, hash: Option<Seq<char>>) -> (SagaState, RegActionView) {
    if st.phase == RegPhase::LeasingStore && st.store == Lease::Held {
        match hash {
            Some(h) => (
                SagaState { phase: RegPhase::Inserting, graph: st.graph, store: st.store },
                RegActionView::InsertCredential { password_hash: h },
            ),
            None => fail(st, Status::InternalError, false),
        }
    } else if st.phase == RegPhase::Done {
        (st, RegActionView::Nothing)
    } else {
        fail(st, Status::InternalError, false)
    }
}

/// A finished saga that never held a connection.
pub open spec fn finished_unleased() -> SagaState {
    SagaState { phase: RegPhase::Done, graph: Lease::Unleased, store: Lease::Unleased }
}

/// The answer to a request for which no salt could be drawn.
pub open spec fn no_salt_action() -> RegActionView {
    RegActionView::Finish {
        reply: login_failure_view(Status::InternalError),
        reset_graph: false,
        release_graph: false,
        release_store: false,
    }
}

/// One transition of the saga: the next state and the action it asks for,
/// given the request's credentials and salt and the outcome of the last action.
/// An outcome that does not answer the pending action ends the saga as an
/// internal error, releasing what is held.
pub open spec fn reg_step(password: Seq<char>, salt: Seq<char>, st: SagaState, ev: RegEvent) -> (SagaState, RegActionView) {
    match st.phase {
        RegPhase::Done => (st, RegActionView::Nothing),
        RegPhase::LeasingGraph => match ev {
            RegEvent::GraphLease(Ok(_)) => (
                SagaState { phase: RegPhase::LeasingStore, graph: Lease::Held, store: st.store },
                RegActionView::AcquireStore,
            ),
            RegEvent::GraphLease(Err(_)) => fail(st, Status::BadGateway, false),
            _ => fail(st, Status::InternalError, false),
        },
        RegPhase::LeasingStore => match ev {
            RegEvent::StoreLease(Ok(_)) => after_hash(
                SagaState { phase: st.phase, graph: st.graph, store: Lease::Held },
                argon2_phc(password, salt),
            ),
            RegEvent::StoreLease(Err(_)) => fail(st, Status::BadGateway, false),
            _ => fail(st, Status::InternalError, false),
        },
        RegPhase::Inserting => match ev {
            RegEvent::Inserted(Ok(n)) => if n == 1 {
                (SagaState { phase: RegPhase::ResolvingId, graph: st.graph, store: st.store }, RegActionView::ResolveId)
            } else if n == 0 {
                fail(st, Status::UsernameOccupied, false)
            } else {
                fail(st, Status::InternalError, false)
            },
            RegEvent::Inserted(Err(f)) => if is_unique_violation(f) {
                fail(st, Status::UsernameOccupied, false)
            } else {
                fail(st, Status::BadGateway, false)
            },
            _ => fail(st, Status::InternalError, false),
        },
        RegPhase::ResolvingId => match ev {
            RegEvent::IdResolved(Ok(Some(id))) => (
                SagaState { phase: RegPhase::CreatingNode { id }, graph: st.graph, store: st.store },
                RegActionView::CreateNode { id },
            ),
            RegEvent::IdResolved(Ok(None)) => fail(st, Status::InternalError, false),
            RegEvent::IdResolved(Err(_)) => fail(st, Status::BadGateway, false),
            _ => fail(st, Status::InternalError, false),
        },
        RegPhase::CreatingNode { id } => match ev {
            RegEvent::NodeCreated(Ok(GraphReply::Success)) => (
                SagaState { phase: RegPhase::DiscardingResults { id }, graph: st.graph, store: st.store },
                RegActionView::DiscardResults,
            ),
            RegEvent::NodeCreated(Ok(GraphReply::Failure { code })) => if is_constraint_failure(code) {
                fail(st, Status::UsernameOccupied, true)
            } else {
                fail(st, Status::BadGateway, true)
            },
            RegEvent::NodeCreated(Ok(GraphReply::Other)) => fail(st, Status::BadGateway, true),
            RegEvent::NodeCreated(Err(_)) => fail(st, Status::BadGateway, false),
            _ => fail(st, Status::InternalError, false),
        },
        RegPhase::DiscardingResults { id } => match ev {
            RegEvent::ResultsDiscarded(Ok(GraphReply::Success)) => (
                SagaState { phase: RegPhase::IssuingToken { id }, graph: st.graph, store: st.store },
                RegActionView::IssueToken,
            ),
            RegEvent::ResultsDiscarded(Ok(_)) => fail(st, Status::BadGateway, true),
            RegEvent::ResultsDiscarded(Err(_)) => fail(st, Status::BadGateway, false),
            _ => fail(st, Status::InternalError, false),
        },
        RegPhase::IssuingToken { id } => match ev {
            RegEvent::TokenIssued(r) => finish(st, issued_view(r, id), false),
            _ => fail(st, Status::InternalError, false),
        },
    }
}

/// The status of a request whose credentials are too long, if they are.
pub fn credential_check(username: &String, password: &String) -> (r: Option<Status>)
    ensures
        r == validation_failure(username@, password@),
{
    let u = username.as_str().as_bytes();
    let p = password.as_str().as_bytes();
    if u.len() > MAX_CREDENTIAL_LEN {
        Some(Status::UsernameTooLong)
    } else if p.len() > MAX_CREDENTIAL_LEN {
        Some(Status::PasswordTooLong)
    } else {
        None
    }
}

/// Whether a failed insert is the store's uniqueness constraint at work.
pub fn unique_violation(f: &InsertFailure) -> (r: bool)
    ensures
        r == is_unique_violation(*f),
{
    match &f.sql_state {
        Some(c) => *c == UNIQUE_VIOLATION.to_string(),
        None => false,
    }
}

/// Whether a graph failure code reports a violated uniqueness constraint.
pub fn constraint_failure(code: &Option<String>) -> (r: bool)
    ensures
        r == is_constraint_failure(*code),
{
    match code {
        Some(c) => *c == CONSTRAINT_VALIDATION_FAILED.to_string(),
        None => false,
    }
}

impl RegistrationSaga {
    /// Starts a registration with the given salt for the password hash.
    /// Oversized credentials finish it at once, before any connection is asked for.
    pub fn start_with_salt(username: String, password: String, salt: String) -> (r: (RegistrationSaga, RegAction))
        ensures
            r.0.username == username,
            r.0.password == password,
            r.0.salt == salt,
            r.0.state == initial_state(username@, password@),
            r.1@ == initial_action(username@, password@),
    {
        let check = credential_check(&username, &password);
        let unleased = SagaState { phase: RegPhase::Done, graph: Lease::Unleased, store: Lease::Unleased };
        match check {
            Some(status) => {
                let saga = RegistrationSaga { username, password, salt, state: unleased };
                let reply = LoginRes::failure(status);
                (saga, RegAction::Finish { reply, reset_graph: false, release_graph: false, release_store: false })
            },
            None => {
                let state = SagaState { phase: RegPhase::LeasingGraph, graph: Lease::Unleased, store: Lease::Unleased };
                (RegistrationSaga { username, password, salt, state }, RegAction::AcquireGraph)
            },
        }
    }

    /// Starts a registration with a freshly generated random salt. Where no
    /// salt can be drawn, a request with valid credentials finishes at once
    /// as an internal error, before any connection is asked for.
    pub fn start(username: String, password: String) -> (r: (RegistrationSaga, RegAction))
        ensures
            r.0.username == username,
            r.0.password == password,
            (r.0.state == initial_state(username@, password@) && r.1@ == initial_action(username@, password@))
                || (validation_failure(username@, password@) is None && r.0.state == finished_unleased()
                && r.1@ == no_salt_action()),
    {
        match fresh_salt() {
            Some(salt) => RegistrationSaga::start_with_salt(username, password, salt),
            None => {
                let (mut saga, first) = RegistrationSaga::start_with_salt(username, password, String::new());
                match first {
                    RegAction::AcquireGraph => {
                        let reply = LoginRes::failure(Status::InternalError);
                        saga.state = SagaState { phase: RegPhase::Done, graph: Lease::Unleased, store: Lease::Unleased };
                        (saga, RegAction::Finish { reply, reset_graph: false, release_graph: false, release_store: false })
                    },
                    _ => (saga, first),
                }
            },
        }
    }

    fn finish_with(&mut self, reply: LoginRes, reset_graph: bool) -> (r: RegAction)
        ensures
            final(self).username == old(self).username,
            final(self).password == old(self).password,
            final(self).salt == old(self).salt,
            (final(self).state, r@) == finish(old(self).state, reply@, reset_graph),
    {
        let st = self.state;
        self.state = SagaState { phase: RegPhase::Done, graph: st.graph.finished(), store: st.store.finished() };
        RegAction::Finish {
            reply,
            reset_graph,
            release_graph: st.graph.must_release(),
            release_store: st.store.must_release(),
        }
    }

    fn fail_with(&mut self, status: Status, reset_graph: bool) -> (r: RegAction)
        ensures
            final(self).username == old(self).username,
            final(self).password == old(self).password,
            final(self).salt == old(self).salt,
            (final(self).state, r@) == fail(old(self).state, status, reset_graph),
    {
        self.finish_with(LoginRes::failure(status), reset_graph)
    }

    /// Continues a saga that holds its store connection with the password
    /// hash made for it (`None` where hashing failed).
    pub fn with_password_hash(&mut self, hash: Option<String>) -> (r: RegAction)
        ensures
            final(self).username == old(self).username,
            final(self).password == old(self).password,
            final(self).salt == old(self).salt,
            (final(self).state, r@) == after_hash(old(self).state, text_view(hash)),
    {
        let st = self.state;
        match st.phase {
            RegPhase::LeasingStore => if st.store.must_release() {
                match hash {
                    Some(h) => {
                        self.state = SagaState { phase: RegPhase::Inserting, graph: st.graph, store: st.store };
                        RegAction::InsertCredential { password_hash: h }
                    },
                    None => self.fail_with(Status::InternalError, false),
                }
            } else {
                self.fail_with(Status::InternalError, false)
            },
            RegPhase::Done => RegAction::Nothing,
            _ => self.fail_with(Status::InternalError, false),
        }
    }

    /// Advances the saga with the outcome of the action it asked for last.
    pub fn step(&mut self, ev: RegEvent) -> (r: RegAction)
        ensures
            final(self).username == old(self).username,
            final(self).password == old(self).password,
            final(self).salt == old(self).salt,
            (final(self).state, r@) == reg_step(old(self).password@, old(self).salt@, old(self).state, ev),
    {
        let st = self.state;
        match st.phase {
            RegPhase::Done => RegAction::Nothing,
            RegPhase::LeasingGraph => match ev {
                RegEvent::GraphLease(Ok(_)) => {
                    self.state = SagaState { phase: RegPhase::LeasingStore, graph: Lease::Held, store: st.store };
                    RegAction::AcquireStore
                },
                RegEvent::GraphLease(Err(f)) => self.fail_with(pool_failure_status(f), false),
                _ => self.fail_with(Status::InternalError, false),
            },
            RegPhase::LeasingStore => match ev {
                RegEvent::StoreLease(Ok(_)) => {
                    self.state = SagaState { phase: st.phase, graph: st.graph, store: Lease::Held };
                    let hash = hash_password(self.password.as_str(), self.salt.as_str());
                    self.with_password_hash(hash)
                },
                RegEvent::StoreLease(Err(f)) => self.fail_with(pool_failure_status(f), false),
                _ => self.fail_with(Status::InternalError, false),
            },
            RegPhase::Inserting => match ev {
                RegEvent::Inserted(Ok(n)) => if n == 1 {
                    self.state = SagaState { phase: RegPhase::ResolvingId, graph: st.graph, store: st.store };
                    RegAction::ResolveId
                } else if n == 0 {
                    self.fail_with(Status::UsernameOccupied, false)
                } else {
                    self.fail_with(Status::InternalError, false)
                },
                RegEvent::Inserted(Err(f)) => if unique_violation(&f) {
                    self.fail_with(Status::UsernameOccupied, false)
                } else {
                    self.fail_with(Status::BadGateway, false)
                },
                _ => self.fail_with(Status::InternalError, false),
            },
            RegPhase::ResolvingId => match ev {
                RegEvent::IdResolved(Ok(Some(id))) => {
                    self.state = SagaState { phase: RegPhase::CreatingNode { id }, graph: st.graph, store: st.store };
                    RegAction::CreateNode { id }
                },
                RegEvent::IdResolved(Ok(None)) => self.fail_with(Status::InternalError, false),
                RegEvent::IdResolved(Err(_)) => self.fail_with(Status::BadGateway, false),
                _ => self.fail_with(Status::InternalError, false),
            },
            RegPhase::CreatingNode { id } => match ev {
                RegEvent::NodeCreated(Ok(GraphReply::Success)) => {
                    self.state = SagaState { phase: RegPhase::DiscardingResults { id }, graph: st.graph, store: st.store };
                    RegAction::DiscardResults
                },
                RegEvent::NodeCreated(Ok(GraphReply::Failure { code })) => if constraint_failure(&code) {
                    self.fail_with(Status::UsernameOccupied, true)
                } else {
                    self.fail_with(Status::BadGateway, true)
                },
                RegEvent::NodeCreated(Ok(GraphReply::Other)) => self.fail_with(Status::BadGateway, true),
                RegEvent::NodeCreated(Err(_)) => self.fail_with(Status::BadGateway, false),
                _ => self.fail_with(Status::InternalError, false),
            },
            RegPhase::DiscardingResults { id } => match ev {
                RegEvent::ResultsDiscarded(Ok(GraphReply::Success)) => {
                    self.state = SagaState { phase: RegPhase::IssuingToken { id }, graph: st.graph, store: st.store };
                    RegAction::IssueToken
                },
                RegEvent::ResultsDiscarded(Ok(_)) => self.fail_with(Status::BadGateway, true),
                RegEvent::ResultsDiscarded(Err(_)) => self.fail_with(Status::BadGateway, false),
                _ => self.fail_with(Status::InternalError, false),
            },
            RegPhase::IssuingToken { id } => match ev {
                RegEvent::TokenIssued(r) => {
                    let reply = login_response(r);
                    let reply = match reply.status {
                        Status::Success => LoginRes { status: Status::Success, user_id: id, token: reply.token },
                        _ => reply,
                    };
                    self.finish_with(reply, false)
                },
                _ => self.fail_with(Status::InternalError, false),
            },
        }
    }
}

} // verus!
