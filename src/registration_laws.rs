//! What holds of every run of the registration saga.
use vstd::prelude::*;

use crate::lease::{Lease, PoolFailure};
use crate::registration::{
    GraphReply, RegActionView, issued_view, validation_failure, RegEvent, RegPhase, SagaState, byte_len, initial_action, initial_state,
    is_unique_violation, reg_step,
};
use crate::password::argon2_phc;
use crate::auth_gate::{TokenReply, TokenStatus, TransportError, login_view};
use crate::status::{LoginView, MAX_CREDENTIAL_LEN, Status, login_failure_view, status_code_of};

verus! {

/// `states`, `events` and `actions` record a run of the saga: each state and
/// action follows from the state before and the event handed to it.
pub open spec fn is_run(
    password: Seq<char>,
    salt: Seq<char>,
    states: Seq<SagaState>,
    events: Seq<RegEvent>,
    actions: Seq<RegActionView>,
) -> bool {
    &&& states.len() == events.len() + 1
    &&& actions.len() == events.len()
    &&& forall|i: int|
        0 <= i < events.len() ==> #[trigger] reg_step(password, salt, states[i], events[i]) == (
            states[i + 1],
            actions[i],
        )
}

pub open spec fn releases_graph(a: RegActionView) -> bool {
    a matches RegActionView::Finish { release_graph, .. } && release_graph
}

pub open spec fn releases_store(a: RegActionView) -> bool {
    a matches RegActionView::Finish { release_store, .. } && release_store
}

pub open spec fn is_acquire(a: RegActionView) -> bool {
    a is AcquireGraph || a is AcquireStore
}

pub open spec fn graph_releases(actions: Seq<RegActionView>) -> nat
    decreases actions.len(),
{
    if actions.len() == 0 {
        0
    } else {
        graph_releases(actions.drop_last()) + if releases_graph(actions.last()) { 1nat } else { 0nat }
    }
}

pub open spec fn store_releases(actions: Seq<RegActionView>) -> nat
    decreases actions.len(),
{
    if actions.len() == 0 {
        0
    } else {
        store_releases(actions.drop_last()) + if releases_store(actions.last()) { 1nat } else { 0nat }
    }
}

pub open spec fn released_count(l: Lease) -> nat {
    if l == Lease::Released { 1 } else { 0 }
}

pub open spec fn finishes_with(a: RegActionView, status: Status) -> bool {
    a matches RegActionView::Finish { reply, .. } && reply.status == status
}

/// The identity a phase works on, once the credential row has been read back.
pub open spec fn phase_id(p: RegPhase) -> Option<i64> {
    match p {
        RegPhase::CreatingNode { id } => Some(id),
        RegPhase::DiscardingResults { id } => Some(id),
        RegPhase::IssuingToken { id } => Some(id),
        _ => None,
    }
}

pub open spec fn inserted_one_row(e: RegEvent) -> bool {
    e matches RegEvent::Inserted(Ok(n)) && n == 1
}

/// The store turned the insert away because the username is taken.
pub open spec fn insert_conflicts(e: RegEvent) -> bool {
    match e {
        RegEvent::Inserted(Ok(n)) => n == 0,
        RegEvent::Inserted(Err(f)) => is_unique_violation(f),
        _ => false,
    }
}

/// Which connections a saga holds in each phase: the graph connection from
/// its lease until the end, the store connection from its lease until the end,
/// none once it is done.
pub open spec fn state_wf(st: SagaState) -> bool {
    match st.phase {
        RegPhase::LeasingGraph => st.graph == Lease::Unleased && st.store == Lease::Unleased,
        RegPhase::LeasingStore => st.graph == Lease::Held && st.store == Lease::Unleased,
        RegPhase::Done => st.graph != Lease::Held && st.store != Lease::Held,
        _ => st.graph == Lease::Held && st.store == Lease::Held,
    }
}

/// A saga starts in a well-formed state holding no connection.
pub proof fn lemma_initial_state_wf(username: Seq<char>, password: Seq<char>)
    ensures
        state_wf(initial_state(username, password)),
        initial_state(username, password).graph == Lease::Unleased,
        initial_state(username, password).store == Lease::Unleased,
{
}

proof fn lemma_step_leases(password: Seq<char>, salt: Seq<char>, st: SagaState, ev: RegEvent)
    requires
        state_wf(st),
    ensures
        ({
            let (st2, a) = reg_step(password, salt, st, ev);
            &&& state_wf(st2)
            &&& releases_graph(a) <==> (st.graph != Lease::Released && st2.graph == Lease::Released)
            &&& releases_store(a) <==> (st.store != Lease::Released && st2.store == Lease::Released)
            &&& st.graph == Lease::Released ==> st2.graph == Lease::Released
            &&& st.store == Lease::Released ==> st2.store == Lease::Released
            &&& st2.phase == RegPhase::Done ==> st2.graph != Lease::Held && st2.store != Lease::Held
        }),
{
}

proof fn lemma_run_prefix_leases(
    password: Seq<char>,
    salt: Seq<char>,
    states: Seq<SagaState>,
    events: Seq<RegEvent>,
    actions: Seq<RegActionView>,
    k: int,
)
    requires
        is_run(password, salt, states, events, actions),
        states[0].graph == Lease::Unleased,
        states[0].store == Lease::Unleased,
        state_wf(states[0]),
        0 <= k <= events.len(),
    ensures
        state_wf(states[k]),
        graph_releases(actions.subrange(0, k)) == released_count(states[k].graph),
        store_releases(actions.subrange(0, k)) == released_count(states[k].store),
        states[k].phase == RegPhase::Done ==> states[k].graph != Lease::Held && states[k].store != Lease::Held,
    decreases k,
{
    if k > 0 {
        lemma_run_prefix_leases(password, salt, states, events, actions, k - 1);
        assert(reg_step(password, salt, states[k - 1], events[k - 1]) == (states[k], actions[k - 1]));
        lemma_step_leases(password, salt, states[k - 1], events[k - 1]);
        assert(actions.subrange(0, k).drop_last() =~= actions.subrange(0, k - 1));
    } else {
        assert(actions.subrange(0, 0) =~= Seq::<RegActionView>::empty());
    }
}

/// Every connection a registration leases is given back exactly once, on
/// whatever path it ends: in a run from a state holding no connection, each
/// pool's connection has been released as many times as the lease has ended
/// (never more than once), and once the saga is done no connection is still held.
pub proof fn lemma_release_exactly_once(
    password: Seq<char>,
    salt: Seq<char>,
    states: Seq<SagaState>,
    events: Seq<RegEvent>,
    actions: Seq<RegActionView>,
)
    requires
        is_run(password, salt, states, events, actions),
        states[0].graph == Lease::Unleased,
        states[0].store == Lease::Unleased,
        state_wf(states[0]),
    ensures
        graph_releases(actions) == released_count(states.last().graph),
        store_releases(actions) == released_count(states.last().store),
        graph_releases(actions) <= 1,
        store_releases(actions) <= 1,
        states.last().phase == RegPhase::Done ==> states.last().graph != Lease::Held && states.last().store
            != Lease::Held,
{
    lemma_run_prefix_leases(password, salt, states, events, actions, events.len() as int);
    assert(actions.subrange(0, events.len() as int) =~= actions);
}

proof fn lemma_finished_stays(
    password: Seq<char>,
    salt: Seq<char>,
    states: Seq<SagaState>,
    events: Seq<RegEvent>,
    actions: Seq<RegActionView>,
    k: int,
)
    requires
        is_run(password, salt, states, events, actions),
        states[0].phase == RegPhase::Done,
        0 <= k <= events.len(),
    ensures
        states[k] == states[0],
        k < events.len() ==> actions[k] == RegActionView::Nothing,
    decreases k,
{
    if k > 0 {
        lemma_finished_stays(password, salt, states, events, actions, k - 1);
        assert(reg_step(password, salt, states[k - 1], events[k - 1]) == (states[k], actions[k - 1]));
    }
    if k < events.len() {
        assert(reg_step(password, salt, states[k], events[k]) == (states[k + 1], actions[k]));
    }
}

/// A registration whose username is longer than the maximum is answered with
/// a client error at once, and no connection is ever asked for, whatever
/// events follow.
pub proof fn lemma_oversized_username_touches_no_store(
    username: Seq<char>,
    password: Seq<char>,
    salt: Seq<char>,
    states: Seq<SagaState>,
    events: Seq<RegEvent>,
    actions: Seq<RegActionView>,
)
    requires
        byte_len(username) > MAX_CREDENTIAL_LEN,
        states.len() > 0,
        states[0] == initial_state(username, password),
        is_run(password, salt, states, events, actions),
    ensures
        initial_action(username, password) == (RegActionView::Finish {
            reply: login_failure_view(Status::UsernameTooLong),
            reset_graph: false,
            release_graph: false,
            release_store: false,
        }),
        forall|k: int| 0 <= k < actions.len() ==> !is_acquire(#[trigger] actions[k]),
        forall|k: int| 0 <= k < states.len() ==> (#[trigger] states[k]).graph == Lease::Unleased
            && states[k].store == Lease::Unleased,
{
    assert forall|k: int| 0 <= k < actions.len() implies !is_acquire(#[trigger] actions[k]) by {
        lemma_finished_stays(password, salt, states, events, actions, k);
    }
    assert forall|k: int| 0 <= k < states.len() implies (#[trigger] states[k]).graph == Lease::Unleased
        && states[k].store == Lease::Unleased by {
        lemma_finished_stays(password, salt, states, events, actions, k);
    }
}

pub open spec fn past_insert(p: RegPhase) -> bool {
    p is ResolvingId || phase_id(p) is Some
}

pub open spec fn succeeds(a: RegActionView) -> bool {
    finishes_with(a, Status::Success)
}

pub open spec fn success_id(a: RegActionView) -> i64 {
    match a {
        RegActionView::Finish { reply, .. } => reply.user_id,
        _ => 0,
    }
}

proof fn lemma_step_ids(password: Seq<char>, salt: Seq<char>, st: SagaState, ev: RegEvent)
    ensures
        ({
            let (st2, a) = reg_step(password, salt, st, ev);
            &&& phase_id(st2.phase) is Some ==> phase_id(st.phase) == phase_id(st2.phase) || a == (
            RegActionView::CreateNode { id: phase_id(st2.phase)->0 })
            &&& past_insert(st2.phase) ==> past_insert(st.phase) || inserted_one_row(ev)
            &&& succeeds(a) ==> phase_id(st.phase) == Some(success_id(a)) && past_insert(st.phase)
        }),
{
}

proof fn lemma_run_prefix_ids(
    password: Seq<char>,
    salt: Seq<char>,
    states: Seq<SagaState>,
    events: Seq<RegEvent>,
    actions: Seq<RegActionView>,
    k: int,
)
    requires
        is_run(password, salt, states, events, actions),
        !past_insert(states[0].phase),
        0 <= k <= events.len(),
    ensures
        phase_id(states[k].phase) is Some ==> exists|j: int|
            0 <= j < k && actions[j] == (RegActionView::CreateNode { id: phase_id(states[k].phase)->0 }),
        past_insert(states[k].phase) ==> exists|j: int| 0 <= j < k && inserted_one_row(events[j]),
    decreases k,
{
    if k > 0 {
        lemma_run_prefix_ids(password, salt, states, events, actions, k - 1);
        assert(reg_step(password, salt, states[k - 1], events[k - 1]) == (states[k], actions[k - 1]));
        lemma_step_ids(password, salt, states[k - 1], events[k - 1]);
    }
}

proof fn lemma_success_history(
    password: Seq<char>,
    salt: Seq<char>,
    states: Seq<SagaState>,
    events: Seq<RegEvent>,
    actions: Seq<RegActionView>,
    k: int,
)
    requires
        is_run(password, salt, states, events, actions),
        !past_insert(states[0].phase),
        0 <= k < actions.len(),
        succeeds(actions[k]),
    ensures
        exists|j: int| 0 <= j < k && actions[j] == (RegActionView::CreateNode { id: success_id(actions[k]) }),
        exists|j: int| 0 <= j < k && inserted_one_row(events[j]),
{
    lemma_run_prefix_ids(password, salt, states, events, actions, k);
    assert(reg_step(password, salt, states[k], events[k]) == (states[k + 1], actions[k]));
    lemma_step_ids(password, salt, states[k], events[k]);
}

/// Cross-store join: a registration that succeeds answers with the identity
/// under which it asked for the graph node to be created.
pub proof fn lemma_success_identity_is_node_identity(
    password: Seq<char>,
    salt: Seq<char>,
    states: Seq<SagaState>,
    events: Seq<RegEvent>,
    actions: Seq<RegActionView>,
)
    requires
        is_run(password, salt, states, events, actions),
        !past_insert(states[0].phase),
    ensures
        forall|k: int|
            0 <= k < actions.len() && #[trigger] succeeds(actions[k]) ==> exists|j: int|
                0 <= j < k && actions[j] == (RegActionView::CreateNode { id: success_id(actions[k]) }),
{
    assert forall|k: int| 0 <= k < actions.len() && #[trigger] succeeds(actions[k]) implies exists|j: int|
        0 <= j < k && actions[j] == (RegActionView::CreateNode { id: success_id(actions[k]) }) by {
        lemma_success_history(password, salt, states, events, actions, k);
    }
}

/// One recorded registration run, with the username it was for.
pub struct RegRun {
    pub username: Seq<char>,
    pub password: Seq<char>,
    pub salt: Seq<char>,
    pub states: Seq<SagaState>,
    pub events: Seq<RegEvent>,
    pub actions: Seq<RegActionView>,
}

pub open spec fn run_ok(r: RegRun) -> bool {
    &&& is_run(r.password, r.salt, r.states, r.events, r.actions)
    &&& r.states[0] == initial_state(r.username, r.password)
}

pub open spec fn run_inserted_row(r: RegRun) -> bool {
    exists|j: int| 0 <= j < r.events.len() && inserted_one_row(#[trigger] r.events[j])
}

pub open spec fn run_succeeded(r: RegRun) -> bool {
    exists|k: int| 0 <= k < r.actions.len() && succeeds(#[trigger] r.actions[k])
}

/// Concurrent registrations race only at the relational store's uniqueness
/// constraint. If the store lets at most one insert of a username affect a
/// row, at most one of the registrations for that username succeeds; and a
/// registration whose insert the store turns away (no row affected, or a
/// uniqueness violation) ends right there with a conflict.
pub proof fn lemma_one_success_per_username(runs: Seq<RegRun>, username: Seq<char>)
    requires
        forall|i: int| 0 <= i < runs.len() ==> run_ok(#[trigger] runs[i]) && runs[i].username == username,
        forall|i: int, j: int|
            0 <= i < runs.len() && 0 <= j < runs.len() && i != j && run_inserted_row(#[trigger] runs[i])
                ==> !run_inserted_row(#[trigger] runs[j]),
    ensures
        forall|i: int, j: int|
            0 <= i < runs.len() && 0 <= j < runs.len() && i != j && run_succeeded(#[trigger] runs[i])
                ==> !run_succeeded(#[trigger] runs[j]),
        forall|i: int, k: int|
            0 <= i < runs.len() && 0 <= k < runs[i].events.len() && (#[trigger] runs[i].states[k]).phase
                == RegPhase::Inserting && insert_conflicts(runs[i].events[k]) ==> finishes_with(
                runs[i].actions[k],
                Status::UsernameOccupied,
            ) && runs[i].states[k + 1].phase == RegPhase::Done,
{
    assert forall|i: int| 0 <= i < runs.len() && run_succeeded(#[trigger] runs[i]) implies run_inserted_row(
        runs[i],
    ) by {
        let r = runs[i];
        let k = choose|k: int| 0 <= k < r.actions.len() && succeeds(#[trigger] r.actions[k]);
        lemma_success_history(r.password, r.salt, r.states, r.events, r.actions, k);
    }
    assert forall|i: int, k: int|
        0 <= i < runs.len() && 0 <= k < runs[i].events.len() && (#[trigger] runs[i].states[k]).phase
            == RegPhase::Inserting && insert_conflicts(runs[i].events[k]) implies finishes_with(
        runs[i].actions[k],
        Status::UsernameOccupied,
    ) && runs[i].states[k + 1].phase == RegPhase::Done by {
        let r = runs[i];
        assert(reg_step(r.password, r.salt, r.states[k], r.events[k]) == (r.states[k + 1], r.actions[k]));
    }
}

/// A pool that cannot lend a connection, for either store and for whatever
/// reason, ends the registration at once as a bad gateway.
pub proof fn lemma_pool_failure_is_bad_gateway(
    password: Seq<char>,
    salt: Seq<char>,
    st: SagaState,
    f: PoolFailure,
)
    requires
        state_wf(st),
    ensures
        st.phase == RegPhase::LeasingGraph ==> finishes_with(
            reg_step(password, salt, st, RegEvent::GraphLease(Err(f))).1,
            Status::BadGateway,
        ) && reg_step(password, salt, st, RegEvent::GraphLease(Err(f))).0.phase == RegPhase::Done,
        st.phase == RegPhase::LeasingStore ==> finishes_with(
            reg_step(password, salt, st, RegEvent::StoreLease(Err(f))).1,
            Status::BadGateway,
        ) && reg_step(password, salt, st, RegEvent::StoreLease(Err(f))).0.phase == RegPhase::Done,
{
}

/// Login and registration read the token service's answer alike: a success
/// gives status 0 and exactly the token the service issued (non-empty when
/// the service's is), and a registration's reply differs from the login's
/// only in carrying the identity the saga created the node with.
pub proof fn lemma_login_matches_registration(reply: Result<TokenReply, TransportError>, id: i64)
    ensures
        issued_view(reply, id).status == login_view(reply).status,
        issued_view(reply, id).token == login_view(reply).token,
        reply matches Ok(t) && t.status == TokenStatus::Success ==> login_view(reply) == (LoginView {
            status: Status::Success,
            user_id: reply->Ok_0.user_id,
            token: reply->Ok_0.token@,
        }) && status_code_of(login_view(reply).status) == 0 && issued_view(reply, id).user_id == id,
        reply matches Ok(t) && t.status == TokenStatus::Success && t.token@.len() > 0 ==> login_view(
            reply,
        ).token.len() > 0,
{
}

/// A registration with valid credentials whose every backend answers with
/// success (both leases granted, the password hashed, one row inserted, its
/// identity read back, the node created, its results discarded, the token
/// issued) ends in success with that identity and the issued token, giving
/// both connections back. With the store's arbitration above, the run that
/// wins the insert of a username therefore succeeds and every other conflicts.
pub proof fn lemma_answered_registration_succeeds(
    username: Seq<char>,
    password: Seq<char>,
    salt: Seq<char>,
    id: i64,
    t: TokenReply,
)
    requires
        validation_failure(username, password) is None,
        argon2_phc(password, salt) is Some,
        t.status == TokenStatus::Success,
    ensures
        ({
            let s0 = initial_state(username, password);
            let (s1, a1) = reg_step(password, salt, s0, RegEvent::GraphLease(Ok(())));
            let (s2, a2) = reg_step(password, salt, s1, RegEvent::StoreLease(Ok(())));
            let (s3, a3) = reg_step(password, salt, s2, RegEvent::Inserted(Ok(1)));
            let (s4, a4) = reg_step(password, salt, s3, RegEvent::IdResolved(Ok(Some(id))));
            let (s5, a5) = reg_step(password, salt, s4, RegEvent::NodeCreated(Ok(GraphReply::Success)));
            let (s6, a6) = reg_step(password, salt, s5, RegEvent::ResultsDiscarded(Ok(GraphReply::Success)));
            let (s7, a7) = reg_step(password, salt, s6, RegEvent::TokenIssued(Ok(t)));
            &&& initial_action(username, password) == RegActionView::AcquireGraph
            &&& a1 == RegActionView::AcquireStore
            &&& a2 == (RegActionView::InsertCredential { password_hash: argon2_phc(password, salt)->0 })
            &&& a3 == RegActionView::ResolveId
            &&& a4 == (RegActionView::CreateNode { id })
            &&& a5 == RegActionView::DiscardResults
            &&& a6 == RegActionView::IssueToken
            &&& a7 == (RegActionView::Finish {
                reply: LoginView { status: Status::Success, user_id: id, token: t.token@ },
                reset_graph: false,
                release_graph: true,
                release_store: true,
            })
            &&& s7.phase == RegPhase::Done
        }),
{
}

} // verus!
