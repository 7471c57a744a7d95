//! What holds of the oracle contract across any sequence of calls.
//!
//! A sequence of calls is run from a state by applying each call's outcome
//! in turn. The read-only calls (`get_request`, `get_oracle_pubkey`) change
//! no state, so a sequence need not list them.

use vstd::prelude::*;

use crate::contract::{
    deployed_state,
    fulfill_randomness_outcome, get_oracle_pubkey_outcome, get_request_outcome,
    initialize_outcome, request_randomness_outcome, set_oracle_pubkey_outcome, OracleState,
    EventView, RequestView, Status, VrfError,
};
use crate::crypto::sha256_digest;
use crate::laws::{keeps_history, law_history_is_kept, law_operations_keep_wf};
use crate::vrf::proof_verifies;

verus! {

/// A call that may change the contract's state, with its arguments.
pub enum Call {
    Initialize { admin: Seq<u8>, key: [u8; 96] },
    SetOraclePubkey { caller: Seq<u8>, key: [u8; 96] },
    RequestRandomness { requester: Seq<u8>, seed: Seq<u8> },
    FulfillRandomness { request_id: u64, proof: [u8; 192] },
}

/// The state that `call` leaves when made on `s`.
pub open spec fn step(s: OracleState, call: Call) -> OracleState {
    match call {
        Call::Initialize { admin, key } => initialize_outcome(s, admin, key).1,
        Call::SetOraclePubkey { caller, key } => set_oracle_pubkey_outcome(s, caller, key).1,
        Call::RequestRandomness { requester, seed } => request_randomness_outcome(
            s,
            requester,
            seed,
        ).1,
        Call::FulfillRandomness { request_id, proof } => fulfill_randomness_outcome(
            s,
            request_id,
            proof,
        ).1,
    }
}

/// The state that the calls leave when made one after the other on `s`.
pub open spec fn run(s: OracleState, calls: Seq<Call>) -> OracleState
    decreases calls.len(),
{
    if calls.len() == 0 {
        s
    } else {
        step(run(s, calls.drop_last()), calls.last())
    }
}

/// Whether the call is a request for randomness that succeeds on `s`.
pub open spec fn grants_request(s: OracleState, call: Call) -> bool {
    call is RequestRandomness && s.admin.is_some()
}

/// How many of the calls are requests for randomness that succeed.
pub open spec fn granted_requests(s: OracleState, calls: Seq<Call>) -> nat
    decreases calls.len(),
{
    if calls.len() == 0 {
        0
    } else {
        granted_requests(s, calls.drop_last()) + if grants_request(
            run(s, calls.drop_last()),
            calls.last(),
        ) {
            1nat
        } else {
            0nat
        }
    }
}

/// Whether the `k`-th call is a fulfillment of request `id` that succeeds.
pub open spec fn fulfills_at(s: OracleState, calls: Seq<Call>, id: u64, k: int) -> bool {
    &&& 0 <= k < calls.len()
    &&& calls[k] matches Call::FulfillRandomness { request_id, proof } && request_id == id
        && fulfill_randomness_outcome(run(s, calls.take(k)), id, proof).0 is Ok
}

/// Whether the `k`-th call is a rotation of the key that succeeds.
pub open spec fn rotates_at(s: OracleState, calls: Seq<Call>, k: int) -> bool {
    &&& 0 <= k < calls.len()
    &&& calls[k] matches Call::SetOraclePubkey { caller, key } && set_oracle_pubkey_outcome(
        run(s, calls.take(k)),
        caller,
        key,
    ).0 is Ok
}

/// Whether the `k`-th call fulfilled request `i` with a proof that verified
/// against the key registered at that moment, for the seed that the request
/// `request` holds, and gave it the SHA-256 digest of that proof as its
/// random value.
pub open spec fn fulfilled_by_call(
    s: OracleState,
    calls: Seq<Call>,
    i: int,
    k: int,
    request: RequestView,
) -> bool {
    &&& 0 <= k < calls.len()
    &&& calls[k] matches Call::FulfillRandomness { request_id, proof } && {
        let before = run(s, calls.take(k));
        &&& request_id == i
        &&& before.oracle_pubkey.is_some()
        &&& i < before.requests.len()
        &&& before.requests[i].status == Status::Pending
        &&& before.requests[i].seed == request.seed
        &&& proof_verifies(before.oracle_pubkey.unwrap()@, request.seed, proof@)
        &&& request.random == Some(sha256_digest(proof@))
    }
}

/// Some key, where an argument plays no part.
pub open spec fn any_key() -> [u8; 96] {
    vstd::pervasive::arbitrary()
}

/// Some proof, where an argument plays no part.
pub open spec fn any_proof() -> [u8; 192] {
    vstd::pervasive::arbitrary()
}

/// `keeps_history` chains.
pub proof fn lemma_keeps_history_chains(a: OracleState, b: OracleState, c: OracleState)
    requires
        keeps_history(a, b),
        keeps_history(b, c),
    ensures
        keeps_history(a, c),
{
    assert forall|i: int| 0 <= i < a.requests.len() implies {
        &&& (#[trigger] c.requests[i]).requester == a.requests[i].requester
        &&& c.requests[i].seed == a.requests[i].seed
        &&& a.requests[i].status == Status::Fulfilled ==> c.requests[i] == a.requests[i]
    } by {
        assert(b.requests[i].requester == a.requests[i].requester);
        assert(c.requests[i].requester == b.requests[i].requester);
    }
    assert forall|i: int| 0 <= i < a.events.len() implies #[trigger] c.events[i] == a.events[i] by {
        assert(b.events[i] == a.events[i]);
        assert(c.events[i] == b.events[i]);
    }
}

/// One call keeps the state well formed and its history, adds a request
/// exactly when it is a granted request, and never clears the admin.
pub proof fn lemma_step(s: OracleState, call: Call)
    requires
        s.wf(),
        s.requests.len() < u64::MAX,
    ensures
        step(s, call).wf(),
        keeps_history(s, step(s, call)),
        step(s, call).requests.len() == s.requests.len() + if grants_request(s, call) {
            1nat
        } else {
            0nat
        },
        s.admin.is_some() ==> step(s, call).admin == s.admin,
{
    match call {
        Call::Initialize { admin, key } => {
            law_operations_keep_wf(s, admin, key, seq![], 0, any_proof());
            law_history_is_kept(s, admin, key, seq![], 0, any_proof());
        },
        Call::SetOraclePubkey { caller, key } => {
            law_operations_keep_wf(s, caller, key, seq![], 0, any_proof());
            law_history_is_kept(s, caller, key, seq![], 0, any_proof());
        },
        Call::RequestRandomness { requester, seed } => {
            law_operations_keep_wf(s, requester, any_key(), seed, 0, any_proof());
            law_history_is_kept(s, requester, any_key(), seed, 0, any_proof());
        },
        Call::FulfillRandomness { request_id, proof } => {
            law_operations_keep_wf(s, seq![], any_key(), seq![], request_id, proof);
            law_history_is_kept(s, seq![], any_key(), seq![], request_id, proof);
        },
    }
}

/// A run keeps the state well formed and its history, never clears the
/// admin, and adds exactly one request per granted request.
pub proof fn lemma_run(s: OracleState, calls: Seq<Call>)
    requires
        s.wf(),
        s.requests.len() + calls.len() < u64::MAX,
    ensures
        run(s, calls).wf(),
        keeps_history(s, run(s, calls)),
        run(s, calls).requests.len() == s.requests.len() + granted_requests(s, calls),
        granted_requests(s, calls) <= calls.len(),
        s.admin.is_some() ==> run(s, calls).admin == s.admin,
    decreases calls.len(),
{
    if calls.len() == 0 {
        assert(keeps_history(s, s));
    } else {
        let prev = calls.drop_last();
        lemma_run(s, prev);
        let m = run(s, prev);
        lemma_step(m, calls.last());
        lemma_keeps_history_chains(s, m, run(s, calls));
    }
}

/// Request ids are never reused: a request granted after any sequence of
/// calls that followed an earlier granted request takes a larger id, exactly
/// one more than the earlier id plus the requests granted in between, and
/// the earlier request still holds its requester and seed.
pub proof fn law_request_ids_never_reused(
    s: OracleState,
    requester: Seq<u8>,
    seed: Seq<u8>,
    calls: Seq<Call>,
    later_requester: Seq<u8>,
    later_seed: Seq<u8>,
)
    requires
        s.wf(),
        s.requests.len() + calls.len() + 2 < u64::MAX,
        request_randomness_outcome(s, requester, seed).0 is Ok,
        request_randomness_outcome(
            run(request_randomness_outcome(s, requester, seed).1, calls),
            later_requester,
            later_seed,
        ).0 is Ok,
    ensures
        ({
            let first = request_randomness_outcome(s, requester, seed);
            let between = run(first.1, calls);
            let second = request_randomness_outcome(between, later_requester, later_seed);
            let a = first.0->Ok_0;
            let b = second.0->Ok_0;
            &&& a < b
            &&& b == a + 1 + granted_requests(first.1, calls)
            &&& get_request_outcome(second.1, a) matches Ok(request) && request.requester
                == requester && request.seed == seed
        }),
{
    let first = request_randomness_outcome(s, requester, seed);
    let s1 = first.1;
    law_operations_keep_wf(s, requester, any_key(), seed, 0, any_proof());
    lemma_run(s1, calls);
    let between = run(s1, calls);
    let second = request_randomness_outcome(between, later_requester, later_seed);
    law_history_is_kept(between, later_requester, any_key(), later_seed, 0, any_proof());
    let a = first.0->Ok_0;
    assert(a == s.requests.len());
    assert(s1.requests[a as int].requester == requester);
    assert(between.requests[a as int].requester == requester);
    assert(between.requests[a as int].seed == seed);
    assert(second.1.requests[a as int] == between.requests[a as int]);
}

/// Every random value that a run leaves in a request was either there
/// before the run, unchanged, or stored by a call of the run that fulfilled
/// the request with a proof that verified, for the request's seed, against
/// the key registered at that moment; the value is the SHA-256 digest of
/// that proof.
pub proof fn law_random_values_come_from_verified_proofs(s: OracleState, calls: Seq<Call>, i: int)
    requires
        s.wf(),
        s.requests.len() + calls.len() < u64::MAX,
        0 <= i < run(s, calls).requests.len(),
        run(s, calls).requests[i].status == Status::Fulfilled,
    ensures
        (i < s.requests.len() && s.requests[i] == run(s, calls).requests[i]) || exists|k: int|
            fulfilled_by_call(s, calls, i, k, run(s, calls).requests[i]),
    decreases calls.len(),
{
    if calls.len() > 0 {
        let after = run(s, calls);
        let request = after.requests[i];
        let prev = calls.drop_last();
        let m = run(s, prev);
        lemma_run(s, prev);
        let call = calls.last();
        lemma_step(m, call);
        assert(calls.take(prev.len() as int) =~= prev);
        let touched = match call {
            Call::FulfillRandomness { request_id, proof } => request_id == i
                && fulfill_randomness_outcome(m, request_id, proof).0 is Ok,
            _ => false,
        };
        if touched {
            let k = prev.len() as int;
            assert(fulfilled_by_call(s, calls, i, k, request));
        } else {
            // The last call left request `i` as it was before it.
            assert(i < m.requests.len()) by {
                if i >= m.requests.len() {
                    assert(after.requests[i].status == Status::Pending);
                }
            }
            assert(after.requests[i] == m.requests[i]) by {
                if let Call::FulfillRandomness { request_id, proof } = call {
                    law_history_is_kept(m, seq![], any_key(), seq![], request_id, proof);
                }
            }
            law_random_values_come_from_verified_proofs(s, prev, i);
            if !(i < s.requests.len() && s.requests[i] == request) {
                let k = choose|k: int| fulfilled_by_call(s, prev, i, k, m.requests[i]);
                assert(calls.take(k) =~= prev.take(k));
                assert(calls[k] == prev[k]);
                assert(fulfilled_by_call(s, calls, i, k, request));
            }
        }
    }
}

/// From a freshly deployed contract, every random value that any sequence
/// of calls leaves in a request was stored by a call that fulfilled that
/// request with a proof that verified, for the request's seed, against the
/// key registered at that moment; it is the SHA-256 digest of that proof.
pub proof fn law_deployed_random_values_come_from_verified_proofs(calls: Seq<Call>, i: int)
    requires
        calls.len() < u64::MAX,
        0 <= i < run(deployed_state(), calls).requests.len(),
        run(deployed_state(), calls).requests[i].status == Status::Fulfilled,
    ensures
        exists|k: int|
            fulfilled_by_call(deployed_state(), calls, i, k, run(deployed_state(), calls).requests[i]),
{
    law_random_values_come_from_verified_proofs(deployed_state(), calls, i);
}

/// A recorded request that no later call fulfills reads back exactly as it
/// was recorded: same requester and seed, pending, no random value.
pub proof fn law_pending_request_reads_back(
    s: OracleState,
    requester: Seq<u8>,
    seed: Seq<u8>,
    calls: Seq<Call>,
)
    requires
        s.requests.len() < u64::MAX,
        request_randomness_outcome(s, requester, seed).0 is Ok,
        !exists|k: int|
            fulfills_at(
                request_randomness_outcome(s, requester, seed).1,
                calls,
                request_randomness_outcome(s, requester, seed).0->Ok_0,
                k,
            ),
    ensures
        get_request_outcome(
            run(request_randomness_outcome(s, requester, seed).1, calls),
            request_randomness_outcome(s, requester, seed).0->Ok_0,
        ) == Ok::<RequestView, VrfError>(
            RequestView { requester, seed, status: Status::Pending, random: None },
        ),
{
    let s1 = request_randomness_outcome(s, requester, seed).1;
    let id = request_randomness_outcome(s, requester, seed).0->Ok_0;
    assert(id == s.requests.len());
    assert(s1.requests[id as int] == RequestView { requester, seed, status: Status::Pending, random: None });
    lemma_request_untouched(s1, calls, id);
}

/// A request that no call of a run fulfills is left as it was.
pub proof fn lemma_request_untouched(s: OracleState, calls: Seq<Call>, id: u64)
    requires
        id < s.requests.len(),
        !exists|k: int| fulfills_at(s, calls, id, k),
    ensures
        id < run(s, calls).requests.len(),
        run(s, calls).requests[id as int] == s.requests[id as int],
    decreases calls.len(),
{
    if calls.len() > 0 {
        let prev = calls.drop_last();
        assert forall|k: int| !fulfills_at(s, prev, id, k) by {
            if fulfills_at(s, prev, id, k) {
                assert(calls.take(k) =~= prev.take(k));
                assert(calls[k] == prev[k]);
                assert(fulfills_at(s, calls, id, k));
            }
        }
        lemma_request_untouched(s, prev, id);
        let m = run(s, prev);
        assert(calls.take(prev.len() as int) =~= prev);
        assert(!fulfills_at(s, calls, id, prev.len() as int));
        match calls.last() {
            Call::FulfillRandomness { request_id, proof } => {
                law_history_is_kept(m, seq![], any_key(), seq![], request_id, proof);
            },
            _ => {},
        }
    }
}

/// After a successful initialization, the registered key reads back as the
/// one given for as long as no rotation succeeds, whatever other calls are
/// made in between.
pub proof fn law_key_reads_back_until_rotated(
    s: OracleState,
    admin: Seq<u8>,
    key: [u8; 96],
    calls: Seq<Call>,
)
    requires
        initialize_outcome(s, admin, key).0 is Ok,
        !exists|k: int| rotates_at(initialize_outcome(s, admin, key).1, calls, k),
    ensures
        get_oracle_pubkey_outcome(run(initialize_outcome(s, admin, key).1, calls)) == Ok::<
            [u8; 96],
            VrfError,
        >(key),
{
    lemma_key_kept(initialize_outcome(s, admin, key).1, calls);
}

/// With an admin in place, a run in which no rotation succeeds keeps the
/// admin and the registered key.
pub proof fn lemma_key_kept(s: OracleState, calls: Seq<Call>)
    requires
        s.admin.is_some(),
        !exists|k: int| rotates_at(s, calls, k),
    ensures
        run(s, calls).admin == s.admin,
        run(s, calls).oracle_pubkey == s.oracle_pubkey,
    decreases calls.len(),
{
    if calls.len() > 0 {
        let prev = calls.drop_last();
        assert forall|k: int| !rotates_at(s, prev, k) by {
            if rotates_at(s, prev, k) {
                assert(calls.take(k) =~= prev.take(k));
                assert(calls[k] == prev[k]);
                assert(rotates_at(s, calls, k));
            }
        }
        lemma_key_kept(s, prev);
        assert(calls.take(prev.len() as int) =~= prev);
        assert(!rotates_at(s, calls, prev.len() as int));
    }
}

/// Whether every published event names a request that matches it: an
/// announced request exists at the announced id with the announced requester
/// and seed, and an announced fulfillment names a fulfilled request holding
/// the announced random value.
pub open spec fn events_name_their_requests(s: OracleState) -> bool {
    forall|e: int|
        0 <= e < s.events.len() ==> match #[trigger] s.events[e] {
            EventView::Requested { request_id, requester, seed } => {
                &&& request_id < s.requests.len()
                &&& s.requests[request_id as int].requester == requester
                &&& s.requests[request_id as int].seed == seed
            },
            EventView::Fulfilled { request_id, random } => {
                &&& request_id < s.requests.len()
                &&& s.requests[request_id as int].status == Status::Fulfilled
                &&& s.requests[request_id as int].random == Some(random)
            },
        }
}

/// One call keeps every event naming its request.
pub proof fn lemma_step_keeps_events_named(s: OracleState, call: Call)
    requires
        s.wf(),
        s.requests.len() < u64::MAX,
        events_name_their_requests(s),
    ensures
        events_name_their_requests(step(s, call)),
{
    let after = step(s, call);
    match call {
        Call::RequestRandomness { requester, seed } => {
            if s.admin.is_some() {
                assert forall|e: int| 0 <= e < after.events.len() implies match #[trigger] after.events[e] {
                    EventView::Requested { request_id, requester, seed } => {
                        &&& request_id < after.requests.len()
                        &&& after.requests[request_id as int].requester == requester
                        &&& after.requests[request_id as int].seed == seed
                    },
                    EventView::Fulfilled { request_id, random } => {
                        &&& request_id < after.requests.len()
                        &&& after.requests[request_id as int].status == Status::Fulfilled
                        &&& after.requests[request_id as int].random == Some(random)
                    },
                } by {
                    if e < s.events.len() {
                        assert(after.events[e] == s.events[e]);
                        match s.events[e] {
                            EventView::Requested { request_id, .. } => {
                                assert(after.requests[request_id as int] == s.requests[request_id as int]);
                            },
                            EventView::Fulfilled { request_id, .. } => {
                                assert(after.requests[request_id as int] == s.requests[request_id as int]);
                            },
                        }
                    }
                }
            }
        },
        Call::FulfillRandomness { request_id: id, proof } => {
            if fulfill_randomness_outcome(s, id, proof).0 is Ok {
                assert forall|e: int| 0 <= e < after.events.len() implies match #[trigger] after.events[e] {
                    EventView::Requested { request_id, requester, seed } => {
                        &&& request_id < after.requests.len()
                        &&& after.requests[request_id as int].requester == requester
                        &&& after.requests[request_id as int].seed == seed
                    },
                    EventView::Fulfilled { request_id, random } => {
                        &&& request_id < after.requests.len()
                        &&& after.requests[request_id as int].status == Status::Fulfilled
                        &&& after.requests[request_id as int].random == Some(random)
                    },
                } by {
                    if e < s.events.len() {
                        assert(after.events[e] == s.events[e]);
                        match s.events[e] {
                            EventView::Requested { request_id, .. } => {
                            },
                            EventView::Fulfilled { request_id, .. } => {
                                assert(request_id != id);
                                assert(after.requests[request_id as int] == s.requests[request_id as int]);
                            },
                        }
                    }
                }
            }
        },
        _ => {},
    }
}

/// Every event that a run publishes names a request that matches it: a
/// request is announced under the id it was recorded at, with its requester
/// and seed, and a fulfillment under the id of the request that it fulfilled,
/// with the random value stored there.
pub proof fn law_events_name_their_requests(s: OracleState, calls: Seq<Call>)
    requires
        s.wf(),
        s.requests.len() + calls.len() < u64::MAX,
        events_name_their_requests(s),
    ensures
        events_name_their_requests(run(s, calls)),
    decreases calls.len(),
{
    if calls.len() > 0 {
        let prev = calls.drop_last();
        law_events_name_their_requests(s, prev);
        lemma_run(s, prev);
        lemma_step_keeps_events_named(run(s, prev), calls.last());
    }
}

/// From a freshly deployed contract, every event of any run names a request
/// that matches it.
pub proof fn law_deployed_events_name_their_requests(calls: Seq<Call>)
    requires
        calls.len() < u64::MAX,
    ensures
        events_name_their_requests(run(deployed_state(), calls)),
{
    law_events_name_their_requests(deployed_state(), calls);
}

} // verus!
