//! What holds of the oracle contract across its operations.

use vstd::prelude::*;

use crate::contract::{
    deployed_state, fulfill_randomness_outcome, get_oracle_pubkey_outcome, get_request_outcome,
    initialize_outcome, request_randomness_outcome, set_oracle_pubkey_outcome, OracleState,
    RequestView, Status, VrfError,
};
use crate::contract::{settle_outcome, EventView};
use crate::crypto::{bls_g1_mul, bls_hash_to_g1, bls_hash_to_g2, bls_pairing_check, sha256_digest};
use crate::encoding::scalar_order;
use crate::vrf::{proof_verifies, G1_BASE_DST, G1_BASE_SEED, G2_SIG_DST};

verus! {

/// Every operation keeps the state well formed.
pub proof fn law_operations_keep_wf(
    s: OracleState,
    who: Seq<u8>,
    key: [u8; 96],
    seed: Seq<u8>,
    request_id: u64,
    proof: [u8; 192],
)
    requires
        s.wf(),
    ensures
        initialize_outcome(s, who, key).1.wf(),
        set_oracle_pubkey_outcome(s, who, key).1.wf(),
        s.requests.len() < u64::MAX ==> request_randomness_outcome(s, who, seed).1.wf(),
        fulfill_randomness_outcome(s, request_id, proof).1.wf(),
{
    let after = fulfill_randomness_outcome(s, request_id, proof).1;
    if request_id < s.requests.len() {
        assert forall|i: int| 0 <= i < after.requests.len() implies ((#[trigger] after.requests[i]).status
            == Status::Fulfilled) == after.requests[i].random.is_some() by {
            if i != request_id as int {
                assert(after.requests[i] == s.requests[i]);
            }
        }
    }
    if s.admin.is_some() && s.requests.len() < u64::MAX {
        let pushed = request_randomness_outcome(s, who, seed).1;
        assert forall|i: int| 0 <= i < pushed.requests.len() implies ((#[trigger] pushed.requests[i]).status
            == Status::Fulfilled) == pushed.requests[i].random.is_some() by {
            if i < s.requests.len() {
                assert(pushed.requests[i] == s.requests[i]);
            }
        }
    }
}

/// An operation that is refused leaves the state as it was.
pub proof fn law_refused_operations_change_nothing(
    s: OracleState,
    who: Seq<u8>,
    key: [u8; 96],
    seed: Seq<u8>,
    request_id: u64,
    proof: [u8; 192],
)
    ensures
        initialize_outcome(s, who, key).0 is Err ==> initialize_outcome(s, who, key).1 == s,
        set_oracle_pubkey_outcome(s, who, key).0 is Err ==> set_oracle_pubkey_outcome(s, who, key).1
            == s,
        request_randomness_outcome(s, who, seed).0 is Err ==> request_randomness_outcome(
            s,
            who,
            seed,
        ).1 == s,
        fulfill_randomness_outcome(s, request_id, proof).0 is Err ==> fulfill_randomness_outcome(
            s,
            request_id,
            proof,
        ).1 == s,
{
}

/// A freshly deployed contract refuses everything but initialization, and
/// initialization succeeds there.
pub proof fn law_deployed_contract_needs_initialization(
    who: Seq<u8>,
    key: [u8; 96],
    seed: Seq<u8>,
    request_id: u64,
    proof: [u8; 192],
)
    ensures
        initialize_outcome(deployed_state(), who, key).0 == Ok::<(), VrfError>(()),
        set_oracle_pubkey_outcome(deployed_state(), who, key).0 == Err::<(), VrfError>(
            VrfError::NotInitialized,
        ),
        request_randomness_outcome(deployed_state(), who, seed).0 == Err::<u64, VrfError>(
            VrfError::NotInitialized,
        ),
        fulfill_randomness_outcome(deployed_state(), request_id, proof).0 == Err::<(), VrfError>(
            VrfError::RequestNotFound,
        ),
        get_oracle_pubkey_outcome(deployed_state()) == Err::<[u8; 96], VrfError>(
            VrfError::NotInitialized,
        ),
        get_request_outcome(deployed_state(), request_id) == Err::<RequestView, VrfError>(
            VrfError::RequestNotFound,
        ),
{
}

/// Initialization happens once: it succeeds exactly on a contract without
/// an admin, after which the registered key reads back, and any further
/// initialization is refused with `AlreadyInitialized`.
pub proof fn law_initialize_once(
    s: OracleState,
    admin: Seq<u8>,
    key: [u8; 96],
    other_admin: Seq<u8>,
    other_key: [u8; 96],
)
    ensures
        (initialize_outcome(s, admin, key).0 is Ok) == s.admin.is_none(),
        initialize_outcome(s, admin, key).0 is Ok ==> {
            let after = initialize_outcome(s, admin, key).1;
            &&& get_oracle_pubkey_outcome(after) == Ok::<[u8; 96], VrfError>(key)
            &&& after.admin == Some(admin)
            &&& initialize_outcome(after, other_admin, other_key) == (
                Err::<(), VrfError>(VrfError::AlreadyInitialized),
                after,
            )
        },
{
}

/// Only the admin rotates the key: the rotation succeeds exactly when the
/// caller is the registered admin, and the new key then reads back.
pub proof fn law_only_admin_rotates_key(s: OracleState, caller: Seq<u8>, new_key: [u8; 96])
    ensures
        (set_oracle_pubkey_outcome(s, caller, new_key).0 is Ok) == (s.admin == Some(caller)),
        set_oracle_pubkey_outcome(s, caller, new_key).0 is Ok ==> get_oracle_pubkey_outcome(
            set_oracle_pubkey_outcome(s, caller, new_key).1,
        ) == Ok::<[u8; 96], VrfError>(new_key),
        set_oracle_pubkey_outcome(s, caller, new_key).0 is Ok ==> set_oracle_pubkey_outcome(
            s,
            caller,
            new_key,
        ).1.requests == s.requests,
{
}

/// A recorded request takes as its id the number of requests before it,
/// reads back as pending with no random value, and the next request takes
/// the next id.
pub proof fn law_request_ids_and_read_back(
    s: OracleState,
    requester: Seq<u8>,
    seed: Seq<u8>,
    next_requester: Seq<u8>,
    next_seed: Seq<u8>,
)
    requires
        s.wf(),
        s.requests.len() + 1 < u64::MAX,
    ensures
        (request_randomness_outcome(s, requester, seed).0 is Ok) == s.admin.is_some(),
        request_randomness_outcome(s, requester, seed).0 is Ok ==> {
            let id = request_randomness_outcome(s, requester, seed).0->Ok_0;
            let after = request_randomness_outcome(s, requester, seed).1;
            &&& id == s.requests.len()
            &&& get_request_outcome(after, id) == Ok::<RequestView, VrfError>(
                RequestView { requester, seed, status: Status::Pending, random: None },
            )
            &&& forall|j: u64| j < id ==> get_request_outcome(after, j) == get_request_outcome(s, j)
            &&& request_randomness_outcome(after, next_requester, next_seed).0 == Ok::<
                u64,
                VrfError,
            >((id + 1) as u64)
        },
{
}

/// A fulfilled request reads back as fulfilled, with the SHA-256 digest of
/// the proof as its random value, and keeps its requester and seed; the
/// proof verified against the key registered at that moment; and a second
/// submission for the same request is refused with `AlreadyFulfilled`.
pub proof fn law_fulfill_once_with_digest_of_proof(
    s: OracleState,
    request_id: u64,
    proof: [u8; 192],
    second_proof: [u8; 192],
)
    requires
        s.wf(),
    ensures
        fulfill_randomness_outcome(s, request_id, proof).0 is Ok ==> {
            let after = fulfill_randomness_outcome(s, request_id, proof).1;
            let before = s.requests[request_id as int];
            &&& request_id < s.requests.len()
            &&& before.status == Status::Pending
            &&& proof_verifies(s.oracle_pubkey.unwrap()@, before.seed, proof@)
            &&& get_request_outcome(after, request_id) == Ok::<RequestView, VrfError>(
                RequestView {
                    requester: before.requester,
                    seed: before.seed,
                    status: Status::Fulfilled,
                    random: Some(sha256_digest(proof@)),
                },
            )
            &&& fulfill_randomness_outcome(after, request_id, second_proof) == (
                Err::<(), VrfError>(VrfError::AlreadyFulfilled),
                after,
            )
        },
{
}

/// A pending request whose proof does not verify against the registered
/// key is refused with `InvalidProof` and stays pending; the proof decides
/// nothing else.
pub proof fn law_rejected_proof_keeps_request_pending(
    s: OracleState,
    request_id: u64,
    proof: [u8; 192],
)
    requires
        s.wf(),
        request_id < s.requests.len(),
        s.requests[request_id as int].status == Status::Pending,
    ensures
        (fulfill_randomness_outcome(s, request_id, proof).0 is Ok) == proof_verifies(
            s.oracle_pubkey.unwrap()@,
            s.requests[request_id as int].seed,
            proof@,
        ),
        !proof_verifies(s.oracle_pubkey.unwrap()@, s.requests[request_id as int].seed, proof@)
            ==> fulfill_randomness_outcome(s, request_id, proof) == (
            Err::<(), VrfError>(VrfError::InvalidProof),
            s,
        ),
{
}

/// An id that no request has is refused by fulfillment and by lookup with
/// `RequestNotFound`.
pub proof fn law_unknown_request_not_found(s: OracleState, request_id: u64, proof: [u8; 192])
    requires
        request_id >= s.requests.len(),
    ensures
        fulfill_randomness_outcome(s, request_id, proof) == (
            Err::<(), VrfError>(VrfError::RequestNotFound),
            s,
        ),
        get_request_outcome(s, request_id) == Err::<RequestView, VrfError>(
            VrfError::RequestNotFound,
        ),
{
}

/// Whether `after` keeps every request of `before` in place, fulfilled ones
/// unchanged, and extends its event log.
pub open spec fn keeps_history(before: OracleState, after: OracleState) -> bool {
    &&& before.requests.len() <= after.requests.len()
    &&& forall|i: int|
        0 <= i < before.requests.len() ==> {
            &&& (#[trigger] after.requests[i]).requester == before.requests[i].requester
            &&& after.requests[i].seed == before.requests[i].seed
            &&& before.requests[i].status == Status::Fulfilled ==> after.requests[i]
                == before.requests[i]
        }
    &&& before.events.len() <= after.events.len()
    &&& forall|i: int| 0 <= i < before.events.len() ==> #[trigger] after.events[i] == before.events[i]
}

/// No operation removes a request, changes who asked or for which seed,
/// alters a fulfilled request, or rewrites a published event; a fulfillment
/// touches no request but its own.
pub proof fn law_history_is_kept(
    s: OracleState,
    who: Seq<u8>,
    key: [u8; 96],
    seed: Seq<u8>,
    request_id: u64,
    proof: [u8; 192],
)
    ensures
        keeps_history(s, initialize_outcome(s, who, key).1),
        keeps_history(s, set_oracle_pubkey_outcome(s, who, key).1),
        keeps_history(s, request_randomness_outcome(s, who, seed).1),
        keeps_history(s, fulfill_randomness_outcome(s, request_id, proof).1),
        forall|j: int|
            0 <= j < s.requests.len() && j != request_id ==> #[trigger] fulfill_randomness_outcome(
                s,
                request_id,
                proof,
            ).1.requests[j] == s.requests[j],
{
    let pushed = request_randomness_outcome(s, who, seed).1;
    assert forall|i: int| 0 <= i < s.requests.len() implies (#[trigger] pushed.requests[i])
        == s.requests[i] by {}
    assert forall|i: int| 0 <= i < s.events.len() implies #[trigger] pushed.events[i]
        == s.events[i] by {}
    let fulfilled = fulfill_randomness_outcome(s, request_id, proof).1;
    assert forall|i: int| 0 <= i < s.events.len() implies #[trigger] fulfilled.events[i]
        == s.events[i] by {}
}

/// Initialization, key rotation and the key lookup read and change only the
/// admin and the key: on two states that agree on those, they answer alike
/// and leave the same admin and key.
pub proof fn law_key_operations_ignore_requests(
    s: OracleState,
    t: OracleState,
    who: Seq<u8>,
    key: [u8; 96],
)
    requires
        s.admin == t.admin,
        s.oracle_pubkey == t.oracle_pubkey,
    ensures
        initialize_outcome(s, who, key).0 == initialize_outcome(t, who, key).0,
        initialize_outcome(s, who, key).1.admin == initialize_outcome(t, who, key).1.admin,
        initialize_outcome(s, who, key).1.oracle_pubkey == initialize_outcome(
            t,
            who,
            key,
        ).1.oracle_pubkey,
        set_oracle_pubkey_outcome(s, who, key).0 == set_oracle_pubkey_outcome(t, who, key).0,
        set_oracle_pubkey_outcome(s, who, key).1.oracle_pubkey == set_oracle_pubkey_outcome(
            t,
            who,
            key,
        ).1.oracle_pubkey,
        get_oracle_pubkey_outcome(s) == get_oracle_pubkey_outcome(t),
{
}

/// A granted request appends exactly one request, pending and holding the
/// requester and seed, at the position of the id it returns, and publishes
/// exactly one event, which names that same id, requester and seed.
pub proof fn law_request_announces_its_own_id(s: OracleState, requester: Seq<u8>, seed: Seq<u8>)
    requires
        s.requests.len() < u64::MAX,
    ensures
        request_randomness_outcome(s, requester, seed).0 matches Ok(id) ==> {
            let after = request_randomness_outcome(s, requester, seed).1;
            &&& id == s.requests.len()
            &&& after.requests == s.requests.push(
                RequestView { requester, seed, status: Status::Pending, random: None },
            )
            &&& after.events == s.events.push(
                EventView::Requested { request_id: id, requester, seed },
            )
            &&& after.admin == s.admin
            &&& after.oracle_pubkey == s.oracle_pubkey
        },
{
}

/// A successful fulfillment changes only the fulfilled request, which keeps
/// its requester and seed and now holds the SHA-256 digest of the proof, and
/// publishes exactly one event, which names the fulfilled request and that
/// digest.
pub proof fn law_fulfillment_announces_its_own_request(s: OracleState, request_id: u64, proof: [u8; 192])
    ensures
        fulfill_randomness_outcome(s, request_id, proof).0 is Ok ==> {
            let after = fulfill_randomness_outcome(s, request_id, proof).1;
            let before = s.requests[request_id as int];
            &&& request_id < s.requests.len()
            &&& after.requests == s.requests.update(
                request_id as int,
                RequestView {
                    requester: before.requester,
                    seed: before.seed,
                    status: Status::Fulfilled,
                    random: Some(sha256_digest(proof@)),
                },
            )
            &&& after.events == s.events.push(
                EventView::Fulfilled { request_id, random: sha256_digest(proof@) },
            )
            &&& after.admin == s.admin
            &&& after.oracle_pubkey == s.oracle_pubkey
        },
{
}

/// Settling a pending request with a random value stores that value in that
/// request alone and publishes exactly one event naming that request and
/// value; settling with no value changes nothing.
pub proof fn law_settle_announces_its_own_request(
    s: OracleState,
    request_id: u64,
    random: Option<Seq<u8>>,
)
    requires
        request_id < s.requests.len(),
    ensures
        random matches Some(value) ==> {
            let after = settle_outcome(s, request_id, random).1;
            &&& settle_outcome(s, request_id, random).0 == Ok::<(), VrfError>(())
            &&& after.requests == s.requests.update(
                request_id as int,
                RequestView {
                    requester: s.requests[request_id as int].requester,
                    seed: s.requests[request_id as int].seed,
                    status: Status::Fulfilled,
                    random: Some(value),
                },
            )
            &&& after.events == s.events.push(
                EventView::Fulfilled { request_id, random: value },
            )
        },
        random is None ==> settle_outcome(s, request_id, random) == (
            Err::<(), VrfError>(VrfError::InvalidProof),
            s,
        ),
{
}

/// A pending request with a registered key is fulfilled exactly when the
/// pairing check on the host's hash of the request's own seed passes:
/// `e(G1_BASE, proof) * e(pk * (r - 1), hash_to_g2(seed, G2_SIG_DST))` is
/// the identity.
pub proof fn law_fulfillment_checks_the_pairing_on_the_seed(
    s: OracleState,
    request_id: u64,
    proof: [u8; 192],
)
    requires
        request_id < s.requests.len(),
        s.requests[request_id as int].status == Status::Pending,
        s.oracle_pubkey.is_some(),
    ensures
        (fulfill_randomness_outcome(s, request_id, proof).0 is Ok) == bls_pairing_check(
            seq![
                bls_hash_to_g1(G1_BASE_SEED@, G1_BASE_DST@),
                bls_g1_mul(s.oracle_pubkey.unwrap()@, (scalar_order() - 1) as nat),
            ],
            seq![proof@, bls_hash_to_g2(s.requests[request_id as int].seed, G2_SIG_DST@)],
        ),
{
}

} // verus!
