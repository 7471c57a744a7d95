//! The oracle contract: its stored state, the requests for randomness, and
//! the four operations that change them.
//!
//! The state is what the deployed contract keeps in its storage: the admin,
//! the registered oracle public key, the requests (a request's id is its
//! position, allocated from a counter that starts at zero), and the events
//! that the operations have published. An operation that fails returns its
//! error and leaves the state as it was, as an aborted transaction does.

use vstd::prelude::*;

use crate::crypto::{g1_point_check, g1_point_valid, g2_point_check, g2_point_valid, sha256, sha256_digest};
use crate::vrf::{proof_verifies, verify};

verus! {

/// Whether a request still waits for its proof.
#[derive(Clone, Copy, PartialEq, Eq, Debug, Structural)]
pub enum Status {
    Pending,
    Fulfilled,
}

/// The errors with which the contract refuses an operation.
#[derive(Clone, Copy, PartialEq, Eq, Debug, Structural)]
pub enum VrfError {
    NotInitialized,
    AlreadyInitialized,
    RequestNotFound,
    AlreadyFulfilled,
    InvalidProof,
}

impl VrfError {
    /// The contract error number that the host reports for this error.
    pub open spec fn spec_code(self) -> u32 {
        match self {
            VrfError::NotInitialized => 1,
            VrfError::AlreadyInitialized => 2,
            VrfError::RequestNotFound => 3,
            VrfError::AlreadyFulfilled => 4,
            VrfError::InvalidProof => 5,
        }
    }

    /// The contract error number that the host reports for this error.
    pub fn code(&self) -> (code: u32)
        ensures
            code == self.spec_code(),
    {
        match self {
            VrfError::NotInitialized => 1,
            VrfError::AlreadyInitialized => 2,
            VrfError::RequestNotFound => 3,
            VrfError::AlreadyFulfilled => 4,
            VrfError::InvalidProof => 5,
        }
    }
}

/// An account or contract address, held as the bytes of its strkey.
pub struct Address {
    bytes: Vec<u8>,
}

impl View for Address {
    type V = Seq<u8>;

    closed spec fn view(&self) -> Seq<u8> {
        self.bytes@
    }
}

/// A copy of `bytes`.
pub fn copy_bytes(bytes: &Vec<u8>) -> (copy: Vec<u8>)
    ensures
        copy@ == bytes@,
{
    let copy = bytes.clone();
    assert(copy@ =~= bytes@);
    copy
}

/// Whether `a` and `b` hold the same bytes.
pub fn bytes_equal(a: &[u8], b: &[u8]) -> (same: bool)
    ensures
        same == (a@ == b@),
{
    if a.len() != b.len() {
        return false;
    }
    let mut i: usize = 0;
    while i < a.len()
        invariant
            i <= a@.len(),
            a@.len() == b@.len(),
            forall|j: int| 0 <= j < i ==> a@[j] == b@[j],
        decreases a@.len() - i,
    {
        if a[i] != b[i] {
            return false;
        }
        i = i + 1;
    }
    assert(a@ =~= b@);
    true
}

impl Address {
    /// The address whose strkey is `bytes`.
    pub fn new(bytes: Vec<u8>) -> (address: Address)
        ensures
            address@ == bytes@,
    {
        Address { bytes }
    }

    /// The bytes of the address's strkey.
    pub fn as_bytes(&self) -> (bytes: &[u8])
        ensures
            bytes@ == self@,
    {
        self.bytes.as_slice()
    }

    /// A copy of the address.
    pub fn duplicate(&self) -> (copy: Address)
        ensures
            copy@ == self@,
    {
        Address { bytes: copy_bytes(&self.bytes) }
    }

    /// Whether the two addresses are the same.
    pub fn same_as(&self, other: &Address) -> (same: bool)
        ensures
            same == (self@ == other@),
    {
        bytes_equal(self.bytes.as_slice(), other.bytes.as_slice())
    }
}

/// A request for randomness, as the contract stores it.
pub struct Request {
    pub requester: Address,
    pub seed: Vec<u8>,
    pub status: Status,
    pub random: Option<[u8; 32]>,
}

/// What a request holds, as values.
pub struct RequestView {
    pub requester: Seq<u8>,
    pub seed: Seq<u8>,
    pub status: Status,
    pub random: Option<Seq<u8>>,
}

/// The view of an optional 32-byte value.
pub open spec fn random_view(random: Option<[u8; 32]>) -> Option<Seq<u8>> {
    match random {
        Some(r) => Some(r@),
        None => None,
    }
}

impl View for Request {
    type V = RequestView;

    open spec fn view(&self) -> RequestView {
        RequestView {
            requester: self.requester@,
            seed: self.seed@,
            status: self.status,
            random: random_view(self.random),
        }
    }
}

impl Request {
    /// A copy of the request.
    pub fn duplicate(&self) -> (copy: Request)
        ensures
            copy@ == self@,
    {
        Request {
            requester: self.requester.duplicate(),
            seed: copy_bytes(&self.seed),
            status: self.status,
            random: self.random,
        }
    }
}

/// Published when a request is recorded.
pub struct RandomnessRequested {
    pub request_id: u64,
    pub requester: Address,
    pub seed: Vec<u8>,
}

/// Published when a request is fulfilled.
pub struct RandomnessFulfilled {
    pub request_id: u64,
    pub random: [u8; 32],
}

/// An event that the contract publishes.
pub enum Event {
    Requested(RandomnessRequested),
    Fulfilled(RandomnessFulfilled),
}

/// What an event holds, as values.
pub enum EventView {
    Requested { request_id: u64, requester: Seq<u8>, seed: Seq<u8> },
    Fulfilled { request_id: u64, random: Seq<u8> },
}

impl View for Event {
    type V = EventView;

    open spec fn view(&self) -> EventView {
        match self {
            Event::Requested(e) => EventView::Requested {
                request_id: e.request_id,
                requester: e.requester@,
                seed: e.seed@,
            },
            Event::Fulfilled(e) => EventView::Fulfilled { request_id: e.request_id, random: e.random@ },
        }
    }
}

/// The contract's state, as values.
pub struct OracleState {
    pub admin: Option<Seq<u8>>,
    pub oracle_pubkey: Option<[u8; 96]>,
    pub requests: Seq<RequestView>,
    pub events: Seq<EventView>,
}

impl OracleState {
    /// What every state that the operations reach satisfies: the admin and
    /// the key are set together, by initialization; no request precedes
    /// initialization; the number of requests fits the id counter; and a
    /// request holds a random value exactly when it is fulfilled.
    pub open spec fn wf(self) -> bool {
        &&& self.admin.is_some() == self.oracle_pubkey.is_some()
        &&& self.admin.is_none() ==> self.requests.len() == 0
        &&& self.requests.len() <= u64::MAX
        &&& forall|i: int|
            0 <= i < self.requests.len() ==> ((#[trigger] self.requests[i]).status
                == Status::Fulfilled) == self.requests[i].random.is_some()
    }
}

/// The state of a contract that has just been deployed.
pub open spec fn deployed_state() -> OracleState {
    OracleState { admin: None, oracle_pubkey: None, requests: seq![], events: seq![] }
}

/// What `initialize` answers, and the state it leaves.
pub open spec fn initialize_outcome(s: OracleState, admin: Seq<u8>, oracle_pubkey: [u8; 96]) -> (
    Result<(), VrfError>,
    OracleState,
) {
    if s.admin.is_some() {
        (Err(VrfError::AlreadyInitialized), s)
    } else {
        (Ok(()), OracleState { admin: Some(admin), oracle_pubkey: Some(oracle_pubkey), ..s })
    }
}

/// What `set_oracle_pubkey` answers when `caller` asks, and the state it
/// leaves. A caller other than the admin is refused with the same error as
/// an uninitialized contract.
pub open spec fn set_oracle_pubkey_outcome(s: OracleState, caller: Seq<u8>, new_pubkey: [u8; 96]) -> (
    Result<(), VrfError>,
    OracleState,
) {
    match s.admin {
        None => (Err(VrfError::NotInitialized), s),
        Some(admin) => if admin != caller {
            (Err(VrfError::NotInitialized), s)
        } else {
            (Ok(()), OracleState { oracle_pubkey: Some(new_pubkey), ..s })
        },
    }
}

/// What `request_randomness` answers, and the state it leaves: the new
/// request takes the next id, waits for its proof, and is announced.
pub open spec fn request_randomness_outcome(s: OracleState, requester: Seq<u8>, seed: Seq<u8>) -> (
    Result<u64, VrfError>,
    OracleState,
) {
    if s.admin.is_none() {
        (Err(VrfError::NotInitialized), s)
    } else {
        let id = s.requests.len() as u64;
        (
            Ok(id),
            OracleState {
                requests: s.requests.push(
                    RequestView { requester, seed, status: Status::Pending, random: None },
                ),
                events: s.events.push(EventView::Requested { request_id: id, requester, seed }),
                ..s
            },
        )
    }
}

/// What settling a pending request answers, given what the proof check
/// yielded: `None` when the proof did not verify, which is refused with
/// `InvalidProof`, or the random value derived from a proof that did, which
/// fulfills the request and is announced.
pub open spec fn settle_outcome(s: OracleState, request_id: u64, random: Option<Seq<u8>>) -> (
    Result<(), VrfError>,
    OracleState,
) {
    match random {
        None => (Err(VrfError::InvalidProof), s),
        Some(random) => (
            Ok(()),
            OracleState {
                requests: s.requests.update(
                    request_id as int,
                    RequestView {
                        status: Status::Fulfilled,
                        random: Some(random),
                        ..s.requests[request_id as int]
                    },
                ),
                events: s.events.push(EventView::Fulfilled { request_id, random }),
                ..s
            },
        ),
    }
}

/// What `fulfill_randomness` answers, and the state it leaves: a pending
/// request whose proof verifies against the registered key becomes
/// fulfilled with the SHA-256 digest of the proof as its random value.
pub open spec fn fulfill_randomness_outcome(s: OracleState, request_id: u64, proof: [u8; 192]) -> (
    Result<(), VrfError>,
    OracleState,
) {
    if request_id >= s.requests.len() {
        (Err(VrfError::RequestNotFound), s)
    } else if s.requests[request_id as int].status == Status::Fulfilled {
        (Err(VrfError::AlreadyFulfilled), s)
    } else {
        match s.oracle_pubkey {
            None => (Err(VrfError::NotInitialized), s),
            Some(pubkey) => settle_outcome(
                s,
                request_id,
                if proof_verifies(pubkey@, s.requests[request_id as int].seed, proof@) {
                    Some(sha256_digest(proof@))
                } else {
                    None
                },
            ),
        }
    }
}

/// What `get_request` answers.
pub open spec fn get_request_outcome(s: OracleState, request_id: u64) -> Result<RequestView, VrfError> {
    if request_id < s.requests.len() {
        Ok(s.requests[request_id as int])
    } else {
        Err(VrfError::RequestNotFound)
    }
}

/// What `get_oracle_pubkey` answers.
pub open spec fn get_oracle_pubkey_outcome(s: OracleState) -> Result<[u8; 96], VrfError> {
    match s.oracle_pubkey {
        Some(pubkey) => Ok(pubkey),
        None => Err(VrfError::NotInitialized),
    }
}

/// Whether `fulfill_randomness` reaches the pairing check for this request:
/// the request exists, waits, and a key is registered. The host then traps
/// unless the key and the proof decode into their subgroups.
pub open spec fn reaches_pairing(s: OracleState, request_id: u64) -> bool {
    &&& request_id < s.requests.len()
    &&& s.requests[request_id as int].status == Status::Pending
    &&& s.oracle_pubkey.is_some()
}

/// The oracle contract: its stored state.
pub struct VrfOracleContract {
    admin: Option<Address>,
    oracle_pubkey: Option<[u8; 96]>,
    requests: Vec<Request>,
    events: Vec<Event>,
}

impl View for VrfOracleContract {
    type V = OracleState;

    closed spec fn view(&self) -> OracleState {
        OracleState {
            admin: match self.admin {
                Some(a) => Some(a@),
                None => None,
            },
            oracle_pubkey: self.oracle_pubkey,
            requests: self.requests@.map_values(|r: Request| r@),
            events: self.events@.map_values(|e: Event| e@),
        }
    }
}

impl VrfOracleContract {
    /// A freshly deployed contract: nothing stored yet.
    pub fn new() -> (contract: VrfOracleContract)
        ensures
            contract@ == deployed_state(),
            contract@.wf(),
    {
        let contract = VrfOracleContract {
            admin: None,
            oracle_pubkey: None,
            requests: Vec::new(),
            events: Vec::new(),
        };
        assert(contract@.requests =~= seq![]);
        assert(contract@.events =~= seq![]);
        contract
    }

    /// The state that storage holds, rebuilt from its parts: the admin, the
    /// registered key, and the requests in the order of their ids, with no
    /// event published yet. `None` when the parts are not a state that the
    /// operations reach (see `OracleState::wf`).
    pub fn restore(admin: Option<Address>, oracle_pubkey: Option<[u8; 96]>, requests: Vec<Request>) -> (restored: Option<VrfOracleContract>)
        ensures
            ({
                let state = OracleState {
                    admin: match admin {
                        Some(a) => Some(a@),
                        None => None,
                    },
                    oracle_pubkey,
                    requests: requests@.map_values(|r: Request| r@),
                    events: seq![],
                };
                &&& restored is Some <==> state.wf()
                &&& restored matches Some(c) ==> c@ == state
            }),
    {
        let ghost views = requests@.map_values(|r: Request| r@);
        if admin.is_some() != oracle_pubkey.is_some() {
            return None;
        }
        if admin.is_none() && requests.len() > 0 {
            return None;
        }
        let mut i: usize = 0;
        while i < requests.len()
            invariant
                i <= requests@.len(),
                views == requests@.map_values(|r: Request| r@),
                forall|j: int|
                    0 <= j < i ==> ((#[trigger] views[j]).status == Status::Fulfilled)
                        == views[j].random.is_some(),
            decreases requests@.len() - i,
        {
            let consistent = (requests[i].status == Status::Fulfilled) == requests[i].random.is_some();
            if !consistent {
                assert(views[i as int] == requests@[i as int]@);
                return None;
            }
            assert(views[i as int] == requests@[i as int]@);
            i = i + 1;
        }
        let restored = VrfOracleContract { admin, oracle_pubkey, requests, events: Vec::new() };
        assert(restored@.events =~= seq![]);
        Some(restored)
    }

    /// The number of requests recorded so far, which is the next id.
    pub fn request_count(&self) -> (count: u64)
        ensures
            count == self@.requests.len(),
    {
        self.requests.len() as u64
    }

    /// The events published since this state was created or restored, in
    /// the order of publication.
    pub fn events(&self) -> (events: &Vec<Event>)
        ensures
            events@.map_values(|e: Event| e@) == self@.events,
    {
        &self.events
    }

    /// One-time setup: records the admin and the oracle's public key (a
    /// 96-byte uncompressed G1 point, `sk * G1_BASE` for the oracle's secret
    /// scalar `sk`). The admin's authorization is checked by the caller.
    pub fn initialize(&mut self, admin: Address, oracle_pubkey: [u8; 96]) -> (result: Result<(), VrfError>)
        requires
            old(self)@.wf(),
        ensures
            (result, final(self)@) == initialize_outcome(old(self)@, admin@, oracle_pubkey),
            final(self)@.wf(),
    {
        if self.admin.is_some() {
            return Err(VrfError::AlreadyInitialized);
        }
        self.admin = Some(admin);
        self.oracle_pubkey = Some(oracle_pubkey);
        Ok(())
    }

    /// Admin-gated rotation of the oracle's public key. The caller's
    /// authorization is checked by the caller of this function.
    pub fn set_oracle_pubkey(&mut self, admin: &Address, new_pubkey: [u8; 96]) -> (result: Result<(), VrfError>)
        requires
            old(self)@.wf(),
        ensures
            (result, final(self)@) == set_oracle_pubkey_outcome(old(self)@, admin@, new_pubkey),
            final(self)@.wf(),
    {
        match &self.admin {
            None => {
                return Err(VrfError::NotInitialized);
            },
            Some(stored) => {
                if !stored.same_as(admin) {
                    return Err(VrfError::NotInitialized);
                }
            },
        }
        self.oracle_pubkey = Some(new_pubkey);
        Ok(())
    }

    /// Records a request for randomness tied to `seed` and returns its id,
    /// under which the result can be fetched once fulfilled. The requester's
    /// authorization is checked by the caller. The stored id counter is a
    /// `u64` whose increment past `u64::MAX` aborts, so a contract holding
    /// `u64::MAX` requests takes no more (see `request_count`).
    pub fn request_randomness(&mut self, requester: Address, seed: Vec<u8>) -> (result: Result<u64, VrfError>)
        requires
            old(self)@.wf(),
            old(self)@.requests.len() < u64::MAX,
        ensures
            (result, final(self)@) == request_randomness_outcome(old(self)@, requester@, seed@),
            final(self)@.wf(),
    {
        if self.admin.is_none() {
            return Err(VrfError::NotInitialized);
        }
        let ghost old_requests = self@.requests;
        let ghost old_events = self@.events;
        let id = self.requests.len() as u64;
        let request = Request {
            requester: requester.duplicate(),
            seed: copy_bytes(&seed),
            status: Status::Pending,
            random: None,
        };
        self.requests.push(request);
        self.events.push(Event::Requested(RandomnessRequested { request_id: id, requester, seed }));
        assert(self@.requests =~= old_requests.push(
            RequestView { requester: requester@, seed: seed@, status: Status::Pending, random: None },
        ));
        assert(self@.events =~= old_events.push(
            EventView::Requested { request_id: id, requester: requester@, seed: seed@ },
        ));
        Ok(id)
    }

    /// Accepts the oracle's proof for `request_id`. Anyone may relay a
    /// proof: what protects the result is the pairing check against the
    /// registered key, not who submits it. Refused when the request does not
    /// exist, was already fulfilled, or the proof does not verify.
    pub fn fulfill_randomness(&mut self, env: &soroban_sdk::Env, request_id: u64, proof: [u8; 192]) -> (result: Result<(), VrfError>)
        requires
            old(self)@.wf(),
            reaches_pairing(old(self)@, request_id) ==> g1_point_valid(
                old(self)@.oracle_pubkey.unwrap()@,
            ) && g2_point_valid(proof@),
        ensures
            (result, final(self)@) == fulfill_randomness_outcome(old(self)@, request_id, proof),
            final(self)@.wf(),
    {
        if request_id >= self.requests.len() as u64 {
            return Err(VrfError::RequestNotFound);
        }
        let index = request_id as usize;
        assert(self.requests@[index as int]@ == self@.requests[index as int]);
        if self.requests[index].status == Status::Fulfilled {
            return Err(VrfError::AlreadyFulfilled);
        }
        let oracle_pubkey = match &self.oracle_pubkey {
            None => {
                return Err(VrfError::NotInitialized);
            },
            Some(pubkey) => *pubkey,
        };
        let random = if verify(env, &oracle_pubkey, self.requests[index].seed.as_slice(), &proof) {
            Some(sha256(env, proof.as_slice()))
        } else {
            None
        };
        self.settle(request_id, random)
    }

    /// Settles a pending request with what the proof check yielded: `None`
    /// when the proof did not verify, refused with `InvalidProof`, or the
    /// random value derived from a proof that did, which fulfills the request
    /// and publishes its `RandomnessFulfilled` event.
    pub fn settle(&mut self, request_id: u64, random: Option<[u8; 32]>) -> (result: Result<(), VrfError>)
        requires
            old(self)@.wf(),
            reaches_pairing(old(self)@, request_id),
        ensures
            (result, final(self)@) == settle_outcome(old(self)@, request_id, random_view(random)),
            final(self)@.wf(),
    {
        let random = match random {
            None => {
                return Err(VrfError::InvalidProof);
            },
            Some(random) => random,
        };
        let index = request_id as usize;
        let ghost old_requests = self@.requests;
        let ghost old_events = self@.events;
        assert(self.requests@[index as int]@ == old_requests[index as int]);
        let old_request = self.requests[index].duplicate();
        let updated = Request {
            requester: old_request.requester,
            seed: old_request.seed,
            status: Status::Fulfilled,
            random: Some(random),
        };
        self.requests.set(index, updated);
        self.events.push(Event::Fulfilled(RandomnessFulfilled { request_id, random }));
        assert(self@.requests =~= old_requests.update(
            index as int,
            RequestView { status: Status::Fulfilled, random: Some(random@), ..old_requests[index as int] },
        ));
        assert(self@.events =~= old_events.push(
            EventView::Fulfilled { request_id, random: random@ },
        ));
        proof {
            assert forall|i: int| 0 <= i < self@.requests.len() implies ((#[trigger] self@.requests[i]).status
                == Status::Fulfilled) == self@.requests[i].random.is_some() by {
                if i != index as int {
                    assert(self@.requests[i] == old_requests[i]);
                }
            }
        }
        Ok(())
    }

    /// Whether `fulfill_randomness` would reach the pairing check for this
    /// request, and the host would then trap on the key or the proof.
    pub open spec fn host_would_trap(s: OracleState, request_id: u64, proof: [u8; 192]) -> bool {
        &&& reaches_pairing(s, request_id)
        &&& !(g1_point_valid(s.oracle_pubkey.unwrap()@) && g2_point_valid(proof@))
    }

    /// Fulfills as `fulfill_randomness` does, first deciding whether the host
    /// would trap on the registered key or on the proof once the pairing check
    /// is reached: `None`, with nothing changed, in that case (the deployed
    /// contract's transaction fails with a host error), the operation's
    /// answer otherwise.
    pub fn fulfill_randomness_checked(&mut self, env: &soroban_sdk::Env, request_id: u64, proof: [u8; 192]) -> (outcome: Option<Result<(), VrfError>>)
        requires
            old(self)@.wf(),
        ensures
            Self::host_would_trap(old(self)@, request_id, proof) ==> outcome is None && final(self)@
                == old(self)@,
            !Self::host_would_trap(old(self)@, request_id, proof) ==> outcome == Some(
                fulfill_randomness_outcome(old(self)@, request_id, proof).0,
            ) && final(self)@ == fulfill_randomness_outcome(old(self)@, request_id, proof).1,
            final(self)@.wf(),
    {
        if request_id < self.requests.len() as u64 {
            let index = request_id as usize;
            assert(self.requests@[index as int]@ == self@.requests[index as int]);
            if self.requests[index].status == Status::Pending {
                if let Some(pubkey) = &self.oracle_pubkey {
                    if !(g1_point_check(env, pubkey) && g2_point_check(env, &proof)) {
                        return None;
                    }
                }
            }
        }
        Some(self.fulfill_randomness(env, request_id, proof))
    }

    /// Read-only lookup of a request's current state.
    pub fn get_request(&self, request_id: u64) -> (result: Result<Request, VrfError>)
        ensures
            match result {
                Ok(request) => get_request_outcome(self@, request_id) == Ok::<RequestView, VrfError>(request@),
                Err(e) => get_request_outcome(self@, request_id) == Err::<RequestView, VrfError>(e),
            },
    {
        if request_id >= self.requests.len() as u64 {
            return Err(VrfError::RequestNotFound);
        }
        let index = request_id as usize;
        Ok(self.requests[index].duplicate())
    }

    /// The currently registered oracle public key.
    pub fn get_oracle_pubkey(&self) -> (result: Result<[u8; 96], VrfError>)
        ensures
            result == get_oracle_pubkey_outcome(self@),
    {
        match &self.oracle_pubkey {
            Some(pubkey) => Ok(*pubkey),
            None => Err(VrfError::NotInitialized),
        }
    }
}

} // verus!
