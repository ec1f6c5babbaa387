//! Requests, proposals, certificates, votes and chain-information messages
//! exchanged with validators, together with the authentication checks that
//! every response must pass before it is trusted.

use vstd::prelude::*;

use crate::base::ChainId;
use crate::base::SequenceNumber;
use crate::base::ValidatorName;
use crate::error::Error;

verus! {

/// One requested operation on a chain, at a definite sequence number.
#[derive(Debug)]
pub struct Request {
    pub chain_id: ChainId,
    pub sequence_number: SequenceNumber,
}

/// Structural equality of two requests.
pub open spec fn request_eq(a: &Request, b: &Request) -> bool {
    a.chain_id@ == b.chain_id@ && a.sequence_number == b.sequence_number
}

impl Clone for Request {
    fn clone(&self) -> (r: Request)
        ensures
            request_eq(&r, self),
    {
        Request { chain_id: self.chain_id.clone(), sequence_number: self.sequence_number }
    }
}

impl PartialEq for Request {
    fn eq(&self, other: &Request) -> (r: bool)
        ensures
            r <==> request_eq(self, other),
    {
        self.chain_id == other.chain_id && self.sequence_number == other.sequence_number
    }
}

impl vstd::std_specs::cmp::PartialEqSpecImpl for Request {
    open spec fn obeys_eq_spec() -> bool {
        true
    }

    open spec fn eq_spec(&self, other: &Request) -> bool {
        request_eq(self, other)
    }
}

/// A pending operation bundle for a chain, immutable once constructed.
#[derive(Debug)]
pub struct BlockProposal {
    pub request: Request,
}

/// The decision a certificate finalizes: a validated request awaiting
/// confirmation, or a confirmed one.
#[derive(Debug)]
pub enum Value {
    Validated { request: Request },
    Confirmed { request: Request },
}

/// Structural equality of two certificate values.
pub open spec fn value_eq(a: &Value, b: &Value) -> bool {
    match (a, b) {
        (Value::Validated { request: x }, Value::Validated { request: y }) => request_eq(x, y),
        (Value::Confirmed { request: x }, Value::Confirmed { request: y }) => request_eq(x, y),
        _ => false,
    }
}

impl Clone for Value {
    fn clone(&self) -> (r: Value)
        ensures
            value_eq(&r, self),
    {
        match self {
            Value::Validated { request } => Value::Validated { request: request.clone() },
            Value::Confirmed { request } => Value::Confirmed { request: request.clone() },
        }
    }
}

impl PartialEq for Value {
    fn eq(&self, other: &Value) -> (r: bool)
        ensures
            r <==> value_eq(self, other),
    {
        match (self, other) {
            (Value::Validated { request: x }, Value::Validated { request: y }) => x == y,
            (Value::Confirmed { request: x }, Value::Confirmed { request: y }) => x == y,
            _ => false,
        }
    }
}

impl vstd::std_specs::cmp::PartialEqSpecImpl for Value {
    open spec fn obeys_eq_spec() -> bool {
        true
    }

    open spec fn eq_spec(&self, other: &Value) -> bool {
        value_eq(self, other)
    }
}

impl Value {
    /// The request of a validated value, `None` for a confirmed one.
    pub fn validated_request(&self) -> (r: Option<&Request>)
        ensures
            r is Some <==> self is Validated,
            self matches Value::Validated { request } ==> (r matches Some(q) && *q == request),
    {
        match self {
            Value::Validated { request } => Some(request),
            Value::Confirmed { .. } => None,
        }
    }
}

/// A finalized, quorum-signed decision for a request.
#[derive(Debug)]
pub struct Certificate {
    pub value: Value,
}

impl Clone for Certificate {
    fn clone(&self) -> (r: Certificate)
        ensures
            value_eq(&r.value, &self.value),
    {
        Certificate { value: self.value.clone() }
    }
}

impl Clone for BlockProposal {
    fn clone(&self) -> (r: BlockProposal)
        ensures
            request_eq(&r.request, &self.request),
    {
        BlockProposal { request: self.request.clone() }
    }
}

/// A validator's signed endorsement of a value, tied to one validator name.
#[derive(Debug)]
pub struct Vote {
    pub validator: ValidatorName,
    pub value: Value,
}

/// Structural equality of two votes.
pub open spec fn vote_eq(a: &Vote, b: &Vote) -> bool {
    a.validator == b.validator && value_eq(&a.value, &b.value)
}

impl Clone for Vote {
    fn clone(&self) -> (r: Vote)
        ensures
            vote_eq(&r, self),
    {
        Vote { validator: self.validator, value: self.value.clone() }
    }
}

impl PartialEq for Vote {
    fn eq(&self, other: &Vote) -> (r: bool)
        ensures
            r <==> vote_eq(self, other),
    {
        self.validator == other.validator && self.value == other.value
    }
}

impl vstd::std_specs::cmp::PartialEqSpecImpl for Vote {
    open spec fn obeys_eq_spec() -> bool {
        true
    }

    open spec fn eq_spec(&self, other: &Vote) -> bool {
        vote_eq(self, other)
    }
}

impl Vote {
    /// Authenticates the vote: it may be trusted only if its embedded
    /// identity is the validator we are talking to.
    pub fn check(&self, expected: ValidatorName) -> (r: Result<(), Error>)
        ensures
            r is Ok <==> self.validator == expected,
            r is Err ==> r == Err::<(), Error>(Error::UnexpectedSigner),
    {
        if self.validator == expected {
            Ok(())
        } else {
            Err(Error::UnexpectedSigner)
        }
    }
}

/// The proposal/vote state of a chain on one validator: inactive chains have
/// no manager yet; an active manager may hold one pending vote.
#[derive(Debug)]
pub enum ChainManager {
    Inactive,
    Active { pending: Option<Vote> },
}

/// Structural equality of two managers.
pub open spec fn manager_eq(a: &ChainManager, b: &ChainManager) -> bool {
    match (a, b) {
        (ChainManager::Inactive, ChainManager::Inactive) => true,
        (ChainManager::Active { pending: x }, ChainManager::Active { pending: y }) => match (
            x,
            y,
        ) {
            (None, None) => true,
            (Some(v), Some(w)) => vote_eq(v, w),
            _ => false,
        },
        _ => false,
    }
}

impl PartialEq for ChainManager {
    fn eq(&self, other: &ChainManager) -> (r: bool)
        ensures
            r <==> manager_eq(self, other),
    {
        match (self, other) {
            (ChainManager::Inactive, ChainManager::Inactive) => true,
            (ChainManager::Active { pending: x }, ChainManager::Active { pending: y }) => match (
                x,
                y,
            ) {
                (None, None) => true,
                (Some(v), Some(w)) => v == w,
                _ => false,
            },
            _ => false,
        }
    }
}

impl vstd::std_specs::cmp::PartialEqSpecImpl for ChainManager {
    open spec fn obeys_eq_spec() -> bool {
        true
    }

    open spec fn eq_spec(&self, other: &ChainManager) -> bool {
        manager_eq(self, other)
    }
}

impl ChainManager {
    /// The pending vote, if the manager is active and holds one.
    pub open spec fn pending_spec(&self) -> Option<Vote> {
        match self {
            ChainManager::Inactive => None,
            ChainManager::Active { pending } => *pending,
        }
    }

    /// Whether the chain is active on the validator.
    pub fn is_active(&self) -> (r: bool)
        ensures
            r <==> self is Active,
    {
        match self {
            ChainManager::Inactive => false,
            ChainManager::Active { .. } => true,
        }
    }

    /// The manager's pending vote, if any.
    pub fn pending(&self) -> (r: Option<&Vote>)
        ensures
            r is Some <==> self.pending_spec() is Some,
            r matches Some(v) ==> self.pending_spec() == Some(*v),
    {
        match self {
            ChainManager::Inactive => None,
            ChainManager::Active { pending: Some(vote) } => Some(vote),
            ChainManager::Active { pending: None } => None,
        }
    }
}

/// A validator's current view of one chain.
#[derive(Debug)]
pub struct ChainInfo {
    pub chain_id: ChainId,
    pub manager: ChainManager,
    pub next_sequence_number: SequenceNumber,
}

/// Structural equality of two chain views.
pub open spec fn chain_info_eq(a: &ChainInfo, b: &ChainInfo) -> bool {
    a.chain_id@ == b.chain_id@ && manager_eq(&a.manager, &b.manager) && a.next_sequence_number
        == b.next_sequence_number
}

impl PartialEq for ChainInfo {
    fn eq(&self, other: &ChainInfo) -> (r: bool)
        ensures
            r <==> chain_info_eq(self, other),
    {
        self.chain_id == other.chain_id && self.manager == other.manager
            && self.next_sequence_number == other.next_sequence_number
    }
}

impl vstd::std_specs::cmp::PartialEqSpecImpl for ChainInfo {
    open spec fn obeys_eq_spec() -> bool {
        true
    }

    open spec fn eq_spec(&self, other: &ChainInfo) -> bool {
        chain_info_eq(self, other)
    }
}

/// A request for a validator's view of a chain. The updater only ever asks
/// for the activation state and the next sequence number, so every optional
/// part stays unset.
#[derive(Debug)]
pub struct ChainInfoQuery {
    pub chain_id: ChainId,
    pub check_next_sequence_number: Option<SequenceNumber>,
    pub query_committee: bool,
    pub query_sent_certificates_in_range: Option<SequenceNumberRange>,
    pub query_received_certificates_excluding_first_nth: Option<u64>,
}

impl ChainInfoQuery {
    /// The one query the updater ever sends: it asks for the chain's
    /// activation state and next sequence number alone, every optional part
    /// unset.
    pub fn for_chain(chain_id: ChainId) -> (r: ChainInfoQuery)
        ensures
            r.chain_id@ == chain_id@,
            r.check_next_sequence_number is None,
            !r.query_committee,
            r.query_sent_certificates_in_range is None,
            r.query_received_certificates_excluding_first_nth is None,
    {
        ChainInfoQuery {
            chain_id,
            check_next_sequence_number: None,
            query_committee: false,
            query_sent_certificates_in_range: None,
            query_received_certificates_excluding_first_nth: None,
        }
    }
}

/// A half-open range of sequence numbers with an optional length limit.
#[derive(Clone, Copy, Debug, PartialEq, Eq, Structural)]
pub struct SequenceNumberRange {
    pub start: SequenceNumber,
    pub limit: Option<u64>,
}

/// A validator's answer to a query, a certificate or a proposal, signed by
/// the validator that produced it.
#[derive(Debug)]
pub struct ChainInfoResponse {
    pub info: ChainInfo,
    pub signer: ValidatorName,
}

impl ChainInfoResponse {
    /// Authenticates the response: no field may be trusted unless the
    /// embedded identity is the validator we are talking to.
    pub fn check(&self, expected: ValidatorName) -> (r: Result<(), Error>)
        ensures
            r is Ok <==> self.signer == expected,
            r is Err ==> r == Err::<(), Error>(Error::UnexpectedSigner),
    {
        if self.signer == expected {
            Ok(())
        } else {
            Err(Error::UnexpectedSigner)
        }
    }
}

/// The locally stored state of one chain: the keys of its confirmed
/// certificates in log order, and, per sender chain, the last sequence
/// number received from it.
#[derive(Debug)]
pub struct ChainState {
    pub confirmed_log: Vec<u64>,
    pub received_index: Vec<(ChainId, SequenceNumber)>,
}

impl ChainState {
    /// The key the confirmed log holds for one sequence number, or the
    /// missing-certificate error — a local invariant violation — when the
    /// log does not reach that far.
    pub fn confirmed_key(&self, number: u64) -> (r: Result<u64, Error>)
        ensures
            number < self.confirmed_log@.len() ==> r == Ok::<u64, Error>(
                self.confirmed_log@[number as int],
            ),
            number >= self.confirmed_log@.len() ==> r == Err::<u64, Error>(
                Error::MissingCertificate,
            ),
    {
        let len = self.confirmed_log.len();
        if number < len as u64 {
            Ok(self.confirmed_log[number as usize])
        } else {
            Err(Error::MissingCertificate)
        }
    }

    /// The per-sender advances a receiver-side repair performs: every sender
    /// chain of the received index paired with one past its recorded
    /// sequence number, in index order; the overflow error exactly when
    /// some recorded number sits at the largest value.
    pub fn sender_advances(&self) -> (r: Result<Vec<(ChainId, SequenceNumber)>, Error>)
        ensures
            r is Ok <==> (forall|i: int|
                0 <= i < self.received_index@.len() ==> (#[trigger] self.received_index@[i]).1.0
                    < u64::MAX),
            r matches Ok(a) ==> {
                &&& a@.len() == self.received_index@.len()
                &&& forall|i: int|
                    0 <= i < a@.len() ==> {
                        &&& (#[trigger] a@[i]).0@ == self.received_index@[i].0@
                        &&& a@[i].1.0 == self.received_index@[i].1.0 + 1
                    }
            },
            r is Err ==> r == Err::<Vec<(ChainId, SequenceNumber)>, Error>(Error::SequenceOverflow),
    {
        let n = self.received_index.len();
        let mut advances: Vec<(ChainId, SequenceNumber)> = Vec::new();
        let mut i: usize = 0;
        while i < n
            invariant
                0 <= i <= n,
                n == self.received_index@.len(),
                advances@.len() == i,
                forall|j: int|
                    0 <= j < i ==> {
                        &&& (#[trigger] advances@[j]).0@ == self.received_index@[j].0@
                        &&& advances@[j].1.0 == self.received_index@[j].1.0 + 1
                    },
                forall|j: int|
                    0 <= j < i ==> (#[trigger] self.received_index@[j]).1.0 < u64::MAX,
            decreases n - i,
        {
            let sender_id = self.received_index[i].0.clone();
            match self.received_index[i].1.try_add_one() {
                Ok(next) => {
                    advances.push((sender_id, next));
                },
                Err(e) => {
                    return Err(e);
                },
            }
            i += 1;
        }
        Ok(advances)
    }

    /// Whether a failed proposal may succeed after the validator has been
    /// sent the receiver-side certificates it is missing: exactly the
    /// insufficient-funding answer, for any request.
    pub fn is_retriable_validation_error(request: &Request, error: &Error) -> (r: bool)
        ensures
            r <==> error is InsufficientFunding,
    {
        let _ = request;
        match error {
            Error::InsufficientFunding => true,
            _ => false,
        }
    }
}

} // verus!
