//! Total mappings between the two structurally similar families of
//! execution-context types that cross the host/guest bytecode boundary:
//! the guest-side records (prefixed `Wit`, plus the host system's records)
//! and the context types the rest of an application works with. Pure data
//! adapters: no protocol logic.

use vstd::prelude::*;

verus! {

/// A 256-bit hash as four 64-bit limbs, lowest-index limb first.
#[derive(Clone, Copy, Debug, PartialEq, Eq, Structural, Hash)]
pub struct CryptoHash {
    pub part1: u64,
    pub part2: u64,
    pub part3: u64,
    pub part4: u64,
}

/// The owner of a chain or of an account: a hash of its public key.
#[derive(Clone, Copy, Debug, PartialEq, Eq, Structural, Hash)]
pub struct Owner(pub CryptoHash);

/// A block's position in a chain.
#[derive(Clone, Copy, Debug, PartialEq, Eq, Structural, Hash)]
pub struct BlockHeight(pub u64);

/// An account balance; the boundary carries it as two 64-bit halves.
#[derive(Clone, Copy, Debug, PartialEq, Eq, Structural, Hash)]
pub struct Balance(pub u128);

/// The unique reference to an effect: the chain, height and index that
/// produced it.
#[derive(Clone, Copy, Debug, PartialEq, Eq, Structural, Hash)]
pub struct EffectId {
    pub chain_id: CryptoHash,
    pub height: BlockHeight,
    pub index: u64,
}

/// An application: the effects that published its bytecode and created it.
#[derive(Clone, Copy, Debug, PartialEq, Eq, Structural, Hash)]
pub struct ApplicationId {
    pub bytecode_id: EffectId,
    pub creation: EffectId,
}

/// A session opened by an application.
#[derive(Clone, Copy, Debug, PartialEq, Eq, Structural, Hash)]
pub struct SessionId {
    pub application_id: ApplicationId,
    pub kind: u64,
    pub index: u64,
}

/// The context an operation executes in.
#[derive(Clone, Copy, Debug, PartialEq, Eq, Structural)]
pub struct OperationContext {
    pub chain_id: CryptoHash,
    pub authenticated_signer: Option<Owner>,
    pub height: BlockHeight,
    pub index: u64,
}

/// The context an incoming effect executes in.
#[derive(Clone, Copy, Debug, PartialEq, Eq, Structural)]
pub struct EffectContext {
    pub chain_id: CryptoHash,
    pub authenticated_signer: Option<Owner>,
    pub height: BlockHeight,
    pub effect_id: EffectId,
}

/// The context a cross-application call executes in.
#[derive(Clone, Copy, Debug, PartialEq, Eq, Structural)]
pub struct CalleeContext {
    pub chain_id: CryptoHash,
    pub authenticated_signer: Option<Owner>,
    pub authenticated_caller_id: Option<ApplicationId>,
}

/// The guest-side shape of a hash.
#[derive(Clone, Copy, Debug, PartialEq, Eq, Structural)]
pub struct WitCryptoHash {
    pub part1: u64,
    pub part2: u64,
    pub part3: u64,
    pub part4: u64,
}

/// The guest-side shape of an effect reference.
#[derive(Clone, Copy, Debug, PartialEq, Eq, Structural)]
pub struct WitEffectId {
    pub chain_id: WitCryptoHash,
    pub height: u64,
    pub index: u64,
}

/// The guest-side shape of an application reference.
#[derive(Clone, Copy, Debug, PartialEq, Eq, Structural)]
pub struct WitApplicationId {
    pub bytecode_id: WitEffectId,
    pub creation: WitEffectId,
}

/// The guest-side shape of a session reference.
#[derive(Clone, Copy, Debug, PartialEq, Eq, Structural)]
pub struct WitSessionId {
    pub application_id: WitApplicationId,
    pub kind: u64,
    pub index: u64,
}

/// The guest-side shape of a balance: two 64-bit halves of one 128-bit
/// value.
#[derive(Clone, Copy, Debug, PartialEq, Eq, Structural)]
pub struct WitBalance {
    pub lower_half: u64,
    pub upper_half: u64,
}

/// The host's answer to a lock request.
#[derive(Clone, Copy, Debug, PartialEq, Eq, Structural)]
pub enum PollLock {
    ReadyLocked,
    ReadyNotLocked,
    Pending,
}

/// An asynchronous result: ready with a value, or still pending.
#[derive(Clone, Copy, Debug, PartialEq, Eq, Structural)]
pub enum Poll<T> {
    Ready(T),
    Pending,
}

/// The mathematical reading of a guest hash.
pub open spec fn hash_of_wit(h: WitCryptoHash) -> CryptoHash {
    CryptoHash { part1: h.part1, part2: h.part2, part3: h.part3, part4: h.part4 }
}

/// The mathematical reading of a guest effect reference.
pub open spec fn effect_id_of_wit(e: WitEffectId) -> EffectId {
    EffectId { chain_id: hash_of_wit(e.chain_id), height: BlockHeight(e.height), index: e.index }
}

/// The mathematical reading of a guest application reference.
pub open spec fn application_id_of_wit(a: WitApplicationId) -> ApplicationId {
    ApplicationId {
        bytecode_id: effect_id_of_wit(a.bytecode_id),
        creation: effect_id_of_wit(a.creation),
    }
}

/// The mathematical reading of a guest session reference.
pub open spec fn session_id_of_wit(s: WitSessionId) -> SessionId {
    SessionId {
        application_id: application_id_of_wit(s.application_id),
        kind: s.kind,
        index: s.index,
    }
}

impl CryptoHash {
    /// The hash with the given four limbs.
    pub fn from(h: WitCryptoHash) -> (r: CryptoHash)
        ensures
            r == hash_of_wit(h),
    {
        CryptoHash { part1: h.part1, part2: h.part2, part3: h.part3, part4: h.part4 }
    }
}

impl Owner {
    /// An owner is carried over the boundary as the bare hash.
    pub fn from(h: WitCryptoHash) -> (r: Owner)
        ensures
            r == Owner(hash_of_wit(h)),
    {
        Owner(CryptoHash::from(h))
    }
}

impl EffectId {
    pub fn from(e: WitEffectId) -> (r: EffectId)
        ensures
            r == effect_id_of_wit(e),
    {
        EffectId {
            chain_id: CryptoHash::from(e.chain_id),
            height: BlockHeight(e.height),
            index: e.index,
        }
    }
}

impl ApplicationId {
    pub fn from(a: WitApplicationId) -> (r: ApplicationId)
        ensures
            r == application_id_of_wit(a),
    {
        ApplicationId {
            bytecode_id: EffectId::from(a.bytecode_id),
            creation: EffectId::from(a.creation),
        }
    }
}

impl SessionId {
    pub fn from(s: WitSessionId) -> (r: SessionId)
        ensures
            r == session_id_of_wit(s),
    {
        SessionId {
            application_id: ApplicationId::from(s.application_id),
            kind: s.kind,
            index: s.index,
        }
    }
}

impl Balance {
    /// Reassembles the 128-bit balance from its two halves: the upper half
    /// weighs two to the sixty-fourth.
    pub fn from(b: WitBalance) -> (r: Balance)
        ensures
            r.0 == (b.upper_half as int) * 0x1_0000_0000_0000_0000 + b.lower_half as int,
    {
        let upper = b.upper_half;
        let lower = b.lower_half;
        let value = ((upper as u128) << 64u128) | (lower as u128);
        proof {
            assert(((upper as u128) << 64u128) | (lower as u128) == (upper as u128)
                * 0x1_0000_0000_0000_0000 + (lower as u128)) by (bit_vector);
        }
        Balance(value)
    }
}

impl OperationContext {
    pub fn from(
        chain_id: WitCryptoHash,
        authenticated_signer: Option<WitCryptoHash>,
        height: u64,
        index: u64,
    ) -> (r: OperationContext)
        ensures
            r.chain_id == hash_of_wit(chain_id),
            authenticated_signer is None ==> r.authenticated_signer is None,
            authenticated_signer matches Some(h) ==> r.authenticated_signer == Some(
                Owner(hash_of_wit(h)),
            ),
            r.height == BlockHeight(height),
            r.index == index,
    {
        OperationContext {
            chain_id: CryptoHash::from(chain_id),
            authenticated_signer: match authenticated_signer {
                Some(h) => Some(Owner::from(h)),
                None => None,
            },
            height: BlockHeight(height),
            index,
        }
    }
}

impl EffectContext {
    pub fn from(
        chain_id: WitCryptoHash,
        authenticated_signer: Option<WitCryptoHash>,
        height: u64,
        effect_id: WitEffectId,
    ) -> (r: EffectContext)
        ensures
            r.chain_id == hash_of_wit(chain_id),
            authenticated_signer is None ==> r.authenticated_signer is None,
            authenticated_signer matches Some(h) ==> r.authenticated_signer == Some(
                Owner(hash_of_wit(h)),
            ),
            r.height == BlockHeight(height),
            r.effect_id == effect_id_of_wit(effect_id),
    {
        EffectContext {
            chain_id: CryptoHash::from(chain_id),
            authenticated_signer: match authenticated_signer {
                Some(h) => Some(Owner::from(h)),
                None => None,
            },
            height: BlockHeight(height),
            effect_id: EffectId::from(effect_id),
        }
    }
}

impl CalleeContext {
    pub fn from(
        chain_id: WitCryptoHash,
        authenticated_signer: Option<WitCryptoHash>,
        authenticated_caller_id: Option<WitApplicationId>,
    ) -> (r: CalleeContext)
        ensures
            r.chain_id == hash_of_wit(chain_id),
            authenticated_signer is None ==> r.authenticated_signer is None,
            authenticated_signer matches Some(h) ==> r.authenticated_signer == Some(
                Owner(hash_of_wit(h)),
            ),
            authenticated_caller_id is None ==> r.authenticated_caller_id is None,
            authenticated_caller_id matches Some(a) ==> r.authenticated_caller_id == Some(
                application_id_of_wit(a),
            ),
    {
        CalleeContext {
            chain_id: CryptoHash::from(chain_id),
            authenticated_signer: match authenticated_signer {
                Some(h) => Some(Owner::from(h)),
                None => None,
            },
            authenticated_caller_id: match authenticated_caller_id {
                Some(a) => Some(ApplicationId::from(a)),
                None => None,
            },
        }
    }
}

impl Poll<bool> {
    /// A lock answer read as an asynchronous boolean: locked, not locked, or
    /// pending.
    pub fn from(poll_lock: PollLock) -> (r: Poll<bool>)
        ensures
            poll_lock is ReadyLocked <==> r == Poll::Ready(true),
            poll_lock is ReadyNotLocked <==> r == Poll::Ready(false),
            poll_lock is Pending <==> r == Poll::<bool>::Pending,
    {
        match poll_lock {
            PollLock::ReadyLocked => Poll::Ready(true),
            PollLock::ReadyNotLocked => Poll::Ready(false),
            PollLock::Pending => Poll::Pending,
        }
    }
}

/// A session's payload as an application hands it back.
#[derive(Debug)]
pub struct Session {
    pub kind: u64,
    pub data: Vec<u8>,
}

/// The guest-side shape of a session payload.
#[derive(Debug)]
pub struct WitSession {
    pub kind: u64,
    pub data: Vec<u8>,
}

impl Session {
    pub fn from(s: WitSession) -> (r: Session)
        ensures
            r.kind == s.kind,
            r.data@ == s.data@,
    {
        Session { kind: s.kind, data: s.data }
    }
}

/// The host's answer to a read of one key.
#[derive(Debug)]
pub enum PollReadKeyBytes {
    Ready(Option<Vec<u8>>),
    Pending,
}

/// The host's answer to a key search.
#[derive(Debug)]
pub enum PollFindKeys {
    Ready(Vec<Vec<u8>>),
    Pending,
}

/// The host's answer to a key-value search.
#[derive(Debug)]
pub enum PollFindKeyValues {
    Ready(Vec<(Vec<u8>, Vec<u8>)>),
    Pending,
}

/// The host's answer to an operation with no payload.
#[derive(Clone, Copy, Debug, PartialEq, Eq, Structural)]
pub enum PollUnit {
    Ready,
    Pending,
}

impl Poll<Option<Vec<u8>>> {
    /// A key read, ready with the bytes found (or none), or still pending.
    pub fn from(poll: PollReadKeyBytes) -> (r: Poll<Option<Vec<u8>>>)
        ensures
            r is Pending <==> poll is Pending,
            poll matches PollReadKeyBytes::Ready(bytes) ==> (r matches Poll::Ready(b) && b
                == bytes),
    {
        match poll {
            PollReadKeyBytes::Ready(bytes) => Poll::Ready(bytes),
            PollReadKeyBytes::Pending => Poll::Pending,
        }
    }
}

impl Poll<Vec<Vec<u8>>> {
    /// A key search, ready with the keys found, or still pending.
    pub fn from(poll: PollFindKeys) -> (r: Poll<Vec<Vec<u8>>>)
        ensures
            r is Pending <==> poll is Pending,
            poll matches PollFindKeys::Ready(keys) ==> (r matches Poll::Ready(k) && k == keys),
    {
        match poll {
            PollFindKeys::Ready(keys) => Poll::Ready(keys),
            PollFindKeys::Pending => Poll::Pending,
        }
    }
}

impl Poll<Vec<(Vec<u8>, Vec<u8>)>> {
    /// A key-value search, ready with the pairs found, or still pending.
    pub fn from(poll: PollFindKeyValues) -> (r: Poll<Vec<(Vec<u8>, Vec<u8>)>>)
        ensures
            r is Pending <==> poll is Pending,
            poll matches PollFindKeyValues::Ready(pairs) ==> (r matches Poll::Ready(p) && p
                == pairs),
    {
        match poll {
            PollFindKeyValues::Ready(pairs) => Poll::Ready(pairs),
            PollFindKeyValues::Pending => Poll::Pending,
        }
    }
}

impl Poll<()> {
    /// A payload-free operation, ready or still pending.
    pub fn from(poll: PollUnit) -> (r: Poll<()>)
        ensures
            r is Pending <==> poll is Pending,
            poll is Ready <==> r == Poll::Ready(()),
    {
        match poll {
            PollUnit::Ready => Poll::Ready(()),
            PollUnit::Pending => Poll::Pending,
        }
    }
}

/// The value and the freshly opened sessions a cross-application call
/// returns, read out of the host's combined record.
pub fn call_result_parts(value: Vec<u8>, sessions: Vec<WitSessionId>) -> (r: (
    Vec<u8>,
    Vec<SessionId>,
))
    ensures
        r.0@ == value@,
        r.1@.len() == sessions@.len(),
        forall|i: int| 0 <= i < sessions@.len() ==> r.1@[i] == session_id_of_wit(#[trigger] sessions@[i]),
{
    let n = sessions.len();
    let mut out: Vec<SessionId> = Vec::new();
    let mut i: usize = 0;
    while i < n
        invariant
            0 <= i <= n,
            n == sessions@.len(),
            out@.len() == i,
            forall|j: int| 0 <= j < i ==> out@[j] == session_id_of_wit(#[trigger] sessions@[j]),
        decreases n - i,
    {
        out.push(SessionId::from(sessions[i]));
        i += 1;
    }
    (value, out)
}

} // verus!
