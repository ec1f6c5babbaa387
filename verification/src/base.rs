//! Base identifiers of the protocol: validator names, sequence numbers and
//! chain identifiers with their parent lineage.

use vstd::prelude::*;

use crate::error::Error;

verus! {

/// Identity of a validator, an opaque comparable key.
#[derive(Clone, Copy, Debug, PartialEq, Eq, Structural, Hash)]
pub struct ValidatorName(pub u64);

/// Monotonic position of a chain's next unconfirmed operation.
#[derive(Clone, Copy, Debug, PartialEq, Eq, Structural, Hash)]
pub struct SequenceNumber(pub u64);

impl SequenceNumber {
    /// The successor, or an overflow error at the largest representable value.
    pub fn try_add_one(self) -> (r: Result<SequenceNumber, Error>)
        ensures
            self.0 < u64::MAX ==> r == Ok::<SequenceNumber, Error>(SequenceNumber((self.0 + 1) as u64)),
            self.0 == u64::MAX ==> r == Err::<SequenceNumber, Error>(Error::SequenceOverflow),
    {
        if self.0 < u64::MAX {
            Ok(SequenceNumber(self.0 + 1))
        } else {
            Err(Error::SequenceOverflow)
        }
    }
}

/// Identifier of a chain: the path of child indices from its root. A chain
/// with a path of length one is a root; a longer path names a chain created
/// by its parent, so the identifiers form a forest.
#[derive(Debug, Eq, Hash)]
pub struct ChainId(pub Vec<u64>);

impl Clone for ChainId {
    fn clone(&self) -> (r: ChainId)
        ensures
            r@ == self@,
    {
        let copy = ChainId(self.0.clone());
        proof {
            assert(copy.0@ =~= self.0@);
        }
        copy
    }
}

impl View for ChainId {
    type V = Seq<u64>;

    open spec fn view(&self) -> Seq<u64> {
        self.0@
    }
}

impl ChainId {
    /// The parent identifier and the child index under the parent, or `None`
    /// for a root chain.
    pub fn split(&self) -> (r: Option<(ChainId, u64)>)
        ensures
            self@.len() <= 1 ==> r is None,
            self@.len() > 1 ==> (r matches Some(p) && p.0@ == self@.drop_last() && p.1
                == self@.last()),
    {
        let n = self.0.len();
        if n <= 1 {
            None
        } else {
            let last = self.0[n - 1];
            let mut parent = self.0.clone();
            parent.pop();
            assert(parent@ =~= self.0@.drop_last());
            Some((ChainId(parent), last))
        }
    }
}

impl PartialEq for ChainId {
    fn eq(&self, other: &ChainId) -> (r: bool)
        ensures
            r <==> self.0@ == other.0@,
    {
        let n = self.0.len();
        if n != other.0.len() {
            assert(self.0@ != other.0@);
            return false;
        }
        let mut i: usize = 0;
        while i < n
            invariant
                0 <= i <= n,
                n == self.0@.len() == other.0@.len(),
                forall|j: int| 0 <= j < i ==> self.0@[j] == other.0@[j],
            decreases n - i,
        {
            if self.0[i] != other.0[i] {
                assert(self.0@ != other.0@);
                return false;
            }
            i += 1;
        }
        assert(self.0@ =~= other.0@);
        true
    }
}

impl vstd::std_specs::cmp::PartialEqSpecImpl for ChainId {
    open spec fn obeys_eq_spec() -> bool {
        true
    }

    open spec fn eq_spec(&self, other: &ChainId) -> bool {
        self.0@ == other.0@
    }
}

} // verus!
