//! The weighted voting configuration: per-validator weights and the two
//! decision thresholds derived from the total weight.

use vstd::prelude::*;

use crate::base::ValidatorName;

verus! {

/// The weight a list of voting rights gives a name: the weight of its first
/// entry for that name, zero when no entry carries it.
pub open spec fn weight_in(s: Seq<(ValidatorName, u64)>, name: ValidatorName) -> u64
    decreases s.len(),
{
    if s.len() == 0 {
        0u64
    } else if s[0].0 == name {
        s[0].1
    } else {
        weight_in(s.drop_first(), name)
    }
}

/// The total weight of a list of voting rights.
pub open spec fn sum_weights(s: Seq<(ValidatorName, u64)>) -> int
    decreases s.len(),
{
    if s.len() == 0 {
        0
    } else {
        s[0].1 + sum_weights(s.drop_first())
    }
}

/// No validator name appears twice.
pub open spec fn distinct_names(s: Seq<(ValidatorName, u64)>) -> bool {
    forall|i: int, j: int| 0 <= i < j < s.len() ==> s[i].0 != s[j].0
}

/// Weighted voting configuration of one epoch. Committee formation is not
/// this library's business: a committee arrives as data and is only read.
pub struct Committee {
    pub voting_rights: Vec<(ValidatorName, u64)>,
    pub total_votes: u64,
}

impl Committee {
    /// A committee is well formed when its names are distinct, its recorded
    /// total is the sum of the weights, and the total is positive yet small
    /// enough that threshold arithmetic cannot overflow.
    pub open spec fn wf(&self) -> bool {
        &&& distinct_names(self.voting_rights@)
        &&& self.total_votes as int == sum_weights(self.voting_rights@)
        &&& 1 <= self.total_votes <= u64::MAX / 3
    }

    /// The weight of one validator; zero for a name outside the committee.
    pub open spec fn weight_spec(&self, name: ValidatorName) -> u64 {
        weight_in(self.voting_rights@, name)
    }

    /// Minimum accumulated weight for a valid affirmative decision.
    pub open spec fn quorum_threshold_spec(&self) -> int {
        2 * (self.total_votes as int) / 3 + 1
    }

    /// Minimum accumulated weight at which one reported error is guaranteed
    /// to come from at least one honest validator.
    pub open spec fn validity_threshold_spec(&self) -> int {
        ((self.total_votes as int) + 2) / 3
    }

    /// The weight of one validator; zero for a name outside the committee.
    pub fn weight(&self, name: &ValidatorName) -> (r: u64)
        ensures
            r == self.weight_spec(*name),
    {
        let n = self.voting_rights.len();
        proof {
            assert(self.voting_rights@.skip(0) =~= self.voting_rights@);
        }
        let mut i: usize = 0;
        while i < n
            invariant
                0 <= i <= n,
                n == self.voting_rights@.len(),
                weight_in(self.voting_rights@.skip(i as int), *name) == self.weight_spec(*name),
            decreases n - i,
        {
            let entry = &self.voting_rights[i];
            if entry.0 == *name {
                assert(self.voting_rights@.skip(i as int)[0] == self.voting_rights@[i as int]);
                return entry.1;
            }
            proof {
                assert(self.voting_rights@.skip(i as int).drop_first() =~= self.voting_rights@.skip(
                    i as int + 1,
                ));
            }
            i += 1;
        }
        proof {
            assert(self.voting_rights@.skip(i as int).len() == 0);
        }
        0
    }

    /// Decides well-formedness, so that a caller holding a committee from
    /// elsewhere can establish `wf` before broadcasting with it.
    pub fn is_well_formed(&self) -> (r: bool)
        ensures
            r <==> self.wf(),
    {
        let n = self.voting_rights.len();
        let mut i: usize = 0;
        while i < n
            invariant
                0 <= i <= n,
                n == self.voting_rights@.len(),
                forall|p: int, q: int|
                    0 <= p < q < self.voting_rights@.len() && p < i ==> self.voting_rights@[p].0
                        != self.voting_rights@[q].0,
            decreases n - i,
        {
            let mut j: usize = i + 1;
            while j < n
                invariant
                    i < j <= n,
                    n == self.voting_rights@.len(),
                    forall|q: int|
                        i < q < j ==> self.voting_rights@[i as int].0 != self.voting_rights@[q].0,
                decreases n - j,
            {
                if self.voting_rights[i].0 == self.voting_rights[j].0 {
                    return false;
                }
                j += 1;
            }
            i += 1;
        }
        let mut total: u128 = 0;
        let mut k: usize = n;
        proof {
            assert(self.voting_rights@.skip(n as int) =~= Seq::<(ValidatorName, u64)>::empty());
        }
        while k > 0
            invariant
                0 <= k <= n,
                n == self.voting_rights@.len(),
                total == sum_weights(self.voting_rights@.skip(k as int)),
                total <= (n - k) * (u64::MAX as int),
            decreases k,
        {
            k -= 1;
            proof {
                assert(self.voting_rights@.skip(k as int).drop_first() =~= self.voting_rights@.skip(
                    k as int + 1,
                ));
                assert((n - k - 1) * (u64::MAX as int) + (u64::MAX as int) == (n - k) * (
                u64::MAX as int)) by (nonlinear_arith);
            }
            total = total + self.voting_rights[k].1 as u128;
        }
        proof {
            assert(self.voting_rights@.skip(0) =~= self.voting_rights@);
        }
        1 <= total && total <= (u64::MAX / 3) as u128 && self.total_votes as u128 == total
    }

    /// Minimum accumulated weight for a valid affirmative decision.
    pub fn quorum_threshold(&self) -> (r: u64)
        requires
            self.wf(),
        ensures
            r as int == self.quorum_threshold_spec(),
    {
        2 * self.total_votes / 3 + 1
    }

    /// Minimum accumulated weight at which one reported error is guaranteed
    /// to come from at least one honest validator.
    pub fn validity_threshold(&self) -> (r: u64)
        requires
            self.wf(),
        ensures
            r as int == self.validity_threshold_spec(),
    {
        (self.total_votes + 2) / 3
    }
}

/// One name's weight never exceeds the total of a list of voting rights, and
/// that total is never negative.
pub proof fn lemma_weight_le_sum(s: Seq<(ValidatorName, u64)>, name: ValidatorName)
    ensures
        0 <= sum_weights(s),
        weight_in(s, name) <= sum_weights(s),
    decreases s.len(),
{
    if s.len() > 0 {
        lemma_weight_le_sum(s.drop_first(), name);
    }
}

/// In a well-formed committee the thresholds respect the documented order:
/// the validity threshold never exceeds the quorum threshold, and the quorum
/// threshold never exceeds the total weight.
pub proof fn lemma_threshold_order(c: &Committee)
    requires
        c.wf(),
    ensures
        1 <= c.validity_threshold_spec(),
        c.validity_threshold_spec() <= c.quorum_threshold_spec(),
        c.quorum_threshold_spec() <= c.total_votes as int,
{
    let t = c.total_votes as int;
    assert(1 <= (t + 2) / 3) by {
        assert(t >= 1);
    };
    assert((t + 2) / 3 <= 2 * t / 3 + 1);
    assert(2 * t / 3 + 1 <= t) by {
        assert(2 * t / 3 <= t - 1) by (nonlinear_arith)
            requires
                t >= 1,
        ;
    };
}

} // verus!
