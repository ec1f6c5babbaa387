//! The quorum broadcaster: runs one action against every validator of a
//! committee and decides the overall outcome the instant a threshold is
//! crossed.
//!
//! The decision logic is a pure fold, specified by `tally_step` and
//! `outcome_from` over the sequence of answers in arrival order, whatever
//! that order is. `QuorumTally::observe` is the executable step, usable by
//! any driver that multiplexes calls itself; `communicate_with_quorum` runs
//! the calls one by one and folds their answers.

use vstd::prelude::*;

use crate::base::ValidatorName;
use crate::committee::Committee;
use crate::committee::sum_weights;
use crate::committee::weight_in;
use crate::error::Error;
use crate::error::error_eq;
use vstd::std_specs::cmp::PartialEqSpec;

verus! {

/// The accumulated answers of one broadcast: per distinct success value its
/// weight and its members in arrival order, per distinct error its weight.
pub struct TallyState<V> {
    pub groups: Seq<(int, Seq<V>)>,
    pub errors: Seq<(Error, int)>,
}

/// The tally before any answer arrived.
pub open spec fn empty_tally<V>() -> TallyState<V> {
    TallyState { groups: Seq::empty(), errors: Seq::empty() }
}

/// Whether a success value belongs to a group: it equals the group's first
/// member, the group's representative.
pub open spec fn group_matches<V: PartialEq>(g: (int, Seq<V>), v: V) -> bool {
    g.1.len() > 0 && g.1[0].eq_spec(&v)
}

/// Index of the first group a value belongs to, `-1` when there is none.
pub open spec fn find_group<V: PartialEq>(groups: Seq<(int, Seq<V>)>, v: V) -> int
    decreases groups.len(),
{
    if groups.len() == 0 {
        -1
    } else if group_matches(groups[0], v) {
        0
    } else if find_group(groups.drop_first(), v) == -1 {
        -1
    } else {
        find_group(groups.drop_first(), v) + 1
    }
}

/// Index of the first error entry structurally equal to an error, `-1` when
/// there is none.
pub open spec fn find_error(errors: Seq<(Error, int)>, e: Error) -> int
    decreases errors.len(),
{
    if errors.len() == 0 {
        -1
    } else if error_eq(&errors[0].0, &e) {
        0
    } else if find_error(errors.drop_first(), e) == -1 {
        -1
    } else {
        find_error(errors.drop_first(), e) + 1
    }
}

/// Adds a success of weight `w` to the tally: into the first group the value
/// belongs to, or into a fresh group.
pub open spec fn add_success<V: PartialEq>(st: TallyState<V>, v: V, w: int) -> TallyState<V> {
    let i = find_group(st.groups, v);
    if i >= 0 {
        TallyState {
            groups: st.groups.update(i, (st.groups[i].0 + w, st.groups[i].1.push(v))),
            errors: st.errors,
        }
    } else {
        TallyState { groups: st.groups.push((w, seq![v])), errors: st.errors }
    }
}

/// Adds an error of weight `w` to the tally: onto the first structurally
/// equal entry, or as a fresh entry. An existing entry keeps its stored
/// error value.
pub open spec fn add_error<V>(st: TallyState<V>, e: Error, w: int) -> TallyState<V> {
    let i = find_error(st.errors, e);
    if i >= 0 {
        TallyState {
            groups: st.groups,
            errors: st.errors.update(i, (st.errors[i].0, st.errors[i].1 + w)),
        }
    } else {
        TallyState { groups: st.groups, errors: st.errors.push((e, w)) }
    }
}

/// What one arriving answer decides.
pub enum StepDecision<V> {
    /// No threshold crossed yet.
    Pending,
    /// One value accumulated `quorum_threshold` weight; these are its
    /// members, in arrival order.
    Quorum(Seq<V>),
    /// One error accumulated `validity_threshold` weight; at least one
    /// honest validator reported it, so no quorum can be reached.
    Dominant(Error),
}

/// One step of the fold: the answer of validator `name` lands in the tally,
/// unless the validator's committee weight is zero, in which case it is
/// ignored entirely. The decision reports the threshold the step crossed.
pub open spec fn tally_step<V: PartialEq>(
    c: Committee,
    st: TallyState<V>,
    name: ValidatorName,
    result: Result<V, Error>,
) -> (TallyState<V>, StepDecision<V>) {
    let w = c.weight_spec(name) as int;
    if w == 0 {
        (st, StepDecision::Pending)
    } else {
        match result {
            Ok(v) => {
                let st2 = add_success(st, v, w);
                let i = find_group(st.groups, v);
                let j = if i >= 0 {
                    i
                } else {
                    st.groups.len() as int
                };
                if st2.groups[j].0 >= c.quorum_threshold_spec() {
                    (st2, StepDecision::Quorum(st2.groups[j].1))
                } else {
                    (st2, StepDecision::Pending)
                }
            },
            Err(e) => {
                let st2 = add_error(st, e, w);
                let i = find_error(st.errors, e);
                let j = if i >= 0 {
                    i
                } else {
                    st.errors.len() as int
                };
                if st2.errors[j].1 >= c.validity_threshold_spec() {
                    (st2, StepDecision::Dominant(st2.errors[j].0))
                } else {
                    (st2, StepDecision::Pending)
                }
            },
        }
    }
}

/// The outcome of folding a sequence of answers, in arrival order, over a
/// starting tally: the members of the first value to reach the quorum
/// threshold, the first error to reach the validity threshold, or
/// `Err(None)` when the answers run out with no threshold crossed.
pub open spec fn outcome_from<V: PartialEq>(
    c: Committee,
    st: TallyState<V>,
    arrivals: Seq<(ValidatorName, Result<V, Error>)>,
) -> Result<Seq<V>, Option<Error>>
    decreases arrivals.len(),
{
    if arrivals.len() == 0 {
        Err(None)
    } else {
        let (st2, d) = tally_step(c, st, arrivals[0].0, arrivals[0].1);
        match d {
            StepDecision::Pending => outcome_from(c, st2, arrivals.drop_first()),
            StepDecision::Quorum(vs) => Ok(vs),
            StepDecision::Dominant(e) => Err(Some(e)),
        }
    }
}

/// One group of equal success values: the accumulated weight and the values
/// themselves, the first being the representative.
pub struct ValueGroup<V> {
    pub weight: u64,
    pub members: Vec<V>,
}

/// The executable tally of one broadcast. A driver feeds it every answer as
/// it arrives and stops at the first decision.
pub struct QuorumTally<V> {
    pub groups: Vec<ValueGroup<V>>,
    pub error_scores: Vec<(Error, u64)>,
}

impl<V: PartialEq> QuorumTally<V> {
    /// The mathematical tally this value stands for.
    pub open spec fn view_spec(&self) -> TallyState<V> {
        TallyState {
            groups: self.groups@.map_values(|g: ValueGroup<V>| (g.weight as int, g.members@)),
            errors: self.error_scores@.map_values(|p: (Error, u64)| (p.0, p.1 as int)),
        }
    }

    /// Well-formed for a committee: every group is nonempty and still under
    /// the quorum threshold, every error entry still under the validity
    /// threshold. Weighing one more answer then cannot overflow.
    pub open spec fn wf(&self, c: Committee) -> bool {
        &&& forall|i: int|
            0 <= i < self.groups@.len() ==> (#[trigger] self.groups@[i]).members@.len() >= 1
        &&& forall|i: int|
            0 <= i < self.groups@.len() ==> (#[trigger] self.groups@[i]).weight
                < c.quorum_threshold_spec()
        &&& forall|i: int|
            0 <= i < self.error_scores@.len() ==> (#[trigger] self.error_scores@[i]).1
                < c.validity_threshold_spec()
    }

    /// A fresh, empty tally.
    pub fn new() -> (r: QuorumTally<V>)
        ensures
            r.view_spec() == empty_tally::<V>(),
            forall|c: Committee| r.wf(c),
    {
        let r = QuorumTally { groups: Vec::new(), error_scores: Vec::new() };
        proof {
            assert(r.view_spec().groups =~= empty_tally::<V>().groups);
            assert(r.view_spec().errors =~= empty_tally::<V>().errors);
        }
        r
    }

    /// Folds one arriving answer into the tally and reports the decision it
    /// crosses, exactly as `tally_step` says: `None` while no threshold is
    /// reached, the winning members once one value holds quorum weight, the
    /// dominant error once one error holds validity weight.
    pub fn observe(
        &mut self,
        committee: &Committee,
        name: ValidatorName,
        result: Result<V, Error>,
    ) -> (r: Option<Result<Vec<V>, Error>>)
        requires
            committee.wf(),
            V::obeys_eq_spec(),
            old(self).wf(*committee),
        ensures
            ({
                let (st2, d) = tally_step(*committee, old(self).view_spec(), name, result);
                match d {
                    StepDecision::Pending => r is None && final (self).view_spec() == st2
                        && final (self).wf(*committee),
                    StepDecision::Quorum(vs) => r matches Some(Ok(out)) && out@ == vs
                        && final (self).error_scores@ == old(self).error_scores@,
                    StepDecision::Dominant(e) => r matches Some(Err(out)) && out == e
                        && final (self).groups@ == old(self).groups@,
                }
            }),
    {
        let w = committee.weight(&name);
        proof {
            crate::committee::lemma_weight_le_sum(committee.voting_rights@, name);
            crate::committee::lemma_threshold_order(committee);
        }
        if w == 0 {
            return None;
        }
        match result {
            Ok(v) => {
                let idx = self.find_group_exec(&v);
                let ghost st = old(self).view_spec();
                let ghost i = find_group(st.groups, v);
                if let Some(idx) = idx {
                    proof {
                        assert(old(self).groups@[idx as int].weight < committee.quorum_threshold_spec());
                        assert(w <= committee.total_votes);
                    }
                    let g = self.groups.remove(idx);
                    let nw = g.weight + w;
                    let mut members = g.members;
                    members.push(v);
                    if nw >= committee.quorum_threshold() {
                        proof {
                            assert(members@ == add_success(st, v, w as int).groups[i].1);
                        }
                        return Some(Ok(members));
                    }
                    self.groups.insert(idx, ValueGroup { weight: nw, members });
                    proof {
                        assert(self.view_spec().groups =~= add_success(st, v, w as int).groups);
                        assert(self.view_spec().errors =~= st.errors);
                    }
                    None
                } else {
                    if w >= committee.quorum_threshold() {
                        let mut members: Vec<V> = Vec::new();
                        members.push(v);
                        proof {
                            assert(members@ =~= seq![v]);
                        }
                        return Some(Ok(members));
                    }
                    let mut members: Vec<V> = Vec::new();
                    members.push(v);
                    self.groups.push(ValueGroup { weight: w, members });
                    proof {
                        assert(self.view_spec().groups =~= add_success(st, v, w as int).groups);
                        assert(self.view_spec().errors =~= st.errors);
                    }
                    None
                }
            },
            Err(e) => {
                let idx = self.find_error_exec(&e);
                let ghost st = old(self).view_spec();
                let ghost i = find_error(st.errors, e);
                if let Some(idx) = idx {
                    proof {
                        assert(old(self).error_scores@[idx as int].1
                            < committee.validity_threshold_spec());
                        assert(w <= committee.total_votes);
                    }
                    let entry = self.error_scores.remove(idx);
                    let nw = entry.1 + w;
                    if nw >= committee.validity_threshold() {
                        return Some(Err(entry.0));
                    }
                    self.error_scores.insert(idx, (entry.0, nw));
                    proof {
                        assert(self.view_spec().errors =~= add_error::<V>(st, e, w as int).errors);
                        assert(self.view_spec().groups =~= st.groups);
                    }
                    None
                } else {
                    if w >= committee.validity_threshold() {
                        return Some(Err(e));
                    }
                    self.error_scores.push((e, w));
                    proof {
                        assert(self.view_spec().errors =~= add_error::<V>(st, e, w as int).errors);
                        assert(self.view_spec().groups =~= st.groups);
                    }
                    None
                }
            },
        }
    }

    /// Linear search for the first group the value belongs to.
    fn find_group_exec(&self, v: &V) -> (r: Option<usize>)
        requires
            V::obeys_eq_spec(),
            forall|i: int|
                0 <= i < self.groups@.len() ==> (#[trigger] self.groups@[i]).members@.len() >= 1,
        ensures
            ({
                let i = find_group(self.view_spec().groups, *v);
                match r {
                    Some(idx) => i == idx && idx < self.groups@.len(),
                    None => i == -1,
                }
            }),
    {
        let n = self.groups.len();
        let mut k: usize = 0;
        while k < n
            invariant
                0 <= k <= n,
                n == self.groups@.len(),
                V::obeys_eq_spec(),
                forall|i: int|
                    0 <= i < self.groups@.len() ==> (#[trigger] self.groups@[i]).members@.len()
                        >= 1,
                forall|j: int|
                    0 <= j < k ==> !group_matches(#[trigger] self.view_spec().groups[j], *v),
            decreases n - k,
        {
            if self.groups[k].members[0] == *v {
                proof {
                    lemma_find_at(self.view_spec().groups, *v, k as int);
                }
                return Some(k);
            }
            k += 1;
        }
        proof {
            lemma_find_at(self.view_spec().groups, *v, n as int);
        }
        None
    }

    /// Linear search for the first error entry structurally equal to `e`.
    fn find_error_exec(&self, e: &Error) -> (r: Option<usize>)
        ensures
            ({
                let i = find_error(self.view_spec().errors, *e);
                match r {
                    Some(idx) => i == idx && idx < self.error_scores@.len(),
                    None => i == -1,
                }
            }),
    {
        let n = self.error_scores.len();
        let mut k: usize = 0;
        while k < n
            invariant
                0 <= k <= n,
                n == self.error_scores@.len(),
                forall|j: int|
                    0 <= j < k ==> !error_eq(&(#[trigger] self.view_spec().errors[j]).0, e),
            decreases n - k,
        {
            if self.error_scores[k].0 == *e {
                proof {
                    lemma_find_error_at(self.view_spec().errors, *e, k as int);
                }
                return Some(k);
            }
            k += 1;
        }
        proof {
            lemma_find_error_at(self.view_spec().errors, *e, n as int);
        }
        None
    }
}

/// The per-validator action a broadcast runs: one call that submits a typed
/// request to the named validator and returns its typed answer. The same
/// broadcaster thereby serves proposal submission, certificate finalization
/// and chain-information queries.
pub trait QuorumAction<A, V> {
    fn execute(&mut self, name: ValidatorName, client: A) -> Result<V, Error>;
}

/// Whether `arrivals` carries exactly the names of the validators with
/// positive weight among `clients`, in order, one answer each.
pub open spec fn eligible_arrivals<A, V>(
    c: Committee,
    clients: Seq<(ValidatorName, A)>,
    arrivals: Seq<(ValidatorName, Result<V, Error>)>,
) -> bool
    decreases clients.len(),
{
    if clients.len() == 0 {
        arrivals.len() == 0
    } else if c.weight_spec(clients[0].0) > 0 {
        &&& arrivals.len() > 0
        &&& arrivals[0].0 == clients[0].0
        &&& eligible_arrivals(c, clients.drop_first(), arrivals.drop_first())
    } else {
        eligible_arrivals(c, clients.drop_first(), arrivals)
    }
}

/// Appending one more client extends the eligible answers by one when its
/// weight is positive, and by nothing when it is zero.
proof fn lemma_eligible_push<A, V>(
    c: Committee,
    clients: Seq<(ValidatorName, A)>,
    arrivals: Seq<(ValidatorName, Result<V, Error>)>,
    p: (ValidatorName, A),
    a: (ValidatorName, Result<V, Error>),
)
    requires
        eligible_arrivals(c, clients, arrivals),
        a.0 == p.0,
    ensures
        c.weight_spec(p.0) > 0 ==> eligible_arrivals(c, clients.push(p), arrivals.push(a)),
        c.weight_spec(p.0) == 0 ==> eligible_arrivals(c, clients.push(p), arrivals),
    decreases clients.len(),
{
    if clients.len() == 0 {
        assert(clients.push(p).drop_first() =~= clients);
        assert(arrivals.push(a).drop_first() =~= arrivals);
    } else {
        assert(clients.push(p).drop_first() =~= clients.drop_first().push(p));
        if c.weight_spec(clients[0].0) > 0 {
            assert(arrivals.push(a).drop_first() =~= arrivals.drop_first().push(a));
            lemma_eligible_push(c, clients.drop_first(), arrivals.drop_first(), p, a);
        } else {
            lemma_eligible_push(c, clients.drop_first(), arrivals, p, a);
        }
    }
}

/// The outcome of one fold step spelled out on a front element.
proof fn lemma_outcome_unfold<V: PartialEq>(
    c: Committee,
    st: TallyState<V>,
    a: (ValidatorName, Result<V, Error>),
    rest: Seq<(ValidatorName, Result<V, Error>)>,
)
    ensures
        outcome_from(c, st, seq![a].add(rest)) == ({
            let (st2, d) = tally_step(c, st, a.0, a.1);
            match d {
                StepDecision::Pending => outcome_from(c, st2, rest),
                StepDecision::Quorum(vs) => Ok::<Seq<V>, Option<Error>>(vs),
                StepDecision::Dominant(e) => Err::<Seq<V>, Option<Error>>(Some(e)),
            }
        }),
{
    let s = seq![a].add(rest);
    assert(s.len() > 0);
    assert(s[0] == a);
    assert(s.drop_first() =~= rest);
}

/// The mathematical reading of a broadcast's result.
pub open spec fn as_outcome<V>(r: Result<Vec<V>, Option<Error>>) -> Result<Seq<V>, Option<Error>> {
    match r {
        Ok(vs) => Ok(vs@),
        Err(oe) => Err(oe),
    }
}

/// Runs `execute` once against every validator whose committee weight is
/// positive, in list order, folding each answer into a tally, and stops the
/// moment a threshold is crossed. Zero-weight validators are never called:
/// their votes may not appear in a certificate. The result is exactly
/// `outcome_from` over the answers received: the first value set to reach
/// the quorum threshold, the first error to reach the validity threshold, or
/// `Err(None)` when every eligible validator answered and no threshold was
/// crossed.
pub fn communicate_with_quorum<A: Clone, V: PartialEq, F: QuorumAction<A, V>>(
    validator_clients: &Vec<(ValidatorName, A)>,
    committee: &Committee,
    execute: &mut F,
) -> (r: Result<Vec<V>, Option<Error>>)
    requires
        committee.wf(),
        V::obeys_eq_spec(),
    ensures
        exists|j: int, arrivals: Seq<(ValidatorName, Result<V, Error>)>|
            {
                &&& 0 <= j <= validator_clients@.len()
                &&& #[trigger] eligible_arrivals(*committee, validator_clients@.take(j), arrivals)
                &&& as_outcome(r) == outcome_from(*committee, empty_tally::<V>(), arrivals)
                &&& j < validator_clients@.len() ==> outcome_from(
                    *committee,
                    empty_tally::<V>(),
                    arrivals,
                ) != Err::<Seq<V>, Option<Error>>(None)
            },
{
    let ghost c = *committee;
    let n = validator_clients.len();
    let mut tally = QuorumTally::<V>::new();
    let ghost mut arrivals: Seq<(ValidatorName, Result<V, Error>)> = Seq::empty();
    let mut k: usize = 0;
    proof {
        assert(validator_clients@.take(0) =~= Seq::<(ValidatorName, A)>::empty());
    }
    while k < n
        invariant
            0 <= k <= n,
            n == validator_clients@.len(),
            c == *committee,
            committee.wf(),
            V::obeys_eq_spec(),
            tally.wf(c),
            eligible_arrivals(c, validator_clients@.take(k as int), arrivals),
            forall|rest: Seq<(ValidatorName, Result<V, Error>)>|
                outcome_from(c, empty_tally::<V>(), #[trigger] arrivals.add(rest)) == outcome_from(
                    c,
                    tally.view_spec(),
                    rest,
                ),
        decreases n - k,
    {
        let name = validator_clients[k].0;
        let weight = committee.weight(&name);
        proof {
            assert(validator_clients@.take(k as int + 1) =~= validator_clients@.take(
                k as int,
            ).push(validator_clients@[k as int]));
        }
        if weight > 0 {
            let result = execute.execute(name, validator_clients[k].1.clone());
            let ghost a = (name, result);
            let ghost pre = tally.view_spec();
            let ghost arr0 = arrivals;
            let decision = tally.observe(committee, name, result);
            proof {
                lemma_eligible_push(
                    c,
                    validator_clients@.take(k as int),
                    arr0,
                    validator_clients@[k as int],
                    a,
                );
                arrivals = arr0.push(a);
                assert(eligible_arrivals(c, validator_clients@.take(k as int + 1), arrivals));
            }
            match decision {
                Some(Ok(values)) => {
                    proof {
                        assert(arrivals =~= arr0.add(seq![a]));
                        lemma_outcome_unfold(c, pre, a, Seq::empty());
                        assert(seq![a].add(Seq::empty()) =~= seq![a]);
                    }
                    return Ok(values);
                },
                Some(Err(e)) => {
                    proof {
                        assert(arrivals =~= arr0.add(seq![a]));
                        lemma_outcome_unfold(c, pre, a, Seq::empty());
                        assert(seq![a].add(Seq::empty()) =~= seq![a]);
                    }
                    return Err(Some(e));
                },
                None => {
                    proof {
                        assert forall|rest: Seq<(ValidatorName, Result<V, Error>)>|
                            outcome_from(c, empty_tally::<V>(), #[trigger] arrivals.add(rest))
                                == outcome_from(c, tally.view_spec(), rest) by {
                            assert(arrivals.add(rest) =~= arr0.add(seq![a].add(rest)));
                            lemma_outcome_unfold(c, pre, a, rest);
                        }
                    }
                },
            }
        } else {
            proof {
                lemma_eligible_push(
                    c,
                    validator_clients@.take(k as int),
                    arrivals,
                    validator_clients@[k as int],
                    (name, Err(Error::ClientIoError)),
                );
            }
        }
        k += 1;
    }
    proof {
        assert(validator_clients@.take(n as int) =~= validator_clients@);
        assert(arrivals =~= arrivals.add(Seq::empty()));
        assert(outcome_from(c, tally.view_spec(), Seq::empty()) == Err::<
            Seq<V>,
            Option<Error>,
        >(None));
    }
    Err(None)
}

/// `find_group` returns the first matching index: if nothing matches before
/// `i`, it returns `i` when `i` matches and `-1` when the groups run out.
proof fn lemma_find_at<V: PartialEq>(groups: Seq<(int, Seq<V>)>, v: V, i: int)
    requires
        0 <= i <= groups.len(),
        forall|j: int| 0 <= j < i ==> !group_matches(#[trigger] groups[j], v),
        i < groups.len() ==> group_matches(groups[i], v),
    ensures
        i < groups.len() ==> find_group(groups, v) == i,
        i == groups.len() ==> find_group(groups, v) == -1,
    decreases i + 1,
{
    if groups.len() == 0 {
    } else if i == 0 {
    } else {
        assert(!group_matches(groups[0], v));
        lemma_find_at(groups.drop_first(), v, i - 1);
    }
}

/// `find_error` returns the first structurally equal index, as above.
proof fn lemma_find_error_at(errors: Seq<(Error, int)>, e: Error, i: int)
    requires
        0 <= i <= errors.len(),
        forall|j: int| 0 <= j < i ==> !error_eq(&(#[trigger] errors[j]).0, &e),
        i < errors.len() ==> error_eq(&errors[i as int].0, &e),
    ensures
        i < errors.len() ==> find_error(errors, e) == i,
        i == errors.len() ==> find_error(errors, e) == -1,
    decreases i + 1,
{
    if errors.len() == 0 {
    } else if i == 0 {
    } else {
        assert(!error_eq(&errors[0].0, &e));
        lemma_find_error_at(errors.drop_first(), e, i - 1);
    }
}

} // verus!
