//! The broadcast decision laws: a crossed threshold is stable under late
//! answers, and a decision is only ever reached on accumulated weight.

use vstd::prelude::*;

use crate::base::ValidatorName;
use crate::committee::Committee;
use crate::error::Error;
use crate::error::error_eq;
use crate::quorum::StepDecision;
use crate::quorum::TallyState;
use crate::quorum::add_error;
use crate::quorum::add_success;
use crate::quorum::empty_tally;
use crate::quorum::find_error;
use crate::quorum::find_group;
use crate::quorum::group_matches;
use crate::quorum::outcome_from;
use crate::quorum::tally_step;
use crate::messages::Vote;
use vstd::std_specs::cmp::PartialEqSpec;

verus! {

/// Once a fold of answers has decided — reached a quorum value or a dominant
/// error — any answers that straggle in afterwards leave the outcome exactly
/// as it was.
pub proof fn lemma_early_exit_stable<V: PartialEq>(
    c: Committee,
    st: TallyState<V>,
    arrivals: Seq<(ValidatorName, Result<V, Error>)>,
    extra: Seq<(ValidatorName, Result<V, Error>)>,
)
    ensures
        outcome_from(c, st, arrivals) != Err::<Seq<V>, Option<Error>>(None) ==> outcome_from(
            c,
            st,
            arrivals.add(extra),
        ) == outcome_from(c, st, arrivals),
    decreases arrivals.len(),
{
    if arrivals.len() == 0 {
    } else {
        let a = arrivals[0];
        assert(arrivals.add(extra)[0] == a);
        assert(arrivals.add(extra).drop_first() =~= arrivals.drop_first().add(extra));
        let (st2, d) = tally_step(c, st, a.0, a.1);
        match d {
            StepDecision::Pending => {
                lemma_early_exit_stable(c, st2, arrivals.drop_first(), extra);
            },
            StepDecision::Quorum(_) => {},
            StepDecision::Dominant(_) => {},
        }
    }
}

/// The weight the answers give one success value: the summed committee
/// weight of every arrival whose successful value equals it. A zero-weight
/// validator contributes nothing to any value.
pub open spec fn success_weight<V: PartialEq>(
    c: Committee,
    arrivals: Seq<(ValidatorName, Result<V, Error>)>,
    v: V,
) -> int
    decreases arrivals.len(),
{
    if arrivals.len() == 0 {
        0
    } else {
        let rest = success_weight(c, arrivals.drop_first(), v);
        match arrivals[0].1 {
            Ok(u) => if u.eq_spec(&v) {
                c.weight_spec(arrivals[0].0) + rest
            } else {
                rest
            },
            Err(_) => rest,
        }
    }
}

/// The weight the answers give one error value, under structural equality.
pub open spec fn error_weight<V>(
    c: Committee,
    arrivals: Seq<(ValidatorName, Result<V, Error>)>,
    e: Error,
) -> int
    decreases arrivals.len(),
{
    if arrivals.len() == 0 {
        0
    } else {
        let rest = error_weight(c, arrivals.drop_first(), e);
        match arrivals[0].1 {
            Ok(_) => rest,
            Err(d) => if error_eq(&d, &e) {
                c.weight_spec(arrivals[0].0) + rest
            } else {
                rest
            },
        }
    }
}

/// The weight a tally already holds for the group a value belongs to.
pub open spec fn group_weight_of<V: PartialEq>(st: TallyState<V>, v: V) -> int {
    let i = find_group(st.groups, v);
    if i >= 0 {
        st.groups[i].0
    } else {
        0
    }
}

/// The weight a tally already holds for an error's entry.
pub open spec fn error_weight_of<V>(st: TallyState<V>, e: Error) -> int {
    let i = find_error(st.errors, e);
    if i >= 0 {
        st.errors[i].1
    } else {
        0
    }
}

/// Success weight is a sum of nonnegative weights.
pub proof fn lemma_success_weight_nonneg<V: PartialEq>(
    c: Committee,
    arrivals: Seq<(ValidatorName, Result<V, Error>)>,
    v: V,
)
    ensures
        0 <= success_weight(c, arrivals, v),
    decreases arrivals.len(),
{
    if arrivals.len() > 0 {
        lemma_success_weight_nonneg(c, arrivals.drop_first(), v);
    }
}

/// Error weight is a sum of nonnegative weights.
pub proof fn lemma_error_weight_nonneg<V>(
    c: Committee,
    arrivals: Seq<(ValidatorName, Result<V, Error>)>,
    e: Error,
)
    ensures
        0 <= error_weight(c, arrivals, e),
    decreases arrivals.len(),
{
    if arrivals.len() > 0 {
        lemma_error_weight_nonneg(c, arrivals.drop_first(), e);
    }
}

/// A well-behaved structural equality on the success values: reflexive,
/// symmetric, transitive. Every `==` of this library is one.
pub open spec fn eq_is_equivalence<V: PartialEq>() -> bool {
    &&& forall|a: V| #[trigger] a.eq_spec(&a)
    &&& forall|a: V, b: V| #[trigger] a.eq_spec(&b) ==> b.eq_spec(&a)
    &&& forall|a: V, b: V, d: V|
        #[trigger] a.eq_spec(&b) && #[trigger] b.eq_spec(&d) ==> a.eq_spec(&d)
}

/// Appending a group leaves the index of every value that already had a
/// group, sends a value equal to the new representative to the new group,
/// and leaves every other value without one.
proof fn lemma_find_group_push<V: PartialEq>(groups: Seq<(int, Seq<V>)>, g: (int, Seq<V>), v: V)
    ensures
        find_group(groups, v) >= 0 ==> find_group(groups.push(g), v) == find_group(groups, v),
        find_group(groups, v) == -1 && group_matches(g, v) ==> find_group(groups.push(g), v)
            == groups.len(),
        find_group(groups, v) == -1 && !group_matches(g, v) ==> find_group(groups.push(g), v)
            == -1,
    decreases groups.len(),
{
    let pushed = groups.push(g);
    lemma_find_first_matches(groups, v);
    lemma_find_first_matches(pushed, v);
    if groups.len() == 0 {
        assert(pushed[0] == g);
        assert(pushed.drop_first() =~= Seq::<(int, Seq<V>)>::empty());
        assert(find_group(pushed.drop_first(), v) == -1);
        assert(find_group(groups, v) == -1);
    } else {
        assert(pushed[0] == groups[0]);
        assert(pushed.drop_first() =~= groups.drop_first().push(g));
        lemma_find_first_matches(groups.drop_first(), v);
        lemma_find_group_push(groups.drop_first(), g, v);
        assert(find_group(pushed.drop_first(), v) == find_group(groups.drop_first().push(g), v));
    }
}

/// Updating a group's weight and pushing a member onto it moves no value to
/// a different group, provided every group keeps its representative.
proof fn lemma_find_group_update<V: PartialEq>(
    groups: Seq<(int, Seq<V>)>,
    i: int,
    g: (int, Seq<V>),
    v: V,
)
    requires
        0 <= i < groups.len(),
        groups[i].1.len() >= 1,
        g.1.len() >= 1,
        g.1[0] == groups[i].1[0],
    ensures
        find_group(groups.update(i, g), v) == find_group(groups, v),
    decreases groups.len(),
{
    lemma_find_first_matches(groups, v);
    lemma_find_first_matches(groups.update(i, g), v);
    if i == 0 {
        assert(groups.update(i, g)[0] == g);
        assert(group_matches(g, v) == group_matches(groups[0], v));
        if !group_matches(groups[0], v) {
            assert(groups.update(i, g).drop_first() =~= groups.drop_first());
        }
    } else {
        assert(groups.update(i, g)[0] == groups[0]);
        if !group_matches(groups[0], v) {
            assert(groups.update(i, g).drop_first() =~= groups.drop_first().update(i - 1, g));
            lemma_find_group_update(groups.drop_first(), i - 1, g, v);
        }
    }
}

/// The error-entry analogues of the two lemmas above.
proof fn lemma_find_error_push<V>(errors: Seq<(Error, int)>, p: (Error, int), e: Error)
    ensures
        find_error(errors, e) >= 0 ==> find_error(errors.push(p), e) == find_error(errors, e),
        find_error(errors, e) == -1 && error_eq(&p.0, &e) ==> find_error(errors.push(p), e)
            == errors.len(),
        find_error(errors, e) == -1 && !error_eq(&p.0, &e) ==> find_error(errors.push(p), e)
            == -1,
    decreases errors.len(),
{
    let pushed = errors.push(p);
    lemma_find_error_first_matches(errors, e);
    lemma_find_error_first_matches(pushed, e);
    if errors.len() == 0 {
        assert(pushed[0] == p);
        assert(pushed.drop_first() =~= Seq::<(Error, int)>::empty());
        assert(find_error(pushed.drop_first(), e) == -1);
        assert(find_error(errors, e) == -1);
    } else {
        assert(pushed[0] == errors[0]);
        assert(pushed.drop_first() =~= errors.drop_first().push(p));
        lemma_find_error_first_matches(errors.drop_first(), e);
        lemma_find_error_push::<V>(errors.drop_first(), p, e);
        assert(find_error(pushed.drop_first(), e) == find_error(errors.drop_first().push(p), e));
    }
}

proof fn lemma_find_error_update<V>(errors: Seq<(Error, int)>, i: int, p: (Error, int), e: Error)
    requires
        0 <= i < errors.len(),
        error_eq(&p.0, &errors[i].0),
        error_eq(&errors[i].0, &p.0),
    ensures
        find_error(errors.update(i, p), e) == find_error(errors, e),
    decreases errors.len(),
{
    lemma_find_error_first_matches(errors, e);
    lemma_find_error_first_matches(errors.update(i, p), e);
    if i == 0 {
        assert(errors.update(i, p)[0] == p);
        assert(error_eq(&p.0, &e) == error_eq(&errors[0].0, &e));
        if !error_eq(&errors[0].0, &e) {
            assert(errors.update(i, p).drop_first() =~= errors.drop_first());
        }
    } else {
        assert(errors.update(i, p)[0] == errors[0]);
        if !error_eq(&errors[0].0, &e) {
            assert(errors.update(i, p).drop_first() =~= errors.drop_first().update(i - 1, p));
            lemma_find_error_update::<V>(errors.drop_first(), i - 1, p, e);
        }
    }
}

/// Structural equality of errors is an equivalence relation.
pub proof fn lemma_error_eq_equivalence()
    ensures
        forall|a: Error| #[trigger] error_eq(&a, &a),
        forall|a: Error, b: Error| #[trigger] error_eq(&a, &b) ==> error_eq(&b, &a),
        forall|a: Error, b: Error, d: Error|
            #[trigger] error_eq(&a, &b) && #[trigger] error_eq(&b, &d) ==> error_eq(&a, &d),
{
}

/// A fold can decide a success only on accumulated weight: whenever the
/// outcome is a quorum of values, some single value holds, between what the
/// starting tally already gave it and what the answers gave it, at least the
/// quorum threshold in weight. Dually, a dominant error is only returned
/// when some single error (structurally equal to the returned one) holds at
/// least the validity threshold. Zero-weight validators contribute nothing
/// to either sum.
pub proof fn lemma_decision_needs_weight<V: PartialEq>(
    c: Committee,
    st: TallyState<V>,
    arrivals: Seq<(ValidatorName, Result<V, Error>)>,
)
    requires
        eq_is_equivalence::<V>(),
        forall|i: int| 0 <= i < st.groups.len() ==> (#[trigger] st.groups[i]).1.len() >= 1,
    ensures
        outcome_from(c, st, arrivals) matches Ok(vs) ==> exists|v: V|
            group_weight_of(st, v) + success_weight(c, arrivals, v)
                >= c.quorum_threshold_spec(),
        outcome_from(c, st, arrivals) matches Err(Some(e)) ==> exists|d: Error|
            error_eq(&e, &d) && error_weight_of(st, d) + error_weight(c, arrivals, d)
                >= c.validity_threshold_spec(),
    decreases arrivals.len(),
{
    lemma_error_eq_equivalence();
    if arrivals.len() == 0 {
    } else {
        let a = arrivals[0];
        let rest = arrivals.drop_first();
        let w = c.weight_spec(a.0) as int;
        let (st2, d) = tally_step(c, st, a.0, a.1);
        if w == 0 {
            lemma_decision_needs_weight(c, st2, rest);
            assert forall|v: V|
                group_weight_of(st, v) + success_weight(c, rest, v) >= c.quorum_threshold_spec()
                    implies group_weight_of(st, v) + #[trigger] success_weight(c, arrivals, v)
                >= c.quorum_threshold_spec() by {}
            assert forall|dd: Error|
                error_weight_of(st, dd) + error_weight(c, rest, dd)
                    >= c.validity_threshold_spec() implies error_weight_of(st, dd)
                + #[trigger] error_weight(c, arrivals, dd) >= c.validity_threshold_spec() by {}
        } else {
            match a.1 {
                Ok(u) => {
                    let i = find_group(st.groups, u);
                    match d {
                        StepDecision::Quorum(_) => {
                            lemma_success_weight_nonneg(c, rest, u);
                            lemma_find_first_matches(st.groups, u);
                            assert(u.eq_spec(&u));
                            assert(success_weight(c, arrivals, u) == w + success_weight(
                                c,
                                rest,
                                u,
                            ));
                            if i >= 0 {
                                assert(group_weight_of(st, u) == st.groups[i].0);
                                assert(st2.groups[i].0 == st.groups[i].0 + w);
                            } else {
                                assert(group_weight_of(st, u) == 0);
                            }
                        },
                        StepDecision::Pending => {
                            lemma_step_preserves_nonempty(c, st, a.0, a.1);
                            lemma_decision_needs_weight(c, st2, rest);
                            match outcome_from(c, st2, rest) {
                                Ok(_) => {
                                    let v = choose|v: V|
                                        group_weight_of(st2, v) + success_weight(c, rest, v)
                                            >= c.quorum_threshold_spec();
                                    lemma_group_base_shift(c, st, u, w, v);
                                    assert(group_weight_of(st, v) + success_weight(c, arrivals, v)
                                        >= c.quorum_threshold_spec());
                                },
                                Err(Some(e)) => {
                                    let dd = choose|dd: Error|
                                        error_eq(&e, &dd) && error_weight_of(st2, dd)
                                            + error_weight(c, rest, dd)
                                            >= c.validity_threshold_spec();
                                    assert(st2.errors == st.errors);
                                    assert(error_weight_of(st, dd) + error_weight(c, arrivals, dd)
                                        >= c.validity_threshold_spec());
                                },
                                Err(None) => {},
                            }
                        },
                        StepDecision::Dominant(_) => {
                            assert(false);
                        },
                    }
                },
                Err(err) => {
                    let i = find_error(st.errors, err);
                    match d {
                        StepDecision::Dominant(e_ret) => {
                            lemma_error_weight_nonneg(c, rest, err);
                            lemma_find_error_first_matches(st.errors, err);
                            assert(error_eq(&err, &err));
                            assert(error_weight(c, arrivals, err) == w + error_weight(
                                c,
                                rest,
                                err,
                            ));
                            if i >= 0 {
                                assert(error_eq(&st.errors[i].0, &err));
                                assert(e_ret == st.errors[i].0);
                                assert(error_eq(&e_ret, &err));
                                assert(error_weight_of(st, err) == st.errors[i].1);
                            } else {
                                assert(e_ret == err);
                                assert(error_weight_of(st, err) == 0);
                            }
                        },
                        StepDecision::Pending => {
                            lemma_step_preserves_nonempty(c, st, a.0, a.1);
                            lemma_decision_needs_weight(c, st2, rest);
                            match outcome_from(c, st2, rest) {
                                Ok(_) => {
                                    let v = choose|v: V|
                                        group_weight_of(st2, v) + success_weight(c, rest, v)
                                            >= c.quorum_threshold_spec();
                                    assert(st2.groups == st.groups);
                                    assert(group_weight_of(st, v) + success_weight(c, arrivals, v)
                                        >= c.quorum_threshold_spec());
                                },
                                Err(Some(e)) => {
                                    let dd = choose|dd: Error|
                                        error_eq(&e, &dd) && error_weight_of(st2, dd)
                                            + error_weight(c, rest, dd)
                                            >= c.validity_threshold_spec();
                                    lemma_error_base_shift::<V>(c, st, err, w, dd);
                                    assert(error_weight_of(st, dd) + error_weight(c, arrivals, dd)
                                        >= c.validity_threshold_spec());
                                },
                                Err(None) => {},
                            }
                        },
                        StepDecision::Quorum(_) => {
                            assert(false);
                        },
                    }
                },
            }
        }
    }
}

/// One step never empties a group.
proof fn lemma_step_preserves_nonempty<V: PartialEq>(
    c: Committee,
    st: TallyState<V>,
    name: ValidatorName,
    result: Result<V, Error>,
)
    requires
        forall|i: int| 0 <= i < st.groups.len() ==> (#[trigger] st.groups[i]).1.len() >= 1,
    ensures
        forall|i: int|
            0 <= i < tally_step(c, st, name, result).0.groups.len() ==> (#[trigger] tally_step(
                c,
                st,
                name,
                result,
            ).0.groups[i]).1.len() >= 1,
{
    let st2 = tally_step(c, st, name, result).0;
    assert forall|i: int| 0 <= i < st2.groups.len() implies (#[trigger] st2.groups[i]).1.len()
        >= 1 by {
        let w = c.weight_spec(name) as int;
        if w != 0 {
            match result {
                Ok(u) => {
                    let j = find_group(st.groups, u);
                    if j >= 0 {
                        lemma_find_first_matches(st.groups, u);
                        assert(st2.groups == st.groups.update(
                            j,
                            (st.groups[j].0 + w, st.groups[j].1.push(u)),
                        ));
                    } else {
                        assert(st2.groups == st.groups.push((w, seq![u])));
                    }
                },
                Err(_) => {
                    assert(st2.groups == st.groups);
                },
            }
        }
    }
}

/// Folding one success of weight `w` raises the base weight of its own group
/// by exactly `w` and of no other group, so the base before the step plus
/// the step's own contribution covers the base after it.
proof fn lemma_group_base_shift<V: PartialEq>(c: Committee, st: TallyState<V>, u: V, w: int, v: V)
    requires
        eq_is_equivalence::<V>(),
        forall|i: int| 0 <= i < st.groups.len() ==> (#[trigger] st.groups[i]).1.len() >= 1,
        w >= 0,
    ensures
        group_weight_of(add_success(st, u, w), v) <= group_weight_of(st, v) + (if u.eq_spec(&v) {
            w
        } else {
            0int
        }),
{
    let i = find_group(st.groups, u);
    let st2 = add_success(st, u, w);
    lemma_find_first_matches(st.groups, u);
    lemma_find_first_matches(st.groups, v);
    if i >= 0 {
        let g = (st.groups[i].0 + w, st.groups[i].1.push(u));
        assert(g.1[0] == st.groups[i].1[0]);
        assert(st2.groups == st.groups.update(i, g));
        lemma_find_group_update(st.groups, i, g, v);
        let j = find_group(st.groups, v);
        assert(find_group(st2.groups, v) == j);
        if j == -1 {
            assert(group_weight_of(st2, v) == 0);
        } else if j != i {
            assert(st2.groups[j] == st.groups[j]);
            assert(group_weight_of(st2, v) == group_weight_of(st, v));
        } else {
            assert(st2.groups[i].0 == st.groups[i].0 + w);
            assert(st.groups[i].1[0].eq_spec(&u));
            assert(st.groups[i].1[0].eq_spec(&v));
            assert(u.eq_spec(&v));
            assert(group_weight_of(st2, v) == group_weight_of(st, v) + w);
        }
    } else {
        assert(st2.groups == st.groups.push((w, seq![u])));
        lemma_find_group_push(st.groups, (w, seq![u]), v);
        let j = find_group(st.groups, v);
        if j >= 0 {
            assert(find_group(st2.groups, v) == j);
            assert(st2.groups[j] == st.groups[j]);
        } else if group_matches((w, seq![u]), v) {
            assert(seq![u][0] == u);
            assert(u.eq_spec(&v));
            assert(find_group(st2.groups, v) == st.groups.len());
            assert(st2.groups[st.groups.len() as int] == (w, seq![u]));
            assert(group_weight_of(st2, v) == w);
        } else {
            assert(find_group(st2.groups, v) == -1);
            assert(group_weight_of(st2, v) == 0);
        }
    }
}

/// The error-entry analogue of the lemma above.
proof fn lemma_error_base_shift<V: PartialEq>(
    c: Committee,
    st: TallyState<V>,
    err: Error,
    w: int,
    e: Error,
)
    requires
        w >= 0,
    ensures
        error_weight_of(add_error::<V>(st, err, w), e) <= error_weight_of(st, e) + (if error_eq(
            &err,
            &e,
        ) {
            w
        } else {
            0int
        }),
{
    lemma_error_eq_equivalence();
    let i = find_error(st.errors, err);
    let st2 = add_error::<V>(st, err, w);
    lemma_find_error_first_matches(st.errors, err);
    lemma_find_error_first_matches(st.errors, e);
    if i >= 0 {
        let p = (st.errors[i].0, st.errors[i].1 + w);
        assert(st2.errors == st.errors.update(i, p));
        assert(error_eq(&p.0, &st.errors[i].0));
        lemma_find_error_update::<V>(st.errors, i, p, e);
        let j = find_error(st.errors, e);
        assert(find_error(st2.errors, e) == j);
        if j == -1 {
            assert(error_weight_of(st2, e) == 0);
        } else if j != i {
            assert(st2.errors[j] == st.errors[j]);
            assert(error_weight_of(st2, e) == error_weight_of(st, e));
        } else {
            assert(st2.errors[i].1 == st.errors[i].1 + w);
            assert(error_eq(&st.errors[i].0, &err));
            assert(error_eq(&st.errors[i].0, &e));
            assert(error_eq(&err, &e));
            assert(error_weight_of(st2, e) == error_weight_of(st, e) + w);
        }
    } else {
        assert(st2.errors == st.errors.push((err, w)));
        lemma_find_error_push::<V>(st.errors, (err, w), e);
        let j = find_error(st.errors, e);
        if j >= 0 {
            assert(find_error(st2.errors, e) == j);
            assert(st2.errors[j] == st.errors[j]);
        } else if error_eq(&err, &e) {
            assert(find_error(st2.errors, e) == st.errors.len());
            assert(st2.errors[st.errors.len() as int] == (err, w));
            assert(error_weight_of(st2, e) == w);
        } else {
            assert(find_error(st2.errors, e) == -1);
            assert(error_weight_of(st2, e) == 0);
        }
    }
}

/// A found group is in range and matches the value it was found for.
proof fn lemma_find_first_matches<V: PartialEq>(groups: Seq<(int, Seq<V>)>, v: V)
    ensures
        find_group(groups, v) >= -1,
        find_group(groups, v) >= 0 ==> {
            &&& find_group(groups, v) < groups.len()
            &&& group_matches(groups[find_group(groups, v)], v)
        },
    decreases groups.len(),
{
    if groups.len() > 0 && !group_matches(groups[0], v) {
        lemma_find_first_matches(groups.drop_first(), v);
    }
}

/// A found error entry is in range and structurally equal to the error it
/// was found for.
proof fn lemma_find_error_first_matches(errors: Seq<(Error, int)>, e: Error)
    ensures
        find_error(errors, e) >= -1,
        find_error(errors, e) >= 0 ==> {
            &&& find_error(errors, e) < errors.len()
            &&& error_eq(&errors[find_error(errors, e)].0, &e)
        },
    decreases errors.len(),
{
    if errors.len() > 0 && !error_eq(&errors[0].0, &e) {
        lemma_find_error_first_matches(errors.drop_first(), e);
    }
}

/// The structural equality of votes is such an equivalence, so the decision
/// laws apply to the broadcasts that collect votes.
pub proof fn lemma_vote_eq_equivalence()
    ensures
        eq_is_equivalence::<Vote>(),
{
    assert forall|a: Vote| #[trigger] a.eq_spec(&a) by {}
    assert forall|a: Vote, b: Vote| #[trigger] a.eq_spec(&b) implies b.eq_spec(&a) by {}
    assert forall|a: Vote, b: Vote, d: Vote|
        #[trigger] a.eq_spec(&b) && #[trigger] b.eq_spec(&d) implies a.eq_spec(&d) by {}
}

/// The two decision laws at the start of a broadcast, over an empty tally:
/// a success is returned only when one value's answers weigh at least the
/// quorum threshold, an error only when one error's answers weigh at least
/// the validity threshold.
pub proof fn lemma_quorum_threshold_crossing<V: PartialEq>(
    c: Committee,
    arrivals: Seq<(ValidatorName, Result<V, Error>)>,
)
    requires
        eq_is_equivalence::<V>(),
    ensures
        outcome_from(c, empty_tally::<V>(), arrivals) matches Ok(vs) ==> exists|v: V|
            success_weight(c, arrivals, v) >= c.quorum_threshold_spec(),
        outcome_from(c, empty_tally::<V>(), arrivals) matches Err(Some(e)) ==> exists|d: Error|
            error_eq(&e, &d) && error_weight(c, arrivals, d) >= c.validity_threshold_spec(),
{
    let st = empty_tally::<V>();
    lemma_decision_needs_weight(c, st, arrivals);
    match outcome_from(c, st, arrivals) {
        Ok(_) => {
            let v = choose|v: V|
                group_weight_of(st, v) + success_weight(c, arrivals, v)
                    >= c.quorum_threshold_spec();
            assert(group_weight_of(st, v) == 0);
            assert(success_weight(c, arrivals, v) >= c.quorum_threshold_spec());
        },
        Err(Some(e)) => {
            let dd = choose|dd: Error|
                error_eq(&e, &dd) && error_weight_of(st, dd) + error_weight(c, arrivals, dd)
                    >= c.validity_threshold_spec();
            assert(error_weight_of(st, dd) == 0);
        },
        Err(None) => {},
    }
}

} // verus!
