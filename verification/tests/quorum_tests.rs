//! The quorum broadcaster against scripted validators.

use zef_core::ChainId;
use zef_core::Committee;
use zef_core::Error;
use zef_core::QuorumAction;
use zef_core::QuorumTally;
use zef_core::Request;
use zef_core::SequenceNumber;
use zef_core::ValidatorName;
use zef_core::Value;
use zef_core::Vote;
use zef_core::communicate_with_quorum;

struct Scripted<V> {
    responses: Vec<(ValidatorName, Result<V, Error>)>,
    calls: Vec<ValidatorName>,
}

impl<V: Clone> QuorumAction<(), V> for Scripted<V> {
    fn execute(&mut self, name: ValidatorName, _client: ()) -> Result<V, Error> {
        self.calls.push(name);
        for (n, r) in &self.responses {
            if *n == name {
                return r.clone();
            }
        }
        Err(Error::ClientIoError)
    }
}

fn equal_weight_committee(names: &[u64], weight: u64) -> Committee {
    let voting_rights: Vec<(ValidatorName, u64)> =
        names.iter().map(|n| (ValidatorName(*n), weight)).collect();
    let total_votes = weight * names.len() as u64;
    Committee { voting_rights, total_votes }
}

fn sample_vote(signer: u64) -> Vote {
    Vote {
        validator: ValidatorName(signer),
        value: Value::Confirmed {
            request: Request {
                chain_id: ChainId(vec![1]),
                sequence_number: SequenceNumber(5),
            },
        },
    }
}

#[test]
fn thresholds_of_four_equal_validators() {
    let committee = equal_weight_committee(&[1, 2, 3, 4], 1);
    assert_eq!(committee.quorum_threshold(), 3);
    assert_eq!(committee.validity_threshold(), 2);
    assert_eq!(committee.weight(&ValidatorName(2)), 1);
    assert_eq!(committee.weight(&ValidatorName(9)), 0);
}

#[test]
fn thresholds_of_other_totals() {
    let committee = equal_weight_committee(&[1], 1);
    assert_eq!(committee.quorum_threshold(), 1);
    assert_eq!(committee.validity_threshold(), 1);
    let committee = equal_weight_committee(&[1, 2, 3, 4, 5], 2);
    assert_eq!(committee.quorum_threshold(), 7);
    assert_eq!(committee.validity_threshold(), 4);
}

#[test]
fn simple_confirmation_scenario() {
    // Four equal validators; three matching votes reach the quorum
    // threshold of three, and the fourth — which would answer with an
    // unrelated error — is never consulted.
    let committee = equal_weight_committee(&[1, 2, 3, 4], 1);
    let clients: Vec<(ValidatorName, ())> =
        (1..=4).map(|n| (ValidatorName(n), ())).collect();
    let vote = sample_vote(7);
    let mut action = Scripted {
        responses: vec![
            (ValidatorName(1), Ok(vote.clone())),
            (ValidatorName(2), Ok(vote.clone())),
            (ValidatorName(3), Ok(vote.clone())),
            (ValidatorName(4), Err(Error::ClientIoError)),
        ],
        calls: Vec::new(),
    };
    let result = communicate_with_quorum(&clients, &committee, &mut action);
    let votes = result.expect("three matching votes are a quorum");
    assert_eq!(votes.len(), 3);
    assert!(votes.iter().all(|v| *v == vote));
    assert_eq!(
        action.calls,
        vec![ValidatorName(1), ValidatorName(2), ValidatorName(3)]
    );
}

#[test]
fn no_quorum_dominant_error_scenario() {
    // Two inactive-chain answers reach the validity threshold of two: the
    // broadcast stops with that specific error before asking the rest.
    let committee = equal_weight_committee(&[1, 2, 3, 4], 1);
    let clients: Vec<(ValidatorName, ())> =
        (1..=4).map(|n| (ValidatorName(n), ())).collect();
    let chain = ChainId(vec![8, 3]);
    let mut action: Scripted<Vote> = Scripted {
        responses: vec![
            (ValidatorName(1), Err(Error::InactiveChain(chain.clone()))),
            (ValidatorName(2), Err(Error::InactiveChain(chain.clone()))),
            (ValidatorName(3), Ok(sample_vote(7))),
            (ValidatorName(4), Ok(sample_vote(7))),
        ],
        calls: Vec::new(),
    };
    let result = communicate_with_quorum(&clients, &committee, &mut action);
    match result {
        Err(Some(Error::InactiveChain(c))) => assert_eq!(c, chain),
        other => panic!("expected the dominant inactive-chain error, got {:?}", other),
    }
    assert_eq!(action.calls.len(), 2);
}

#[test]
fn distinct_values_do_not_pool_weight() {
    // Three distinct success values, weight one each: no single value
    // reaches the quorum threshold, no error reaches validity.
    let committee = equal_weight_committee(&[1, 2, 3, 4], 1);
    let clients: Vec<(ValidatorName, ())> =
        (1..=4).map(|n| (ValidatorName(n), ())).collect();
    let mut action: Scripted<u64> = Scripted {
        responses: vec![
            (ValidatorName(1), Ok(10)),
            (ValidatorName(2), Ok(20)),
            (ValidatorName(3), Ok(30)),
            (ValidatorName(4), Err(Error::ClientIoError)),
        ],
        calls: Vec::new(),
    };
    let result = communicate_with_quorum(&clients, &committee, &mut action);
    assert_eq!(result, Err(None));
    assert_eq!(action.calls.len(), 4);
}

#[test]
fn zero_weight_validator_is_never_called_and_never_counted() {
    // Validator one has weight zero: it is skipped entirely, and the quorum
    // of five is reached by the three weight-two validators alone.
    let committee = Committee {
        voting_rights: vec![
            (ValidatorName(1), 0),
            (ValidatorName(2), 2),
            (ValidatorName(3), 2),
            (ValidatorName(4), 2),
        ],
        total_votes: 6,
    };
    assert_eq!(committee.quorum_threshold(), 5);
    let clients: Vec<(ValidatorName, ())> =
        (1..=4).map(|n| (ValidatorName(n), ())).collect();
    let mut action: Scripted<u64> = Scripted {
        responses: vec![
            (ValidatorName(1), Ok(42)),
            (ValidatorName(2), Ok(42)),
            (ValidatorName(3), Ok(42)),
            (ValidatorName(4), Ok(42)),
        ],
        calls: Vec::new(),
    };
    let result = communicate_with_quorum(&clients, &committee, &mut action);
    assert_eq!(result, Ok(vec![42, 42, 42]));
    assert_eq!(
        action.calls,
        vec![ValidatorName(2), ValidatorName(3), ValidatorName(4)]
    );
}

#[test]
fn tally_decides_exactly_at_the_threshold() {
    // The incremental tally stays undecided below the quorum threshold and
    // decides the instant one value's weight reaches it.
    let committee = equal_weight_committee(&[1, 2, 3, 4], 1);
    let mut tally: QuorumTally<u64> = QuorumTally::new();
    assert!(tally.observe(&committee, ValidatorName(1), Ok(42)).is_none());
    assert!(tally.observe(&committee, ValidatorName(2), Ok(7)).is_none());
    assert!(tally.observe(&committee, ValidatorName(3), Ok(42)).is_none());
    match tally.observe(&committee, ValidatorName(4), Ok(42)) {
        Some(Ok(values)) => assert_eq!(values, vec![42, 42, 42]),
        other => panic!("expected a quorum decision, got {:?}", other),
    }
}

#[test]
fn tally_decides_on_dominant_error_at_validity_threshold() {
    let committee = equal_weight_committee(&[1, 2, 3, 4], 1);
    let chain = ChainId(vec![4]);
    let mut tally: QuorumTally<u64> = QuorumTally::new();
    assert!(tally
        .observe(&committee, ValidatorName(1), Err(Error::InactiveChain(chain.clone())))
        .is_none());
    assert!(tally
        .observe(&committee, ValidatorName(2), Err(Error::ClientIoError))
        .is_none());
    match tally.observe(&committee, ValidatorName(3), Err(Error::InactiveChain(chain.clone()))) {
        Some(Err(Error::InactiveChain(c))) => assert_eq!(c, chain),
        other => panic!("expected the dominant error, got {:?}", other),
    }
}

#[test]
fn late_answers_do_not_change_a_decision() {
    // Once the broadcast has decided, the remaining validators' answers are
    // never requested: the decision stands whatever the stragglers would
    // have said.
    let committee = equal_weight_committee(&[1, 2, 3, 4, 5, 6], 1);
    assert_eq!(committee.quorum_threshold(), 5);
    let clients: Vec<(ValidatorName, ())> =
        (1..=6).map(|n| (ValidatorName(n), ())).collect();
    let mut action: Scripted<u64> = Scripted {
        responses: (1..=6).map(|n| (ValidatorName(n), Ok(1u64))).collect(),
        calls: Vec::new(),
    };
    let result = communicate_with_quorum(&clients, &committee, &mut action);
    assert_eq!(result, Ok(vec![1, 1, 1, 1, 1]));
    assert_eq!(action.calls.len(), 5);
}

#[test]
fn well_formedness_checks_names_totals_and_bounds() {
    let good = equal_weight_committee(&[1, 2, 3, 4], 1);
    assert!(good.is_well_formed());
    let duplicate = Committee {
        voting_rights: vec![(ValidatorName(1), 1), (ValidatorName(1), 1)],
        total_votes: 2,
    };
    assert!(!duplicate.is_well_formed());
    let wrong_total = Committee {
        voting_rights: vec![(ValidatorName(1), 1), (ValidatorName(2), 1)],
        total_votes: 3,
    };
    assert!(!wrong_total.is_well_formed());
    let empty = Committee { voting_rights: Vec::new(), total_votes: 0 };
    assert!(!empty.is_well_formed());
    let too_heavy = Committee {
        voting_rights: vec![(ValidatorName(1), u64::MAX)],
        total_votes: u64::MAX,
    };
    assert!(!too_heavy.is_well_formed());
}
