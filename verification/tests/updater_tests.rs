//! The validator updater against scripted transports and stores.

use zef_core::BlockProposal;
use zef_core::Certificate;
use zef_core::ChainId;
use zef_core::ChainInfo;
use zef_core::ChainInfoQuery;
use zef_core::ChainInfoResponse;
use zef_core::ChainManager;
use zef_core::ChainState;
use zef_core::CommunicateAction;
use zef_core::Error;
use zef_core::Request;
use zef_core::SequenceNumber;
use zef_core::Storage;
use zef_core::SyncJob;
use zef_core::ValidatorName;
use zef_core::ValidatorNode;
use zef_core::ValidatorUpdater;
use zef_core::Value;
use zef_core::Vote;
use zef_core::WalkStep;
use zef_core::walk_step;

fn request(chain: &[u64], seq: u64) -> Request {
    Request { chain_id: ChainId(chain.to_vec()), sequence_number: SequenceNumber(seq) }
}

fn certificate(chain: &[u64], seq: u64) -> Certificate {
    Certificate { value: Value::Validated { request: request(chain, seq) } }
}

fn response(signer: u64, active: bool, next: u64, pending: Option<Vote>) -> ChainInfoResponse {
    ChainInfoResponse {
        info: ChainInfo {
            chain_id: ChainId(vec![0]),
            manager: if active {
                ChainManager::Active { pending }
            } else {
                ChainManager::Inactive
            },
            next_sequence_number: SequenceNumber(next),
        },
        signer: ValidatorName(signer),
    }
}

/// A transport that answers every submission with the inactive-chain error.
struct AlwaysInactive {
    chain: ChainId,
    cert_calls: usize,
    prop_calls: usize,
    waits: usize,
}

impl ValidatorNode for AlwaysInactive {
    fn handle_block_proposal(&mut self, _p: BlockProposal) -> Result<ChainInfoResponse, Error> {
        self.prop_calls += 1;
        Err(Error::InactiveChain(self.chain.clone()))
    }

    fn handle_certificate(&mut self, _c: Certificate) -> Result<ChainInfoResponse, Error> {
        self.cert_calls += 1;
        Err(Error::InactiveChain(self.chain.clone()))
    }

    fn handle_chain_info_query(&mut self, _q: ChainInfoQuery) -> Result<ChainInfoResponse, Error> {
        Err(Error::InactiveChain(self.chain.clone()))
    }

    fn wait(&mut self, _delay_ms: u64) {
        self.waits += 1;
    }
}

/// A transport that replays scripted answers per kind of call and records
/// what it was sent.
struct ScriptNode {
    query_responses: Vec<Result<ChainInfoResponse, Error>>,
    cert_responses: Vec<Result<ChainInfoResponse, Error>>,
    prop_responses: Vec<Result<ChainInfoResponse, Error>>,
    queried_chains: Vec<ChainId>,
    cert_seqs: Vec<u64>,
    prop_calls: usize,
    waits: usize,
}

impl ScriptNode {
    fn new() -> ScriptNode {
        ScriptNode {
            query_responses: Vec::new(),
            cert_responses: Vec::new(),
            prop_responses: Vec::new(),
            queried_chains: Vec::new(),
            cert_seqs: Vec::new(),
            prop_calls: 0,
            waits: 0,
        }
    }
}

impl ValidatorNode for ScriptNode {
    fn handle_block_proposal(&mut self, _p: BlockProposal) -> Result<ChainInfoResponse, Error> {
        self.prop_calls += 1;
        if self.prop_responses.is_empty() {
            panic!("unexpected block proposal");
        }
        self.prop_responses.remove(0)
    }

    fn handle_certificate(&mut self, c: Certificate) -> Result<ChainInfoResponse, Error> {
        let seq = match &c.value {
            Value::Validated { request } | Value::Confirmed { request } => {
                request.sequence_number.0
            }
        };
        self.cert_seqs.push(seq);
        if self.cert_responses.is_empty() {
            panic!("unexpected certificate");
        }
        self.cert_responses.remove(0)
    }

    fn handle_chain_info_query(&mut self, q: ChainInfoQuery) -> Result<ChainInfoResponse, Error> {
        self.queried_chains.push(q.chain_id);
        if self.query_responses.is_empty() {
            panic!("unexpected chain info query");
        }
        self.query_responses.remove(0)
    }

    fn wait(&mut self, _delay_ms: u64) {
        self.waits += 1;
    }
}

/// A store holding scripted chain states; certificate keys double as the
/// certificate's sequence number so submissions can be told apart.
struct MapStore {
    chains: Vec<(ChainId, ChainState)>,
}

impl Storage for MapStore {
    fn read_chain_or_default(&mut self, chain_id: &ChainId) -> Result<ChainState, Error> {
        for (id, state) in &self.chains {
            if id == chain_id {
                return Ok(ChainState {
                    confirmed_log: state.confirmed_log.clone(),
                    received_index: state
                        .received_index
                        .iter()
                        .map(|(c, s)| (c.clone(), *s))
                        .collect(),
                });
            }
        }
        Ok(ChainState { confirmed_log: Vec::new(), received_index: Vec::new() })
    }

    fn read_certificate(&mut self, key: u64) -> Result<Certificate, Error> {
        Ok(Certificate {
            value: Value::Confirmed { request: request(&[0], key) },
        })
    }
}

fn empty_store() -> MapStore {
    MapStore { chains: Vec::new() }
}

#[test]
fn certificate_retry_bound_when_retryable() {
    // An always-inactive validator and three retries: exactly four attempts,
    // one pause before each retry, then the inactive-chain failure.
    let chain = ChainId(vec![1]);
    let mut updater = ValidatorUpdater {
        name: ValidatorName(1),
        client: AlwaysInactive { chain: chain.clone(), cert_calls: 0, prop_calls: 0, waits: 0 },
        store: empty_store(),
        delay: 5,
        retries: 3,
    };
    let result = updater.send_certificate(certificate(&[1], 0), true);
    assert_eq!(result, Err(Error::InactiveChain(chain)));
    assert_eq!(updater.client.cert_calls, 4);
    assert_eq!(updater.client.waits, 3);
}

#[test]
fn certificate_no_retry_when_not_retryable() {
    let chain = ChainId(vec![1]);
    let mut updater = ValidatorUpdater {
        name: ValidatorName(1),
        client: AlwaysInactive { chain: chain.clone(), cert_calls: 0, prop_calls: 0, waits: 0 },
        store: empty_store(),
        delay: 5,
        retries: 3,
    };
    let result = updater.send_certificate(certificate(&[1], 0), false);
    assert_eq!(result, Err(Error::InactiveChain(chain)));
    assert_eq!(updater.client.cert_calls, 1);
    assert_eq!(updater.client.waits, 0);
}

#[test]
fn proposal_retry_bound_is_unconditional() {
    // Proposals carry no retryable flag: the same always-inactive validator
    // still sees all four attempts.
    let chain = ChainId(vec![1]);
    let mut updater = ValidatorUpdater {
        name: ValidatorName(1),
        client: AlwaysInactive { chain: chain.clone(), cert_calls: 0, prop_calls: 0, waits: 0 },
        store: empty_store(),
        delay: 5,
        retries: 3,
    };
    let result = updater.send_block_proposal(BlockProposal { request: request(&[1], 0) });
    assert_eq!(result, Err(Error::InactiveChain(chain)));
    assert_eq!(updater.client.prop_calls, 4);
    assert_eq!(updater.client.waits, 3);
}

#[test]
fn other_errors_are_terminal_for_a_certificate() {
    let mut node = ScriptNode::new();
    node.cert_responses = vec![Err(Error::ClientIoError)];
    let mut updater = ValidatorUpdater {
        name: ValidatorName(1),
        client: node,
        store: empty_store(),
        delay: 5,
        retries: 3,
    };
    let result = updater.send_certificate(certificate(&[1], 0), true);
    assert_eq!(result, Err(Error::ClientIoError));
    assert_eq!(updater.client.cert_seqs.len(), 1);
    assert_eq!(updater.client.waits, 0);
}

#[test]
fn response_signed_by_another_validator_is_rejected() {
    let mut node = ScriptNode::new();
    node.cert_responses = vec![Ok(response(2, true, 0, None))];
    let mut updater = ValidatorUpdater {
        name: ValidatorName(1),
        client: node,
        store: empty_store(),
        delay: 5,
        retries: 3,
    };
    let result = updater.send_certificate(certificate(&[1], 0), true);
    assert_eq!(result, Err(Error::UnexpectedSigner));
}

#[test]
fn lineage_walk_replays_ancestors_first() {
    // Lineage root → A → B with B and A inactive and the root active and
    // advanced: the walk records three jobs, replays nothing for the root,
    // then A's certificates and B's, each in increasing sequence order.
    let root = ChainId(vec![1]);
    let a = ChainId(vec![1, 2]);
    let b = ChainId(vec![1, 2, 3]);
    let mut node = ScriptNode::new();
    node.query_responses = vec![
        Ok(response(1, false, 0, None)),  // B: inactive
        Ok(response(1, false, 0, None)),  // A: inactive
        Ok(response(1, true, 10, None)),  // root: active, already past A's index
    ];
    // A replays [0, 3+1) = four certificates, B replays [0, 2).
    node.cert_responses = (0..6).map(|_| Ok(response(1, true, 0, None))).collect();
    let store = MapStore {
        chains: vec![
            (
                a.clone(),
                ChainState { confirmed_log: vec![100, 101, 102, 103], received_index: Vec::new() },
            ),
            (
                b.clone(),
                ChainState { confirmed_log: vec![200, 201], received_index: Vec::new() },
            ),
        ],
    };
    let mut updater = ValidatorUpdater {
        name: ValidatorName(1),
        client: node,
        store,
        delay: 5,
        retries: 0,
    };
    let (result, _) = updater.send_chain_information(b.clone(), SequenceNumber(2));
    assert_eq!(result, Ok(()));
    assert_eq!(updater.client.queried_chains, vec![b, a, root]);
    assert_eq!(updater.client.cert_seqs, vec![100, 101, 102, 103, 200, 201]);
}

#[test]
fn unknown_root_chain_fails_as_inactive() {
    let root = ChainId(vec![5]);
    let mut node = ScriptNode::new();
    node.query_responses = vec![Ok(response(1, false, 0, None))];
    let mut updater = ValidatorUpdater {
        name: ValidatorName(1),
        client: node,
        store: empty_store(),
        delay: 5,
        retries: 0,
    };
    let (result, _) = updater.send_chain_information(root.clone(), SequenceNumber(3));
    assert_eq!(result, Err(Error::InactiveChain(root)));
    assert_eq!(updater.client.cert_seqs.len(), 0);
}

#[test]
fn missing_certificate_in_local_log_is_fatal() {
    // The validator knows nothing past sequence zero and the local log is
    // one certificate short of the target: a local invariant violation.
    let chain = ChainId(vec![1]);
    let mut node = ScriptNode::new();
    node.query_responses = vec![Ok(response(1, true, 0, None))];
    node.cert_responses = vec![Ok(response(1, true, 0, None))];
    let store = MapStore {
        chains: vec![(
            chain.clone(),
            ChainState { confirmed_log: vec![300], received_index: Vec::new() },
        )],
    };
    let mut updater = ValidatorUpdater {
        name: ValidatorName(1),
        client: node,
        store,
        delay: 5,
        retries: 0,
    };
    let (result, _) = updater.send_chain_information(chain, SequenceNumber(2));
    assert_eq!(result, Err(Error::MissingCertificate));
    assert_eq!(updater.client.cert_seqs, vec![300]);
}

#[test]
fn chain_update_returns_the_authenticated_vote() {
    let chain = ChainId(vec![1]);
    let vote = Vote {
        validator: ValidatorName(1),
        value: Value::Validated { request: request(&[1], 4) },
    };
    let mut node = ScriptNode::new();
    node.query_responses = vec![Ok(response(1, true, 4, None))];
    node.prop_responses = vec![Ok(response(1, true, 4, Some(vote.clone())))];
    let mut updater = ValidatorUpdater {
        name: ValidatorName(1),
        client: node,
        store: empty_store(),
        delay: 5,
        retries: 0,
    };
    let action =
        CommunicateAction::SubmitRequestForConfirmation(BlockProposal { request: request(&[1], 4) });
    let result = updater.send_chain_update(chain, action);
    assert_eq!(result, Ok(Some(vote)));
    assert_eq!(updater.client.prop_calls, 1);
}

#[test]
fn vote_signed_by_another_validator_is_rejected() {
    let chain = ChainId(vec![1]);
    let foreign_vote = Vote {
        validator: ValidatorName(2),
        value: Value::Validated { request: request(&[1], 0) },
    };
    let mut node = ScriptNode::new();
    node.query_responses = vec![Ok(response(1, true, 0, None))];
    node.cert_responses = vec![Ok(response(1, true, 0, Some(foreign_vote)))];
    let mut updater = ValidatorUpdater {
        name: ValidatorName(1),
        client: node,
        store: empty_store(),
        delay: 5,
        retries: 0,
    };
    let action = CommunicateAction::FinalizeRequest(certificate(&[1], 0));
    let result = updater.send_chain_update(chain, action);
    assert_eq!(result, Err(Error::UnexpectedSigner));
}

#[test]
fn accepted_submission_without_vote_is_a_protocol_violation() {
    let chain = ChainId(vec![1]);
    let mut node = ScriptNode::new();
    node.query_responses = vec![Ok(response(1, true, 7, None))];
    node.prop_responses = vec![Ok(response(1, true, 7, None))];
    let mut updater = ValidatorUpdater {
        name: ValidatorName(1),
        client: node,
        store: empty_store(),
        delay: 5,
        retries: 0,
    };
    let action =
        CommunicateAction::SubmitRequestForValidation(BlockProposal { request: request(&[1], 7) });
    let result = updater.send_chain_update(chain, action);
    assert_eq!(result, Err(Error::ClientErrorWhileProcessingBlockProposal));
}

#[test]
fn retriable_validation_error_triggers_one_receiver_sync_and_one_retry() {
    // The first proposal answer reports insufficient funding; after one
    // receiver-side synchronization the proposal is retried exactly once
    // and its vote returned.
    let chain = ChainId(vec![1]);
    let vote = Vote {
        validator: ValidatorName(1),
        value: Value::Validated { request: request(&[1], 2) },
    };
    let mut node = ScriptNode::new();
    node.query_responses = vec![Ok(response(1, true, 2, None))];
    node.prop_responses = vec![
        Err(Error::InsufficientFunding),
        Ok(response(1, true, 2, Some(vote.clone()))),
    ];
    let mut updater = ValidatorUpdater {
        name: ValidatorName(1),
        client: node,
        store: empty_store(),
        delay: 5,
        retries: 0,
    };
    let action =
        CommunicateAction::SubmitRequestForConfirmation(BlockProposal { request: request(&[1], 2) });
    let result = updater.send_chain_update(chain, action);
    assert_eq!(result, Ok(Some(vote)));
    assert_eq!(updater.client.prop_calls, 2);
}

#[test]
fn advance_action_returns_no_vote() {
    let chain = ChainId(vec![1]);
    let mut node = ScriptNode::new();
    node.query_responses = vec![Ok(response(1, true, 9, None))];
    let mut updater = ValidatorUpdater {
        name: ValidatorName(1),
        client: node,
        store: empty_store(),
        delay: 5,
        retries: 0,
    };
    let action = CommunicateAction::AdvanceToNextSequenceNumber(SequenceNumber(9));
    let result = updater.send_chain_update(chain, action);
    assert_eq!(result, Ok(None));
    assert_eq!(updater.client.prop_calls, 0);
    assert_eq!(updater.client.cert_seqs.len(), 0);
}

#[test]
fn receiver_side_sync_walks_every_sender() {
    // The chain received from two senders; each sender is brought one past
    // the recorded sequence number: both are queried and found active and
    // up to date, so nothing is replayed.
    let chain = ChainId(vec![1]);
    let s1 = ChainId(vec![7]);
    let s2 = ChainId(vec![9]);
    let mut node = ScriptNode::new();
    node.query_responses = vec![
        Ok(response(1, true, 10, None)),
        Ok(response(1, true, 10, None)),
    ];
    let store = MapStore {
        chains: vec![(
            chain.clone(),
            ChainState {
                confirmed_log: Vec::new(),
                received_index: vec![
                    (s1.clone(), SequenceNumber(3)),
                    (s2.clone(), SequenceNumber(5)),
                ],
            },
        )],
    };
    let mut updater = ValidatorUpdater {
        name: ValidatorName(1),
        client: node,
        store,
        delay: 5,
        retries: 0,
    };
    let result = updater.send_chain_information_as_a_receiver(chain);
    assert_eq!(result, Ok(()));
    assert_eq!(updater.client.queried_chains, vec![s1, s2]);
}

#[test]
fn child_index_at_the_largest_value_overflows_the_walk() {
    // The parent must be advanced one past the child's index; at the
    // largest representable index that step has nowhere to go.
    let b = ChainId(vec![1, u64::MAX]);
    let mut node = ScriptNode::new();
    node.query_responses = vec![Ok(response(1, false, 0, None))];
    let mut updater = ValidatorUpdater {
        name: ValidatorName(1),
        client: node,
        store: empty_store(),
        delay: 5,
        retries: 0,
    };
    let (result, _) = updater.send_chain_information(b, SequenceNumber(1));
    assert_eq!(result, Err(Error::SequenceOverflow));
}


#[test]
fn walk_step_decides_each_case() {
    let active = ChainInfo {
        chain_id: ChainId(vec![0]),
        manager: ChainManager::Active { pending: None },
        next_sequence_number: SequenceNumber(7),
    };
    let inactive = ChainInfo {
        chain_id: ChainId(vec![0]),
        manager: ChainManager::Inactive,
        next_sequence_number: SequenceNumber(0),
    };
    match walk_step(ChainId(vec![1, 2]), SequenceNumber(9), &active) {
        WalkStep::Finish(SyncJob { chain_id, initial, target, retryable }) => {
            assert_eq!(chain_id, ChainId(vec![1, 2]));
            assert_eq!(initial, SequenceNumber(7));
            assert_eq!(target, SequenceNumber(9));
            assert!(!retryable);
        },
        _ => panic!("an active chain ends the walk"),
    }
    match walk_step(ChainId(vec![1, 2]), SequenceNumber(9), &inactive) {
        WalkStep::Descend(SyncJob { chain_id, initial, target, retryable }, parent, next) => {
            assert_eq!(chain_id, ChainId(vec![1, 2]));
            assert_eq!(initial, SequenceNumber(0));
            assert_eq!(target, SequenceNumber(9));
            assert!(retryable);
            assert_eq!(parent, ChainId(vec![1]));
            assert_eq!(next, SequenceNumber(3));
        },
        _ => panic!("an inactive child descends"),
    }
    match walk_step(ChainId(vec![5]), SequenceNumber(9), &inactive) {
        WalkStep::Fail(Error::InactiveChain(c)) => assert_eq!(c, ChainId(vec![5])),
        _ => panic!("an inactive root is unresolvable"),
    }
    match walk_step(ChainId(vec![1, u64::MAX]), SequenceNumber(9), &inactive) {
        WalkStep::Fail(Error::SequenceOverflow) => {},
        _ => panic!("the largest child index cannot be advanced past"),
    }
}

#[test]
fn the_updater_query_asks_for_nothing_optional() {
    let q = ChainInfoQuery::for_chain(ChainId(vec![3, 4]));
    assert_eq!(q.chain_id, ChainId(vec![3, 4]));
    assert!(q.check_next_sequence_number.is_none());
    assert!(!q.query_committee);
    assert!(q.query_sent_certificates_in_range.is_none());
    assert!(q.query_received_certificates_excluding_first_nth.is_none());
}

#[test]
fn confirmed_key_reads_the_log_or_reports_the_gap() {
    let chain = ChainState { confirmed_log: vec![10, 11, 12], received_index: Vec::new() };
    assert_eq!(chain.confirmed_key(0), Ok(10));
    assert_eq!(chain.confirmed_key(2), Ok(12));
    assert_eq!(chain.confirmed_key(3), Err(Error::MissingCertificate));
}

#[test]
fn sender_advances_step_each_sender_one_past_its_record() {
    let chain = ChainState {
        confirmed_log: Vec::new(),
        received_index: vec![
            (ChainId(vec![7]), SequenceNumber(3)),
            (ChainId(vec![9]), SequenceNumber(0)),
        ],
    };
    let advances = chain.sender_advances().expect("no record at the maximum");
    assert_eq!(
        advances,
        vec![
            (ChainId(vec![7]), SequenceNumber(4)),
            (ChainId(vec![9]), SequenceNumber(1)),
        ]
    );
    let stuck = ChainState {
        confirmed_log: Vec::new(),
        received_index: vec![(ChainId(vec![7]), SequenceNumber(u64::MAX))],
    };
    assert_eq!(stuck.sender_advances(), Err(Error::SequenceOverflow));
}
