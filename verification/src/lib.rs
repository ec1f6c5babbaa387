//! Client-side quorum communication for a chain-based validator network.
//!
//! The library has two halves. `communicate_with_quorum` broadcasts one
//! action to every validator of a weighted committee and stops as soon as a
//! quorum of matching answers, or a validity-threshold weight of matching
//! errors, has arrived. `ValidatorUpdater` drives one validator: it walks a
//! chain's parent lineage to find what the validator is missing, replays the
//! confirmed certificates ancestors-first, and submits certificates and block
//! proposals with a bounded retry on the one transient error.
//!
//! Network transport, storage backends and the retry pause are ports: traits
//! that a deployment implements outside the library.

mod base;
mod boundary;
mod committee;
mod error;
mod laws;
mod messages;
mod quorum;
mod updater;

pub use base::ChainId;
pub use base::SequenceNumber;
pub use base::ValidatorName;
pub use boundary::ApplicationId;
pub use boundary::Balance;
pub use boundary::BlockHeight;
pub use boundary::CalleeContext;
pub use boundary::CryptoHash;
pub use boundary::EffectContext;
pub use boundary::EffectId;
pub use boundary::OperationContext;
pub use boundary::Owner;
pub use boundary::Poll;
pub use boundary::PollFindKeyValues;
pub use boundary::PollFindKeys;
pub use boundary::PollLock;
pub use boundary::PollReadKeyBytes;
pub use boundary::PollUnit;
pub use boundary::Session;
pub use boundary::WitSession;
pub use boundary::SessionId;
pub use boundary::WitApplicationId;
pub use boundary::WitBalance;
pub use boundary::WitCryptoHash;
pub use boundary::WitEffectId;
pub use boundary::WitSessionId;
pub use boundary::application_id_of_wit;
pub use boundary::call_result_parts;
pub use boundary::effect_id_of_wit;
pub use boundary::hash_of_wit;
pub use boundary::session_id_of_wit;
pub use committee::Committee;
pub use committee::distinct_names;
pub use committee::lemma_threshold_order;
pub use committee::sum_weights;
pub use committee::weight_in;
pub use error::Error;
pub use error::error_eq;
pub use laws::eq_is_equivalence;
pub use laws::error_weight;
pub use laws::error_weight_of;
pub use laws::group_weight_of;
pub use laws::lemma_decision_needs_weight;
pub use laws::lemma_early_exit_stable;
pub use laws::lemma_error_eq_equivalence;
pub use laws::lemma_error_weight_nonneg;
pub use laws::lemma_quorum_threshold_crossing;
pub use laws::lemma_success_weight_nonneg;
pub use laws::lemma_vote_eq_equivalence;
pub use laws::success_weight;
pub use messages::BlockProposal;
pub use messages::Certificate;
pub use messages::ChainInfo;
pub use messages::ChainInfoQuery;
pub use messages::ChainInfoResponse;
pub use messages::ChainManager;
pub use messages::ChainState;
pub use messages::Request;
pub use messages::SequenceNumberRange;
pub use messages::Value;
pub use messages::Vote;
pub use messages::chain_info_eq;
pub use messages::manager_eq;
pub use messages::request_eq;
pub use messages::value_eq;
pub use messages::vote_eq;
pub use quorum::QuorumAction;
pub use quorum::QuorumTally;
pub use quorum::StepDecision;
pub use quorum::TallyState;
pub use quorum::ValueGroup;
pub use quorum::add_error;
pub use quorum::add_success;
pub use quorum::as_outcome;
pub use quorum::communicate_with_quorum;
pub use quorum::eligible_arrivals;
pub use quorum::empty_tally;
pub use quorum::find_error;
pub use quorum::find_group;
pub use quorum::group_matches;
pub use quorum::outcome_from;
pub use quorum::tally_step;
pub use updater::CommunicateAction;
pub use updater::Storage;
pub use updater::SyncJob;
pub use updater::ValidatorNode;
pub use updater::ValidatorUpdater;
pub use updater::WalkStep;
pub use updater::walk_step;
pub use updater::lemma_lineage_walk_bounded;
pub use updater::lemma_lineage_walk_prefix;
pub use updater::lemma_no_retry_single_attempt;
pub use updater::lemma_retry_bound_inactive;
pub use updater::lineage_jobs_wf;
pub use updater::pending_vote_for;
pub use updater::retry_eligible;
pub use updater::retry_trace;
pub use updater::settled;
