//! The per-validator updater: brings one validator up to date on a chain's
//! lineage, and submits certificates and block proposals with a bounded
//! retry on the one transient error.

use vstd::prelude::*;

use crate::base::ChainId;
use crate::base::SequenceNumber;
use crate::base::ValidatorName;
use crate::error::Error;
use crate::messages::BlockProposal;
use crate::messages::Certificate;
use crate::messages::ChainInfo;
use crate::messages::ChainInfoQuery;
use crate::messages::ChainInfoResponse;
use crate::messages::ChainState;
use crate::messages::Vote;
use crate::messages::vote_eq;

verus! {

/// The transport to one validator. A deployment implements this with its
/// network client; nothing is assumed of the answers, so every caller in the
/// library states what it does for every possible answer.
pub trait ValidatorNode {
    /// Submits a block proposal.
    fn handle_block_proposal(&mut self, proposal: BlockProposal) -> Result<ChainInfoResponse, Error>;

    /// Submits a certificate.
    fn handle_certificate(&mut self, certificate: Certificate) -> Result<ChainInfoResponse, Error>;

    /// Asks for the validator's view of one chain.
    fn handle_chain_info_query(&mut self, query: ChainInfoQuery) -> Result<ChainInfoResponse, Error>;

    /// Pauses before a retry. A networked implementation sleeps for the
    /// given number of milliseconds; a test double may do nothing.
    fn wait(&mut self, delay_ms: u64);
}

/// The local, durable store of chains and certificates.
pub trait Storage {
    /// The state of a chain; an unknown chain yields a default empty state,
    /// never a not-found error.
    fn read_chain_or_default(&mut self, chain_id: &ChainId) -> Result<ChainState, Error>;

    /// The certificate stored under a key; fails if the key is unknown.
    fn read_certificate(&mut self, key: u64) -> Result<Certificate, Error>;
}

/// What a call of `communicate_chain_updates` asks one validator to do.
pub enum CommunicateAction {
    SubmitRequestForConfirmation(BlockProposal),
    SubmitRequestForValidation(BlockProposal),
    FinalizeRequest(Certificate),
    AdvanceToNextSequenceNumber(SequenceNumber),
}

impl CommunicateAction {
    /// The sequence number the validator must be brought up to before the
    /// action itself can be carried out.
    pub open spec fn target_spec(&self) -> SequenceNumber {
        match self {
            CommunicateAction::SubmitRequestForConfirmation(proposal) => proposal.request.sequence_number,
            CommunicateAction::SubmitRequestForValidation(proposal) => proposal.request.sequence_number,
            CommunicateAction::FinalizeRequest(certificate) => match certificate.value {
                crate::messages::Value::Validated { request } => request.sequence_number,
                crate::messages::Value::Confirmed { request } => request.sequence_number,
            },
            CommunicateAction::AdvanceToNextSequenceNumber(seq) => *seq,
        }
    }

    /// Whether finalizing this action is eligible for the inactive-chain
    /// retry: only at sequence number zero, the very first certificate of a
    /// newly created chain.
    pub open spec fn finalize_retryable(&self) -> bool {
        self.target_spec().0 == 0
    }

    /// The target sequence number of the action. A certificate may only be
    /// finalized while its value is still the validated one.
    pub fn target_sequence_number(&self) -> (r: SequenceNumber)
        requires
            self matches CommunicateAction::FinalizeRequest(c) ==> c.value is Validated,
        ensures
            r == self.target_spec(),
    {
        match self {
            CommunicateAction::SubmitRequestForConfirmation(proposal) => proposal.request.sequence_number,
            CommunicateAction::SubmitRequestForValidation(proposal) => proposal.request.sequence_number,
            CommunicateAction::FinalizeRequest(certificate) => match certificate.value.validated_request() {
                Some(request) => request.sequence_number,
                None => {
                    proof {
                        assert(false);
                    }
                    SequenceNumber(0)
                },
            },
            CommunicateAction::AdvanceToNextSequenceNumber(seq) => *seq,
        }
    }
}

/// What a submission returns once the last answer is in: the chain info of
/// an authenticated success, the authentication error of a success signed by
/// the wrong validator, or the error itself.
pub open spec fn settled(resp: Result<ChainInfoResponse, Error>, name: ValidatorName) -> Result<
    ChainInfo,
    Error,
> {
    match resp {
        Ok(response) => if response.signer == name {
            Ok(response.info)
        } else {
            Err(Error::UnexpectedSigner)
        },
        Err(e) => Err(e),
    }
}

/// Whether an answer is retried: only the inactive-chain error, and only
/// while the submission's gate holds (the caller's `retryable` flag for a
/// certificate, always for a proposal).
pub open spec fn retry_eligible(resp: Result<ChainInfoResponse, Error>, gate: bool) -> bool {
    gate && resp matches Err(Error::InactiveChain(_))
}

/// The shape of one bounded-retry submission. `attempts` are the validator's
/// answers in order: every answer but the last was retried, so was eligible;
/// the run ends because the last answer is not eligible or because all
/// `retries` retries are spent; and the result settles the last answer.
pub open spec fn retry_trace(
    attempts: Seq<Result<ChainInfoResponse, Error>>,
    name: ValidatorName,
    gate: bool,
    retries: nat,
    r: Result<ChainInfo, Error>,
) -> bool {
    &&& 1 <= attempts.len() <= retries + 1
    &&& forall|i: int| 0 <= i < attempts.len() - 1 ==> retry_eligible(#[trigger] attempts[i], gate)
    &&& (attempts.len() == retries + 1 || !retry_eligible(attempts.last(), gate))
    &&& r == settled(attempts.last(), name)
}

/// One chain's share of a lineage synchronization: replay the locally
/// confirmed certificates of `chain_id` from `initial` up to (excluding)
/// `target`. The first certificate of a chain that the walk found inactive
/// is retryable, since its activation may still be in flight.
pub struct SyncJob {
    pub chain_id: ChainId,
    pub initial: SequenceNumber,
    pub target: SequenceNumber,
    pub retryable: bool,
}

/// The shape of the job list a lineage walk produces, newest chain first:
/// the first job is for the requested chain and target; every job before the
/// last replays an inactive chain from zero, is retryable, and is followed
/// by the job of its parent, whose target is one past the child's index; the
/// last job is the non-retryable one of the first active ancestor.
pub open spec fn lineage_jobs_wf(
    start: Seq<u64>,
    start_target: SequenceNumber,
    jobs: Seq<SyncJob>,
) -> bool {
    &&& jobs.len() >= 1
    &&& jobs[0].chain_id@ == start
    &&& jobs[0].target == start_target
    &&& forall|k: int|
        #![trigger jobs[k], jobs[k + 1]]
        0 <= k < jobs.len() - 1 ==> {
            &&& jobs[k].initial.0 == 0
            &&& jobs[k].retryable == true
            &&& jobs[k].chain_id@.len() > 1
            &&& jobs[k + 1].chain_id@ == jobs[k].chain_id@.drop_last()
            &&& jobs[k + 1].target.0 == jobs[k].chain_id@.last() + 1
        }
    &&& jobs.last().retryable == false
}

/// One decision of the lineage walk.
pub enum WalkStep {
    /// The chain is active on the validator: its job ends the walk.
    Finish(SyncJob),
    /// The chain is inactive but has a parent: its replay-from-zero job is
    /// recorded and the walk moves to the parent with a new target.
    Descend(SyncJob, ChainId, SequenceNumber),
    /// The walk cannot continue.
    Fail(Error),
}

/// What the lineage walk does with one authenticated view of the current
/// chain, case by case: an active chain ends the walk with the non-retryable
/// job from the validator's next sequence number; an inactive child records
/// its retryable replay-from-zero job and descends to its parent, targeting
/// one past the child's index; an inactive root is unresolvable and fails
/// with the inactive-chain error; a child index at the largest value cannot
/// be advanced past and fails with the overflow error.
pub fn walk_step(chain_id: ChainId, target: SequenceNumber, info: &ChainInfo) -> (r: WalkStep)
    ensures
        info.manager is Active ==> (r matches WalkStep::Finish(j) && j.chain_id@ == chain_id@
            && j.initial == info.next_sequence_number && j.target == target && j.retryable
            == false),
        !(info.manager is Active) && chain_id@.len() <= 1 ==> (r matches WalkStep::Fail(e)
            && e matches Error::InactiveChain(c) && c@ == chain_id@),
        !(info.manager is Active) && chain_id@.len() > 1 && chain_id@.last() < u64::MAX ==> (r
            matches WalkStep::Descend(j, parent, next_target) && j.chain_id@ == chain_id@
            && j.initial == SequenceNumber(0) && j.target == target && j.retryable == true
            && parent@ == chain_id@.drop_last() && next_target.0 == chain_id@.last() + 1),
        !(info.manager is Active) && chain_id@.len() > 1 && chain_id@.last() == u64::MAX ==> (r
            matches WalkStep::Fail(e) && e == Error::SequenceOverflow),
{
    if info.manager.is_active() {
        WalkStep::Finish(
            SyncJob {
                chain_id,
                initial: info.next_sequence_number,
                target,
                retryable: false,
            },
        )
    } else {
        match chain_id.split() {
            None => WalkStep::Fail(Error::InactiveChain(chain_id)),
            Some((parent_id, number)) => {
                if number == u64::MAX {
                    WalkStep::Fail(Error::SequenceOverflow)
                } else {
                    WalkStep::Descend(
                        SyncJob {
                            chain_id,
                            initial: SequenceNumber(0),
                            target,
                            retryable: true,
                        },
                        parent_id,
                        SequenceNumber(number + 1),
                    )
                }
            },
        }
    }
}

/// The pending vote a successful submission owes the caller: fails when the
/// manager holds none (the validator accepted the work but produced no vote,
/// a protocol contract violation), or when the vote is not authenticated by
/// the expected validator. A vote is returned only with `name` as its
/// signer.
pub fn pending_vote_for(info: &ChainInfo, name: ValidatorName) -> (r: Result<Vote, Error>)
    ensures
        info.manager.pending_spec() is None ==> r == Err::<Vote, Error>(
            Error::ClientErrorWhileProcessingBlockProposal,
        ),
        info.manager.pending_spec() matches Some(v) ==> (if v.validator == name {
            r matches Ok(rv) && vote_eq(&rv, &v)
        } else {
            r == Err::<Vote, Error>(Error::UnexpectedSigner)
        }),
        r matches Ok(rv) ==> rv.validator == name,
{
    match info.manager.pending() {
        Some(vote) => match vote.check(name) {
            Ok(()) => Ok(vote.clone()),
            Err(e) => Err(e),
        },
        None => Err(Error::ClientErrorWhileProcessingBlockProposal),
    }
}

/// A session against one validator: its identity, a transport, a storage
/// handle, and the retry configuration. Stateless between calls.
pub struct ValidatorUpdater<A, S> {
    pub name: ValidatorName,
    pub client: A,
    pub store: S,
    /// Pause between two attempts of one submission, in milliseconds.
    pub delay: u64,
    /// How many retries a submission may spend after its first attempt.
    pub retries: usize,
}

impl<A: ValidatorNode, S: Storage> ValidatorUpdater<A, S> {
    /// Submits a certificate, retrying the inactive-chain answer up to
    /// `self.retries` times while the caller marked the attempt retryable.
    /// The answers form a `retry_trace`: in particular a success is returned
    /// only once the response authenticates as coming from `self.name`.
    pub fn send_certificate(&mut self, certificate: Certificate, retryable: bool) -> (r: Result<
        ChainInfo,
        Error,
    >)
        ensures
            final (self).name == old(self).name,
            final (self).delay == old(self).delay,
            final (self).retries == old(self).retries,
            exists|attempts: Seq<Result<ChainInfoResponse, Error>>|
                #[trigger] retry_trace(attempts, old(self).name, retryable, old(self).retries as nat, r),
    {
        let ghost mut attempts: Seq<Result<ChainInfoResponse, Error>> = Seq::empty();
        let mut count: usize = 0;
        loop
            invariant
                self.name == old(self).name,
                self.delay == old(self).delay,
                self.retries == old(self).retries,
                count <= self.retries,
                attempts.len() == count,
                forall|i: int| 0 <= i < attempts.len() ==> retry_eligible(#[trigger] attempts[i], retryable),
            decreases self.retries - count,
        {
            let outcome = self.client.handle_certificate(certificate.clone());
            proof {
                attempts = attempts.push(outcome);
            }
            match outcome {
                Ok(response) => {
                    match response.check(self.name) {
                        Ok(()) => {
                            proof {
                                assert(retry_trace(
                                    attempts,
                                    old(self).name,
                                    retryable,
                                    old(self).retries as nat,
                                    Ok::<ChainInfo, Error>(response.info),
                                ));
                            }
                            return Ok(response.info);
                        },
                        Err(e) => {
                            proof {
                                assert(retry_trace(
                                    attempts,
                                    old(self).name,
                                    retryable,
                                    old(self).retries as nat,
                                    Err::<ChainInfo, Error>(e),
                                ));
                            }
                            return Err(e);
                        },
                    }
                },
                Err(e) => {
                    let retry_now = retryable && count < self.retries && (match &e {
                        Error::InactiveChain(_) => true,
                        _ => false,
                    });
                    if retry_now {
                        self.client.wait(self.delay);
                        count += 1;
                    } else {
                        proof {
                            assert(retry_trace(
                                attempts,
                                old(self).name,
                                retryable,
                                old(self).retries as nat,
                                Err::<ChainInfo, Error>(e),
                            ));
                        }
                        return Err(e);
                    }
                },
            }
        }
    }

    /// Submits a block proposal, retrying the inactive-chain answer up to
    /// `self.retries` times; unlike a certificate, a proposal is always
    /// eligible for that retry.
    pub fn send_block_proposal(&mut self, proposal: BlockProposal) -> (r: Result<ChainInfo, Error>)
        ensures
            final (self).name == old(self).name,
            final (self).delay == old(self).delay,
            final (self).retries == old(self).retries,
            exists|attempts: Seq<Result<ChainInfoResponse, Error>>|
                #[trigger] retry_trace(attempts, old(self).name, true, old(self).retries as nat, r),
    {
        let ghost mut attempts: Seq<Result<ChainInfoResponse, Error>> = Seq::empty();
        let mut count: usize = 0;
        loop
            invariant
                self.name == old(self).name,
                self.delay == old(self).delay,
                self.retries == old(self).retries,
                count <= self.retries,
                attempts.len() == count,
                forall|i: int| 0 <= i < attempts.len() ==> retry_eligible(#[trigger] attempts[i], true),
            decreases self.retries - count,
        {
            let outcome = self.client.handle_block_proposal(proposal.clone());
            proof {
                attempts = attempts.push(outcome);
            }
            match outcome {
                Ok(response) => {
                    match response.check(self.name) {
                        Ok(()) => {
                            proof {
                                assert(retry_trace(
                                    attempts,
                                    old(self).name,
                                    true,
                                    old(self).retries as nat,
                                    Ok::<ChainInfo, Error>(response.info),
                                ));
                            }
                            return Ok(response.info);
                        },
                        Err(e) => {
                            proof {
                                assert(retry_trace(
                                    attempts,
                                    old(self).name,
                                    true,
                                    old(self).retries as nat,
                                    Err::<ChainInfo, Error>(e),
                                ));
                            }
                            return Err(e);
                        },
                    }
                },
                Err(e) => {
                    let retry_now = count < self.retries && (match &e {
                        Error::InactiveChain(_) => true,
                        _ => false,
                    });
                    if retry_now {
                        self.client.wait(self.delay);
                        count += 1;
                    } else {
                        proof {
                            assert(retry_trace(
                                attempts,
                                old(self).name,
                                true,
                                old(self).retries as nat,
                                Err::<ChainInfo, Error>(e),
                            ));
                        }
                        return Err(e);
                    }
                },
            }
        }
    }

    /// Brings the validator's knowledge of `chain_id` up to
    /// `target_sequence_number`. The walk queries the chain, then its parent,
    /// and so on while chains are inactive, deciding each query's outcome by
    /// `walk_step`; it then replays the recorded jobs in reverse order of
    /// discovery — ancestors before descendants — submitting each chain's
    /// locally confirmed certificates in increasing sequence order, the keys
    /// looked up by `ChainState::confirmed_key`. The second component is the
    /// recorded job list: on success it is a well-formed lineage walk from
    /// the requested chain and target.
    pub fn send_chain_information(
        &mut self,
        chain_id: ChainId,
        target_sequence_number: SequenceNumber,
    ) -> (r: (Result<(), Error>, Ghost<Seq<SyncJob>>))
        ensures
            final (self).name == old(self).name,
            final (self).delay == old(self).delay,
            final (self).retries == old(self).retries,
            r.0 is Ok ==> lineage_jobs_wf(chain_id@, target_sequence_number, r.1@),
    {
        let ghost start = chain_id@;
        let mut jobs: Vec<SyncJob> = Vec::new();
        let mut current_id = chain_id;
        let mut target = target_sequence_number;
        loop
            invariant_except_break
                jobs@.len() == 0 ==> current_id@ == start && target == target_sequence_number,
                jobs@.len() > 0 ==> {
                    &&& jobs@[0].chain_id@ == start
                    &&& jobs@[0].target == target_sequence_number
                    &&& current_id@ == jobs@.last().chain_id@.drop_last()
                    &&& target.0 == jobs@.last().chain_id@.last() + 1
                },
                forall|k: int|
                    0 <= k < jobs@.len() ==> {
                        &&& (#[trigger] jobs@[k]).initial.0 == 0
                        &&& jobs@[k].retryable == true
                        &&& jobs@[k].chain_id@.len() > 1
                    },
                forall|k: int|
                    #![trigger jobs@[k], jobs@[k + 1]]
                    0 <= k < jobs@.len() - 1 ==> {
                        &&& jobs@[k + 1].chain_id@ == jobs@[k].chain_id@.drop_last()
                        &&& jobs@[k + 1].target.0 == jobs@[k].chain_id@.last() + 1
                    },
            invariant
                self.name == old(self).name,
                self.delay == old(self).delay,
                self.retries == old(self).retries,
            ensures
                self.name == old(self).name,
                self.delay == old(self).delay,
                self.retries == old(self).retries,
                lineage_jobs_wf(start, target_sequence_number, jobs@),
            decreases current_id.0.len(),
        {
            let query = ChainInfoQuery::for_chain(current_id.clone());
            match self.client.handle_chain_info_query(query) {
                Ok(response) => {
                    match response.check(self.name) {
                        Ok(()) => {},
                        Err(e) => {
                            return (Err(e), Ghost(jobs@));
                        },
                    }
                    match walk_step(current_id, target, &response.info) {
                        WalkStep::Finish(job) => {
                            jobs.push(job);
                            break;
                        },
                        WalkStep::Descend(job, parent_id, next_target) => {
                            jobs.push(job);
                            current_id = parent_id;
                            target = next_target;
                        },
                        WalkStep::Fail(e) => {
                            return (Err(e), Ghost(jobs@));
                        },
                    }
                },
                Err(e) => {
                    return (Err(e), Ghost(jobs@));
                },
            }
        }
        let njobs = jobs.len();
        let mut idx: usize = njobs;
        while idx > 0
            invariant
                self.name == old(self).name,
                self.delay == old(self).delay,
                self.retries == old(self).retries,
                idx <= njobs,
                njobs == jobs@.len(),
                lineage_jobs_wf(start, target_sequence_number, jobs@),
            decreases idx,
        {
            idx -= 1;
            let job = &jobs[idx];
            let chain = match self.store.read_chain_or_default(&job.chain_id) {
                Ok(c) => c,
                Err(e) => {
                    return (Err(e), Ghost(jobs@));
                },
            };
            let mut number = job.initial.0;
            while number < job.target.0
                invariant
                    self.name == old(self).name,
                    self.delay == old(self).delay,
                    self.retries == old(self).retries,
                    lineage_jobs_wf(start, target_sequence_number, jobs@),
                decreases job.target.0 - number,
            {
                let key = match chain.confirmed_key(number) {
                    Ok(k) => k,
                    Err(e) => {
                        return (Err(e), Ghost(jobs@));
                    },
                };
                let cert = match self.store.read_certificate(key) {
                    Ok(c) => c,
                    Err(e) => {
                        return (Err(e), Ghost(jobs@));
                    },
                };
                match self.send_certificate(cert, job.retryable) {
                    Ok(_) => {},
                    Err(e) => {
                        return (Err(e), Ghost(jobs@));
                    },
                }
                number += 1;
            }
        }
        (Ok(()), Ghost(jobs@))
    }

    /// Repairs the receiver side of `chain_id`: for every sender chain in
    /// the local received index, brings the validator one past the last
    /// sequence number received from that sender. Which advances are made —
    /// each sender paired with the successor of its recorded number, in
    /// index order, failing with the overflow error exactly when a recorded
    /// number sits at the largest value — is fixed by
    /// `ChainState::sender_advances`.
    pub fn send_chain_information_as_a_receiver(&mut self, chain_id: ChainId) -> (r: Result<
        (),
        Error,
    >)
        ensures
            final (self).name == old(self).name,
            final (self).delay == old(self).delay,
            final (self).retries == old(self).retries,
    {
        let chain = match self.store.read_chain_or_default(&chain_id) {
            Ok(c) => c,
            Err(e) => {
                return Err(e);
            },
        };
        let advances = match chain.sender_advances() {
            Ok(a) => a,
            Err(e) => {
                return Err(e);
            },
        };
        let n = advances.len();
        let mut i: usize = 0;
        while i < n
            invariant
                self.name == old(self).name,
                self.delay == old(self).delay,
                self.retries == old(self).retries,
                i <= n,
                n == advances@.len(),
            decreases n - i,
        {
            let sender_id = advances[i].0.clone();
            let next = advances[i].1;
            let (outcome, _walk) = self.send_chain_information(sender_id, next);
            match outcome {
                Ok(()) => {},
                Err(e) => {
                    return Err(e);
                },
            }
            i += 1;
        }
        Ok(())
    }

    /// The composed entry point: brings the validator up to the action's
    /// target sequence number, then carries the action out. A proposal that
    /// fails with a retriable validation answer triggers one receiver-side
    /// resynchronization and exactly one more attempt. A certificate is
    /// retryable only as the very first certificate of a new chain. A vote
    /// is only ever returned authenticated by this session's validator, and
    /// the pure advance action never returns one.
    pub fn send_chain_update(&mut self, chain_id: ChainId, action: CommunicateAction) -> (r:
        Result<Option<Vote>, Error>)
        requires
            action matches CommunicateAction::FinalizeRequest(c) ==> c.value is Validated,
        ensures
            final (self).name == old(self).name,
            final (self).delay == old(self).delay,
            final (self).retries == old(self).retries,
            r matches Ok(Some(vote)) ==> vote.validator == old(self).name,
            action is AdvanceToNextSequenceNumber && r is Ok ==> r == Ok::<Option<Vote>, Error>(
                None,
            ),
            !(action is AdvanceToNextSequenceNumber) && r is Ok ==> r matches Ok(Some(_)),
            action is FinalizeRequest && r is Ok ==> exists|
                attempts: Seq<Result<ChainInfoResponse, Error>>,
                info: ChainInfo,
            |
                {
                    &&& #[trigger] retry_trace(
                        attempts,
                        old(self).name,
                        action.finalize_retryable(),
                        old(self).retries as nat,
                        Ok::<ChainInfo, Error>(info),
                    )
                    &&& (info.manager.pending_spec() matches Some(p) && r matches Ok(Some(v))
                        && vote_eq(&v, &p) && p.validator == old(self).name)
                },
    {
        let target_sequence_number = action.target_sequence_number();
        let (sync_outcome, _walk) = self.send_chain_information(
            chain_id.clone(),
            target_sequence_number,
        );
        match sync_outcome {
            Ok(()) => {},
            Err(e) => {
                return Err(e);
            },
        }
        match action {
            CommunicateAction::SubmitRequestForValidation(proposal)
            | CommunicateAction::SubmitRequestForConfirmation(proposal) => {
                let result = self.send_block_proposal(proposal.clone());
                let info = match result {
                    Ok(info) => info,
                    Err(e) => {
                        if ChainState::is_retriable_validation_error(&proposal.request, &e) {
                            // Receiver-side certificates may be missing on the
                            // validator (say, to make a balance sufficient):
                            // synchronize them, then retry the proposal once.
                            match self.send_chain_information_as_a_receiver(chain_id) {
                                Ok(()) => {},
                                Err(e2) => {
                                    return Err(e2);
                                },
                            }
                            match self.send_block_proposal(proposal) {
                                Ok(info) => info,
                                Err(e2) => {
                                    return Err(e2);
                                },
                            }
                        } else {
                            return Err(e);
                        }
                    },
                };
                match pending_vote_for(&info, self.name) {
                    Ok(vote) => Ok(Some(vote)),
                    Err(e) => Err(e),
                }
            },
            CommunicateAction::FinalizeRequest(certificate) => {
                // Only the first certificate of a newly opened chain may hit
                // an activation race worth retrying.
                let retryable = target_sequence_number.0 == 0;
                let info = match self.send_certificate(certificate, retryable) {
                    Ok(info) => info,
                    Err(e) => {
                        return Err(e);
                    },
                };
                match pending_vote_for(&info, self.name) {
                    Ok(vote) => {
                        proof {
                            let attempts = choose|a: Seq<Result<ChainInfoResponse, Error>>|
                                retry_trace(
                                    a,
                                    old(self).name,
                                    retryable,
                                    old(self).retries as nat,
                                    Ok::<ChainInfo, Error>(info),
                                );
                            assert(retry_trace(
                                attempts,
                                old(self).name,
                                action.finalize_retryable(),
                                old(self).retries as nat,
                                Ok::<ChainInfo, Error>(info),
                            ));
                        }
                        Ok(Some(vote))
                    },
                    Err(e) => Err(e),
                }
            },
            CommunicateAction::AdvanceToNextSequenceNumber(_) => Ok(None),
        }
    }
}

/// Against a validator that answers every submission with an inactive-chain
/// error, a submission whose retry gate holds spends every retry: it makes
/// exactly `retries + 1` attempts and then fails with that error.
pub proof fn lemma_retry_bound_inactive(
    attempts: Seq<Result<ChainInfoResponse, Error>>,
    name: ValidatorName,
    retries: nat,
    r: Result<ChainInfo, Error>,
)
    requires
        retry_trace(attempts, name, true, retries, r),
        forall|i: int|
            0 <= i < attempts.len() ==> (#[trigger] attempts[i]) matches Err(
                Error::InactiveChain(_),
            ),
    ensures
        attempts.len() == retries + 1,
        r matches Err(Error::InactiveChain(_)),
{
    assert(attempts.last() == attempts[attempts.len() - 1]);
    assert(retry_eligible(attempts.last(), true));
}

/// A submission whose retry gate does not hold never retries: it makes
/// exactly one attempt and settles its one answer, whatever it was.
pub proof fn lemma_no_retry_single_attempt(
    attempts: Seq<Result<ChainInfoResponse, Error>>,
    name: ValidatorName,
    retries: nat,
    r: Result<ChainInfo, Error>,
)
    requires
        retry_trace(attempts, name, false, retries, r),
    ensures
        attempts.len() == 1,
        r == settled(attempts[0], name),
{
    if attempts.len() > 1 {
        assert(retry_eligible(attempts[0], false));
    }
    assert(attempts.last() == attempts[0]);
}

/// In a well-formed lineage walk the job of position `k` is for the `k`-th
/// ancestor of the requested chain: its identifier is the requested path
/// shorn of its last `k` indices.
pub proof fn lemma_lineage_walk_prefix(
    start: Seq<u64>,
    start_target: SequenceNumber,
    jobs: Seq<SyncJob>,
    k: int,
)
    requires
        lineage_jobs_wf(start, start_target, jobs),
        0 <= k < jobs.len(),
    ensures
        jobs[k].chain_id@ == start.subrange(0, start.len() - k),
        0 <= start.len() - k,
        k < jobs.len() - 1 ==> start.len() - k > 1,
    decreases k,
{
    if k == 0 {
        assert(start.subrange(0, start.len() as int) =~= start);
        if k < jobs.len() - 1 {
            let j0 = jobs[k];
            let j1 = jobs[k + 1];
            assert(j0.chain_id@.len() > 1);
        }
    } else {
        lemma_lineage_walk_prefix(start, start_target, jobs, k - 1);
        let ja = jobs[k - 1];
        let jb = jobs[(k - 1) + 1];
        assert(jb == jobs[k]);
        assert(ja.chain_id@.len() > 1);
        assert(ja.chain_id@.len() == start.len() - (k - 1));
        assert(jobs[k].chain_id@ =~= start.subrange(0, start.len() - k));
        if k < jobs.len() - 1 {
            let jc = jobs[k];
            let jd = jobs[k + 1];
            assert(jc.chain_id@.len() > 1);
        }
    }
}

/// A lineage walk is bounded by the lineage's depth: it never records more
/// jobs than the requested chain's path has indices.
pub proof fn lemma_lineage_walk_bounded(
    start: Seq<u64>,
    start_target: SequenceNumber,
    jobs: Seq<SyncJob>,
)
    requires
        lineage_jobs_wf(start, start_target, jobs),
        jobs.len() > 1,
    ensures
        jobs.len() <= start.len(),
{
    let k = jobs.len() - 2;
    lemma_lineage_walk_prefix(start, start_target, jobs, k);
}

} // verus!
