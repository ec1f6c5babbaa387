//! Failure outcomes of validator interactions.

use vstd::prelude::*;

use crate::base::ChainId;

verus! {

/// Errors reported while talking to a validator or to local storage.
///
/// `InactiveChain` is the one transient case: the validator has not yet seen
/// the certificates that activate the chain, so a bounded retry can help.
/// Every other variant is terminal for the call that produced it.
#[derive(Debug, Eq, Hash)]
pub enum Error {
    /// The chain is not (yet) active or known on the validator.
    InactiveChain(ChainId),
    /// A response or a vote was signed by a different validator than expected.
    UnexpectedSigner,
    /// A validator accepted a proposal or certificate but produced no pending
    /// vote: the validator and this client disagree about the outcome.
    ClientErrorWhileProcessingBlockProposal,
    /// Local storage misses a certificate that the confirmed log names: a
    /// local invariant violation, never retried.
    MissingCertificate,
    /// A sequence number cannot be incremented past the largest value.
    SequenceOverflow,
    /// The validator's view of the chain lacks funds for the requested
    /// operation; receiver-side certificates may be missing.
    InsufficientFunding,
    /// A transport-level failure with no protocol meaning.
    ClientIoError,
}

/// Structural equality of two errors, the key under which the quorum
/// broadcaster accumulates error weight.
pub open spec fn error_eq(a: &Error, b: &Error) -> bool {
    match (a, b) {
        (Error::InactiveChain(x), Error::InactiveChain(y)) => x.0@ == y.0@,
        (Error::UnexpectedSigner, Error::UnexpectedSigner) => true,
        (
            Error::ClientErrorWhileProcessingBlockProposal,
            Error::ClientErrorWhileProcessingBlockProposal,
        ) => true,
        (Error::MissingCertificate, Error::MissingCertificate) => true,
        (Error::SequenceOverflow, Error::SequenceOverflow) => true,
        (Error::InsufficientFunding, Error::InsufficientFunding) => true,
        (Error::ClientIoError, Error::ClientIoError) => true,
        _ => false,
    }
}

impl Clone for Error {
    fn clone(&self) -> (r: Error)
        ensures
            error_eq(&r, self),
    {
        match self {
            Error::InactiveChain(id) => Error::InactiveChain(id.clone()),
            Error::UnexpectedSigner => Error::UnexpectedSigner,
            Error::ClientErrorWhileProcessingBlockProposal => {
                Error::ClientErrorWhileProcessingBlockProposal
            },
            Error::MissingCertificate => Error::MissingCertificate,
            Error::SequenceOverflow => Error::SequenceOverflow,
            Error::InsufficientFunding => Error::InsufficientFunding,
            Error::ClientIoError => Error::ClientIoError,
        }
    }
}

impl PartialEq for Error {
    fn eq(&self, other: &Error) -> (r: bool)
        ensures
            r <==> error_eq(self, other),
    {
        match (self, other) {
            (Error::InactiveChain(x), Error::InactiveChain(y)) => x == y,
            (Error::UnexpectedSigner, Error::UnexpectedSigner) => true,
            (
                Error::ClientErrorWhileProcessingBlockProposal,
                Error::ClientErrorWhileProcessingBlockProposal,
            ) => true,
            (Error::MissingCertificate, Error::MissingCertificate) => true,
            (Error::SequenceOverflow, Error::SequenceOverflow) => true,
            (Error::InsufficientFunding, Error::InsufficientFunding) => true,
            (Error::ClientIoError, Error::ClientIoError) => true,
            _ => false,
        }
    }
}

impl vstd::std_specs::cmp::PartialEqSpecImpl for Error {
    open spec fn obeys_eq_spec() -> bool {
        true
    }

    open spec fn eq_spec(&self, other: &Error) -> bool {
        error_eq(self, other)
    }
}

} // verus!
