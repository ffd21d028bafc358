//! Errors and results of an invocation.

use vstd::prelude::*;

verus! {

/// What the executive itself can object to.
#[derive(Clone, Copy, Debug, PartialEq, Eq, Structural)]
pub enum Error {
    /// A frame was asked for while the stack was at its maximal depth.
    MaxCallDepthReached,
    /// The callee is no live contract, or was evicted when rent was charged.
    NotCallable,
    /// A new contract could not pay the rent of its first block.
    NewContractNotFunded,
    /// The transfer would leave a contract below the subsistence threshold.
    BelowSubsistenceThreshold,
    /// The currency refused the transfer.
    TransferFailed,
    /// Termination or restoration was asked for by a contract that is on the
    /// stack more than once.
    ReentranceDenied,
    /// No code is stored under the code hash.
    CodeNotFound,
    /// The gas meter cannot pay for the request.
    OutOfGas,
}

/// A failure of the chain, in the chain's own words.
#[derive(Clone, Copy, Debug, PartialEq, Eq)]
pub struct HostError {
    pub message: &'static str,
}

/// Why an operation failed.
#[derive(Clone, Copy, Debug, PartialEq, Eq)]
pub enum DispatchError {
    /// The executive, the code loader or a gas meter objected.
    Contract(Error),
    /// The chain or a contract failed; the message is carried through.
    Other(&'static str),
}

impl DispatchError {
    /// A failure of the chain as the executive hands it on.
    pub open spec fn of_host(error: HostError) -> DispatchError {
        DispatchError::Other(error.message)
    }

    /// Hands a failure of the chain on.
    pub fn from_host(error: HostError) -> (e: DispatchError)
        ensures
            e == DispatchError::of_host(error),
    {
        DispatchError::Other(error.message)
    }
}

/// Result of an operation that yields nothing on success.
pub type DispatchResult = Result<(), DispatchError>;

/// The side of a frame boundary that is to blame for a failure.
#[derive(Clone, Copy, Debug, PartialEq, Eq, Structural)]
pub enum ErrorOrigin {
    /// The failure arose before the callee ran: the caller asked for
    /// something that cannot be done.
    Caller,
    /// The failure arose while the callee ran.
    Callee,
}

/// A failed invocation.
#[derive(Clone, Copy, Debug, PartialEq, Eq)]
pub struct ExecError {
    pub error: DispatchError,
    pub origin: ErrorOrigin,
}

impl ExecError {
    /// A failure of the executive at a frame boundary, blamed on the caller.
    pub open spec fn caller(error: Error) -> ExecError {
        ExecError { error: DispatchError::Contract(error), origin: ErrorOrigin::Caller }
    }

    /// A failure of a collaborator at a frame boundary, blamed on the caller.
    pub open spec fn from_dispatch(error: DispatchError) -> ExecError {
        ExecError { error, origin: ErrorOrigin::Caller }
    }

    pub fn from_error(error: Error) -> (e: ExecError)
        ensures
            e == ExecError::caller(error),
    {
        ExecError { error: DispatchError::Contract(error), origin: ErrorOrigin::Caller }
    }

    pub fn from_dispatch_error(error: DispatchError) -> (e: ExecError)
        ensures
            e == ExecError::from_dispatch(error),
    {
        ExecError { error, origin: ErrorOrigin::Caller }
    }
}

/// Flags that a contract sets when it returns.
#[derive(Clone, Copy, Debug, PartialEq, Eq, Structural)]
pub struct ReturnFlags {
    pub bits: u32,
}

/// The bit that asks for all changes of the invocation to be undone.
pub const REVERT_BIT: u32 = 1;

impl ReturnFlags {
    /// Whether the revert bit is set.
    pub open spec fn spec_is_revert(&self) -> bool {
        self.bits & REVERT_BIT == REVERT_BIT
    }

    /// No flag set.
    pub fn empty() -> (flags: ReturnFlags)
        ensures
            flags.bits == 0,
            !flags.spec_is_revert(),
    {
        assert(0u32 & 1u32 != 1u32) by (bit_vector);
        ReturnFlags { bits: 0 }
    }

    /// Only the revert bit set.
    pub fn revert() -> (flags: ReturnFlags)
        ensures
            flags.bits == REVERT_BIT,
            flags.spec_is_revert(),
    {
        assert(1u32 & 1u32 == 1u32) by (bit_vector);
        ReturnFlags { bits: REVERT_BIT }
    }

    #[verifier::when_used_as_spec(spec_is_revert)]
    pub fn is_revert(&self) -> (revert: bool)
        ensures
            revert == self.spec_is_revert(),
    {
        self.bits & REVERT_BIT == REVERT_BIT
    }
}

/// What a contract handed back when it returned in an orderly way.
#[derive(Clone, Debug, PartialEq, Eq)]
pub struct ExecReturnValue {
    pub flags: ReturnFlags,
    pub data: Vec<u8>,
}

impl ExecReturnValue {
    /// Whether the contract did not ask for its changes to be undone.
    pub open spec fn spec_is_success(&self) -> bool {
        !self.flags.spec_is_revert()
    }

    #[verifier::when_used_as_spec(spec_is_success)]
    pub fn is_success(&self) -> (success: bool)
        ensures
            success == self.spec_is_success(),
    {
        !self.flags.is_revert()
    }
}

/// Result of running a contract.
pub type ExecResult = Result<ExecReturnValue, ExecError>;

} // verus!
