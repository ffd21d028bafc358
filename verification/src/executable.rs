//! The code that runs inside a frame.

use vstd::prelude::*;
use crate::error::{DispatchError, ExecResult};
use crate::gas::GasMeter;
use crate::host::Host;
use crate::primitives::CodeHash;
use crate::stack::Stack;

verus! {

/// The functions a code module exports.
#[derive(Clone, Copy, Debug, PartialEq, Eq, Structural)]
pub enum ExportedFunction {
    /// Runs once, when a contract is instantiated from the module.
    Constructor,
    /// Runs whenever the contract is called.
    Call,
}

/// The storage one user of a code module is charged for: the module's size
/// divided among its users, or all of it where no user is counted.
pub open spec fn storage_share_of(aggregate_code_len: u32, refcount: u32) -> u32 {
    if refcount == 0 {
        aggregate_code_len
    } else {
        aggregate_code_len / refcount
    }
}

/// Computes [`storage_share_of`].
pub fn storage_share(aggregate_code_len: u32, refcount: u32) -> (share: u32)
    ensures
        share == storage_share_of(aggregate_code_len, refcount),
{
    if refcount == 0 {
        aggregate_code_len
    } else {
        aggregate_code_len / refcount
    }
}

/// A loaded code module.
///
/// On a chain this is a wasm module; the trait lets the executive be driven
/// by anything that can be loaded by code hash and run against a stack. But
/// for what [`Executable::execute`] keeps of the stack, no method carries a
/// contract: the executive is verified for every answer.
pub trait Executable<H: Host>: Sized {
    /// Loads the module for execution, instrumenting it anew where it was
    /// instrumented for an older schedule; that work is charged to `gas_meter`.
    fn from_storage(
        host: &mut H,
        code_hash: CodeHash,
        schedule: &H::Schedule,
        gas_meter: &mut GasMeter,
    ) -> Result<Self, DispatchError>;

    /// Loads the module as it is stored, for purposes other than execution.
    fn from_storage_noinstr(host: &mut H, code_hash: CodeHash) -> Result<Self, DispatchError>;

    /// Counts one user less and drops the code where none is left.
    fn drop_from_storage(self, host: &mut H);

    /// Counts one user more. Yields the size of the pristine code.
    fn add_user(host: &mut H, code_hash: CodeHash) -> Result<u32, DispatchError>;

    /// Counts one user less and drops the code where none is left. Yields the
    /// size of the pristine code.
    fn remove_user(host: &mut H, code_hash: CodeHash) -> u32;

    /// Runs one exported function against the stack whose top frame was made
    /// for it. Running the constructor stores the module and counts a user
    /// more.
    ///
    /// The executive calls this inside a storage transaction that is rolled
    /// back when the function fails.
    ///
    /// The one thing this method is taken to keep, and that no proof here
    /// checks of an implementation: the stack it is handed comes back with
    /// the same frames running the same invocations. The operations of
    /// [`crate::ext::Ext`] are all that an executable can do to the stack,
    /// and each of them is proved to keep this.
    fn execute<'a>(
        self,
        ext: &mut Stack<'a, H, Self>,
        host: &mut H,
        function: &ExportedFunction,
        input_data: Vec<u8>,
    ) -> (answer: ExecResult)
        ensures
            old(ext)@.same_invocations(final(ext)@),
    ;

    /// The hash of the module's code.
    fn code_hash(&self) -> &CodeHash;

    /// Size of the instrumented code in bytes.
    fn code_len(&self) -> u32;

    /// Size of the instrumented and of the pristine code together.
    fn aggregate_code_len(&self) -> u32;

    /// The number of contracts that use the module.
    fn refcount(&self) -> u32;

    /// The storage that one user of the module is charged for: what
    /// [`storage_share`] makes of the module's aggregate code length and of
    /// its user count. The user count is the one the module was loaded with,
    /// which may have gone stale.
    fn occupied_storage(&self) -> (share: u32)
        default_ensures
            exists|aggregate_code_len: u32, refcount: u32|
                #![trigger
                    call_ensures(Self::aggregate_code_len, (self,), aggregate_code_len),
                    call_ensures(Self::refcount, (self,), refcount),
                ]
                call_ensures(Self::aggregate_code_len, (self,), aggregate_code_len)
                    && call_ensures(Self::refcount, (self,), refcount) && share
                    == storage_share_of(aggregate_code_len, refcount),
    {
        storage_share(self.aggregate_code_len(), self.refcount())
    }
}

} // verus!
