//! Keeps the contract-facing interface closed to other implementors.

use vstd::prelude::*;
use crate::host::Host;
use crate::stack::Stack;

verus! {

/// Implemented by the types of this crate that may offer the
/// contract-facing interface.
pub trait Sealed {

}

impl<'a, H: Host, E> Sealed for Stack<'a, H, E> {

}

} // verus!
