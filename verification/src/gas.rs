//! Gas meters.
//!
//! Every frame owns a meter that was carved out of its parent's: what the
//! child is granted leaves the parent at once, and what the child has not
//! spent flows back when the child is absorbed. The executive itself only
//! creates children and hands the current meter to the running contract.

use vstd::prelude::*;
use crate::primitives::Weight;
use crate::error::{DispatchError, Error};

verus! {

/// A budget of gas: a limit, and what is left of it.
#[derive(Clone, Copy, Debug, PartialEq, Eq)]
pub struct GasMeter {
    gas_limit: Weight,
    gas_left: Weight,
}

/// The gas a child is granted: the amount asked for, or all that is left
/// where no amount (zero) is named.
pub open spec fn granted(left: Weight, amount: Weight) -> Weight {
    if amount == 0 {
        left
    } else {
        amount
    }
}

impl GasMeter {
    #[verifier::type_invariant]
    spec fn within_limit(self) -> bool {
        self.gas_left <= self.gas_limit
    }

    /// The budget the meter started with.
    pub closed spec fn limit(&self) -> Weight {
        self.gas_limit
    }

    /// What has not been spent or granted to a child.
    pub closed spec fn left(&self) -> Weight {
        self.gas_left
    }

    /// A full meter.
    pub fn new(gas_limit: Weight) -> (meter: GasMeter)
        ensures
            meter.limit() == gas_limit,
            meter.left() == gas_limit,
    {
        GasMeter { gas_limit, gas_left: gas_limit }
    }

    #[verifier::when_used_as_spec(left)]
    pub fn gas_left(&self) -> (left: Weight)
        ensures
            left == self.left(),
            left <= self.limit(),
    {
        proof {
            use_type_invariant(self);
        }
        self.gas_left
    }

    #[verifier::when_used_as_spec(limit)]
    pub fn gas_limit(&self) -> (limit: Weight)
        ensures
            limit == self.limit(),
    {
        self.gas_limit
    }

    /// What has left the meter so far.
    pub fn gas_spent(&self) -> (spent: Weight)
        ensures
            spent == self.limit() - self.left(),
    {
        proof {
            use_type_invariant(self);
        }
        self.gas_limit - self.gas_left
    }

    /// Takes `amount` out of the meter, or fails and takes nothing.
    pub fn charge(&mut self, amount: Weight) -> (result: Result<(), DispatchError>)
        ensures
            final(self).limit() == old(self).limit(),
            amount <= old(self).left() ==> result is Ok && final(self).left() == old(self).left()
                - amount,
            amount > old(self).left() ==> result == Err::<(), DispatchError>(
                DispatchError::Contract(Error::OutOfGas),
            ) && final(self).left() == old(self).left(),
        no_unwind
    {
        proof {
            use_type_invariant(&*self);
        }
        if amount > self.gas_left {
            Err(DispatchError::Contract(Error::OutOfGas))
        } else {
            self.gas_left = self.gas_left - amount;
            Ok(())
        }
    }

    /// Whether the meter can grant a child `amount`: it has that much left.
    pub open spec fn grants(&self, amount: Weight) -> bool {
        granted(self.left(), amount) <= self.left()
    }

    /// The child that the meter grants `amount`: a full meter of what was
    /// granted.
    pub closed spec fn child(&self, amount: Weight) -> GasMeter {
        GasMeter {
            gas_limit: granted(self.gas_left, amount),
            gas_left: granted(self.gas_left, amount),
        }
    }

    /// The meter once it has granted a child `amount`.
    pub closed spec fn after_granting(&self, amount: Weight) -> GasMeter {
        GasMeter {
            gas_limit: self.gas_limit,
            gas_left: (self.gas_left - granted(self.gas_left, amount)) as Weight,
        }
    }

    /// A child is full and holds what was granted, which has left the
    /// parent.
    pub proof fn lemma_granting(self, amount: Weight)
        requires
            self.grants(amount),
        ensures
            self.child(amount).limit() == granted(self.left(), amount),
            self.child(amount).left() == granted(self.left(), amount),
            self.after_granting(amount).limit() == self.limit(),
            self.after_granting(amount).left() == self.left() - granted(self.left(), amount),
    {
    }

    /// Carves a child meter out of this one. An `amount` of zero grants all
    /// that is left. Fails, and changes nothing, where more is asked for than
    /// is left.
    pub fn nested(&mut self, amount: Weight) -> (result: Result<GasMeter, DispatchError>)
        ensures
            final(self).limit() == old(self).limit(),
            old(self).grants(amount) ==> result == Ok::<GasMeter, DispatchError>(
                old(self).child(amount),
            ) && *final(self) == old(self).after_granting(amount),
            !old(self).grants(amount) ==> result == Err::<GasMeter, DispatchError>(
                DispatchError::Contract(Error::OutOfGas),
            ) && *final(self) == *old(self),
            granted(old(self).left(), amount) <= old(self).left() ==> (match result {
                Ok(child) => child.limit() == granted(old(self).left(), amount) && child.left()
                    == child.limit() && final(self).left() == old(self).left() - child.limit(),
                Err(_) => false,
            }),
            granted(old(self).left(), amount) > old(self).left() ==> result == Err::<
                GasMeter,
                DispatchError,
            >(DispatchError::Contract(Error::OutOfGas)) && final(self).left() == old(self).left(),
        no_unwind
    {
        proof {
            use_type_invariant(&*self);
        }
        let amount: Weight = if amount == 0 {
            self.gas_left
        } else {
            amount
        };
        if self.gas_left < amount {
            Err(DispatchError::Contract(Error::OutOfGas))
        } else {
            self.gas_left = self.gas_left - amount;
            Ok(GasMeter { gas_limit: amount, gas_left: amount })
        }
    }

    /// What the meter holds once a child has handed back what it did not
    /// spend: never more than the meter's own limit.
    pub open spec fn left_after_absorbing(&self, nested: GasMeter) -> Weight {
        if self.left() + nested.left() <= self.limit() {
            (self.left() + nested.left()) as Weight
        } else {
            self.limit()
        }
    }

    /// The meter once it has taken back what `nested` did not spend.
    pub closed spec fn absorbing(self, nested: GasMeter) -> GasMeter {
        GasMeter { gas_limit: self.gas_limit, gas_left: self.left_after_absorbing(nested) }
    }

    /// Absorbing a child keeps the limit and adds what the child has left.
    pub proof fn lemma_absorbing(self, nested: GasMeter)
        ensures
            self.absorbing(nested).limit() == self.limit(),
            self.absorbing(nested).left() == self.left_after_absorbing(nested),
    {
    }

    /// Takes back what a child did not spend.
    pub fn absorb_nested(&mut self, nested: GasMeter)
        ensures
            *final(self) == old(self).absorbing(nested),
            final(self).limit() == old(self).limit(),
            final(self).left() == old(self).left_after_absorbing(nested),
        no_unwind
    {
        proof {
            use_type_invariant(&*self);
            use_type_invariant(&nested);
        }
        let room: Weight = self.gas_limit - self.gas_left;
        if nested.gas_left <= room {
            self.gas_left = self.gas_left + nested.gas_left;
        } else {
            self.gas_left = self.gas_limit;
        }
    }
}

} // verus!
