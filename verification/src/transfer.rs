//! The rules under which value moves between accounts.
//!
//! A contract may not send itself below the subsistence threshold, and no
//! sender may send itself out of existence: only the transfer that ends a
//! terminating contract may drain its account.

use vstd::prelude::*;
use crate::error::{DispatchError, DispatchResult, Error, HostError};
use crate::host::Host;
use crate::primitives::{AccountId, Balance, ExistenceRequirement};

verus! {

/// The difference of two balances, which stops at zero.
pub open spec fn saturating_sub(a: Balance, b: Balance) -> Balance {
    if a >= b {
        (a - b) as Balance
    } else {
        0
    }
}

/// Whether a sender with `total_balance` still holds the subsistence
/// threshold after sending `value`.
pub open spec fn keeps_subsistence(
    total_balance: Balance,
    value: Balance,
    subsistence_threshold: Balance,
) -> bool {
    saturating_sub(total_balance, value) >= subsistence_threshold
}

/// What the rules say of a transfer of a positive value: the existence
/// requirement to hand to the currency, or the objection.
pub open spec fn transfer_requirement(
    sender_is_contract: bool,
    allow_death: bool,
    total_balance: Balance,
    subsistence_threshold: Balance,
    value: Balance,
) -> Result<ExistenceRequirement, Error> {
    if allow_death {
        Ok(ExistenceRequirement::AllowDeath)
    } else if sender_is_contract && !keeps_subsistence(
        total_balance,
        value,
        subsistence_threshold,
    ) {
        Err(Error::BelowSubsistenceThreshold)
    } else {
        Ok(ExistenceRequirement::KeepAlive)
    }
}

/// Decides under which existence requirement a positive value may leave the
/// sender, given the sender's total balance and the subsistence threshold.
pub fn existence_requirement(
    sender_is_contract: bool,
    allow_death: bool,
    total_balance: Balance,
    subsistence_threshold: Balance,
    value: Balance,
) -> (decision: Result<ExistenceRequirement, Error>)
    ensures
        decision == transfer_requirement(
            sender_is_contract,
            allow_death,
            total_balance,
            subsistence_threshold,
            value,
        ),
{
    if allow_death {
        Ok(ExistenceRequirement::AllowDeath)
    } else if sender_is_contract {
        if total_balance.saturating_sub(value) >= subsistence_threshold {
            Ok(ExistenceRequirement::KeepAlive)
        } else {
            Err(Error::BelowSubsistenceThreshold)
        }
    } else {
        Ok(ExistenceRequirement::KeepAlive)
    }
}

/// What the caller of a transfer learns from the currency's answer: every
/// refusal of the currency reads the same.
pub open spec fn transfer_outcome(answer: Result<(), HostError>) -> DispatchResult {
    match answer {
        Ok(()) => Ok(()),
        Err(_) => Err(DispatchError::Contract(Error::TransferFailed)),
    }
}

/// Turns the currency's answer into the outcome of the transfer.
pub fn outcome_of(answer: Result<(), HostError>) -> (outcome: DispatchResult)
    ensures
        outcome == transfer_outcome(answer),
{
    match answer {
        Ok(()) => Ok(()),
        Err(_) => Err(DispatchError::Contract(Error::TransferFailed)),
    }
}

/// Whether `decision` is what the rules decide for a transfer by `from` from
/// answers that the chain may give when asked for the total balance of
/// `from` and for the subsistence threshold.
pub open spec fn decided_for<H: Host>(
    host: &H,
    sender_is_contract: bool,
    allow_death: bool,
    from: AccountId,
    value: Balance,
    decision: Result<ExistenceRequirement, Error>,
) -> bool {
    exists|total_balance: Balance, subsistence_threshold: Balance|
        #![trigger
            call_ensures(H::total_balance, (host, &from), total_balance),
            call_ensures(H::subsistence_threshold, (host,), subsistence_threshold),
        ]
        call_ensures(H::total_balance, (host, &from), total_balance) && call_ensures(
            H::subsistence_threshold,
            (host,),
            subsistence_threshold,
        ) && decision == transfer_requirement(
            sender_is_contract,
            allow_death,
            total_balance,
            subsistence_threshold,
            value,
        )
}

/// Moves `value` from `from` to `to` under the rules of this module.
///
/// A value of zero moves nothing and succeeds. Otherwise the host is asked
/// for the sender's total balance and for the subsistence threshold,
/// [`existence_requirement`] decides, and only where it agrees is the
/// currency asked to move the value, under the requirement that was decided;
/// what the currency answers is read by [`outcome_of`]. An objection of the
/// rules leaves the host untouched.
pub fn transfer<H: Host>(
    host: &mut H,
    sender_is_contract: bool,
    allow_death: bool,
    from: &AccountId,
    to: &AccountId,
    value: Balance,
) -> (result: DispatchResult)
    ensures
        value == 0 ==> result is Ok && *final(host) == *old(host),
        value != 0 ==> exists|decision: Result<ExistenceRequirement, Error>| #[trigger]
            decided_for(&*old(host), sender_is_contract, allow_death, *from, value, decision) && (
            match decision {
                Err(objection) => result == Err::<(), DispatchError>(
                    DispatchError::Contract(objection),
                ) && *final(host) == *old(host),
                Ok(existence) => exists|currency: &mut H, answer: Result<(), HostError>|
                    *currency == *old(host) && *final(currency) == *final(host) && #[trigger]
                    call_ensures(
                        H::currency_transfer,
                        (currency, from, to, value, existence),
                        answer,
                    ) && result == transfer_outcome(answer),
            }),
        result is Err ==> (result == Err::<(), DispatchError>(
            DispatchError::Contract(Error::BelowSubsistenceThreshold),
        ) || result == Err::<(), DispatchError>(DispatchError::Contract(Error::TransferFailed))),
        result == Err::<(), DispatchError>(
            DispatchError::Contract(Error::BelowSubsistenceThreshold),
        ) ==> sender_is_contract && !allow_death && value != 0 && *final(host) == *old(host),
{
    if value == 0 {
        return Ok(());
    }
    let total_balance = host.total_balance(from);
    let subsistence_threshold = host.subsistence_threshold();
    let decision = existence_requirement(
        sender_is_contract,
        allow_death,
        total_balance,
        subsistence_threshold,
        value,
    );
    assert(decided_for(&*host, sender_is_contract, allow_death, *from, value, decision));
    match decision {
        Err(objection) => Err(DispatchError::Contract(objection)),
        Ok(existence) => outcome_of(host.currency_transfer(from, to, value, existence)),
    }
}

/// The subsistence rule: a transfer that a contract begins, and that is not
/// the draining of a terminating contract, is refused wherever it would
/// leave the contract's total balance below the subsistence threshold.
pub proof fn lemma_subsistence_rule(
    total_balance: Balance,
    subsistence_threshold: Balance,
    value: Balance,
)
    requires
        saturating_sub(total_balance, value) < subsistence_threshold,
    ensures
        transfer_requirement(true, false, total_balance, subsistence_threshold, value) == Err::<
            ExistenceRequirement,
            Error,
        >(Error::BelowSubsistenceThreshold),
{
}

/// Only a contract can be refused for want of subsistence, and never the
/// one that is allowed to die.
pub proof fn lemma_only_contracts_are_held_to_subsistence(
    sender_is_contract: bool,
    allow_death: bool,
    total_balance: Balance,
    subsistence_threshold: Balance,
    value: Balance,
)
    ensures
        transfer_requirement(
            sender_is_contract,
            allow_death,
            total_balance,
            subsistence_threshold,
            value,
        ) is Err <==> (sender_is_contract && !allow_death && !keeps_subsistence(
            total_balance,
            value,
            subsistence_threshold,
        )),
        allow_death ==> transfer_requirement(
            sender_is_contract,
            allow_death,
            total_balance,
            subsistence_threshold,
            value,
        ) == Ok::<ExistenceRequirement, Error>(ExistenceRequirement::AllowDeath),
{
}

} // verus!
