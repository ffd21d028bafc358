use contract_executive::cache::CachedContract;
use contract_executive::contract::AliveContractInfo;
use contract_executive::error::{
    DispatchError, Error, ErrorOrigin, ExecError, ExecReturnValue, HostError, ReturnFlags,
    REVERT_BIT,
};
use contract_executive::executable::{storage_share, ExportedFunction};
use contract_executive::executive::{
    is_committed, is_persisted, outcome_of_callee, outcome_of_rent,
};
use contract_executive::gas::GasMeter;
use contract_executive::primitives::{
    bytes_equal, AccountId, Balance, Digest, ExistenceRequirement, Perbill, TrieId,
};
use contract_executive::rent_params::RentParams;
use contract_executive::stack::{following_seed, preceding_seed};
use contract_executive::transfer::{existence_requirement, outcome_of};

fn record(rent_allowance: Balance) -> AliveContractInfo {
    AliveContractInfo {
        trie_id: TrieId::new([5u8; 32]),
        storage_size: 10,
        pair_count: 2,
        code_hash: Digest::new([6u8; 32]),
        rent_allowance,
        rent_payed: 0,
        deduct_block: 1,
        last_write: None,
    }
}

#[test]
fn account_ids_compare_by_their_bytes() {
    let mut other = [1u8; 32];
    other[31] = 2;
    assert_eq!(AccountId::new([1u8; 32]), AccountId::new([1u8; 32]));
    assert_ne!(AccountId::new([1u8; 32]), AccountId::new(other));
    assert!(bytes_equal(&[0u8; 32], &[0u8; 32]));
    assert!(!bytes_equal(&[1u8; 32], &other));
    assert_eq!(AccountId::new(other).bytes, other);
}

#[test]
fn storage_share_divides_among_users() {
    assert_eq!(storage_share(100, 3), 33);
    assert_eq!(storage_share(100, 1), 100);
    assert_eq!(storage_share(100, 0), 100);
    assert_eq!(storage_share(0, 0), 0);
    assert_eq!(storage_share(2, 3), 0);
}

#[test]
fn seeds_wrap_around() {
    assert_eq!(following_seed(0), 1);
    assert_eq!(following_seed(u64::MAX), 0);
    assert_eq!(preceding_seed(1), 0);
    assert_eq!(preceding_seed(0), u64::MAX);
    assert_eq!(preceding_seed(following_seed(u64::MAX)), u64::MAX);
}

#[test]
fn existence_requirement_follows_the_rules() {
    // (sender_is_contract, allow_death, total_balance, subsistence_threshold, value)
    assert_eq!(existence_requirement(true, false, 100, 17, 83), Ok(ExistenceRequirement::KeepAlive));
    assert_eq!(
        existence_requirement(true, false, 100, 17, 84),
        Err(Error::BelowSubsistenceThreshold)
    );
    assert_eq!(
        existence_requirement(true, false, 10, 17, 200),
        Err(Error::BelowSubsistenceThreshold)
    );
    // The difference stops at zero: nothing is below a threshold of zero.
    assert_eq!(existence_requirement(true, false, 10, 0, 200), Ok(ExistenceRequirement::KeepAlive));
    assert_eq!(existence_requirement(false, false, 100, 17, 100), Ok(ExistenceRequirement::KeepAlive));
    assert_eq!(existence_requirement(true, true, 100, 17, 100), Ok(ExistenceRequirement::AllowDeath));
    assert_eq!(existence_requirement(false, true, 0, 17, 100), Ok(ExistenceRequirement::AllowDeath));
}

#[test]
fn every_refusal_of_the_currency_reads_the_same() {
    assert_eq!(outcome_of(Ok(())), Ok(()));
    assert_eq!(
        outcome_of(Err(HostError { message: "InsufficientBalance" })),
        Err(DispatchError::Contract(Error::TransferFailed))
    );
    assert_eq!(
        outcome_of(Err(HostError { message: "KeepAlive" })),
        Err(DispatchError::Contract(Error::TransferFailed))
    );
}

#[test]
fn rent_outcomes() {
    assert_eq!(outcome_of_rent(Ok(Some(record(3))), Error::NotCallable, 7), Ok(record(3)));
    assert_eq!(
        outcome_of_rent(Ok(None), Error::NotCallable, 7),
        Err((
            ExecError { error: DispatchError::Contract(Error::NotCallable), origin: ErrorOrigin::Caller },
            7
        ))
    );
    assert_eq!(
        outcome_of_rent(Ok(None), Error::NewContractNotFunded, 9),
        Err((
            ExecError {
                error: DispatchError::Contract(Error::NewContractNotFunded),
                origin: ErrorOrigin::Caller
            },
            9
        ))
    );
    assert_eq!(
        outcome_of_rent(Err(HostError { message: "rent" }), Error::NotCallable, 7),
        Err((ExecError { error: DispatchError::Other("rent"), origin: ErrorOrigin::Caller }, 7))
    );
}

#[test]
fn failures_of_the_callee_are_blamed_on_it() {
    let value = ExecReturnValue { flags: ReturnFlags::empty(), data: vec![1] };
    assert_eq!(outcome_of_callee(Ok(value.clone()), 5), Ok(value));
    assert_eq!(
        outcome_of_callee(
            Err(ExecError { error: DispatchError::Other("x"), origin: ErrorOrigin::Caller }),
            5
        ),
        Err((ExecError { error: DispatchError::Other("x"), origin: ErrorOrigin::Callee }, 5))
    );
    assert_eq!(
        outcome_of_callee(
            Err(ExecError {
                error: DispatchError::Contract(Error::OutOfGas),
                origin: ErrorOrigin::Callee
            }),
            0
        ),
        Err((
            ExecError { error: DispatchError::Contract(Error::OutOfGas), origin: ErrorOrigin::Callee },
            0
        ))
    );
}

#[test]
fn only_a_value_without_revert_commits() {
    let good = ExecReturnValue { flags: ReturnFlags::empty(), data: vec![] };
    let reverted = ExecReturnValue { flags: ReturnFlags::revert(), data: vec![] };
    let failure = ExecError { error: DispatchError::Other("x"), origin: ErrorOrigin::Callee };
    assert!(is_committed(&Ok(good.clone())));
    assert!(!is_committed(&Ok(reverted.clone())));
    assert!(!is_committed(&Err((failure, 0))));
    assert!(is_persisted(&Ok((good, 3))));
    assert!(!is_persisted(&Ok((reverted, 3))));
    assert!(!is_persisted(&Err((failure, 3))));
}

#[test]
fn return_flags() {
    assert_eq!(ReturnFlags::empty().bits, 0);
    assert_eq!(ReturnFlags::revert().bits, REVERT_BIT);
    assert!(!ReturnFlags::empty().is_revert());
    assert!(ReturnFlags::revert().is_revert());
    assert!(ReturnFlags { bits: 3 }.is_revert());
    assert!(!ReturnFlags { bits: 2 }.is_revert());
    assert!(ExecReturnValue { flags: ReturnFlags { bits: 2 }, data: vec![] }.is_success());
    assert!(!ExecReturnValue { flags: ReturnFlags { bits: 1 }, data: vec![] }.is_success());
}

#[test]
fn errors_are_built_as_stated() {
    assert_eq!(DispatchError::from_host(HostError { message: "m" }), DispatchError::Other("m"));
    assert_eq!(
        ExecError::from_error(Error::ReentranceDenied),
        ExecError {
            error: DispatchError::Contract(Error::ReentranceDenied),
            origin: ErrorOrigin::Caller
        }
    );
    assert_eq!(
        ExecError::from_dispatch_error(DispatchError::Other("m")),
        ExecError { error: DispatchError::Other("m"), origin: ErrorOrigin::Caller }
    );
}

#[test]
fn gas_meter_charges() {
    let mut meter = GasMeter::new(100);
    assert_eq!(meter.gas_limit(), 100);
    assert_eq!(meter.gas_left(), 100);
    assert_eq!(meter.gas_spent(), 0);
    assert_eq!(meter.charge(30), Ok(()));
    assert_eq!(meter.gas_left(), 70);
    assert_eq!(meter.gas_spent(), 30);
    assert_eq!(meter.charge(71), Err(DispatchError::Contract(Error::OutOfGas)));
    assert_eq!(meter.gas_left(), 70);
    assert_eq!(meter.charge(70), Ok(()));
    assert_eq!(meter.gas_left(), 0);
    assert_eq!(meter.charge(0), Ok(()));
}

#[test]
fn gas_meter_nests_and_absorbs() {
    let mut parent = GasMeter::new(100);
    let mut child = parent.nested(40).unwrap();
    assert_eq!(parent.gas_left(), 60);
    assert_eq!(child.gas_limit(), 40);
    assert_eq!(child.gas_left(), 40);
    child.charge(15).unwrap();
    assert_eq!(parent.nested(61), Err(DispatchError::Contract(Error::OutOfGas)));
    assert_eq!(parent.gas_left(), 60);
    parent.absorb_nested(child);
    assert_eq!(parent.gas_left(), 85);
    assert_eq!(parent.gas_limit(), 100);

    // No amount named: all that is left.
    let all = parent.nested(0).unwrap();
    assert_eq!(all.gas_limit(), 85);
    assert_eq!(parent.gas_left(), 0);
    let none = parent.nested(0).unwrap();
    assert_eq!(none.gas_limit(), 0);
    parent.absorb_nested(all);
    assert_eq!(parent.gas_left(), 85);

    // A meter never holds more than its limit.
    parent.absorb_nested(GasMeter::new(50));
    assert_eq!(parent.gas_left(), 100);
}

#[test]
fn cached_contract_refreshes_only_when_invalidated() {
    let mut cache = CachedContract::Invalidated;
    cache.refresh(record(3));
    assert_eq!(cache, CachedContract::Cached(record(3)));
    cache.refresh(record(4));
    assert_eq!(cache, CachedContract::Cached(record(3)));
    let mut gone = CachedContract::Terminated;
    gone.refresh(record(4));
    assert_eq!(gone, CachedContract::Terminated);
}

#[test]
fn default_rent_params_are_all_zero() {
    let params = RentParams::default();
    assert_eq!(
        params,
        RentParams {
            total_balance: 0,
            free_balance: 0,
            subsistence_threshold: 0,
            deposit_per_contract: 0,
            deposit_per_storage_byte: 0,
            deposit_per_storage_item: 0,
            rent_allowance: 0,
            rent_fraction: Perbill { parts: 0 },
            storage_size: 0,
            code_size: 0,
            code_refcount: 0,
        }
    );
    assert_ne!(ExportedFunction::Call, ExportedFunction::Constructor);
}
