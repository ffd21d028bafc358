//! Frames coming and going: how a frame is made, run and ended.
//!
//! Every step that waits for the chain or for the running contract is
//! followed by a function of this module that takes the answer as an
//! argument and says exactly what follows from it.

use vstd::prelude::*;
use crate::cache::{loaded_record, CachedContract};
use crate::contract::{AliveContractInfo, Event};
use crate::error::{
    DispatchError,
    DispatchResult,
    Error,
    ErrorOrigin,
    ExecError,
    ExecResult,
    ExecReturnValue,
    HostError,
};
use crate::executable::{Executable, ExportedFunction};
use crate::frame::{made_frame, Frame, FrameArgs};
use crate::gas::GasMeter;
use crate::host::Host;
use crate::laws::lemma_pop_returns;
use crate::model::{first_stack, lemma_same_top_cache, seed_after, StackView};
use crate::primitives::{
    AccountId,
    Balance,
    BlockNumber,
    CodeHash,
    Moment,
    ExistenceRequirement,
    Topic,
    TrieId,
    Weight,
};
use crate::rent_params::{snapshot_of, RentParams};
use crate::stack::Stack;
use crate::transfer::{decided_for, transfer, transfer_outcome};

verus! {

/// What an invocation yields: the returned value or the failure, each with
/// the size of the code that was to run.
pub type Output = Result<(ExecReturnValue, u32), (ExecError, u32)>;

/// What charging rent means for the frame that asked: the record to go on
/// with, or the failure. A contract that cannot pay fails with `evicted`; a
/// failure of the chain is handed on. Either is blamed on the caller and
/// comes with `code_len`.
pub open spec fn rent_outcome(
    charged: Result<Option<AliveContractInfo>, HostError>,
    evicted: Error,
    code_len: u32,
) -> Result<AliveContractInfo, (ExecError, u32)> {
    match charged {
        Ok(Some(contract)) => Ok(contract),
        Ok(None) => Err((ExecError::caller(evicted), code_len)),
        Err(error) => Err((ExecError::from_dispatch(DispatchError::of_host(error)), code_len)),
    }
}

/// Computes [`rent_outcome`].
pub fn outcome_of_rent(
    charged: Result<Option<AliveContractInfo>, HostError>,
    evicted: Error,
    code_len: u32,
) -> (outcome: Result<AliveContractInfo, (ExecError, u32)>)
    ensures
        outcome == rent_outcome(charged, evicted, code_len),
{
    match charged {
        Ok(Some(contract)) => Ok(contract),
        Ok(None) => Err((ExecError::from_error(evicted), code_len)),
        Err(error) => Err(
            (ExecError::from_dispatch_error(DispatchError::from_host(error)), code_len),
        ),
    }
}

/// What the running contract's answer means for its frame: a value is kept
/// as it is; a failure is blamed on the callee, whatever origin it named,
/// and comes with `code_len`.
pub open spec fn callee_outcome(answer: ExecResult, code_len: u32) -> Result<
    ExecReturnValue,
    (ExecError, u32),
> {
    match answer {
        Ok(value) => Ok(value),
        Err(failure) => Err(
            (ExecError { error: failure.error, origin: ErrorOrigin::Callee }, code_len),
        ),
    }
}

/// Computes [`callee_outcome`].
pub fn outcome_of_callee(answer: ExecResult, code_len: u32) -> (outcome: Result<
    ExecReturnValue,
    (ExecError, u32),
>)
    ensures
        outcome == callee_outcome(answer, code_len),
{
    match answer {
        Ok(value) => Ok(value),
        Err(failure) => Err(
            (ExecError { error: failure.error, origin: ErrorOrigin::Callee }, code_len),
        ),
    }
}

/// Whether the storage transaction of a frame is committed: the contract
/// returned a value and did not ask for a revert. Everything else rolls the
/// transaction back.
pub open spec fn commits(outcome: Result<ExecReturnValue, (ExecError, u32)>) -> bool {
    match outcome {
        Ok(value) => value.spec_is_success(),
        Err(_) => false,
    }
}

/// Computes [`commits`].
pub fn is_committed(outcome: &Result<ExecReturnValue, (ExecError, u32)>) -> (committed: bool)
    ensures
        committed == commits(*outcome),
{
    match outcome {
        Ok(value) => value.is_success(),
        Err(_) => false,
    }
}

/// Whether the record cached in a frame outlives the frame: the invocation
/// yielded a value and did not ask for a revert.
pub open spec fn persists(output: Output) -> bool {
    match output {
        Ok((value, _)) => value.spec_is_success(),
        Err(_) => false,
    }
}

/// Computes [`persists`].
pub fn is_persisted(output: &Output) -> (persisted: bool)
    ensures
        persisted == persists(*output),
{
    match output {
        Ok((value, _)) => value.is_success(),
        Err(_) => false,
    }
}

/// Whether the frame whose contract answered is a constructor that has
/// committed and kept its record, and so pays the rent of its first block.
pub open spec fn pays_first_rent(
    outcome: Result<ExecReturnValue, (ExecError, u32)>,
    entry_point: ExportedFunction,
    stack: crate::model::StackView,
) -> bool {
    &&& commits(outcome)
    &&& entry_point == ExportedFunction::Constructor
    &&& !(stack.top().contract_info is Terminated)
}

/// What an instantiation yields from the output of its constructor: the
/// value comes with the account of the new contract, the failure as it is.
pub open spec fn output_as_instantiation(output: Output, account: AccountId) -> Result<
    (AccountId, ExecReturnValue),
    ExecError,
> {
    match output {
        Ok((returned, _)) => Ok((account, returned)),
        Err((failure, _)) => Err(failure),
    }
}

/// What an instantiation by a contract yields from the output of the
/// constructor: the value comes with the account of the new contract, the
/// failure as it is.
pub open spec fn output_as_instantiated(output: Output, account: AccountId) -> Result<
    (AccountId, ExecReturnValue, u32),
    (ExecError, u32),
> {
    match output {
        Ok((returned, code_len)) => Ok((account, returned, code_len)),
        Err(failure) => Err(failure),
    }
}

/// What the caller of an invocation gets once the frame's transaction is
/// closed and, for a constructor, its first rent is paid.
pub open spec fn output_of(outcome: Result<ExecReturnValue, (ExecError, u32)>, code_len: u32)
    -> Output {
    match outcome {
        Ok(value) => Ok((value, code_len)),
        Err(failure) => Err(failure),
    }
}

impl<'a, H: Host, E: Executable<H>> Stack<'a, H, E> {
    /// Makes the frame for an invocation.
    ///
    /// For a call the contract's record is the one handed along or else the
    /// one the chain stores; its code is loaded and its rent is charged. For
    /// an instantiation the address is derived and a fresh record is
    /// created. The rent figures are snapshotted and the frame's gas is
    /// carved out of `gas_meter`: `gas_limit`, or all that is left where the
    /// limit is zero.
    ///
    /// Nothing is begun where `max_depth` is zero. Every failure is blamed on
    /// the caller.
    pub(crate) fn new_frame(
        host: &mut H,
        frame_args: FrameArgs<'_, E>,
        value_transferred: Balance,
        gas_meter: &mut GasMeter,
        gas_limit: Weight,
        schedule: &H::Schedule,
        max_depth: u32,
    ) -> (result: Result<(Frame, E), (ExecError, u32)>)
        ensures
            max_depth == 0 ==> (match result {
                Ok(_) => false,
                Err(failure) => failure == (ExecError::caller(Error::MaxCallDepthReached), 0u32),
            }) && *final(host) == *old(host) && *final(gas_meter) == *old(gas_meter),
            match result {
                Ok((frame, _)) => {
                    &&& max_depth > 0
                    &&& frame.value_transferred == value_transferred
                    &&& frame.entry_point == frame_args.entry_point()
                    &&& frame.contract_info is Cached
                    &&& frame.rent_params.rent_allowance
                        == frame.contract_info->Cached_0.rent_allowance
                    &&& frame.rent_params.storage_size
                        == frame.contract_info->Cached_0.storage_size
                    &&& frame.nested_meter.left() == frame.nested_meter.limit()
                    &&& gas_limit != 0 ==> frame.nested_meter.limit() == gas_limit
                    &&& (frame_args matches FrameArgs::Call(to, _) ==> frame.account_id == to)
                },
                Err((failure, _)) => failure.origin == ErrorOrigin::Caller,
            },
            if max_depth == 0 {
              {
                &&& result == Err::<(Frame, E), (ExecError, u32)>(
                        (ExecError::caller(Error::MaxCallDepthReached), 0u32),
                    )
                &&& *final(host) == *old(host)
                &&& *final(gas_meter) == *old(gas_meter)
              }
            } else {
              match frame_args {
                  FrameArgs::Call(to, existing) => match existing {
                      Some(handed) => exists|
                          load: &mut H,
                          fuel: &mut GasMeter,
                          loaded: Result<E, DispatchError>,
                      | {
                        &&& #[trigger] call_ensures(
                                E::from_storage,
                                (
                                    load,
                                    handed.code_hash,
                                    schedule,
                                    fuel,
                                ),
                                loaded,
                            )
                        &&& *load == *old(host)
                        &&& *fuel == *old(gas_meter)
                        &&& match loaded {
                                Err(refused) => {
                                  &&& result == Err::<(Frame, E), (ExecError, u32)>(
                                          (ExecError::from_dispatch(refused), 0u32),
                                      )
                                  &&& *final(host) == *final(load)
                                  &&& *final(gas_meter) == *final(fuel)
                                },
                                Ok(code) => exists|
                                    code_len: u32,
                                    share: u32,
                                    rent: &mut H,
                                    charged: Result<Option<AliveContractInfo>, HostError>,
                                |
                                    #![trigger
                                        call_ensures(E::code_len, (&code,), code_len),
                                        call_ensures(E::occupied_storage, (&code,), share),
                                        call_ensures(H::charge_rent, (rent, &to, handed, share), charged),
                                    ] {
                                  &&& call_ensures(E::code_len, (&code,), code_len)
                                  &&& call_ensures(E::occupied_storage, (&code,), share)
                                  &&& call_ensures(H::charge_rent, (rent, &to, handed, share), charged)
                                  &&& *rent == *final(load)
                                  &&& match rent_outcome(charged, Error::NotCallable, code_len) {
                                          Err((evicted, size)) => {
                                            &&& result == Err::<(Frame, E), (ExecError, u32)>(
                                                    (evicted, size),
                                                )
                                            &&& *final(host) == *final(rent)
                                            &&& *final(gas_meter) == *final(fuel)
                                          },
                                          Ok(kept) => exists|params: RentParams| {
                                            &&& #[trigger] snapshot_of(&*final(rent), to, kept, &code, params)
                                            &&& if (*final(fuel)).grants(gas_limit) {
                                                  let frame = made_frame(
                                                      to,
                                                      kept,
                                                      value_transferred,
                                                      params,
                                                      ExportedFunction::Call,
                                                      (*final(fuel)).child(gas_limit),
                                                  );
                                                  {
                                                    &&& result == Ok::<(Frame, E), (ExecError, u32)>((frame, code))
                                                    &&& *final(host) == *final(rent)
                                                    &&& *final(gas_meter) == (*final(fuel)).after_granting(gas_limit)
                                                  }
                                                } else {
                                                  {
                                                    &&& result == Err::<(Frame, E), (ExecError, u32)>(
                                                            (ExecError::caller(Error::OutOfGas), code_len),
                                                        )
                                                    &&& *final(host) == *final(rent)
                                                    &&& *final(gas_meter) == *final(fuel)
                                                  }
                                                }
                                          },
                                      }
                                },
                            }
                      },
                      None => exists|found: Option<AliveContractInfo>| {
                        &&& #[trigger] call_ensures(H::alive_contract, (&*old(host), &to), found)
                        &&& match found {
                                None => {
                                  &&& result == Err::<(Frame, E), (ExecError, u32)>(
                                          (ExecError::caller(Error::NotCallable), 0u32),
                                      )
                                  &&& *final(host) == *old(host)
                                  &&& *final(gas_meter) == *old(gas_meter)
                                },
                                Some(stored) => exists|
                                    load: &mut H,
                                    fuel: &mut GasMeter,
                                    loaded: Result<E, DispatchError>,
                                | {
                                  &&& #[trigger] call_ensures(
                                          E::from_storage,
                                          (
                                              load,
                                              stored.code_hash,
                                              schedule,
                                              fuel,
                                          ),
                                          loaded,
                                      )
                                  &&& *load == *old(host)
                                  &&& *fuel == *old(gas_meter)
                                  &&& match loaded {
                                          Err(refused) => {
                                            &&& result == Err::<(Frame, E), (ExecError, u32)>(
                                                    (ExecError::from_dispatch(refused), 0u32),
                                                )
                                            &&& *final(host) == *final(load)
                                            &&& *final(gas_meter) == *final(fuel)
                                          },
                                          Ok(code) => exists|
                                              code_len: u32,
                                              share: u32,
                                              rent: &mut H,
                                              charged: Result<Option<AliveContractInfo>, HostError>,
                                          |
                                              #![trigger
                                                  call_ensures(E::code_len, (&code,), code_len),
                                                  call_ensures(E::occupied_storage, (&code,), share),
                                                  call_ensures(H::charge_rent, (rent, &to, stored, share), charged),
                                              ] {
                                            &&& call_ensures(E::code_len, (&code,), code_len)
                                            &&& call_ensures(E::occupied_storage, (&code,), share)
                                            &&& call_ensures(H::charge_rent, (rent, &to, stored, share), charged)
                                            &&& *rent == *final(load)
                                            &&& match rent_outcome(charged, Error::NotCallable, code_len) {
                                                    Err((evicted, size)) => {
                                                      &&& result == Err::<(Frame, E), (ExecError, u32)>(
                                                              (evicted, size),
                                                          )
                                                      &&& *final(host) == *final(rent)
                                                      &&& *final(gas_meter) == *final(fuel)
                                                    },
                                                    Ok(kept) => exists|params: RentParams| {
                                                      &&& #[trigger] snapshot_of(&*final(rent), to, kept, &code, params)
                                                      &&& if (*final(fuel)).grants(gas_limit) {
                                                            let frame = made_frame(
                                                                to,
                                                                kept,
                                                                value_transferred,
                                                                params,
                                                                ExportedFunction::Call,
                                                                (*final(fuel)).child(gas_limit),
                                                            );
                                                            {
                                                              &&& result == Ok::<(Frame, E), (ExecError, u32)>((frame, code))
                                                              &&& *final(host) == *final(rent)
                                                              &&& *final(gas_meter) == (*final(fuel)).after_granting(gas_limit)
                                                            }
                                                          } else {
                                                            {
                                                              &&& result == Err::<(Frame, E), (ExecError, u32)>(
                                                                      (ExecError::caller(Error::OutOfGas), code_len),
                                                                  )
                                                              &&& *final(host) == *final(rent)
                                                              &&& *final(gas_meter) == *final(fuel)
                                                            }
                                                          }
                                                    },
                                                }
                                          },
                                      }
                                },
                            }
                      },
                  },
                  FrameArgs::Instantiate(deployer, seed, executable, salt) => exists|
                      code_len: u32,
                      code_hash: &CodeHash,
                      account: AccountId,
                      trie_id: TrieId,
                      create: &mut H,
                      created: Result<AliveContractInfo, HostError>,
                  |
                      #![trigger
                          call_ensures(E::code_len, (&executable,), code_len),
                          call_ensures(E::code_hash, (&executable,), code_hash),
                          call_ensures(H::generate_trie_id, (&*old(host), &account, seed), trie_id),
                          call_ensures(
                              H::new_contract,
                              (
                                  create,
                                  &account,
                                  trie_id,
                                  *code_hash,
                              ),
                              created,
                          ),
                      ] {
                    &&& call_ensures(E::code_len, (&executable,), code_len)
                    &&& call_ensures(E::code_hash, (&executable,), code_hash)
                    &&& call_ensures(
                            H::contract_address,
                            (
                                &*old(host),
                                &deployer,
                                code_hash,
                                salt,
                            ),
                            account,
                        )
                    &&& call_ensures(H::generate_trie_id, (&*old(host), &account, seed), trie_id)
                    &&& call_ensures(
                            H::new_contract,
                            (
                                create,
                                &account,
                                trie_id,
                                *code_hash,
                            ),
                            created,
                        )
                    &&& *create == *old(host)
                    &&& match created {
                            Err(refused) => {
                              &&& result == Err::<(Frame, E), (ExecError, u32)>(
                                      (ExecError::from_dispatch(DispatchError::of_host(refused)), code_len),
                                  )
                              &&& *final(host) == *final(create)
                              &&& *final(gas_meter) == *old(gas_meter)
                            },
                            Ok(fresh) => exists|params: RentParams| {
                              &&& #[trigger] snapshot_of(&*final(create), account, fresh, &executable, params)
                              &&& if (*old(gas_meter)).grants(gas_limit) {
                                    let frame = made_frame(
                                        account,
                                        fresh,
                                        value_transferred,
                                        params,
                                        ExportedFunction::Constructor,
                                        (*old(gas_meter)).child(gas_limit),
                                    );
                                    {
                                      &&& result == Ok::<(Frame, E), (ExecError, u32)>((frame, executable))
                                      &&& *final(host) == *final(create)
                                      &&& *final(gas_meter) == (*old(gas_meter)).after_granting(gas_limit)
                                    }
                                  } else {
                                    {
                                      &&& result == Err::<(Frame, E), (ExecError, u32)>(
                                              (ExecError::caller(Error::OutOfGas), code_len),
                                          )
                                      &&& *final(host) == *final(create)
                                      &&& *final(gas_meter) == *old(gas_meter)
                                    }
                                  }
                            },
                        }
                  },
              }
            },
    {
        if max_depth == 0 {
            return Err((ExecError::from_error(Error::MaxCallDepthReached), 0));
        }
        let (account_id, contract_info, executable, entry_point, code_len) = match frame_args {
            FrameArgs::Call(account_id, contract) => {
                let contract = match contract {
                    Some(contract) => contract,
                    None => match host.alive_contract(&account_id) {
                        Some(contract) => contract,
                        None => {
                            return Err((ExecError::from_error(Error::NotCallable), 0));
                        },
                    },
                };
                let executable = match E::from_storage(
                    host,
                    contract.code_hash,
                    schedule,
                    gas_meter,
                ) {
                    Ok(executable) => executable,
                    Err(error) => {
                        return Err((ExecError::from_dispatch_error(error), 0));
                    },
                };
                let code_len = executable.code_len();
                let share = executable.occupied_storage();
                // Rent is charged here, and a contract that cannot pay is
                // refused; it is not evicted here, because eviction would be
                // rolled back with the caller's transaction.
                let charged = host.charge_rent(&account_id, contract, share);
                let contract = match outcome_of_rent(charged, Error::NotCallable, code_len) {
                    Ok(contract) => contract,
                    Err(failure) => {
                        return Err(failure);
                    },
                };
                (account_id, contract, executable, ExportedFunction::Call, code_len)
            },
            FrameArgs::Instantiate(caller, seed, executable, salt) => {
                let code_len = executable.code_len();
                let code_hash = executable.code_hash();
                let account_id = host.contract_address(&caller, code_hash, salt);
                let trie_id = host.generate_trie_id(&account_id, seed);
                let contract = match host.new_contract(&account_id, trie_id, *code_hash) {
                    Ok(contract) => contract,
                    Err(error) => {
                        return Err(
                            (
                                ExecError::from_dispatch_error(DispatchError::from_host(error)),
                                code_len,
                            ),
                        );
                    },
                };
                (account_id, contract, executable, ExportedFunction::Constructor, code_len)
            },
        };
        let rent_params = RentParams::new(&*host, &account_id, &contract_info, &executable);
        let nested_meter = match gas_meter.nested(gas_limit) {
            Ok(nested_meter) => nested_meter,
            Err(error) => {
                return Err((ExecError::from_dispatch_error(error), code_len));
            },
        };
        let frame = Frame {
            account_id,
            contract_info: CachedContract::Cached(contract_info),
            value_transferred,
            rent_params,
            entry_point,
            nested_meter,
        };
        Ok((frame, executable))
    }

    /// Makes the stack of an outermost invocation: its first frame, under
    /// the depth limit, the time and the block height that the chain names.
    /// The first frame is granted all the gas that `gas_meter` has left.
    pub(crate) fn new(
        host: &mut H,
        args: FrameArgs<'_, E>,
        origin: AccountId,
        gas_meter: &mut GasMeter,
        schedule: &'a H::Schedule,
        value: Balance,
    ) -> (result: Result<(Self, E), (ExecError, u32)>)
        ensures
            match result {
                Ok((stack, _)) => {
                    &&& stack@.wf()
                    &&& stack@.depth() == 1
                    &&& stack@.origin == origin
                    &&& stack@.account_counter is None
                    &&& stack@.top().value_transferred == value
                    &&& stack@.top().entry_point == args.entry_point()
                    &&& stack@.top().contract_info is Cached
                    &&& stack.schedule_of() == schedule
                    &&& (args matches FrameArgs::Call(dest, _) ==> stack@.top().account_id == dest)
                },
                Err((failure, _)) => failure.origin == ErrorOrigin::Caller,
            },
            exists|max_depth: u32| {
              &&& #[trigger] call_ensures(H::max_depth, (&*old(host),), max_depth)
              &&& if max_depth == 0 {
                    {
                      &&& result == Err::<(Self, E), (ExecError, u32)>(
                              (ExecError::caller(Error::MaxCallDepthReached), 0u32),
                          )
                      &&& *final(host) == *old(host)
                      &&& *final(gas_meter) == *old(gas_meter)
                    }
                  } else {
                    match args {
                        FrameArgs::Call(to, existing) => match existing {
                            Some(handed) => exists|
                                load: &mut H,
                                fuel: &mut GasMeter,
                                loaded: Result<E, DispatchError>,
                            | {
                              &&& #[trigger] call_ensures(
                                      E::from_storage,
                                      (
                                          load,
                                          handed.code_hash,
                                          schedule,
                                          fuel,
                                      ),
                                      loaded,
                                  )
                              &&& *load == *old(host)
                              &&& *fuel == *old(gas_meter)
                              &&& match loaded {
                                      Err(refused) => {
                                        &&& result == Err::<(Self, E), (ExecError, u32)>(
                                                (ExecError::from_dispatch(refused), 0u32),
                                            )
                                        &&& *final(host) == *final(load)
                                        &&& *final(gas_meter) == *final(fuel)
                                      },
                                      Ok(code) => exists|
                                          code_len: u32,
                                          share: u32,
                                          rent: &mut H,
                                          charged: Result<Option<AliveContractInfo>, HostError>,
                                      |
                                          #![trigger
                                              call_ensures(E::code_len, (&code,), code_len),
                                              call_ensures(E::occupied_storage, (&code,), share),
                                              call_ensures(H::charge_rent, (rent, &to, handed, share), charged),
                                          ] {
                                        &&& call_ensures(E::code_len, (&code,), code_len)
                                        &&& call_ensures(E::occupied_storage, (&code,), share)
                                        &&& call_ensures(H::charge_rent, (rent, &to, handed, share), charged)
                                        &&& *rent == *final(load)
                                        &&& match rent_outcome(charged, Error::NotCallable, code_len) {
                                                Err((evicted, size)) => {
                                                  &&& result == Err::<(Self, E), (ExecError, u32)>(
                                                          (evicted, size),
                                                      )
                                                  &&& *final(host) == *final(rent)
                                                  &&& *final(gas_meter) == *final(fuel)
                                                },
                                                Ok(kept) => exists|params: RentParams| {
                                                  &&& #[trigger] snapshot_of(&*final(rent), to, kept, &code, params)
                                                  &&& if (*final(fuel)).grants(0) {
                                                        let frame = made_frame(
                                                            to,
                                                            kept,
                                                            value,
                                                            params,
                                                            ExportedFunction::Call,
                                                            (*final(fuel)).child(0),
                                                        );
                                                        exists|now: Moment, height: BlockNumber|
                                                            #![trigger
                                                                call_ensures(H::now, (&*final(rent),), now),
                                                                call_ensures(H::block_number, (&*final(rent),), height),
                                                            ] {
                                                          &&& call_ensures(H::now, (&*final(rent),), now)
                                                          &&& call_ensures(H::block_number, (&*final(rent),), height)
                                                          &&& match result {
                                                                  Ok((stack, kept)) => {
                                                                    &&& kept == code
                                                                    &&& stack@ == first_stack(origin, now, height, max_depth, frame)
                                                                    &&& stack.schedule_of() == schedule
                                                                    &&& *final(host) == *final(rent)
                                                                    &&& *final(gas_meter) == (*final(fuel)).after_granting(0)
                                                                  },
                                                                  Err(_) => false,
                                                              }
                                                        }
                                                      } else {
                                                        {
                                                          &&& result == Err::<(Self, E), (ExecError, u32)>(
                                                                  (ExecError::caller(Error::OutOfGas), code_len),
                                                              )
                                                          &&& *final(host) == *final(rent)
                                                          &&& *final(gas_meter) == *final(fuel)
                                                        }
                                                      }
                                                },
                                            }
                                      },
                                  }
                            },
                            None => exists|found: Option<AliveContractInfo>| {
                              &&& #[trigger] call_ensures(H::alive_contract, (&*old(host), &to), found)
                              &&& match found {
                                      None => {
                                        &&& result == Err::<(Self, E), (ExecError, u32)>(
                                                (ExecError::caller(Error::NotCallable), 0u32),
                                            )
                                        &&& *final(host) == *old(host)
                                        &&& *final(gas_meter) == *old(gas_meter)
                                      },
                                      Some(stored) => exists|
                                          load: &mut H,
                                          fuel: &mut GasMeter,
                                          loaded: Result<E, DispatchError>,
                                      | {
                                        &&& #[trigger] call_ensures(
                                                E::from_storage,
                                                (
                                                    load,
                                                    stored.code_hash,
                                                    schedule,
                                                    fuel,
                                                ),
                                                loaded,
                                            )
                                        &&& *load == *old(host)
                                        &&& *fuel == *old(gas_meter)
                                        &&& match loaded {
                                                Err(refused) => {
                                                  &&& result == Err::<(Self, E), (ExecError, u32)>(
                                                          (ExecError::from_dispatch(refused), 0u32),
                                                      )
                                                  &&& *final(host) == *final(load)
                                                  &&& *final(gas_meter) == *final(fuel)
                                                },
                                                Ok(code) => exists|
                                                    code_len: u32,
                                                    share: u32,
                                                    rent: &mut H,
                                                    charged: Result<Option<AliveContractInfo>, HostError>,
                                                |
                                                    #![trigger
                                                        call_ensures(E::code_len, (&code,), code_len),
                                                        call_ensures(E::occupied_storage, (&code,), share),
                                                        call_ensures(H::charge_rent, (rent, &to, stored, share), charged),
                                                    ] {
                                                  &&& call_ensures(E::code_len, (&code,), code_len)
                                                  &&& call_ensures(E::occupied_storage, (&code,), share)
                                                  &&& call_ensures(H::charge_rent, (rent, &to, stored, share), charged)
                                                  &&& *rent == *final(load)
                                                  &&& match rent_outcome(charged, Error::NotCallable, code_len) {
                                                          Err((evicted, size)) => {
                                                            &&& result == Err::<(Self, E), (ExecError, u32)>(
                                                                    (evicted, size),
                                                                )
                                                            &&& *final(host) == *final(rent)
                                                            &&& *final(gas_meter) == *final(fuel)
                                                          },
                                                          Ok(kept) => exists|params: RentParams| {
                                                            &&& #[trigger] snapshot_of(&*final(rent), to, kept, &code, params)
                                                            &&& if (*final(fuel)).grants(0) {
                                                                  let frame = made_frame(
                                                                      to,
                                                                      kept,
                                                                      value,
                                                                      params,
                                                                      ExportedFunction::Call,
                                                                      (*final(fuel)).child(0),
                                                                  );
                                                                  exists|now: Moment, height: BlockNumber|
                                                                      #![trigger
                                                                          call_ensures(H::now, (&*final(rent),), now),
                                                                          call_ensures(H::block_number, (&*final(rent),), height),
                                                                      ] {
                                                                    &&& call_ensures(H::now, (&*final(rent),), now)
                                                                    &&& call_ensures(H::block_number, (&*final(rent),), height)
                                                                    &&& match result {
                                                                            Ok((stack, kept)) => {
                                                                              &&& kept == code
                                                                              &&& stack@ == first_stack(origin, now, height, max_depth, frame)
                                                                              &&& stack.schedule_of() == schedule
                                                                              &&& *final(host) == *final(rent)
                                                                              &&& *final(gas_meter) == (*final(fuel)).after_granting(0)
                                                                            },
                                                                            Err(_) => false,
                                                                        }
                                                                  }
                                                                } else {
                                                                  {
                                                                    &&& result == Err::<(Self, E), (ExecError, u32)>(
                                                                            (ExecError::caller(Error::OutOfGas), code_len),
                                                                        )
                                                                    &&& *final(host) == *final(rent)
                                                                    &&& *final(gas_meter) == *final(fuel)
                                                                  }
                                                                }
                                                          },
                                                      }
                                                },
                                            }
                                      },
                                  }
                            },
                        },
                        FrameArgs::Instantiate(deployer, seed, executable, salt) => exists|
                            code_len: u32,
                            code_hash: &CodeHash,
                            account: AccountId,
                            trie_id: TrieId,
                            create: &mut H,
                            created: Result<AliveContractInfo, HostError>,
                        |
                            #![trigger
                                call_ensures(E::code_len, (&executable,), code_len),
                                call_ensures(E::code_hash, (&executable,), code_hash),
                                call_ensures(H::generate_trie_id, (&*old(host), &account, seed), trie_id),
                                call_ensures(
                                    H::new_contract,
                                    (
                                        create,
                                        &account,
                                        trie_id,
                                        *code_hash,
                                    ),
                                    created,
                                ),
                            ] {
                          &&& call_ensures(E::code_len, (&executable,), code_len)
                          &&& call_ensures(E::code_hash, (&executable,), code_hash)
                          &&& call_ensures(
                                  H::contract_address,
                                  (
                                      &*old(host),
                                      &deployer,
                                      code_hash,
                                      salt,
                                  ),
                                  account,
                              )
                          &&& call_ensures(H::generate_trie_id, (&*old(host), &account, seed), trie_id)
                          &&& call_ensures(
                                  H::new_contract,
                                  (
                                      create,
                                      &account,
                                      trie_id,
                                      *code_hash,
                                  ),
                                  created,
                              )
                          &&& *create == *old(host)
                          &&& match created {
                                  Err(refused) => {
                                    &&& result == Err::<(Self, E), (ExecError, u32)>(
                                            (ExecError::from_dispatch(DispatchError::of_host(refused)), code_len),
                                        )
                                    &&& *final(host) == *final(create)
                                    &&& *final(gas_meter) == *old(gas_meter)
                                  },
                                  Ok(fresh) => exists|params: RentParams| {
                                    &&& #[trigger] snapshot_of(&*final(create), account, fresh, &executable, params)
                                    &&& if (*old(gas_meter)).grants(0) {
                                          let frame = made_frame(
                                              account,
                                              fresh,
                                              value,
                                              params,
                                              ExportedFunction::Constructor,
                                              (*old(gas_meter)).child(0),
                                          );
                                          exists|now: Moment, height: BlockNumber|
                                              #![trigger
                                                  call_ensures(H::now, (&*final(create),), now),
                                                  call_ensures(H::block_number, (&*final(create),), height),
                                              ] {
                                            &&& call_ensures(H::now, (&*final(create),), now)
                                            &&& call_ensures(H::block_number, (&*final(create),), height)
                                            &&& match result {
                                                    Ok((stack, kept)) => {
                                                      &&& kept == executable
                                                      &&& stack@ == first_stack(origin, now, height, max_depth, frame)
                                                      &&& stack.schedule_of() == schedule
                                                      &&& *final(host) == *final(create)
                                                      &&& *final(gas_meter) == (*old(gas_meter)).after_granting(0)
                                                    },
                                                    Err(_) => false,
                                                }
                                          }
                                        } else {
                                          {
                                            &&& result == Err::<(Self, E), (ExecError, u32)>(
                                                    (ExecError::caller(Error::OutOfGas), code_len),
                                                )
                                            &&& *final(host) == *final(create)
                                            &&& *final(gas_meter) == *old(gas_meter)
                                          }
                                        }
                                  },
                              }
                        },
                    }
                  }
            },
    {
        let max_depth = host.max_depth();
        match Self::new_frame(host, args, value, gas_meter, 0, schedule, max_depth) {
            Err(failure) => Err(failure),
            Ok((first_frame, executable)) => {
                let timestamp = host.now();
                let block_number = host.block_number();
                let stack = Self::with_first_frame(
                    origin,
                    schedule,
                    timestamp,
                    block_number,
                    max_depth,
                    first_frame,
                );
                Ok((stack, executable))
            },
        }
    }

    /// Makes a frame for an invocation by the running contract and puts it
    /// on the stack. Its gas is carved out of the running frame's meter.
    ///
    /// At the maximal depth nothing is begun: the stack and the chain stay
    /// as they are. Otherwise the frames below stay as they are but for the
    /// gas that left the running frame's meter.
    pub(crate) fn push_frame(
        &mut self,
        host: &mut H,
        frame_args: FrameArgs<'_, E>,
        value_transferred: Balance,
        gas_limit: Weight,
    ) -> (result: Result<E, (ExecError, u32)>)
        ensures
            final(self).schedule_of() == old(self).schedule_of(),
            final(self)@.wf(),
            old(self)@.depth() == old(self)@.max_depth ==> (match result {
                Ok(_) => false,
                Err(failure) => failure == (ExecError::caller(Error::MaxCallDepthReached), 0u32),
            }) && final(self)@ == old(self)@ && *final(host) == *old(host),
            match result {
                Ok(_) => {
                    let pushed = final(self)@.top();
                    let below = final(self)@.frames.drop_last();
                    &&& old(self)@.depth() < old(self)@.max_depth
                    &&& final(self)@ == old(self)@.with_frames(below).after_push(pushed)
                    &&& below == old(self)@.frames.update(
                        old(self)@.depth() - 1,
                        old(self)@.top().with_meter(below.last().nested_meter),
                    )
                    &&& pushed.value_transferred == value_transferred
                    &&& pushed.entry_point == frame_args.entry_point()
                    &&& pushed.contract_info is Cached
                    &&& (frame_args matches FrameArgs::Call(to, _) ==> pushed.account_id == to)
                },
                Err((failure, _)) => {
                    &&& failure.origin == ErrorOrigin::Caller
                    &&& final(self)@ == old(self)@.with_frames(
                        old(self)@.frames.update(
                            old(self)@.depth() - 1,
                            old(self)@.top().with_meter(final(self)@.top().nested_meter),
                        ),
                    )
                },
            },
            old(self)@.depth() < old(self)@.max_depth ==> match frame_args {
                FrameArgs::Call(to, existing) => match existing {
                    Some(handed) => exists|
                        load: &mut H,
                        fuel: &mut GasMeter,
                        loaded: Result<E, DispatchError>,
                    | {
                      &&& #[trigger] call_ensures(
                              E::from_storage,
                              (
                                  load,
                                  handed.code_hash,
                                  old(self).schedule_of(),
                                  fuel,
                              ),
                              loaded,
                          )
                      &&& *load == *old(host)
                      &&& *fuel == old(self)@.top().nested_meter
                      &&& match loaded {
                              Err(refused) => {
                                &&& result == Err::<E, (ExecError, u32)>(
                                        (ExecError::from_dispatch(refused), 0u32),
                                    )
                                &&& *final(host) == *final(load)
                                &&& final(self)@ == old(self)@.with_top_meter(*final(fuel))
                              },
                              Ok(code) => exists|
                                  code_len: u32,
                                  share: u32,
                                  rent: &mut H,
                                  charged: Result<Option<AliveContractInfo>, HostError>,
                              |
                                  #![trigger
                                      call_ensures(E::code_len, (&code,), code_len),
                                      call_ensures(E::occupied_storage, (&code,), share),
                                      call_ensures(H::charge_rent, (rent, &to, handed, share), charged),
                                  ] {
                                &&& call_ensures(E::code_len, (&code,), code_len)
                                &&& call_ensures(E::occupied_storage, (&code,), share)
                                &&& call_ensures(H::charge_rent, (rent, &to, handed, share), charged)
                                &&& *rent == *final(load)
                                &&& match rent_outcome(charged, Error::NotCallable, code_len) {
                                        Err((evicted, size)) => {
                                          &&& result == Err::<E, (ExecError, u32)>(
                                                  (evicted, size),
                                              )
                                          &&& *final(host) == *final(rent)
                                          &&& final(self)@ == old(self)@.with_top_meter(*final(fuel))
                                        },
                                        Ok(kept) => exists|params: RentParams| {
                                          &&& #[trigger] snapshot_of(&*final(rent), to, kept, &code, params)
                                          &&& if (*final(fuel)).grants(gas_limit) {
                                                let frame = made_frame(
                                                    to,
                                                    kept,
                                                    value_transferred,
                                                    params,
                                                    ExportedFunction::Call,
                                                    (*final(fuel)).child(gas_limit),
                                                );
                                                {
                                                  &&& result == Ok::<E, (ExecError, u32)>(code)
                                                  &&& *final(host) == *final(rent)
                                                  &&& final(self)@ == old(self)@.with_top_meter((*final(fuel)).after_granting(gas_limit)).after_push(frame)
                                                }
                                              } else {
                                                {
                                                  &&& result == Err::<E, (ExecError, u32)>(
                                                          (ExecError::caller(Error::OutOfGas), code_len),
                                                      )
                                                  &&& *final(host) == *final(rent)
                                                  &&& final(self)@ == old(self)@.with_top_meter(*final(fuel))
                                                }
                                              }
                                        },
                                    }
                              },
                          }
                    },
                    None => exists|found: Option<AliveContractInfo>| {
                      &&& #[trigger] call_ensures(H::alive_contract, (&*old(host), &to), found)
                      &&& match found {
                              None => {
                                &&& result == Err::<E, (ExecError, u32)>(
                                        (ExecError::caller(Error::NotCallable), 0u32),
                                    )
                                &&& *final(host) == *old(host)
                                &&& final(self)@ == old(self)@.with_top_meter(old(self)@.top().nested_meter)
                              },
                              Some(stored) => exists|
                                  load: &mut H,
                                  fuel: &mut GasMeter,
                                  loaded: Result<E, DispatchError>,
                              | {
                                &&& #[trigger] call_ensures(
                                        E::from_storage,
                                        (
                                            load,
                                            stored.code_hash,
                                            old(self).schedule_of(),
                                            fuel,
                                        ),
                                        loaded,
                                    )
                                &&& *load == *old(host)
                                &&& *fuel == old(self)@.top().nested_meter
                                &&& match loaded {
                                        Err(refused) => {
                                          &&& result == Err::<E, (ExecError, u32)>(
                                                  (ExecError::from_dispatch(refused), 0u32),
                                              )
                                          &&& *final(host) == *final(load)
                                          &&& final(self)@ == old(self)@.with_top_meter(*final(fuel))
                                        },
                                        Ok(code) => exists|
                                            code_len: u32,
                                            share: u32,
                                            rent: &mut H,
                                            charged: Result<Option<AliveContractInfo>, HostError>,
                                        |
                                            #![trigger
                                                call_ensures(E::code_len, (&code,), code_len),
                                                call_ensures(E::occupied_storage, (&code,), share),
                                                call_ensures(H::charge_rent, (rent, &to, stored, share), charged),
                                            ] {
                                          &&& call_ensures(E::code_len, (&code,), code_len)
                                          &&& call_ensures(E::occupied_storage, (&code,), share)
                                          &&& call_ensures(H::charge_rent, (rent, &to, stored, share), charged)
                                          &&& *rent == *final(load)
                                          &&& match rent_outcome(charged, Error::NotCallable, code_len) {
                                                  Err((evicted, size)) => {
                                                    &&& result == Err::<E, (ExecError, u32)>(
                                                            (evicted, size),
                                                        )
                                                    &&& *final(host) == *final(rent)
                                                    &&& final(self)@ == old(self)@.with_top_meter(*final(fuel))
                                                  },
                                                  Ok(kept) => exists|params: RentParams| {
                                                    &&& #[trigger] snapshot_of(&*final(rent), to, kept, &code, params)
                                                    &&& if (*final(fuel)).grants(gas_limit) {
                                                          let frame = made_frame(
                                                              to,
                                                              kept,
                                                              value_transferred,
                                                              params,
                                                              ExportedFunction::Call,
                                                              (*final(fuel)).child(gas_limit),
                                                          );
                                                          {
                                                            &&& result == Ok::<E, (ExecError, u32)>(code)
                                                            &&& *final(host) == *final(rent)
                                                            &&& final(self)@ == old(self)@.with_top_meter((*final(fuel)).after_granting(gas_limit)).after_push(frame)
                                                          }
                                                        } else {
                                                          {
                                                            &&& result == Err::<E, (ExecError, u32)>(
                                                                    (ExecError::caller(Error::OutOfGas), code_len),
                                                                )
                                                            &&& *final(host) == *final(rent)
                                                            &&& final(self)@ == old(self)@.with_top_meter(*final(fuel))
                                                          }
                                                        }
                                                  },
                                              }
                                        },
                                    }
                              },
                          }
                    },
                },
                FrameArgs::Instantiate(deployer, seed, executable, salt) => exists|
                    code_len: u32,
                    code_hash: &CodeHash,
                    account: AccountId,
                    trie_id: TrieId,
                    create: &mut H,
                    created: Result<AliveContractInfo, HostError>,
                |
                    #![trigger
                        call_ensures(E::code_len, (&executable,), code_len),
                        call_ensures(E::code_hash, (&executable,), code_hash),
                        call_ensures(H::generate_trie_id, (&*old(host), &account, seed), trie_id),
                        call_ensures(
                            H::new_contract,
                            (
                                create,
                                &account,
                                trie_id,
                                *code_hash,
                            ),
                            created,
                        ),
                    ] {
                  &&& call_ensures(E::code_len, (&executable,), code_len)
                  &&& call_ensures(E::code_hash, (&executable,), code_hash)
                  &&& call_ensures(
                          H::contract_address,
                          (
                              &*old(host),
                              &deployer,
                              code_hash,
                              salt,
                          ),
                          account,
                      )
                  &&& call_ensures(H::generate_trie_id, (&*old(host), &account, seed), trie_id)
                  &&& call_ensures(
                          H::new_contract,
                          (
                              create,
                              &account,
                              trie_id,
                              *code_hash,
                          ),
                          created,
                      )
                  &&& *create == *old(host)
                  &&& match created {
                          Err(refused) => {
                            &&& result == Err::<E, (ExecError, u32)>(
                                    (ExecError::from_dispatch(DispatchError::of_host(refused)), code_len),
                                )
                            &&& *final(host) == *final(create)
                            &&& final(self)@ == old(self)@.with_top_meter(old(self)@.top().nested_meter)
                          },
                          Ok(fresh) => exists|params: RentParams| {
                            &&& #[trigger] snapshot_of(&*final(create), account, fresh, &executable, params)
                            &&& if (old(self)@.top().nested_meter).grants(gas_limit) {
                                  let frame = made_frame(
                                      account,
                                      fresh,
                                      value_transferred,
                                      params,
                                      ExportedFunction::Constructor,
                                      (old(self)@.top().nested_meter).child(gas_limit),
                                  );
                                  {
                                    &&& result == Ok::<E, (ExecError, u32)>(executable)
                                    &&& *final(host) == *final(create)
                                    &&& final(self)@ == old(self)@.with_top_meter((old(self)@.top().nested_meter).after_granting(gas_limit)).after_push(frame)
                                  }
                                } else {
                                  {
                                    &&& result == Err::<E, (ExecError, u32)>(
                                            (ExecError::caller(Error::OutOfGas), code_len),
                                        )
                                    &&& *final(host) == *final(create)
                                    &&& final(self)@ == old(self)@.with_top_meter(old(self)@.top().nested_meter)
                                  }
                                }
                          },
                      }
                },
            },
    {
        let depth = self.depth();
        if depth == self.depth_limit() {
            proof {
                assert(old(self)@.frames.update(
                    old(self)@.depth() - 1,
                    old(self)@.top().with_meter(old(self)@.top().nested_meter),
                ) =~= old(self)@.frames);
            }
            return Err((ExecError::from_error(Error::MaxCallDepthReached), 0));
        }
        let mut meter = self.top_meter();
        let made = Self::new_frame(
            host,
            frame_args,
            value_transferred,
            &mut meter,
            gas_limit,
            self.schedule_ref(),
            self.depth_limit(),
        );
        self.set_top_meter(meter);
        match made {
            Err(failure) => Err(failure),
            Ok((frame, executable)) => {
                let ghost below = self@.frames;
                self.push(frame);
                assert(self@.frames.drop_last() =~= below);
                Ok(executable)
            },
        }
    }

    /// Sends the value of the running frame from its caller to its contract.
    /// The caller is held to the subsistence rule if it is a contract, that
    /// is, if the running frame is not the first.
    pub(crate) fn initial_transfer(&self, host: &mut H) -> (result: DispatchResult)
        ensures
            self@.top().value_transferred == 0 ==> result is Ok && *final(host) == *old(host),
            self@.top().value_transferred != 0 ==> exists|
                decision: Result<ExistenceRequirement, Error>,
            | #[trigger]
                decided_for(
                    &*old(host),
                    self@.caller_is_contract(),
                    false,
                    self@.caller(),
                    self@.top().value_transferred,
                    decision,
                ) && (match decision {
                    Err(objection) => result == Err::<(), DispatchError>(
                        DispatchError::Contract(objection),
                    ) && *final(host) == *old(host),
                    Ok(existence) => exists|currency: &mut H, answer: Result<(), HostError>|
                        *currency == *old(host) && *final(currency) == *final(host) && #[trigger]
                        call_ensures(
                            H::currency_transfer,
                            (
                                currency,
                                &self@.caller(),
                                &self@.top().account_id,
                                self@.top().value_transferred,
                                existence,
                            ),
                            answer,
                        ) && result == transfer_outcome(answer),
                }),
            result is Err ==> (result == Err::<(), DispatchError>(
                DispatchError::Contract(Error::BelowSubsistenceThreshold),
            ) || result == Err::<(), DispatchError>(
                DispatchError::Contract(Error::TransferFailed),
            )),
            result == Err::<(), DispatchError>(
                DispatchError::Contract(Error::BelowSubsistenceThreshold),
            ) ==> self@.depth() > 1 && *final(host) == *old(host),
    {
        let frame = self.frame();
        transfer(
            host,
            self.caller_is_contract(),
            false,
            self.caller_account(),
            &frame.account_id,
            frame.value_transferred,
        )
    }

    /// Ends the running frame: the stack changes as [`crate::model::StackView::after_pop`]
    /// says, and the record that [`crate::model::StackView::write_back`] names is written
    /// to the chain's storage, after the stack has changed. Where no record
    /// is named the chain is left as it is.
    pub(crate) fn pop_frame(&mut self, host: &mut H, persist: bool)
        ensures
            final(self)@ == old(self)@.after_pop(persist),
            final(self)@.wf(),
            final(self).schedule_of() == old(self).schedule_of(),
            old(self)@.write_back(persist) is None ==> *final(host) == *old(host),
            old(self)@.write_back(persist) matches Some((account, record)) ==> exists|
                chain: &mut H,
            |
                *chain == *old(host) && *final(chain) == *final(host) && #[trigger] call_ensures(
                    H::store_contract,
                    (chain, &account, record),
                    (),
                ),
    {
        match self.retire_frame(persist) {
            Some((account_id, contract)) => {
                host.store_contract(&account_id, contract);
            },
            None => {},
        }
    }

    /// Takes the record out of the frame of a constructor that has
    /// committed, so that its first rent can be charged. A contract that has
    /// removed itself in its constructor has no record: that is refused.
    pub(crate) fn surrender_record(&mut self, host: &H, code_len: u32) -> (result: Result<
        AliveContractInfo,
        (ExecError, u32),
    >)
        ensures
            final(self).schedule_of() == old(self).schedule_of(),
            old(self)@.top().contract_info is Terminated ==> result == Err::<
                AliveContractInfo,
                (ExecError, u32),
            >((ExecError::caller(Error::NotCallable), code_len)) && final(self)@ == old(self)@,
            !(old(self)@.top().contract_info is Terminated) ==> result is Ok && final(self)@
                == old(self)@.with_top_cache(CachedContract::Invalidated),
            old(self)@.top().contract_info is Cached ==> result == Ok::<
                AliveContractInfo,
                (ExecError, u32),
            >(old(self)@.top().contract_info->Cached_0),
            result matches Ok(record) ==> loaded_record(
                old(self)@.top().contract_info,
                host,
                old(self)@.top().account_id,
                record,
            ),
    {
        let mut frame = *self.frame();
        if let CachedContract::Terminated = frame.contract_info {
            return Err((ExecError::from_error(Error::NotCallable), code_len));
        }
        let info = frame.invalidate(host);
        self.set_top_cache(frame.contract_info);
        Ok(info)
    }

    /// Concludes a constructor from what charging the first rent gave.
    ///
    /// A contract that paid keeps the record that came back, cached in its
    /// frame, and is announced: the event to deposit is returned. A contract
    /// that cannot pay was not funded; a failure of the chain is handed on.
    /// In both cases the stack stays as it is and there is no event.
    pub(crate) fn finish_constructor(
        &mut self,
        charged: Result<Option<AliveContractInfo>, HostError>,
        code_len: u32,
    ) -> (result: Result<Event, (ExecError, u32)>)
        ensures
            final(self).schedule_of() == old(self).schedule_of(),
            match rent_outcome(charged, Error::NewContractNotFunded, code_len) {
                Ok(contract) => result == Ok::<Event, (ExecError, u32)>(
                    Event::Instantiated(old(self)@.caller(), old(self)@.top().account_id),
                ) && final(self)@ == old(self)@.with_top_cache(CachedContract::Cached(contract)),
                Err(failure) => result == Err::<Event, (ExecError, u32)>(failure) && final(self)@
                    == old(self)@,
            },
    {
        match outcome_of_rent(charged, Error::NewContractNotFunded, code_len) {
            Err(failure) => Err(failure),
            Ok(contract) => {
                let event = Event::Instantiated(*self.caller_account(), self.frame().account_id);
                self.set_top_cache(CachedContract::Cached(contract));
                Ok(event)
            },
        }
    }

    /// Closes the transaction of the running frame once the contract has
    /// answered, or once sending the value has failed. Says what the
    /// invocation yields and which event announces it.
    ///
    /// The transaction is committed where [`commits`] holds of `outcome` and
    /// rolled back otherwise. A constructor that committed then has to have
    /// kept its record and pays its first rent; where either fails, the
    /// failure is what the invocation yields. In every other case the
    /// invocation yields `outcome` with `code_len`, and the stack stays as
    /// it is.
    ///
    /// There is an event exactly where a constructor committed and was
    /// concluded: the instantiation of the frame's contract by the frame's
    /// caller.
    pub(crate) fn settle(
        &mut self,
        host: &mut H,
        outcome: Result<ExecReturnValue, (ExecError, u32)>,
        entry_point: ExportedFunction,
        code_len: u32,
        occupied_storage: u32,
    ) -> (settled: (Output, Option<Event>))
        ensures
            final(self).schedule_of() == old(self).schedule_of(),
            final(self)@.wf(),
            settled.1 is Some <==> commits(outcome) && entry_point == ExportedFunction::Constructor
                && settled.0 is Ok,
            settled.1 is Some ==> settled.1 == Some(
                Event::Instantiated(old(self)@.caller(), old(self)@.top().account_id),
            ),
            !(commits(outcome) && entry_point == ExportedFunction::Constructor) ==> settled.0
                == output_of(outcome, code_len) && final(self)@ == old(self)@,
            commits(outcome) && entry_point == ExportedFunction::Constructor ==> (
            match old(self)@.top().contract_info {
                CachedContract::Terminated => settled.0 == Err::<
                    (ExecReturnValue, u32),
                    (ExecError, u32),
                >((ExecError::caller(Error::NotCallable), code_len)) && final(self)@ == old(self)@,
                _ => match settled.0 {
                    Ok(_) => {
                        let kept = final(self)@.top().contract_info;
                        &&& settled.0 == output_of(outcome, code_len)
                        &&& kept is Cached
                        &&& final(self)@ == old(self)@.with_top_cache(kept)
                    },
                    Err((failure, size)) => {
                        &&& failure.origin == ErrorOrigin::Caller
                        &&& size == code_len
                        &&& final(self)@ == old(self)@.with_top_cache(
                            CachedContract::Invalidated,
                        )
                    },
                },
            }),
            exists|close: &mut H|
                #![trigger call_ensures(H::commit_transaction, (close,), ())]
                #![trigger call_ensures(H::rollback_transaction, (close,), ())]
                *close == *old(host) && (commits(outcome) ==> call_ensures(
                    H::commit_transaction,
                    (close,),
                    (),
                )) && (!commits(outcome) ==> call_ensures(H::rollback_transaction, (close,), ()))
                    && (if pays_first_rent(outcome, entry_point, old(self)@) {
                    exists|
                        record: AliveContractInfo,
                        rent: &mut H,
                        charged: Result<Option<AliveContractInfo>, HostError>,
                    | #[trigger]
                        call_ensures(
                            H::charge_rent,
                            (rent, &old(self)@.top().account_id, record, occupied_storage),
                            charged,
                        ) && loaded_record(
                            old(self)@.top().contract_info,
                            &*final(close),
                            old(self)@.top().account_id,
                            record,
                        ) && *rent == *final(close) && *final(rent) == *final(host) && (
                        match rent_outcome(charged, Error::NewContractNotFunded, code_len) {
                            Ok(kept) => settled.0 == output_of(outcome, code_len) && final(self)@
                                == old(self)@.with_top_cache(CachedContract::Cached(kept)),
                            Err(failure) => settled.0 == Err::<
                                (ExecReturnValue, u32),
                                (ExecError, u32),
                            >(failure),
                        })
                } else {
                    *final(host) == *final(close)
                }),
    {
        let committed = is_committed(&outcome);
        if committed {
            host.commit_transaction();
        } else {
            host.rollback_transaction();
        }
        proof {
            use_type_invariant(&*self);
            self.lemma_within_depth();
        }
        let mut announcement: Option<Event> = None;
        if committed && entry_point == ExportedFunction::Constructor {
            let info = match self.surrender_record(&*host, code_len) {
                Ok(info) => info,
                Err(failure) => {
                    return (Err(failure), None);
                },
            };
            let account_id = self.frame().account_id;
            // The rent of the first block is collected at once, so that no
            // contract is created that never meant to pay for a single block.
            let charged = host.charge_rent(&account_id, info, occupied_storage);
            match self.finish_constructor(charged, code_len) {
                Ok(event) => {
                    announcement = Some(event);
                    proof {
                        lemma_same_top_cache(self@);
                        assert(self@.frames =~= old(self)@.with_top_cache(
                            self@.top().contract_info,
                        ).frames);
                    }
                },
                Err(failure) => {
                    return (Err(failure), None);
                },
            }
        }
        match outcome {
            Ok(value) => (Ok((value, code_len)), announcement),
            Err(failure) => (Err(failure), announcement),
        }
    }

    /// Runs the frame on top of the stack, inside a storage transaction of
    /// its own.
    ///
    /// The value is sent first; where that fails the contract does not run.
    /// What the contract answers is read by [`callee_outcome`];
    /// [`Stack::settle`] closes the transaction and concludes a constructor,
    /// and the event that it names, if any, is deposited last.
    pub(crate) fn raw_run(&mut self, host: &mut H, executable: E, input_data: Vec<u8>) -> (output:
        Output)
        ensures
            final(self)@.wf(),
            old(self)@.top().entry_point == ExportedFunction::Constructor && persists(output)
                ==> final(self)@.top().contract_info is Cached,
            old(self)@.same_invocations(final(self)@),
            ({
              let start = old(self)@;
              exists|
                  tx: &mut H,
                  close: &mut H,
                  outcome: Result<ExecReturnValue, (ExecError, u32)>,
                  mid: StackView,
                  code_len: u32,
                  share: u32,
              |
                  #![trigger
                      call_ensures(H::start_transaction, (tx,), ()),
                      call_ensures(H::commit_transaction, (close,), ()),
                      pays_first_rent(outcome, start.top().entry_point, mid),
                      call_ensures(E::code_len, (&executable,), code_len),
                      call_ensures(E::occupied_storage, (&executable,), share),
                  ]
                  #![trigger
                      call_ensures(H::start_transaction, (tx,), ()),
                      call_ensures(H::rollback_transaction, (close,), ()),
                      pays_first_rent(outcome, start.top().entry_point, mid),
                      call_ensures(E::code_len, (&executable,), code_len),
                      call_ensures(E::occupied_storage, (&executable,), share),
                  ] {
                &&& *tx == *old(host)
                &&& call_ensures(H::start_transaction, (tx,), ())
                &&& call_ensures(E::code_len, (&executable,), code_len)
                &&& call_ensures(E::occupied_storage, (&executable,), share)
                &&& start.top().value_transferred == 0 ==> exists|ext: &mut Stack<'a, H, E>, chain: &mut H, answer: ExecResult| {
                      &&& #[trigger] call_ensures(
                              E::execute,
                              (
                                  executable,
                                  ext,
                                  chain,
                                  &start.top().entry_point,
                                  input_data,
                              ),
                              answer,
                          )
                      &&& (*ext)@ == start
                      &&& *chain == *final(tx)
                      &&& outcome == callee_outcome(answer, code_len)
                      &&& mid == (*final(ext))@
                      &&& *close == *final(chain)
                    }
                &&& start.top().value_transferred != 0 ==> exists|decision: Result<ExistenceRequirement, Error>| {
                      &&& #[trigger] decided_for(
                              &*final(tx),
                              start.caller_is_contract(),
                              false,
                              start.caller(),
                              start.top().value_transferred,
                              decision,
                          )
                      &&& match decision {
                              Err(objection) => {
                                &&& outcome == Err::<ExecReturnValue, (ExecError, u32)>(
                                        (ExecError::caller(objection), 0u32),
                                    )
                                &&& mid == start
                                &&& *close == *final(tx)
                              },
                              Ok(existence) => exists|currency: &mut H, moved: Result<(), HostError>| {
                                &&& #[trigger] call_ensures(
                                        H::currency_transfer,
                                        (
                                            currency,
                                            &start.caller(),
                                            &start.top().account_id,
                                            start.top().value_transferred,
                                            existence,
                                        ),
                                        moved,
                                    )
                                &&& *currency == *final(tx)
                                &&& match moved {
                                        Err(_) => {
                                          &&& outcome == Err::<ExecReturnValue, (ExecError, u32)>(
                                                  (ExecError::caller(Error::TransferFailed), 0u32),
                                              )
                                          &&& mid == start
                                          &&& *close == *final(currency)
                                        },
                                        Ok(()) => exists|ext: &mut Stack<'a, H, E>, chain: &mut H, answer: ExecResult| {
                                          &&& #[trigger] call_ensures(
                                                  E::execute,
                                                  (
                                                      executable,
                                                      ext,
                                                      chain,
                                                      &start.top().entry_point,
                                                      input_data,
                                                  ),
                                                  answer,
                                              )
                                          &&& (*ext)@ == start
                                          &&& *chain == *final(currency)
                                          &&& outcome == callee_outcome(answer, code_len)
                                          &&& mid == (*final(ext))@
                                          &&& *close == *final(chain)
                                        },
                                    }
                              },
                          }
                    }
                &&& commits(outcome) ==> call_ensures(H::commit_transaction, (close,), ())
                &&& !commits(outcome) ==> call_ensures(H::rollback_transaction, (close,), ())
                &&& start.same_invocations(mid)
                &&& if pays_first_rent(outcome, start.top().entry_point, mid) {
                      exists|
                          record: AliveContractInfo,
                          rent: &mut H,
                          charged: Result<Option<AliveContractInfo>, HostError>,
                      | {
                        &&& #[trigger] call_ensures(
                                H::charge_rent,
                                (
                                    rent,
                                    &mid.top().account_id,
                                    record,
                                    share,
                                ),
                                charged,
                            )
                        &&& loaded_record(
                                mid.top().contract_info,
                                &*final(close),
                                mid.top().account_id,
                                record,
                            )
                        &&& *rent == *final(close)
                        &&& match rent_outcome(charged, Error::NewContractNotFunded, code_len) {
                                Ok(kept) => {
                                  &&& output == output_of(outcome, code_len)
                                  &&& exists|announce: &mut H, topics: Vec<Topic>| {
                                        &&& #[trigger] call_ensures(
                                                H::deposit_event,
                                                (
                                                    announce,
                                                    topics,
                                                    Event::Instantiated(mid.caller(), mid.top().account_id),
                                                ),
                                                (),
                                            )
                                        &&& topics@.len() == 0
                                        &&& *announce == *final(rent)
                                        &&& {
                                              &&& final(self)@ == mid.with_top_cache(CachedContract::Cached(kept))
                                              &&& *final(host) == *final(announce)
                                            }
                                      }
                                },
                                Err(failure) => {
                                  &&& output == Err::<(ExecReturnValue, u32), (ExecError, u32)>(failure)
                                  &&& {
                                        &&& final(self)@ == mid.with_top_cache(CachedContract::Invalidated)
                                        &&& *final(host) == *final(rent)
                                      }
                                },
                            }
                      }
                    } else {
                      &&& output == (if commits(outcome) && start.top().entry_point
                              == ExportedFunction::Constructor {
                              Err::<(ExecReturnValue, u32), (ExecError, u32)>(
                                  (ExecError::caller(Error::NotCallable), code_len),
                              )
                          } else {
                              output_of(outcome, code_len)
                          })
                      &&& {
                            &&& final(self)@ == mid
                            &&& *final(host) == *final(close)
                          }
                    }
              }
            }),
    {
        // The share of the code's storage is fixed before the code runs: a
        // constructor that instantiates the same code again is still charged
        // as if it had not.
        let occupied_storage = executable.occupied_storage();
        let code_len = executable.code_len();
        let entry_point = self.frame().entry_point;

        host.start_transaction();
        let outcome = match self.initial_transfer(host) {
            Err(error) => Err((ExecError::from_dispatch_error(error), 0)),
            Ok(()) => outcome_of_callee(
                executable.execute(self, host, &entry_point, input_data),
                code_len,
            ),
        };
        let (output, announcement) = self.settle(
            host,
            outcome,
            entry_point,
            code_len,
            occupied_storage,
        );
        match announcement {
            Some(event) => {
                host.deposit_event(Vec::new(), event);
            },
            None => {},
        }
        output
    }

    /// Ends the running frame once its invocation has yielded `output`.
    ///
    /// A constructor that failed gives its seed back. Then the frame ends:
    /// its cached record persists where [`persists`] holds of `output`.
    pub(crate) fn end_frame(&mut self, host: &mut H, output: &Output)
        ensures
            final(self).schedule_of() == old(self).schedule_of(),
            final(self)@.wf(),
            final(self)@ == old(self)@.after_failure_of(*output is Err).after_pop(
                persists(*output),
            ),
            old(self)@.write_back(persists(*output)) is None ==> *final(host) == *old(host),
            old(self)@.write_back(persists(*output)) matches Some((account, record)) ==> exists|
                chain: &mut H,
            |
                *chain == *old(host) && *final(chain) == *final(host) && #[trigger] call_ensures(
                    H::store_contract,
                    (chain, &account, record),
                    (),
                ),
    {
        if output.is_err() && self.frame().entry_point == ExportedFunction::Constructor {
            self.release_seed();
        }
        let persist = is_persisted(output);
        self.pop_frame(host, persist);
    }

    /// Runs the frame on top of the stack and ends it: [`Stack::raw_run`],
    /// then [`Stack::end_frame`].
    pub(crate) fn run(&mut self, host: &mut H, executable: E, input_data: Vec<u8>) -> (output:
        Output)
        ensures
            final(self)@.wf(),
            old(self)@.returned_to(final(self)@),
            ({
              let start = old(self)@;
              exists|
                  tx: &mut H,
                  close: &mut H,
                  outcome: Result<ExecReturnValue, (ExecError, u32)>,
                  mid: StackView,
                  code_len: u32,
                  share: u32,
              |
                  #![trigger
                      call_ensures(H::start_transaction, (tx,), ()),
                      call_ensures(H::commit_transaction, (close,), ()),
                      pays_first_rent(outcome, start.top().entry_point, mid),
                      call_ensures(E::code_len, (&executable,), code_len),
                      call_ensures(E::occupied_storage, (&executable,), share),
                  ]
                  #![trigger
                      call_ensures(H::start_transaction, (tx,), ()),
                      call_ensures(H::rollback_transaction, (close,), ()),
                      pays_first_rent(outcome, start.top().entry_point, mid),
                      call_ensures(E::code_len, (&executable,), code_len),
                      call_ensures(E::occupied_storage, (&executable,), share),
                  ] {
                &&& *tx == *old(host)
                &&& call_ensures(H::start_transaction, (tx,), ())
                &&& call_ensures(E::code_len, (&executable,), code_len)
                &&& call_ensures(E::occupied_storage, (&executable,), share)
                &&& start.top().value_transferred == 0 ==> exists|ext: &mut Stack<'a, H, E>, chain: &mut H, answer: ExecResult| {
                      &&& #[trigger] call_ensures(
                              E::execute,
                              (
                                  executable,
                                  ext,
                                  chain,
                                  &start.top().entry_point,
                                  input_data,
                              ),
                              answer,
                          )
                      &&& (*ext)@ == start
                      &&& *chain == *final(tx)
                      &&& outcome == callee_outcome(answer, code_len)
                      &&& mid == (*final(ext))@
                      &&& *close == *final(chain)
                    }
                &&& start.top().value_transferred != 0 ==> exists|decision: Result<ExistenceRequirement, Error>| {
                      &&& #[trigger] decided_for(
                              &*final(tx),
                              start.caller_is_contract(),
                              false,
                              start.caller(),
                              start.top().value_transferred,
                              decision,
                          )
                      &&& match decision {
                              Err(objection) => {
                                &&& outcome == Err::<ExecReturnValue, (ExecError, u32)>(
                                        (ExecError::caller(objection), 0u32),
                                    )
                                &&& mid == start
                                &&& *close == *final(tx)
                              },
                              Ok(existence) => exists|currency: &mut H, moved: Result<(), HostError>| {
                                &&& #[trigger] call_ensures(
                                        H::currency_transfer,
                                        (
                                            currency,
                                            &start.caller(),
                                            &start.top().account_id,
                                            start.top().value_transferred,
                                            existence,
                                        ),
                                        moved,
                                    )
                                &&& *currency == *final(tx)
                                &&& match moved {
                                        Err(_) => {
                                          &&& outcome == Err::<ExecReturnValue, (ExecError, u32)>(
                                                  (ExecError::caller(Error::TransferFailed), 0u32),
                                              )
                                          &&& mid == start
                                          &&& *close == *final(currency)
                                        },
                                        Ok(()) => exists|ext: &mut Stack<'a, H, E>, chain: &mut H, answer: ExecResult| {
                                          &&& #[trigger] call_ensures(
                                                  E::execute,
                                                  (
                                                      executable,
                                                      ext,
                                                      chain,
                                                      &start.top().entry_point,
                                                      input_data,
                                                  ),
                                                  answer,
                                              )
                                          &&& (*ext)@ == start
                                          &&& *chain == *final(currency)
                                          &&& outcome == callee_outcome(answer, code_len)
                                          &&& mid == (*final(ext))@
                                          &&& *close == *final(chain)
                                        },
                                    }
                              },
                          }
                    }
                &&& commits(outcome) ==> call_ensures(H::commit_transaction, (close,), ())
                &&& !commits(outcome) ==> call_ensures(H::rollback_transaction, (close,), ())
                &&& start.same_invocations(mid)
                &&& if pays_first_rent(outcome, start.top().entry_point, mid) {
                      exists|
                          record: AliveContractInfo,
                          rent: &mut H,
                          charged: Result<Option<AliveContractInfo>, HostError>,
                      | {
                        &&& #[trigger] call_ensures(
                                H::charge_rent,
                                (
                                    rent,
                                    &mid.top().account_id,
                                    record,
                                    share,
                                ),
                                charged,
                            )
                        &&& loaded_record(
                                mid.top().contract_info,
                                &*final(close),
                                mid.top().account_id,
                                record,
                            )
                        &&& *rent == *final(close)
                        &&& match rent_outcome(charged, Error::NewContractNotFunded, code_len) {
                                Ok(kept) => {
                                  &&& output == output_of(outcome, code_len)
                                  &&& exists|announce: &mut H, topics: Vec<Topic>| {
                                        &&& #[trigger] call_ensures(
                                                H::deposit_event,
                                                (
                                                    announce,
                                                    topics,
                                                    Event::Instantiated(mid.caller(), mid.top().account_id),
                                                ),
                                                (),
                                            )
                                        &&& topics@.len() == 0
                                        &&& *announce == *final(rent)
                                        &&& {
                                              let closed = mid.with_top_cache(CachedContract::Cached(kept)).after_failure_of(output is Err);
                                              &&& final(self)@ == closed.after_pop(persists(output))
                                              &&& match closed.write_back(persists(output)) {
                                                      None => *final(host) == *final(announce),
                                                      Some((owner, record)) => exists|store: &mut H| {
                                                        &&& #[trigger] call_ensures(H::store_contract, (store, &owner, record), ())
                                                        &&& *store == *final(announce)
                                                        &&& *final(store) == *final(host)
                                                      },
                                                  }
                                            }
                                      }
                                },
                                Err(failure) => {
                                  &&& output == Err::<(ExecReturnValue, u32), (ExecError, u32)>(failure)
                                  &&& {
                                        let closed = mid.with_top_cache(CachedContract::Invalidated).after_failure_of(output is Err);
                                        &&& final(self)@ == closed.after_pop(persists(output))
                                        &&& match closed.write_back(persists(output)) {
                                                None => *final(host) == *final(rent),
                                                Some((owner, record)) => exists|store: &mut H| {
                                                  &&& #[trigger] call_ensures(H::store_contract, (store, &owner, record), ())
                                                  &&& *store == *final(rent)
                                                  &&& *final(store) == *final(host)
                                                },
                                            }
                                      }
                                },
                            }
                      }
                    } else {
                      &&& output == (if commits(outcome) && start.top().entry_point
                              == ExportedFunction::Constructor {
                              Err::<(ExecReturnValue, u32), (ExecError, u32)>(
                                  (ExecError::caller(Error::NotCallable), code_len),
                              )
                          } else {
                              output_of(outcome, code_len)
                          })
                      &&& {
                            let closed = mid.after_failure_of(output is Err);
                            &&& final(self)@ == closed.after_pop(persists(output))
                            &&& match closed.write_back(persists(output)) {
                                    None => *final(host) == *final(close),
                                    Some((owner, record)) => exists|store: &mut H| {
                                      &&& #[trigger] call_ensures(H::store_contract, (store, &owner, record), ())
                                      &&& *store == *final(close)
                                      &&& *final(store) == *final(host)
                                    },
                                }
                          }
                    }
              }
            }),
    {
        let output = self.raw_run(host, executable, input_data);
        proof {
            lemma_pop_returns(old(self)@, self@, output is Err, persists(output));
        }
        self.end_frame(host, &output);
        output
    }

    /// Calls the contract at `dest` on behalf of `origin`, sending `value`
    /// along. The invocation may spend all the gas that `gas_meter` has
    /// left; what it does not spend is back in the meter afterwards.
    ///
    /// The contract says, call by call, what is asked of the chain and of
    /// the code and what follows from each answer: the depth limit, the
    /// record, the code, the rent, the snapshot and the grant of gas as in
    /// [`Stack::new_frame`]; the sending of the value, the run, the closing
    /// of the transaction as in [`Stack::raw_run`]; and the record that is
    /// written when the frame ends.
    pub fn with_call(
        host: &mut H,
        origin: AccountId,
        dest: AccountId,
        gas_meter: &mut GasMeter,
        schedule: &'a H::Schedule,
        value: Balance,
        input_data: Vec<u8>,
    ) -> (output: Output)
        ensures
            exists|max_depth: u32| {
              &&& #[trigger] call_ensures(H::max_depth, (&*old(host),), max_depth)
              &&& if max_depth == 0 {
                    {
                      &&& output == Err::<(ExecReturnValue, u32), (ExecError, u32)>(
                              (ExecError::caller(Error::MaxCallDepthReached), 0u32),
                          )
                      &&& *final(host) == *old(host)
                      &&& *final(gas_meter) == *old(gas_meter)
                    }
                  } else {
                    exists|found: Option<AliveContractInfo>| {
                      &&& #[trigger] call_ensures(H::alive_contract, (&*old(host), &dest), found)
                      &&& match found {
                              None => {
                                &&& output == Err::<(ExecReturnValue, u32), (ExecError, u32)>(
                                        (ExecError::caller(Error::NotCallable), 0u32),
                                    )
                                &&& *final(host) == *old(host)
                                &&& *final(gas_meter) == *old(gas_meter)
                              },
                              Some(stored) => exists|
                                  load: &mut H,
                                  fuel: &mut GasMeter,
                                  loaded: Result<E, DispatchError>,
                              | {
                                &&& #[trigger] call_ensures(
                                        E::from_storage,
                                        (
                                            load,
                                            stored.code_hash,
                                            schedule,
                                            fuel,
                                        ),
                                        loaded,
                                    )
                                &&& *load == *old(host)
                                &&& *fuel == *old(gas_meter)
                                &&& match loaded {
                                        Err(refused) => {
                                          &&& output == Err::<(ExecReturnValue, u32), (ExecError, u32)>(
                                                  (ExecError::from_dispatch(refused), 0u32),
                                              )
                                          &&& *final(host) == *final(load)
                                          &&& *final(gas_meter) == *final(fuel)
                                        },
                                        Ok(code) => exists|
                                            code_len: u32,
                                            share: u32,
                                            rent: &mut H,
                                            charged: Result<Option<AliveContractInfo>, HostError>,
                                        |
                                            #![trigger
                                                call_ensures(E::code_len, (&code,), code_len),
                                                call_ensures(E::occupied_storage, (&code,), share),
                                                call_ensures(H::charge_rent, (rent, &dest, stored, share), charged),
                                            ] {
                                          &&& call_ensures(E::code_len, (&code,), code_len)
                                          &&& call_ensures(E::occupied_storage, (&code,), share)
                                          &&& call_ensures(H::charge_rent, (rent, &dest, stored, share), charged)
                                          &&& *rent == *final(load)
                                          &&& match rent_outcome(charged, Error::NotCallable, code_len) {
                                                  Err((evicted, size)) => {
                                                    &&& output == Err::<(ExecReturnValue, u32), (ExecError, u32)>(
                                                            (evicted, size),
                                                        )
                                                    &&& *final(host) == *final(rent)
                                                    &&& *final(gas_meter) == *final(fuel)
                                                  },
                                                  Ok(kept) => exists|params: RentParams| {
                                                    &&& #[trigger] snapshot_of(&*final(rent), dest, kept, &code, params)
                                                    &&& if (*final(fuel)).grants(0) {
                                                          let frame = made_frame(
                                                              dest,
                                                              kept,
                                                              value,
                                                              params,
                                                              ExportedFunction::Call,
                                                              (*final(fuel)).child(0),
                                                          );
                                                          exists|now: Moment, height: BlockNumber|
                                                              #![trigger
                                                                  call_ensures(H::now, (&*final(rent),), now),
                                                                  call_ensures(H::block_number, (&*final(rent),), height),
                                                              ] {
                                                            &&& call_ensures(H::now, (&*final(rent),), now)
                                                            &&& call_ensures(H::block_number, (&*final(rent),), height)
                                                            &&& ({
                                                                  let start = first_stack(origin, now, height, max_depth, frame);
                                                                  exists|
                                                                      tx: &mut H,
                                                                      close: &mut H,
                                                                      outcome: Result<ExecReturnValue, (ExecError, u32)>,
                                                                      mid: StackView,
                                                                      code_len: u32,
                                                                      share: u32,
                                                                  |
                                                                      #![trigger
                                                                          call_ensures(H::start_transaction, (tx,), ()),
                                                                          call_ensures(H::commit_transaction, (close,), ()),
                                                                          pays_first_rent(outcome, start.top().entry_point, mid),
                                                                          call_ensures(E::code_len, (&code,), code_len),
                                                                          call_ensures(E::occupied_storage, (&code,), share),
                                                                      ]
                                                                      #![trigger
                                                                          call_ensures(H::start_transaction, (tx,), ()),
                                                                          call_ensures(H::rollback_transaction, (close,), ()),
                                                                          pays_first_rent(outcome, start.top().entry_point, mid),
                                                                          call_ensures(E::code_len, (&code,), code_len),
                                                                          call_ensures(E::occupied_storage, (&code,), share),
                                                                      ] {
                                                                    &&& *tx == *final(rent)
                                                                    &&& call_ensures(H::start_transaction, (tx,), ())
                                                                    &&& call_ensures(E::code_len, (&code,), code_len)
                                                                    &&& call_ensures(E::occupied_storage, (&code,), share)
                                                                    &&& start.top().value_transferred == 0 ==> exists|ext: &mut Stack<'a, H, E>, chain: &mut H, answer: ExecResult| {
                                                                          &&& #[trigger] call_ensures(
                                                                                  E::execute,
                                                                                  (
                                                                                      code,
                                                                                      ext,
                                                                                      chain,
                                                                                      &start.top().entry_point,
                                                                                      input_data,
                                                                                  ),
                                                                                  answer,
                                                                              )
                                                                          &&& (*ext)@ == start
                                                                          &&& *chain == *final(tx)
                                                                          &&& outcome == callee_outcome(answer, code_len)
                                                                          &&& mid == (*final(ext))@
                                                                          &&& *close == *final(chain)
                                                                        }
                                                                    &&& start.top().value_transferred != 0 ==> exists|decision: Result<ExistenceRequirement, Error>| {
                                                                          &&& #[trigger] decided_for(
                                                                                  &*final(tx),
                                                                                  start.caller_is_contract(),
                                                                                  false,
                                                                                  start.caller(),
                                                                                  start.top().value_transferred,
                                                                                  decision,
                                                                              )
                                                                          &&& match decision {
                                                                                  Err(objection) => {
                                                                                    &&& outcome == Err::<ExecReturnValue, (ExecError, u32)>(
                                                                                            (ExecError::caller(objection), 0u32),
                                                                                        )
                                                                                    &&& mid == start
                                                                                    &&& *close == *final(tx)
                                                                                  },
                                                                                  Ok(existence) => exists|currency: &mut H, moved: Result<(), HostError>| {
                                                                                    &&& #[trigger] call_ensures(
                                                                                            H::currency_transfer,
                                                                                            (
                                                                                                currency,
                                                                                                &start.caller(),
                                                                                                &start.top().account_id,
                                                                                                start.top().value_transferred,
                                                                                                existence,
                                                                                            ),
                                                                                            moved,
                                                                                        )
                                                                                    &&& *currency == *final(tx)
                                                                                    &&& match moved {
                                                                                            Err(_) => {
                                                                                              &&& outcome == Err::<ExecReturnValue, (ExecError, u32)>(
                                                                                                      (ExecError::caller(Error::TransferFailed), 0u32),
                                                                                                  )
                                                                                              &&& mid == start
                                                                                              &&& *close == *final(currency)
                                                                                            },
                                                                                            Ok(()) => exists|ext: &mut Stack<'a, H, E>, chain: &mut H, answer: ExecResult| {
                                                                                              &&& #[trigger] call_ensures(
                                                                                                      E::execute,
                                                                                                      (
                                                                                                          code,
                                                                                                          ext,
                                                                                                          chain,
                                                                                                          &start.top().entry_point,
                                                                                                          input_data,
                                                                                                      ),
                                                                                                      answer,
                                                                                                  )
                                                                                              &&& (*ext)@ == start
                                                                                              &&& *chain == *final(currency)
                                                                                              &&& outcome == callee_outcome(answer, code_len)
                                                                                              &&& mid == (*final(ext))@
                                                                                              &&& *close == *final(chain)
                                                                                            },
                                                                                        }
                                                                                  },
                                                                              }
                                                                        }
                                                                    &&& commits(outcome) ==> call_ensures(H::commit_transaction, (close,), ())
                                                                    &&& !commits(outcome) ==> call_ensures(H::rollback_transaction, (close,), ())
                                                                    &&& start.same_invocations(mid)
                                                                    &&& if pays_first_rent(outcome, start.top().entry_point, mid) {
                                                                          exists|
                                                                              record: AliveContractInfo,
                                                                              rent: &mut H,
                                                                              charged: Result<Option<AliveContractInfo>, HostError>,
                                                                          | {
                                                                            &&& #[trigger] call_ensures(
                                                                                    H::charge_rent,
                                                                                    (
                                                                                        rent,
                                                                                        &mid.top().account_id,
                                                                                        record,
                                                                                        share,
                                                                                    ),
                                                                                    charged,
                                                                                )
                                                                            &&& loaded_record(
                                                                                    mid.top().contract_info,
                                                                                    &*final(close),
                                                                                    mid.top().account_id,
                                                                                    record,
                                                                                )
                                                                            &&& *rent == *final(close)
                                                                            &&& match rent_outcome(charged, Error::NewContractNotFunded, code_len) {
                                                                                    Ok(kept) => {
                                                                                      &&& output == output_of(outcome, code_len)
                                                                                      &&& exists|announce: &mut H, topics: Vec<Topic>| {
                                                                                            &&& #[trigger] call_ensures(
                                                                                                    H::deposit_event,
                                                                                                    (
                                                                                                        announce,
                                                                                                        topics,
                                                                                                        Event::Instantiated(mid.caller(), mid.top().account_id),
                                                                                                    ),
                                                                                                    (),
                                                                                                )
                                                                                            &&& topics@.len() == 0
                                                                                            &&& *announce == *final(rent)
                                                                                            &&& {
                                                                                                  let closed = mid.with_top_cache(CachedContract::Cached(kept)).after_failure_of(output is Err);
                                                                                                  &&& match closed.write_back(persists(output)) {
                                                                                                          None => *final(host) == *final(announce),
                                                                                                          Some((owner, record)) => exists|store: &mut H| {
                                                                                                            &&& #[trigger] call_ensures(H::store_contract, (store, &owner, record), ())
                                                                                                            &&& *store == *final(announce)
                                                                                                            &&& *final(store) == *final(host)
                                                                                                          },
                                                                                                      }
                                                                                                  &&& *final(gas_meter) == ((*final(fuel)).after_granting(0)).absorbing(
                                                                                                          closed.after_pop(persists(output)).frames[0].nested_meter,
                                                                                                      )
                                                                                                }
                                                                                          }
                                                                                    },
                                                                                    Err(failure) => {
                                                                                      &&& output == Err::<(ExecReturnValue, u32), (ExecError, u32)>(failure)
                                                                                      &&& {
                                                                                            let closed = mid.with_top_cache(CachedContract::Invalidated).after_failure_of(output is Err);
                                                                                            &&& match closed.write_back(persists(output)) {
                                                                                                    None => *final(host) == *final(rent),
                                                                                                    Some((owner, record)) => exists|store: &mut H| {
                                                                                                      &&& #[trigger] call_ensures(H::store_contract, (store, &owner, record), ())
                                                                                                      &&& *store == *final(rent)
                                                                                                      &&& *final(store) == *final(host)
                                                                                                    },
                                                                                                }
                                                                                            &&& *final(gas_meter) == ((*final(fuel)).after_granting(0)).absorbing(
                                                                                                    closed.after_pop(persists(output)).frames[0].nested_meter,
                                                                                                )
                                                                                          }
                                                                                    },
                                                                                }
                                                                          }
                                                                        } else {
                                                                          &&& output == (if commits(outcome) && start.top().entry_point
                                                                                  == ExportedFunction::Constructor {
                                                                                  Err::<(ExecReturnValue, u32), (ExecError, u32)>(
                                                                                      (ExecError::caller(Error::NotCallable), code_len),
                                                                                  )
                                                                              } else {
                                                                                  output_of(outcome, code_len)
                                                                              })
                                                                          &&& {
                                                                                let closed = mid.after_failure_of(output is Err);
                                                                                &&& match closed.write_back(persists(output)) {
                                                                                        None => *final(host) == *final(close),
                                                                                        Some((owner, record)) => exists|store: &mut H| {
                                                                                          &&& #[trigger] call_ensures(H::store_contract, (store, &owner, record), ())
                                                                                          &&& *store == *final(close)
                                                                                          &&& *final(store) == *final(host)
                                                                                        },
                                                                                    }
                                                                                &&& *final(gas_meter) == ((*final(fuel)).after_granting(0)).absorbing(
                                                                                        closed.after_pop(persists(output)).frames[0].nested_meter,
                                                                                    )
                                                                              }
                                                                        }
                                                                  }
                                                                })
                                                          }
                                                        } else {
                                                          {
                                                            &&& output == Err::<(ExecReturnValue, u32), (ExecError, u32)>(
                                                                    (ExecError::caller(Error::OutOfGas), code_len),
                                                                )
                                                            &&& *final(host) == *final(rent)
                                                            &&& *final(gas_meter) == *final(fuel)
                                                          }
                                                        }
                                                  },
                                              }
                                        },
                                    }
                              },
                          }
                    }
                  }
            },
    {
        match Self::new(host, FrameArgs::Call(dest, None), origin, gas_meter, schedule, value) {
            Err(failure) => Err(failure),
            Ok((mut stack, executable)) => {
                let output = stack.run(host, executable, input_data);
                gas_meter.absorb_nested(stack.first_meter());
                output
            },
        }
    }

    /// Instantiates a contract from `executable` on behalf of `origin`,
    /// endowing it with `value`. Yields the address of the new contract.
    ///
    /// The seed is the one after the count that the chain has stored. The
    /// contract says, call by call, what is asked of the chain and of the
    /// code and what follows from each answer, as [`Stack::new_frame`] and
    /// [`Stack::raw_run`] do; a value that the constructor yields comes with
    /// the account of the new contract.
    pub fn with_instantiate(
        host: &mut H,
        origin: AccountId,
        executable: E,
        gas_meter: &mut GasMeter,
        schedule: &'a H::Schedule,
        value: Balance,
        input_data: Vec<u8>,
        salt: &[u8],
    ) -> (result: Result<(AccountId, ExecReturnValue), ExecError>)
        ensures
            exists|max_depth: u32| {
              &&& #[trigger] call_ensures(H::max_depth, (&*old(host),), max_depth)
              &&& if max_depth == 0 {
                    {
                      &&& result == Err::<(AccountId, ExecReturnValue), ExecError>(ExecError::caller(Error::MaxCallDepthReached))
                      &&& *final(host) == *old(host)
                      &&& *final(gas_meter) == *old(gas_meter)
                    }
                  } else {
                    exists|stored: u64| {
                      &&& #[trigger] call_ensures(H::account_counter, (&*old(host),), stored)
                      &&& exists|
                              code_len: u32,
                              code_hash: &CodeHash,
                              account: AccountId,
                              trie_id: TrieId,
                              create: &mut H,
                              created: Result<AliveContractInfo, HostError>,
                          |
                              #![trigger
                                  call_ensures(E::code_len, (&executable,), code_len),
                                  call_ensures(E::code_hash, (&executable,), code_hash),
                                  call_ensures(
                                      H::generate_trie_id,
                                      (
                                          &*old(host),
                                          &account,
                                          seed_after(stored),
                                      ),
                                      trie_id,
                                  ),
                                  call_ensures(
                                      H::new_contract,
                                      (
                                          create,
                                          &account,
                                          trie_id,
                                          *code_hash,
                                      ),
                                      created,
                                  ),
                              ] {
                            &&& call_ensures(E::code_len, (&executable,), code_len)
                            &&& call_ensures(E::code_hash, (&executable,), code_hash)
                            &&& call_ensures(
                                    H::contract_address,
                                    (
                                        &*old(host),
                                        &origin,
                                        code_hash,
                                        salt,
                                    ),
                                    account,
                                )
                            &&& call_ensures(
                                    H::generate_trie_id,
                                    (
                                        &*old(host),
                                        &account,
                                        seed_after(stored),
                                    ),
                                    trie_id,
                                )
                            &&& call_ensures(
                                    H::new_contract,
                                    (
                                        create,
                                        &account,
                                        trie_id,
                                        *code_hash,
                                    ),
                                    created,
                                )
                            &&& *create == *old(host)
                            &&& match created {
                                    Err(refused) => {
                                      &&& result == Err::<(AccountId, ExecReturnValue), ExecError>(ExecError::from_dispatch(DispatchError::of_host(refused)))
                                      &&& *final(host) == *final(create)
                                      &&& *final(gas_meter) == *old(gas_meter)
                                    },
                                    Ok(fresh) => exists|params: RentParams| {
                                      &&& #[trigger] snapshot_of(&*final(create), account, fresh, &executable, params)
                                      &&& if (*old(gas_meter)).grants(0) {
                                            let frame = made_frame(
                                                account,
                                                fresh,
                                                value,
                                                params,
                                                ExportedFunction::Constructor,
                                                (*old(gas_meter)).child(0),
                                            );
                                            exists|now: Moment, height: BlockNumber|
                                                #![trigger
                                                    call_ensures(H::now, (&*final(create),), now),
                                                    call_ensures(H::block_number, (&*final(create),), height),
                                                ] {
                                              &&& call_ensures(H::now, (&*final(create),), now)
                                              &&& call_ensures(H::block_number, (&*final(create),), height)
                                              &&& exists|output: Output| {
                                                    &&& #[trigger] output_as_instantiation(output, account) == result
                                                    &&& ({
                                                          let start = first_stack(origin, now, height, max_depth, frame);
                                                          exists|
                                                              tx: &mut H,
                                                              close: &mut H,
                                                              outcome: Result<ExecReturnValue, (ExecError, u32)>,
                                                              mid: StackView,
                                                              code_len: u32,
                                                              share: u32,
                                                          |
                                                              #![trigger
                                                                  call_ensures(H::start_transaction, (tx,), ()),
                                                                  call_ensures(H::commit_transaction, (close,), ()),
                                                                  pays_first_rent(outcome, start.top().entry_point, mid),
                                                                  call_ensures(E::code_len, (&executable,), code_len),
                                                                  call_ensures(E::occupied_storage, (&executable,), share),
                                                              ]
                                                              #![trigger
                                                                  call_ensures(H::start_transaction, (tx,), ()),
                                                                  call_ensures(H::rollback_transaction, (close,), ()),
                                                                  pays_first_rent(outcome, start.top().entry_point, mid),
                                                                  call_ensures(E::code_len, (&executable,), code_len),
                                                                  call_ensures(E::occupied_storage, (&executable,), share),
                                                              ] {
                                                            &&& *tx == *final(create)
                                                            &&& call_ensures(H::start_transaction, (tx,), ())
                                                            &&& call_ensures(E::code_len, (&executable,), code_len)
                                                            &&& call_ensures(E::occupied_storage, (&executable,), share)
                                                            &&& start.top().value_transferred == 0 ==> exists|ext: &mut Stack<'a, H, E>, chain: &mut H, answer: ExecResult| {
                                                                  &&& #[trigger] call_ensures(
                                                                          E::execute,
                                                                          (
                                                                              executable,
                                                                              ext,
                                                                              chain,
                                                                              &start.top().entry_point,
                                                                              input_data,
                                                                          ),
                                                                          answer,
                                                                      )
                                                                  &&& (*ext)@ == start
                                                                  &&& *chain == *final(tx)
                                                                  &&& outcome == callee_outcome(answer, code_len)
                                                                  &&& mid == (*final(ext))@
                                                                  &&& *close == *final(chain)
                                                                }
                                                            &&& start.top().value_transferred != 0 ==> exists|decision: Result<ExistenceRequirement, Error>| {
                                                                  &&& #[trigger] decided_for(
                                                                          &*final(tx),
                                                                          start.caller_is_contract(),
                                                                          false,
                                                                          start.caller(),
                                                                          start.top().value_transferred,
                                                                          decision,
                                                                      )
                                                                  &&& match decision {
                                                                          Err(objection) => {
                                                                            &&& outcome == Err::<ExecReturnValue, (ExecError, u32)>(
                                                                                    (ExecError::caller(objection), 0u32),
                                                                                )
                                                                            &&& mid == start
                                                                            &&& *close == *final(tx)
                                                                          },
                                                                          Ok(existence) => exists|currency: &mut H, moved: Result<(), HostError>| {
                                                                            &&& #[trigger] call_ensures(
                                                                                    H::currency_transfer,
                                                                                    (
                                                                                        currency,
                                                                                        &start.caller(),
                                                                                        &start.top().account_id,
                                                                                        start.top().value_transferred,
                                                                                        existence,
                                                                                    ),
                                                                                    moved,
                                                                                )
                                                                            &&& *currency == *final(tx)
                                                                            &&& match moved {
                                                                                    Err(_) => {
                                                                                      &&& outcome == Err::<ExecReturnValue, (ExecError, u32)>(
                                                                                              (ExecError::caller(Error::TransferFailed), 0u32),
                                                                                          )
                                                                                      &&& mid == start
                                                                                      &&& *close == *final(currency)
                                                                                    },
                                                                                    Ok(()) => exists|ext: &mut Stack<'a, H, E>, chain: &mut H, answer: ExecResult| {
                                                                                      &&& #[trigger] call_ensures(
                                                                                              E::execute,
                                                                                              (
                                                                                                  executable,
                                                                                                  ext,
                                                                                                  chain,
                                                                                                  &start.top().entry_point,
                                                                                                  input_data,
                                                                                              ),
                                                                                              answer,
                                                                                          )
                                                                                      &&& (*ext)@ == start
                                                                                      &&& *chain == *final(currency)
                                                                                      &&& outcome == callee_outcome(answer, code_len)
                                                                                      &&& mid == (*final(ext))@
                                                                                      &&& *close == *final(chain)
                                                                                    },
                                                                                }
                                                                          },
                                                                      }
                                                                }
                                                            &&& commits(outcome) ==> call_ensures(H::commit_transaction, (close,), ())
                                                            &&& !commits(outcome) ==> call_ensures(H::rollback_transaction, (close,), ())
                                                            &&& start.same_invocations(mid)
                                                            &&& if pays_first_rent(outcome, start.top().entry_point, mid) {
                                                                  exists|
                                                                      record: AliveContractInfo,
                                                                      rent: &mut H,
                                                                      charged: Result<Option<AliveContractInfo>, HostError>,
                                                                  | {
                                                                    &&& #[trigger] call_ensures(
                                                                            H::charge_rent,
                                                                            (
                                                                                rent,
                                                                                &mid.top().account_id,
                                                                                record,
                                                                                share,
                                                                            ),
                                                                            charged,
                                                                        )
                                                                    &&& loaded_record(
                                                                            mid.top().contract_info,
                                                                            &*final(close),
                                                                            mid.top().account_id,
                                                                            record,
                                                                        )
                                                                    &&& *rent == *final(close)
                                                                    &&& match rent_outcome(charged, Error::NewContractNotFunded, code_len) {
                                                                            Ok(kept) => {
                                                                              &&& output == output_of(outcome, code_len)
                                                                              &&& exists|announce: &mut H, topics: Vec<Topic>| {
                                                                                    &&& #[trigger] call_ensures(
                                                                                            H::deposit_event,
                                                                                            (
                                                                                                announce,
                                                                                                topics,
                                                                                                Event::Instantiated(mid.caller(), mid.top().account_id),
                                                                                            ),
                                                                                            (),
                                                                                        )
                                                                                    &&& topics@.len() == 0
                                                                                    &&& *announce == *final(rent)
                                                                                    &&& {
                                                                                          let closed = mid.with_top_cache(CachedContract::Cached(kept)).after_failure_of(output is Err);
                                                                                          &&& match closed.write_back(persists(output)) {
                                                                                                  None => *final(host) == *final(announce),
                                                                                                  Some((owner, record)) => exists|store: &mut H| {
                                                                                                    &&& #[trigger] call_ensures(H::store_contract, (store, &owner, record), ())
                                                                                                    &&& *store == *final(announce)
                                                                                                    &&& *final(store) == *final(host)
                                                                                                  },
                                                                                              }
                                                                                          &&& *final(gas_meter) == ((*old(gas_meter)).after_granting(0)).absorbing(
                                                                                                  closed.after_pop(persists(output)).frames[0].nested_meter,
                                                                                              )
                                                                                        }
                                                                                  }
                                                                            },
                                                                            Err(failure) => {
                                                                              &&& output == Err::<(ExecReturnValue, u32), (ExecError, u32)>(failure)
                                                                              &&& {
                                                                                    let closed = mid.with_top_cache(CachedContract::Invalidated).after_failure_of(output is Err);
                                                                                    &&& match closed.write_back(persists(output)) {
                                                                                            None => *final(host) == *final(rent),
                                                                                            Some((owner, record)) => exists|store: &mut H| {
                                                                                              &&& #[trigger] call_ensures(H::store_contract, (store, &owner, record), ())
                                                                                              &&& *store == *final(rent)
                                                                                              &&& *final(store) == *final(host)
                                                                                            },
                                                                                        }
                                                                                    &&& *final(gas_meter) == ((*old(gas_meter)).after_granting(0)).absorbing(
                                                                                            closed.after_pop(persists(output)).frames[0].nested_meter,
                                                                                        )
                                                                                  }
                                                                            },
                                                                        }
                                                                  }
                                                                } else {
                                                                  &&& output == (if commits(outcome) && start.top().entry_point
                                                                          == ExportedFunction::Constructor {
                                                                          Err::<(ExecReturnValue, u32), (ExecError, u32)>(
                                                                              (ExecError::caller(Error::NotCallable), code_len),
                                                                          )
                                                                      } else {
                                                                          output_of(outcome, code_len)
                                                                      })
                                                                  &&& {
                                                                        let closed = mid.after_failure_of(output is Err);
                                                                        &&& match closed.write_back(persists(output)) {
                                                                                None => *final(host) == *final(close),
                                                                                Some((owner, record)) => exists|store: &mut H| {
                                                                                  &&& #[trigger] call_ensures(H::store_contract, (store, &owner, record), ())
                                                                                  &&& *store == *final(close)
                                                                                  &&& *final(store) == *final(host)
                                                                                },
                                                                            }
                                                                        &&& *final(gas_meter) == ((*old(gas_meter)).after_granting(0)).absorbing(
                                                                                closed.after_pop(persists(output)).frames[0].nested_meter,
                                                                            )
                                                                      }
                                                                }
                                                          }
                                                        })
                                                  }
                                            }
                                          } else {
                                            {
                                              &&& result == Err::<(AccountId, ExecReturnValue), ExecError>(ExecError::caller(Error::OutOfGas))
                                              &&& *final(host) == *final(create)
                                              &&& *final(gas_meter) == *old(gas_meter)
                                            }
                                          }
                                    },
                                }
                          }
                    }
                  }
            },
    {
        let seed = Self::initial_account_seed(&*host);
        match Self::new(
            host,
            FrameArgs::Instantiate(origin, seed, executable, salt),
            origin,
            gas_meter,
            schedule,
            value,
        ) {
            Err((failure, _)) => Err(failure),
            Ok((mut stack, executable)) => {
                let account_id = stack.frame().account_id;
                let output = stack.run(host, executable, input_data);
                let ghost yielded = output;
                gas_meter.absorb_nested(stack.first_meter());
                let result = match output {
                    Ok((value, _)) => Ok((account_id, value)),
                    Err((failure, _)) => Err(failure),
                };
                assert(output_as_instantiation(yielded, account_id) == result);
                result
            },
        }
    }
}

} // verus!
