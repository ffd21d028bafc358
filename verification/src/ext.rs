//! What a running contract may ask of the executive.

use vstd::prelude::*;
use crate::cache::CachedContract;
use crate::contract::{AliveContractInfo, Event};
use crate::error::{
    DispatchError,
    DispatchResult,
    Error,
    ErrorOrigin,
    ExecError,
    ExecReturnValue,
    HostError,
};
use crate::executable::Executable;
use crate::cache::loaded_record;
use crate::executive::{
    callee_outcome,
    commits,
    output_as_instantiated,
    output_of,
    pays_first_rent,
    persists,
    rent_outcome,
    Output,
};
use crate::error::ExecResult;
use crate::frame::made_frame;
use crate::model::{seed_after, StackView};
use crate::rent_params::{snapshot_of, RentParams};
use crate::executable::ExportedFunction;
use crate::primitives::TrieId;
use crate::frame::FrameArgs;
use crate::gas::GasMeter;
use crate::host::Host;
use crate::laws::{
    lemma_invocation_returns,
    lemma_meter_and_seed_keep_invocations,
    lemma_same_invocations_compose,
};
use crate::model::lemma_same_top_cache;
use crate::primitives::{
    AccountId,
    Balance,
    BlockNumber,
    CodeHash,
    ExistenceRequirement,
    Moment,
    Seed,
    StorageKey,
    Topic,
    Weight,
};
use crate::sealing::Sealed;
use crate::stack::Stack;
use crate::transfer::{decided_for, transfer_outcome};

verus! {

/// The environment of a running contract. Every operation acts on behalf of
/// the contract of the running frame.
///
/// The trait is sealed: the stack is its only implementor, and the contracts
/// of the operations are stated there.
pub trait Ext: Sealed {
    /// The chain the contract runs on.
    type T: Host;

    /// Whether the running contract still has its record, that is, has not
    /// removed itself in the running frame.
    spec fn live(&self) -> bool;

    /// Whether the running contract also runs in a frame further down.
    spec fn reentered(&self) -> bool;

    /// Calls the contract at `to`, sending `value` along and granting it
    /// `gas_limit` of the running frame's gas, or all of it where the limit
    /// is zero. Yields what the callee returned and the size of its code.
    fn call(
        &mut self,
        host: &mut Self::T,
        gas_limit: Weight,
        to: AccountId,
        value: Balance,
        input_data: Vec<u8>,
    ) -> Result<(ExecReturnValue, u32), (ExecError, u32)>;

    /// Instantiates a contract from the code stored under `code`, endowing
    /// it with `value`. Yields the new address, what the constructor
    /// returned and the size of the code.
    fn instantiate(
        &mut self,
        host: &mut Self::T,
        gas_limit: Weight,
        code: CodeHash,
        value: Balance,
        input_data: Vec<u8>,
        salt: &[u8],
    ) -> Result<(AccountId, ExecReturnValue, u32), (ExecError, u32)>;

    /// Sends all funds of the running contract to `beneficiary` and removes
    /// the contract. Refused while the contract is on the stack more than
    /// once. Yields the size of the removed code.
    ///
    /// A contract that has removed itself can ask nothing more of its record.
    fn terminate(&mut self, host: &mut Self::T, beneficiary: &AccountId) -> Result<
        u32,
        (DispatchError, u32),
    >
        requires
            old(self).live() || old(self).reentered(),
    ;

    /// Gives the running contract up to restore the tombstone at `dest`.
    /// Refused while the contract is on the stack more than once. Yields the
    /// code sizes of the running contract and of `dest`.
    fn restore_to(
        &mut self,
        host: &mut Self::T,
        dest: AccountId,
        code_hash: CodeHash,
        rent_allowance: Balance,
        delta: Vec<StorageKey>,
    ) -> Result<(u32, u32), (DispatchError, u32, u32)>;

    /// Sends `value` from the running contract to `to`, under the
    /// subsistence rule.
    fn transfer(&mut self, host: &mut Self::T, to: &AccountId, value: Balance) -> DispatchResult;

    /// Reads a cell of the running contract's storage.
    fn get_storage(&mut self, host: &Self::T, key: &StorageKey) -> Option<Vec<u8>>
        requires
            old(self).live(),
    ;

    /// Writes a cell of the running contract's storage, or deletes it where
    /// `value` is `None`.
    fn set_storage(
        &mut self,
        host: &mut Self::T,
        key: StorageKey,
        value: Option<Vec<u8>>,
    ) -> DispatchResult
        requires
            old(self).live(),
    ;

    /// Who called the running contract.
    fn caller(&self) -> &AccountId;

    /// The address of the running contract.
    fn address(&self) -> &AccountId;

    /// The free balance of the running contract; the value sent along has
    /// arrived.
    fn balance(&self, host: &Self::T) -> Balance;

    /// The value sent along with the invocation.
    fn value_transferred(&self) -> Balance;

    /// The timestamp of the current block.
    fn now(&self) -> &Moment;

    /// The balance below which an account ceases to exist.
    fn minimum_balance(&self, host: &Self::T) -> Balance;

    /// The deposit that keeps a tombstone when a contract is evicted.
    fn tombstone_deposit(&self, host: &Self::T) -> Balance;

    /// A random seed for the given subject, and the block since which it has
    /// been known.
    fn random(&self, host: &Self::T, subject: &[u8]) -> (Seed, BlockNumber);

    /// Reports data of the running contract under the given topics.
    fn deposit_event(&mut self, host: &mut Self::T, topics: Vec<Topic>, data: Vec<u8>);

    /// Sets the most the running contract is willing to pay in rent.
    fn set_rent_allowance(&mut self, host: &Self::T, rent_allowance: Balance)
        requires
            old(self).live(),
    ;

    /// The most the running contract is willing to pay in rent.
    fn rent_allowance(&mut self, host: &Self::T) -> Balance
        requires
            old(self).live(),
    ;

    /// The height of the current block.
    fn block_number(&self) -> BlockNumber;

    /// The largest value a storage cell may hold, in bytes.
    fn max_value_size(&self, host: &Self::T) -> u32;

    /// The price of an amount of gas.
    fn get_weight_price(&self, host: &Self::T, weight: Weight) -> Balance;

    /// The schedule the invocation runs under.
    fn schedule(&self) -> &<Self::T as Host>::Schedule;

    /// The rent figures as they stood when the running frame was made.
    fn rent_params(&self) -> &RentParams;

    /// The gas meter of the running frame.
    fn gas_meter(&mut self) -> &mut GasMeter;
}

impl<'a, H: Host, E: Executable<H>> Ext for Stack<'a, H, E> {
    type T = H;

    open spec fn live(&self) -> bool {
        !(self@.top().contract_info is Terminated)
    }

    open spec fn reentered(&self) -> bool {
        self@.is_recursive()
    }

    /// Where a frame under the running one is a call of `to` and holds the
    /// record cached, the new frame starts from that record and not from
    /// storage. At the maximal depth nothing is begun.
    fn call(
        &mut self,
        host: &mut H,
        gas_limit: Weight,
        to: AccountId,
        value: Balance,
        input_data: Vec<u8>,
    ) -> (output: Output)
        ensures
            old(self)@.depth() == old(self)@.max_depth ==> output == Err::<
                (ExecReturnValue, u32),
                (ExecError, u32),
            >((ExecError::caller(Error::MaxCallDepthReached), 0u32)) && final(self)@ == old(self)@
                && *final(host) == *old(host),
            final(self)@.wf(),
            old(self)@.same_invocations(final(self)@),
            old(self)@.depth() < old(self)@.max_depth ==> match old(self)@.existing_record(to) {
                Some(handed) => exists|
                    load: &mut H,
                    fuel: &mut GasMeter,
                    loaded: Result<E, DispatchError>,
                | {
                  &&& #[trigger] call_ensures(
                          E::from_storage,
                          (
                              load,
                              handed.code_hash,
                              old(self).schedule_of(),
                              fuel,
                          ),
                          loaded,
                      )
                  &&& *load == *old(host)
                  &&& *fuel == old(self)@.top().nested_meter
                  &&& match loaded {
                          Err(refused) => {
                            &&& output == Err::<(ExecReturnValue, u32), (ExecError, u32)>(
                                    (ExecError::from_dispatch(refused), 0u32),
                                )
                            &&& *final(host) == *final(load)
                            &&& final(self)@ == old(self)@.with_top_meter(*final(fuel))
                          },
                          Ok(code) => exists|
                              code_len: u32,
                              share: u32,
                              rent: &mut H,
                              charged: Result<Option<AliveContractInfo>, HostError>,
                          |
                              #![trigger
                                  call_ensures(E::code_len, (&code,), code_len),
                                  call_ensures(E::occupied_storage, (&code,), share),
                                  call_ensures(H::charge_rent, (rent, &to, handed, share), charged),
                              ] {
                            &&& call_ensures(E::code_len, (&code,), code_len)
                            &&& call_ensures(E::occupied_storage, (&code,), share)
                            &&& call_ensures(H::charge_rent, (rent, &to, handed, share), charged)
                            &&& *rent == *final(load)
                            &&& match rent_outcome(charged, Error::NotCallable, code_len) {
                                    Err((evicted, size)) => {
                                      &&& output == Err::<(ExecReturnValue, u32), (ExecError, u32)>(
                                              (evicted, size),
                                          )
                                      &&& *final(host) == *final(rent)
                                      &&& final(self)@ == old(self)@.with_top_meter(*final(fuel))
                                    },
                                    Ok(kept) => exists|params: RentParams| {
                                      &&& #[trigger] snapshot_of(&*final(rent), to, kept, &code, params)
                                      &&& if (*final(fuel)).grants(gas_limit) {
                                            let frame = made_frame(
                                                to,
                                                kept,
                                                value,
                                                params,
                                                ExportedFunction::Call,
                                                (*final(fuel)).child(gas_limit),
                                            );
                                            ({
                                              let start = old(self)@.with_top_meter((*final(fuel)).after_granting(gas_limit)).after_push(frame);
                                              exists|
                                                  tx: &mut H,
                                                  close: &mut H,
                                                  outcome: Result<ExecReturnValue, (ExecError, u32)>,
                                                  mid: StackView,
                                                  code_len: u32,
                                                  share: u32,
                                              |
                                                  #![trigger
                                                      call_ensures(H::start_transaction, (tx,), ()),
                                                      call_ensures(H::commit_transaction, (close,), ()),
                                                      pays_first_rent(outcome, start.top().entry_point, mid),
                                                      call_ensures(E::code_len, (&code,), code_len),
                                                      call_ensures(E::occupied_storage, (&code,), share),
                                                  ]
                                                  #![trigger
                                                      call_ensures(H::start_transaction, (tx,), ()),
                                                      call_ensures(H::rollback_transaction, (close,), ()),
                                                      pays_first_rent(outcome, start.top().entry_point, mid),
                                                      call_ensures(E::code_len, (&code,), code_len),
                                                      call_ensures(E::occupied_storage, (&code,), share),
                                                  ] {
                                                &&& *tx == *final(rent)
                                                &&& call_ensures(H::start_transaction, (tx,), ())
                                                &&& call_ensures(E::code_len, (&code,), code_len)
                                                &&& call_ensures(E::occupied_storage, (&code,), share)
                                                &&& start.top().value_transferred == 0 ==> exists|ext: &mut Stack<'a, H, E>, chain: &mut H, answer: ExecResult| {
                                                      &&& #[trigger] call_ensures(
                                                              E::execute,
                                                              (
                                                                  code,
                                                                  ext,
                                                                  chain,
                                                                  &start.top().entry_point,
                                                                  input_data,
                                                              ),
                                                              answer,
                                                          )
                                                      &&& (*ext)@ == start
                                                      &&& *chain == *final(tx)
                                                      &&& outcome == callee_outcome(answer, code_len)
                                                      &&& mid == (*final(ext))@
                                                      &&& *close == *final(chain)
                                                    }
                                                &&& start.top().value_transferred != 0 ==> exists|decision: Result<ExistenceRequirement, Error>| {
                                                      &&& #[trigger] decided_for(
                                                              &*final(tx),
                                                              start.caller_is_contract(),
                                                              false,
                                                              start.caller(),
                                                              start.top().value_transferred,
                                                              decision,
                                                          )
                                                      &&& match decision {
                                                              Err(objection) => {
                                                                &&& outcome == Err::<ExecReturnValue, (ExecError, u32)>(
                                                                        (ExecError::caller(objection), 0u32),
                                                                    )
                                                                &&& mid == start
                                                                &&& *close == *final(tx)
                                                              },
                                                              Ok(existence) => exists|currency: &mut H, moved: Result<(), HostError>| {
                                                                &&& #[trigger] call_ensures(
                                                                        H::currency_transfer,
                                                                        (
                                                                            currency,
                                                                            &start.caller(),
                                                                            &start.top().account_id,
                                                                            start.top().value_transferred,
                                                                            existence,
                                                                        ),
                                                                        moved,
                                                                    )
                                                                &&& *currency == *final(tx)
                                                                &&& match moved {
                                                                        Err(_) => {
                                                                          &&& outcome == Err::<ExecReturnValue, (ExecError, u32)>(
                                                                                  (ExecError::caller(Error::TransferFailed), 0u32),
                                                                              )
                                                                          &&& mid == start
                                                                          &&& *close == *final(currency)
                                                                        },
                                                                        Ok(()) => exists|ext: &mut Stack<'a, H, E>, chain: &mut H, answer: ExecResult| {
                                                                          &&& #[trigger] call_ensures(
                                                                                  E::execute,
                                                                                  (
                                                                                      code,
                                                                                      ext,
                                                                                      chain,
                                                                                      &start.top().entry_point,
                                                                                      input_data,
                                                                                  ),
                                                                                  answer,
                                                                              )
                                                                          &&& (*ext)@ == start
                                                                          &&& *chain == *final(currency)
                                                                          &&& outcome == callee_outcome(answer, code_len)
                                                                          &&& mid == (*final(ext))@
                                                                          &&& *close == *final(chain)
                                                                        },
                                                                    }
                                                              },
                                                          }
                                                    }
                                                &&& commits(outcome) ==> call_ensures(H::commit_transaction, (close,), ())
                                                &&& !commits(outcome) ==> call_ensures(H::rollback_transaction, (close,), ())
                                                &&& start.same_invocations(mid)
                                                &&& if pays_first_rent(outcome, start.top().entry_point, mid) {
                                                      exists|
                                                          record: AliveContractInfo,
                                                          rent: &mut H,
                                                          charged: Result<Option<AliveContractInfo>, HostError>,
                                                      | {
                                                        &&& #[trigger] call_ensures(
                                                                H::charge_rent,
                                                                (
                                                                    rent,
                                                                    &mid.top().account_id,
                                                                    record,
                                                                    share,
                                                                ),
                                                                charged,
                                                            )
                                                        &&& loaded_record(
                                                                mid.top().contract_info,
                                                                &*final(close),
                                                                mid.top().account_id,
                                                                record,
                                                            )
                                                        &&& *rent == *final(close)
                                                        &&& match rent_outcome(charged, Error::NewContractNotFunded, code_len) {
                                                                Ok(kept) => {
                                                                  &&& output == output_of(outcome, code_len)
                                                                  &&& exists|announce: &mut H, topics: Vec<Topic>| {
                                                                        &&& #[trigger] call_ensures(
                                                                                H::deposit_event,
                                                                                (
                                                                                    announce,
                                                                                    topics,
                                                                                    Event::Instantiated(mid.caller(), mid.top().account_id),
                                                                                ),
                                                                                (),
                                                                            )
                                                                        &&& topics@.len() == 0
                                                                        &&& *announce == *final(rent)
                                                                        &&& {
                                                                              let closed = mid.with_top_cache(CachedContract::Cached(kept)).after_failure_of(output is Err);
                                                                              &&& final(self)@ == closed.after_pop(persists(output))
                                                                              &&& match closed.write_back(persists(output)) {
                                                                                      None => *final(host) == *final(announce),
                                                                                      Some((owner, record)) => exists|store: &mut H| {
                                                                                        &&& #[trigger] call_ensures(H::store_contract, (store, &owner, record), ())
                                                                                        &&& *store == *final(announce)
                                                                                        &&& *final(store) == *final(host)
                                                                                      },
                                                                                  }
                                                                            }
                                                                      }
                                                                },
                                                                Err(failure) => {
                                                                  &&& output == Err::<(ExecReturnValue, u32), (ExecError, u32)>(failure)
                                                                  &&& {
                                                                        let closed = mid.with_top_cache(CachedContract::Invalidated).after_failure_of(output is Err);
                                                                        &&& final(self)@ == closed.after_pop(persists(output))
                                                                        &&& match closed.write_back(persists(output)) {
                                                                                None => *final(host) == *final(rent),
                                                                                Some((owner, record)) => exists|store: &mut H| {
                                                                                  &&& #[trigger] call_ensures(H::store_contract, (store, &owner, record), ())
                                                                                  &&& *store == *final(rent)
                                                                                  &&& *final(store) == *final(host)
                                                                                },
                                                                            }
                                                                      }
                                                                },
                                                            }
                                                      }
                                                    } else {
                                                      &&& output == (if commits(outcome) && start.top().entry_point
                                                              == ExportedFunction::Constructor {
                                                              Err::<(ExecReturnValue, u32), (ExecError, u32)>(
                                                                  (ExecError::caller(Error::NotCallable), code_len),
                                                              )
                                                          } else {
                                                              output_of(outcome, code_len)
                                                          })
                                                      &&& {
                                                            let closed = mid.after_failure_of(output is Err);
                                                            &&& final(self)@ == closed.after_pop(persists(output))
                                                            &&& match closed.write_back(persists(output)) {
                                                                    None => *final(host) == *final(close),
                                                                    Some((owner, record)) => exists|store: &mut H| {
                                                                      &&& #[trigger] call_ensures(H::store_contract, (store, &owner, record), ())
                                                                      &&& *store == *final(close)
                                                                      &&& *final(store) == *final(host)
                                                                    },
                                                                }
                                                          }
                                                    }
                                              }
                                            })
                                          } else {
                                            {
                                              &&& output == Err::<(ExecReturnValue, u32), (ExecError, u32)>(
                                                      (ExecError::caller(Error::OutOfGas), code_len),
                                                  )
                                              &&& *final(host) == *final(rent)
                                              &&& final(self)@ == old(self)@.with_top_meter(*final(fuel))
                                            }
                                          }
                                    },
                                }
                          },
                      }
                },
                None => exists|found: Option<AliveContractInfo>| {
                  &&& #[trigger] call_ensures(H::alive_contract, (&*old(host), &to), found)
                  &&& match found {
                          None => {
                            &&& output == Err::<(ExecReturnValue, u32), (ExecError, u32)>(
                                    (ExecError::caller(Error::NotCallable), 0u32),
                                )
                            &&& *final(host) == *old(host)
                            &&& final(self)@ == old(self)@.with_top_meter(old(self)@.top().nested_meter)
                          },
                          Some(stored) => exists|
                              load: &mut H,
                              fuel: &mut GasMeter,
                              loaded: Result<E, DispatchError>,
                          | {
                            &&& #[trigger] call_ensures(
                                    E::from_storage,
                                    (
                                        load,
                                        stored.code_hash,
                                        old(self).schedule_of(),
                                        fuel,
                                    ),
                                    loaded,
                                )
                            &&& *load == *old(host)
                            &&& *fuel == old(self)@.top().nested_meter
                            &&& match loaded {
                                    Err(refused) => {
                                      &&& output == Err::<(ExecReturnValue, u32), (ExecError, u32)>(
                                              (ExecError::from_dispatch(refused), 0u32),
                                          )
                                      &&& *final(host) == *final(load)
                                      &&& final(self)@ == old(self)@.with_top_meter(*final(fuel))
                                    },
                                    Ok(code) => exists|
                                        code_len: u32,
                                        share: u32,
                                        rent: &mut H,
                                        charged: Result<Option<AliveContractInfo>, HostError>,
                                    |
                                        #![trigger
                                            call_ensures(E::code_len, (&code,), code_len),
                                            call_ensures(E::occupied_storage, (&code,), share),
                                            call_ensures(H::charge_rent, (rent, &to, stored, share), charged),
                                        ] {
                                      &&& call_ensures(E::code_len, (&code,), code_len)
                                      &&& call_ensures(E::occupied_storage, (&code,), share)
                                      &&& call_ensures(H::charge_rent, (rent, &to, stored, share), charged)
                                      &&& *rent == *final(load)
                                      &&& match rent_outcome(charged, Error::NotCallable, code_len) {
                                              Err((evicted, size)) => {
                                                &&& output == Err::<(ExecReturnValue, u32), (ExecError, u32)>(
                                                        (evicted, size),
                                                    )
                                                &&& *final(host) == *final(rent)
                                                &&& final(self)@ == old(self)@.with_top_meter(*final(fuel))
                                              },
                                              Ok(kept) => exists|params: RentParams| {
                                                &&& #[trigger] snapshot_of(&*final(rent), to, kept, &code, params)
                                                &&& if (*final(fuel)).grants(gas_limit) {
                                                      let frame = made_frame(
                                                          to,
                                                          kept,
                                                          value,
                                                          params,
                                                          ExportedFunction::Call,
                                                          (*final(fuel)).child(gas_limit),
                                                      );
                                                      ({
                                                        let start = old(self)@.with_top_meter((*final(fuel)).after_granting(gas_limit)).after_push(frame);
                                                        exists|
                                                            tx: &mut H,
                                                            close: &mut H,
                                                            outcome: Result<ExecReturnValue, (ExecError, u32)>,
                                                            mid: StackView,
                                                            code_len: u32,
                                                            share: u32,
                                                        |
                                                            #![trigger
                                                                call_ensures(H::start_transaction, (tx,), ()),
                                                                call_ensures(H::commit_transaction, (close,), ()),
                                                                pays_first_rent(outcome, start.top().entry_point, mid),
                                                                call_ensures(E::code_len, (&code,), code_len),
                                                                call_ensures(E::occupied_storage, (&code,), share),
                                                            ]
                                                            #![trigger
                                                                call_ensures(H::start_transaction, (tx,), ()),
                                                                call_ensures(H::rollback_transaction, (close,), ()),
                                                                pays_first_rent(outcome, start.top().entry_point, mid),
                                                                call_ensures(E::code_len, (&code,), code_len),
                                                                call_ensures(E::occupied_storage, (&code,), share),
                                                            ] {
                                                          &&& *tx == *final(rent)
                                                          &&& call_ensures(H::start_transaction, (tx,), ())
                                                          &&& call_ensures(E::code_len, (&code,), code_len)
                                                          &&& call_ensures(E::occupied_storage, (&code,), share)
                                                          &&& start.top().value_transferred == 0 ==> exists|ext: &mut Stack<'a, H, E>, chain: &mut H, answer: ExecResult| {
                                                                &&& #[trigger] call_ensures(
                                                                        E::execute,
                                                                        (
                                                                            code,
                                                                            ext,
                                                                            chain,
                                                                            &start.top().entry_point,
                                                                            input_data,
                                                                        ),
                                                                        answer,
                                                                    )
                                                                &&& (*ext)@ == start
                                                                &&& *chain == *final(tx)
                                                                &&& outcome == callee_outcome(answer, code_len)
                                                                &&& mid == (*final(ext))@
                                                                &&& *close == *final(chain)
                                                              }
                                                          &&& start.top().value_transferred != 0 ==> exists|decision: Result<ExistenceRequirement, Error>| {
                                                                &&& #[trigger] decided_for(
                                                                        &*final(tx),
                                                                        start.caller_is_contract(),
                                                                        false,
                                                                        start.caller(),
                                                                        start.top().value_transferred,
                                                                        decision,
                                                                    )
                                                                &&& match decision {
                                                                        Err(objection) => {
                                                                          &&& outcome == Err::<ExecReturnValue, (ExecError, u32)>(
                                                                                  (ExecError::caller(objection), 0u32),
                                                                              )
                                                                          &&& mid == start
                                                                          &&& *close == *final(tx)
                                                                        },
                                                                        Ok(existence) => exists|currency: &mut H, moved: Result<(), HostError>| {
                                                                          &&& #[trigger] call_ensures(
                                                                                  H::currency_transfer,
                                                                                  (
                                                                                      currency,
                                                                                      &start.caller(),
                                                                                      &start.top().account_id,
                                                                                      start.top().value_transferred,
                                                                                      existence,
                                                                                  ),
                                                                                  moved,
                                                                              )
                                                                          &&& *currency == *final(tx)
                                                                          &&& match moved {
                                                                                  Err(_) => {
                                                                                    &&& outcome == Err::<ExecReturnValue, (ExecError, u32)>(
                                                                                            (ExecError::caller(Error::TransferFailed), 0u32),
                                                                                        )
                                                                                    &&& mid == start
                                                                                    &&& *close == *final(currency)
                                                                                  },
                                                                                  Ok(()) => exists|ext: &mut Stack<'a, H, E>, chain: &mut H, answer: ExecResult| {
                                                                                    &&& #[trigger] call_ensures(
                                                                                            E::execute,
                                                                                            (
                                                                                                code,
                                                                                                ext,
                                                                                                chain,
                                                                                                &start.top().entry_point,
                                                                                                input_data,
                                                                                            ),
                                                                                            answer,
                                                                                        )
                                                                                    &&& (*ext)@ == start
                                                                                    &&& *chain == *final(currency)
                                                                                    &&& outcome == callee_outcome(answer, code_len)
                                                                                    &&& mid == (*final(ext))@
                                                                                    &&& *close == *final(chain)
                                                                                  },
                                                                              }
                                                                        },
                                                                    }
                                                              }
                                                          &&& commits(outcome) ==> call_ensures(H::commit_transaction, (close,), ())
                                                          &&& !commits(outcome) ==> call_ensures(H::rollback_transaction, (close,), ())
                                                          &&& start.same_invocations(mid)
                                                          &&& if pays_first_rent(outcome, start.top().entry_point, mid) {
                                                                exists|
                                                                    record: AliveContractInfo,
                                                                    rent: &mut H,
                                                                    charged: Result<Option<AliveContractInfo>, HostError>,
                                                                | {
                                                                  &&& #[trigger] call_ensures(
                                                                          H::charge_rent,
                                                                          (
                                                                              rent,
                                                                              &mid.top().account_id,
                                                                              record,
                                                                              share,
                                                                          ),
                                                                          charged,
                                                                      )
                                                                  &&& loaded_record(
                                                                          mid.top().contract_info,
                                                                          &*final(close),
                                                                          mid.top().account_id,
                                                                          record,
                                                                      )
                                                                  &&& *rent == *final(close)
                                                                  &&& match rent_outcome(charged, Error::NewContractNotFunded, code_len) {
                                                                          Ok(kept) => {
                                                                            &&& output == output_of(outcome, code_len)
                                                                            &&& exists|announce: &mut H, topics: Vec<Topic>| {
                                                                                  &&& #[trigger] call_ensures(
                                                                                          H::deposit_event,
                                                                                          (
                                                                                              announce,
                                                                                              topics,
                                                                                              Event::Instantiated(mid.caller(), mid.top().account_id),
                                                                                          ),
                                                                                          (),
                                                                                      )
                                                                                  &&& topics@.len() == 0
                                                                                  &&& *announce == *final(rent)
                                                                                  &&& {
                                                                                        let closed = mid.with_top_cache(CachedContract::Cached(kept)).after_failure_of(output is Err);
                                                                                        &&& final(self)@ == closed.after_pop(persists(output))
                                                                                        &&& match closed.write_back(persists(output)) {
                                                                                                None => *final(host) == *final(announce),
                                                                                                Some((owner, record)) => exists|store: &mut H| {
                                                                                                  &&& #[trigger] call_ensures(H::store_contract, (store, &owner, record), ())
                                                                                                  &&& *store == *final(announce)
                                                                                                  &&& *final(store) == *final(host)
                                                                                                },
                                                                                            }
                                                                                      }
                                                                                }
                                                                          },
                                                                          Err(failure) => {
                                                                            &&& output == Err::<(ExecReturnValue, u32), (ExecError, u32)>(failure)
                                                                            &&& {
                                                                                  let closed = mid.with_top_cache(CachedContract::Invalidated).after_failure_of(output is Err);
                                                                                  &&& final(self)@ == closed.after_pop(persists(output))
                                                                                  &&& match closed.write_back(persists(output)) {
                                                                                          None => *final(host) == *final(rent),
                                                                                          Some((owner, record)) => exists|store: &mut H| {
                                                                                            &&& #[trigger] call_ensures(H::store_contract, (store, &owner, record), ())
                                                                                            &&& *store == *final(rent)
                                                                                            &&& *final(store) == *final(host)
                                                                                          },
                                                                                      }
                                                                                }
                                                                          },
                                                                      }
                                                                }
                                                              } else {
                                                                &&& output == (if commits(outcome) && start.top().entry_point
                                                                        == ExportedFunction::Constructor {
                                                                        Err::<(ExecReturnValue, u32), (ExecError, u32)>(
                                                                            (ExecError::caller(Error::NotCallable), code_len),
                                                                        )
                                                                    } else {
                                                                        output_of(outcome, code_len)
                                                                    })
                                                                &&& {
                                                                      let closed = mid.after_failure_of(output is Err);
                                                                      &&& final(self)@ == closed.after_pop(persists(output))
                                                                      &&& match closed.write_back(persists(output)) {
                                                                              None => *final(host) == *final(close),
                                                                              Some((owner, record)) => exists|store: &mut H| {
                                                                                &&& #[trigger] call_ensures(H::store_contract, (store, &owner, record), ())
                                                                                &&& *store == *final(close)
                                                                                &&& *final(store) == *final(host)
                                                                              },
                                                                          }
                                                                    }
                                                              }
                                                        }
                                                      })
                                                    } else {
                                                      {
                                                        &&& output == Err::<(ExecReturnValue, u32), (ExecError, u32)>(
                                                                (ExecError::caller(Error::OutOfGas), code_len),
                                                            )
                                                        &&& *final(host) == *final(rent)
                                                        &&& final(self)@ == old(self)@.with_top_meter(*final(fuel))
                                                      }
                                                    }
                                              },
                                          }
                                    },
                                }
                          },
                      }
                },
            },
    {
        proof {
            use_type_invariant(&*self);
            self.lemma_within_depth();
        }
        let existing = self.existing_record(&to);
        match self.push_frame(host, FrameArgs::Call(to, existing), value, gas_limit) {
            Err(failure) => {
                proof {
                    lemma_meter_and_seed_keep_invocations(
                        old(self)@,
                        self@.top().nested_meter,
                        None,
                    );
                }
                Err(failure)
            },
            Ok(executable) => {
                let ghost base = self@.with_frames(self@.frames.drop_last());
                let ghost frame = self@.top();
                let output = self.run(host, executable, input_data);
                proof {
                    lemma_meter_and_seed_keep_invocations(
                        old(self)@,
                        base.top().nested_meter,
                        None,
                    );
                    lemma_invocation_returns(base, frame, self@);
                    lemma_same_invocations_compose(old(self)@, base, self@);
                }
                output
            },
        }
    }

    /// The code is loaded against the running frame's meter, then a seed is
    /// drawn for the new account, then the frame is made and run. At the
    /// maximal depth no frame is made and the instantiation fails.
    fn instantiate(
        &mut self,
        host: &mut H,
        gas_limit: Weight,
        code: CodeHash,
        value: Balance,
        input_data: Vec<u8>,
        salt: &[u8],
    ) -> (result: Result<(AccountId, ExecReturnValue, u32), (ExecError, u32)>)
        ensures
            old(self)@.depth() == old(self)@.max_depth ==> (match result {
                Ok(_) => false,
                Err((failure, code_len)) => failure.origin == ErrorOrigin::Caller && code_len == 0,
            }) && old(self)@.same_invocations(final(self)@),
            final(self)@.wf(),
            old(self)@.same_invocations(final(self)@),
            exists|
                load: &mut H,
                fuel: &mut GasMeter,
                loaded: Result<E, DispatchError>,
            | {
              &&& #[trigger] call_ensures(
                      E::from_storage,
                      (
                          load,
                          code,
                          old(self).schedule_of(),
                          fuel,
                      ),
                      loaded,
                  )
              &&& *load == *old(host)
              &&& *fuel == old(self)@.top().nested_meter
              &&& match loaded {
                      Err(refused) => {
                        &&& result == Err::<(AccountId, ExecReturnValue, u32), (ExecError, u32)>(
                                (ExecError::from_dispatch(refused), 0u32),
                            )
                        &&& *final(host) == *final(load)
                        &&& final(self)@ == old(self)@.with_top_meter(*final(fuel))
                      },
                      Ok(code) => exists|seed: u64| {
                        &&& (#[trigger] old(self)@.with_top_meter(*final(fuel)).with_counter(
                                Some(seed),
                            )).account_counter == Some(seed)
                        &&& match old(self)@.account_counter {
                                Some(current) => seed == seed_after(current),
                                None => exists|stored: u64| {
                                  &&& #[trigger] call_ensures(H::account_counter, (&*final(load),), stored)
                                  &&& seed == seed_after(stored)
                                },
                            }
                        &&& {
                              let seeded = old(self)@.with_top_meter(*final(fuel)).with_counter(Some(seed));
                              &&& if old(self)@.depth() == old(self)@.max_depth {
                                    &&& result == Err::<(AccountId, ExecReturnValue, u32), (ExecError, u32)>(
                                            (ExecError::caller(Error::MaxCallDepthReached), 0u32),
                                        )
                                    &&& *final(host) == *final(load)
                                    &&& final(self)@ == seeded
                                  } else {
                                    exists|
                                        code_len: u32,
                                        code_hash: &CodeHash,
                                        account: AccountId,
                                        trie_id: TrieId,
                                        create: &mut H,
                                        created: Result<AliveContractInfo, HostError>,
                                    |
                                        #![trigger
                                            call_ensures(E::code_len, (&code,), code_len),
                                            call_ensures(E::code_hash, (&code,), code_hash),
                                            call_ensures(
                                                H::generate_trie_id,
                                                (
                                                    &*final(load),
                                                    &account,
                                                    seed,
                                                ),
                                                trie_id,
                                            ),
                                            call_ensures(
                                                H::new_contract,
                                                (
                                                    create,
                                                    &account,
                                                    trie_id,
                                                    *code_hash,
                                                ),
                                                created,
                                            ),
                                        ] {
                                      &&& call_ensures(E::code_len, (&code,), code_len)
                                      &&& call_ensures(E::code_hash, (&code,), code_hash)
                                      &&& call_ensures(
                                              H::contract_address,
                                              (
                                                  &*final(load),
                                                  &old(self)@.top().account_id,
                                                  code_hash,
                                                  salt,
                                              ),
                                              account,
                                          )
                                      &&& call_ensures(
                                              H::generate_trie_id,
                                              (
                                                  &*final(load),
                                                  &account,
                                                  seed,
                                              ),
                                              trie_id,
                                          )
                                      &&& call_ensures(
                                              H::new_contract,
                                              (
                                                  create,
                                                  &account,
                                                  trie_id,
                                                  *code_hash,
                                              ),
                                              created,
                                          )
                                      &&& *create == *final(load)
                                      &&& match created {
                                              Err(refused) => {
                                                &&& result == Err::<(AccountId, ExecReturnValue, u32), (ExecError, u32)>(
                                                        (ExecError::from_dispatch(DispatchError::of_host(refused)), code_len),
                                                    )
                                                &&& *final(host) == *final(create)
                                                &&& final(self)@ == seeded.with_top_meter(*final(fuel))
                                              },
                                              Ok(fresh) => exists|params: RentParams| {
                                                &&& #[trigger] snapshot_of(&*final(create), account, fresh, &code, params)
                                                &&& if (*final(fuel)).grants(gas_limit) {
                                                      let frame = made_frame(
                                                          account,
                                                          fresh,
                                                          value,
                                                          params,
                                                          ExportedFunction::Constructor,
                                                          (*final(fuel)).child(gas_limit),
                                                      );
                                                      exists|output: Output| {
                                                        &&& #[trigger] output_as_instantiated(output, account) == result
                                                        &&& ({
                                                              let start = seeded.with_top_meter((*final(fuel)).after_granting(gas_limit)).after_push(frame);
                                                              exists|
                                                                  tx: &mut H,
                                                                  close: &mut H,
                                                                  outcome: Result<ExecReturnValue, (ExecError, u32)>,
                                                                  mid: StackView,
                                                                  code_len: u32,
                                                                  share: u32,
                                                              |
                                                                  #![trigger
                                                                      call_ensures(H::start_transaction, (tx,), ()),
                                                                      call_ensures(H::commit_transaction, (close,), ()),
                                                                      pays_first_rent(outcome, start.top().entry_point, mid),
                                                                      call_ensures(E::code_len, (&code,), code_len),
                                                                      call_ensures(E::occupied_storage, (&code,), share),
                                                                  ]
                                                                  #![trigger
                                                                      call_ensures(H::start_transaction, (tx,), ()),
                                                                      call_ensures(H::rollback_transaction, (close,), ()),
                                                                      pays_first_rent(outcome, start.top().entry_point, mid),
                                                                      call_ensures(E::code_len, (&code,), code_len),
                                                                      call_ensures(E::occupied_storage, (&code,), share),
                                                                  ] {
                                                                &&& *tx == *final(create)
                                                                &&& call_ensures(H::start_transaction, (tx,), ())
                                                                &&& call_ensures(E::code_len, (&code,), code_len)
                                                                &&& call_ensures(E::occupied_storage, (&code,), share)
                                                                &&& start.top().value_transferred == 0 ==> exists|ext: &mut Stack<'a, H, E>, chain: &mut H, answer: ExecResult| {
                                                                      &&& #[trigger] call_ensures(
                                                                              E::execute,
                                                                              (
                                                                                  code,
                                                                                  ext,
                                                                                  chain,
                                                                                  &start.top().entry_point,
                                                                                  input_data,
                                                                              ),
                                                                              answer,
                                                                          )
                                                                      &&& (*ext)@ == start
                                                                      &&& *chain == *final(tx)
                                                                      &&& outcome == callee_outcome(answer, code_len)
                                                                      &&& mid == (*final(ext))@
                                                                      &&& *close == *final(chain)
                                                                    }
                                                                &&& start.top().value_transferred != 0 ==> exists|decision: Result<ExistenceRequirement, Error>| {
                                                                      &&& #[trigger] decided_for(
                                                                              &*final(tx),
                                                                              start.caller_is_contract(),
                                                                              false,
                                                                              start.caller(),
                                                                              start.top().value_transferred,
                                                                              decision,
                                                                          )
                                                                      &&& match decision {
                                                                              Err(objection) => {
                                                                                &&& outcome == Err::<ExecReturnValue, (ExecError, u32)>(
                                                                                        (ExecError::caller(objection), 0u32),
                                                                                    )
                                                                                &&& mid == start
                                                                                &&& *close == *final(tx)
                                                                              },
                                                                              Ok(existence) => exists|currency: &mut H, moved: Result<(), HostError>| {
                                                                                &&& #[trigger] call_ensures(
                                                                                        H::currency_transfer,
                                                                                        (
                                                                                            currency,
                                                                                            &start.caller(),
                                                                                            &start.top().account_id,
                                                                                            start.top().value_transferred,
                                                                                            existence,
                                                                                        ),
                                                                                        moved,
                                                                                    )
                                                                                &&& *currency == *final(tx)
                                                                                &&& match moved {
                                                                                        Err(_) => {
                                                                                          &&& outcome == Err::<ExecReturnValue, (ExecError, u32)>(
                                                                                                  (ExecError::caller(Error::TransferFailed), 0u32),
                                                                                              )
                                                                                          &&& mid == start
                                                                                          &&& *close == *final(currency)
                                                                                        },
                                                                                        Ok(()) => exists|ext: &mut Stack<'a, H, E>, chain: &mut H, answer: ExecResult| {
                                                                                          &&& #[trigger] call_ensures(
                                                                                                  E::execute,
                                                                                                  (
                                                                                                      code,
                                                                                                      ext,
                                                                                                      chain,
                                                                                                      &start.top().entry_point,
                                                                                                      input_data,
                                                                                                  ),
                                                                                                  answer,
                                                                                              )
                                                                                          &&& (*ext)@ == start
                                                                                          &&& *chain == *final(currency)
                                                                                          &&& outcome == callee_outcome(answer, code_len)
                                                                                          &&& mid == (*final(ext))@
                                                                                          &&& *close == *final(chain)
                                                                                        },
                                                                                    }
                                                                              },
                                                                          }
                                                                    }
                                                                &&& commits(outcome) ==> call_ensures(H::commit_transaction, (close,), ())
                                                                &&& !commits(outcome) ==> call_ensures(H::rollback_transaction, (close,), ())
                                                                &&& start.same_invocations(mid)
                                                                &&& if pays_first_rent(outcome, start.top().entry_point, mid) {
                                                                      exists|
                                                                          record: AliveContractInfo,
                                                                          rent: &mut H,
                                                                          charged: Result<Option<AliveContractInfo>, HostError>,
                                                                      | {
                                                                        &&& #[trigger] call_ensures(
                                                                                H::charge_rent,
                                                                                (
                                                                                    rent,
                                                                                    &mid.top().account_id,
                                                                                    record,
                                                                                    share,
                                                                                ),
                                                                                charged,
                                                                            )
                                                                        &&& loaded_record(
                                                                                mid.top().contract_info,
                                                                                &*final(close),
                                                                                mid.top().account_id,
                                                                                record,
                                                                            )
                                                                        &&& *rent == *final(close)
                                                                        &&& match rent_outcome(charged, Error::NewContractNotFunded, code_len) {
                                                                                Ok(kept) => {
                                                                                  &&& output == output_of(outcome, code_len)
                                                                                  &&& exists|announce: &mut H, topics: Vec<Topic>| {
                                                                                        &&& #[trigger] call_ensures(
                                                                                                H::deposit_event,
                                                                                                (
                                                                                                    announce,
                                                                                                    topics,
                                                                                                    Event::Instantiated(mid.caller(), mid.top().account_id),
                                                                                                ),
                                                                                                (),
                                                                                            )
                                                                                        &&& topics@.len() == 0
                                                                                        &&& *announce == *final(rent)
                                                                                        &&& {
                                                                                              let closed = mid.with_top_cache(CachedContract::Cached(kept)).after_failure_of(output is Err);
                                                                                              &&& final(self)@ == closed.after_pop(persists(output))
                                                                                              &&& match closed.write_back(persists(output)) {
                                                                                                      None => *final(host) == *final(announce),
                                                                                                      Some((owner, record)) => exists|store: &mut H| {
                                                                                                        &&& #[trigger] call_ensures(H::store_contract, (store, &owner, record), ())
                                                                                                        &&& *store == *final(announce)
                                                                                                        &&& *final(store) == *final(host)
                                                                                                      },
                                                                                                  }
                                                                                            }
                                                                                      }
                                                                                },
                                                                                Err(failure) => {
                                                                                  &&& output == Err::<(ExecReturnValue, u32), (ExecError, u32)>(failure)
                                                                                  &&& {
                                                                                        let closed = mid.with_top_cache(CachedContract::Invalidated).after_failure_of(output is Err);
                                                                                        &&& final(self)@ == closed.after_pop(persists(output))
                                                                                        &&& match closed.write_back(persists(output)) {
                                                                                                None => *final(host) == *final(rent),
                                                                                                Some((owner, record)) => exists|store: &mut H| {
                                                                                                  &&& #[trigger] call_ensures(H::store_contract, (store, &owner, record), ())
                                                                                                  &&& *store == *final(rent)
                                                                                                  &&& *final(store) == *final(host)
                                                                                                },
                                                                                            }
                                                                                      }
                                                                                },
                                                                            }
                                                                      }
                                                                    } else {
                                                                      &&& output == (if commits(outcome) && start.top().entry_point
                                                                              == ExportedFunction::Constructor {
                                                                              Err::<(ExecReturnValue, u32), (ExecError, u32)>(
                                                                                  (ExecError::caller(Error::NotCallable), code_len),
                                                                              )
                                                                          } else {
                                                                              output_of(outcome, code_len)
                                                                          })
                                                                      &&& {
                                                                            let closed = mid.after_failure_of(output is Err);
                                                                            &&& final(self)@ == closed.after_pop(persists(output))
                                                                            &&& match closed.write_back(persists(output)) {
                                                                                    None => *final(host) == *final(close),
                                                                                    Some((owner, record)) => exists|store: &mut H| {
                                                                                      &&& #[trigger] call_ensures(H::store_contract, (store, &owner, record), ())
                                                                                      &&& *store == *final(close)
                                                                                      &&& *final(store) == *final(host)
                                                                                    },
                                                                                }
                                                                          }
                                                                    }
                                                              }
                                                            })
                                                      }
                                                    } else {
                                                      {
                                                        &&& result == Err::<(AccountId, ExecReturnValue, u32), (ExecError, u32)>(
                                                                (ExecError::caller(Error::OutOfGas), code_len),
                                                            )
                                                        &&& *final(host) == *final(create)
                                                        &&& final(self)@ == seeded.with_top_meter(*final(fuel))
                                                      }
                                                    }
                                              },
                                          }
                                    }
                                  }
                            }
                      },
                  }
            },
    {
        proof {
            use_type_invariant(&*self);
            self.lemma_within_depth();
        }
        let mut meter = self.top_meter();
        let loaded = E::from_storage(host, code, self.schedule_ref(), &mut meter);
        self.set_top_meter(meter);
        proof {
            lemma_meter_and_seed_keep_invocations(old(self)@, self@.top().nested_meter, None);
        }
        let executable = match loaded {
            Ok(executable) => executable,
            Err(error) => {
                return Err((ExecError::from_dispatch_error(error), 0));
            },
        };
        let ghost fueled = self@;
        let seed = self.next_account_seed(&*host);
        let ghost seeded = self@;
        assert(seeded == fueled.with_counter(Some(seed)));
        proof {
            lemma_meter_and_seed_keep_invocations(
                old(self)@,
                fueled.top().nested_meter,
                Some(seed),
            );
        }
        let deployer = self.frame().account_id;
        let executable = match self.push_frame(
            host,
            FrameArgs::Instantiate(deployer, seed, executable, salt),
            value,
            gas_limit,
        ) {
            Ok(executable) => executable,
            Err(failure) => {
                proof {
                    lemma_meter_and_seed_keep_invocations(seeded, self@.top().nested_meter, None);
                    lemma_same_invocations_compose(old(self)@, seeded, self@);
                }
                return Err(failure);
            },
        };
        let account_id = self.frame().account_id;
        let ghost base = self@.with_frames(self@.frames.drop_last());
        let ghost frame = self@.top();
        let output = self.run(host, executable, input_data);
        let ghost yielded = output;
        proof {
            lemma_meter_and_seed_keep_invocations(seeded, base.top().nested_meter, None);
            lemma_invocation_returns(base, frame, self@);
            lemma_same_invocations_compose(seeded, base, self@);
            lemma_same_invocations_compose(old(self)@, seeded, self@);
        }
        let result = match output {
            Ok((returned, code_len)) => Ok((account_id, returned, code_len)),
            Err(failure) => Err(failure),
        };
        assert(output_as_instantiated(yielded, account_id) == result);
        result
    }

    /// A contract that is on the stack more than once is refused, and
    /// nothing changes. Otherwise the frame's record is marked as removed
    /// first; then the storage is queued for deletion, the free balance is
    /// sent to the beneficiary, the record is removed from the chain, the
    /// code loses a user and the removal is announced. The first of these
    /// steps that fails ends the operation.
    fn terminate(&mut self, host: &mut H, beneficiary: &AccountId) -> (result: Result<
        u32,
        (DispatchError, u32),
    >)
        ensures
            old(self)@.is_recursive() ==> result == Err::<u32, (DispatchError, u32)>(
                (DispatchError::Contract(Error::ReentranceDenied), 0u32),
            ) && final(self)@ == old(self)@ && *final(host) == *old(host),
            !old(self)@.is_recursive() ==> final(self)@ == old(self)@.with_top_cache(
                CachedContract::Terminated,
            ) && (match result {
                Ok(_) => true,
                Err((error, code_len)) => error != DispatchError::Contract(Error::ReentranceDenied)
                    && code_len == 0,
            }),
            !old(self)@.is_recursive() ==> ({
              let account = old(self)@.top().account_id;
              exists|
                  record: AliveContractInfo,
                  queue: &mut H,
                  queued: Result<(), HostError>,
              | {
                &&& #[trigger] call_ensures(H::queue_trie_for_deletion, (queue, &record), queued)
                &&& loaded_record(old(self)@.top().contract_info, &*old(host), account, record)
                &&& *queue == *old(host)
                &&& match queued {
                        Err(refused) => {
                          &&& result == Err::<u32, (DispatchError, u32)>((DispatchError::of_host(refused), 0u32))
                          &&& *final(host) == *final(queue)
                        },
                        Ok(()) => exists|free: Balance| {
                          &&& #[trigger] call_ensures(H::free_balance, (&*final(queue), &account), free)
                          &&& if free == 0 {
                                exists|
                                    remove: &mut H,
                                    unuse: &mut H,
                                    code_len: u32,
                                    announce: &mut H,
                                    topics: Vec<Topic>,
                                |
                                    #![trigger
                                        call_ensures(H::remove_contract, (remove, &account), ()),
                                        call_ensures(E::remove_user, (unuse, record.code_hash), code_len),
                                        call_ensures(
                                            H::deposit_event,
                                            (
                                                announce,
                                                topics,
                                                Event::Terminated(account, *beneficiary),
                                            ),
                                            (),
                                        ),
                                    ] {
                                  &&& call_ensures(H::remove_contract, (remove, &account), ())
                                  &&& call_ensures(E::remove_user, (unuse, record.code_hash), code_len)
                                  &&& call_ensures(
                                          H::deposit_event,
                                          (
                                              announce,
                                              topics,
                                              Event::Terminated(account, *beneficiary),
                                          ),
                                          (),
                                      )
                                  &&& topics@.len() == 0
                                  &&& *remove == *final(queue)
                                  &&& *unuse == *final(remove)
                                  &&& *announce == *final(unuse)
                                  &&& *final(announce) == *final(host)
                                  &&& result == Ok::<u32, (DispatchError, u32)>(code_len)
                                }
                              } else {
                                exists|decision: Result<ExistenceRequirement, Error>| {
                                  &&& #[trigger] decided_for(&*final(queue), true, true, account, free, decision)
                                  &&& exists|currency: &mut H, moved: Result<(), HostError>| {
                                        &&& #[trigger] call_ensures(
                                                H::currency_transfer,
                                                (
                                                    currency,
                                                    &account,
                                                    beneficiary,
                                                    free,
                                                    ExistenceRequirement::AllowDeath,
                                                ),
                                                moved,
                                            )
                                        &&& *currency == *final(queue)
                                        &&& match moved {
                                                Err(_) => {
                                                  &&& result == Err::<u32, (DispatchError, u32)>(
                                                          (DispatchError::Contract(Error::TransferFailed), 0u32),
                                                      )
                                                  &&& *final(host) == *final(currency)
                                                },
                                                Ok(()) => exists|
                                                    remove: &mut H,
                                                    unuse: &mut H,
                                                    code_len: u32,
                                                    announce: &mut H,
                                                    topics: Vec<Topic>,
                                                |
                                                    #![trigger
                                                        call_ensures(H::remove_contract, (remove, &account), ()),
                                                        call_ensures(E::remove_user, (unuse, record.code_hash), code_len),
                                                        call_ensures(
                                                            H::deposit_event,
                                                            (
                                                                announce,
                                                                topics,
                                                                Event::Terminated(account, *beneficiary),
                                                            ),
                                                            (),
                                                        ),
                                                    ] {
                                                  &&& call_ensures(H::remove_contract, (remove, &account), ())
                                                  &&& call_ensures(E::remove_user, (unuse, record.code_hash), code_len)
                                                  &&& call_ensures(
                                                          H::deposit_event,
                                                          (
                                                              announce,
                                                              topics,
                                                              Event::Terminated(account, *beneficiary),
                                                          ),
                                                          (),
                                                      )
                                                  &&& topics@.len() == 0
                                                  &&& *remove == *final(currency)
                                                  &&& *unuse == *final(remove)
                                                  &&& *announce == *final(unuse)
                                                  &&& *final(announce) == *final(host)
                                                  &&& result == Ok::<u32, (DispatchError, u32)>(code_len)
                                                },
                                            }
                                      }
                                }
                              }
                        },
                    }
              }
            }),
            old(self)@.same_invocations(final(self)@),
    {
        if self.is_recursive() {
            return Err((DispatchError::Contract(Error::ReentranceDenied), 0));
        }
        let mut frame = *self.frame();
        let account_id = frame.account_id;
        let info = frame.terminate(&*host);
        self.set_top_cache(frame.contract_info);
        match host.queue_trie_for_deletion(&info) {
            Ok(()) => {},
            Err(error) => {
                return Err((DispatchError::from_host(error), 0));
            },
        }
        let free_balance = host.free_balance(&account_id);
        match crate::transfer::transfer(host, true, true, &account_id, beneficiary, free_balance) {
            Ok(()) => {},
            Err(error) => {
                return Err((error, 0));
            },
        }
        host.remove_contract(&account_id);
        let code_len = E::remove_user(host, info.code_hash);
        host.deposit_event(Vec::new(), Event::Terminated(account_id, *beneficiary));
        Ok(code_len)
    }

    /// A contract that is on the stack more than once is refused, and
    /// nothing changes. Otherwise the chain decides; where it restores, the
    /// restoration is announced. The stack stays as it is.
    fn restore_to(
        &mut self,
        host: &mut H,
        dest: AccountId,
        code_hash: CodeHash,
        rent_allowance: Balance,
        delta: Vec<StorageKey>,
    ) -> (result: Result<(u32, u32), (DispatchError, u32, u32)>)
        ensures
            final(self)@ == old(self)@,
            old(self)@.is_recursive() ==> result == Err::<(u32, u32), (DispatchError, u32, u32)>(
                (DispatchError::Contract(Error::ReentranceDenied), 0u32, 0u32),
            ) && *final(host) == *old(host),
            !old(self)@.is_recursive() ==> (match result {
                Ok(_) => true,
                Err((error, _, _)) => error != DispatchError::Contract(Error::ReentranceDenied),
            }),
            !old(self)@.is_recursive() ==> exists|
                chain: &mut H,
                answer: Result<(u32, u32), (HostError, u32, u32)>,
            | #[trigger]
                call_ensures(
                    H::restore_to,
                    (chain, old(self)@.top().account_id, dest, code_hash, rent_allowance, delta),
                    answer,
                ) && *chain == *old(host) && (match answer {
                    Ok(code_lens) => result == Ok::<(u32, u32), (DispatchError, u32, u32)>(
                        code_lens,
                    ) && exists|announce: &mut H, topics: Vec<Topic>| #[trigger]
                        call_ensures(
                            H::deposit_event,
                            (
                                announce,
                                topics,
                                Event::Restored(old(self)@.top().account_id, dest, code_hash, rent_allowance),
                            ),
                            (),
                        ) && topics@.len() == 0 && *announce == *final(chain) && *final(announce)
                            == *final(host),
                    Err((refused, origin_len, dest_len)) => result == Err::<
                        (u32, u32),
                        (DispatchError, u32, u32),
                    >((DispatchError::of_host(refused), origin_len, dest_len)) && *final(host)
                        == *final(chain),
                }),
            old(self)@.same_invocations(final(self)@),
    {
        if self.is_recursive() {
            return Err((DispatchError::Contract(Error::ReentranceDenied), 0, 0));
        }
        let account_id = self.frame().account_id;
        match host.restore_to(account_id, dest, code_hash, rent_allowance, delta) {
            Ok(code_lens) => {
                host.deposit_event(
                    Vec::new(),
                    Event::Restored(account_id, dest, code_hash, rent_allowance),
                );
                Ok(code_lens)
            },
            Err((error, caller_code_len, dest_code_len)) => Err(
                (DispatchError::from_host(error), caller_code_len, dest_code_len),
            ),
        }
    }

    /// The running contract is the sender and may not die of the transfer:
    /// see [`crate::transfer::transfer`]. The stack stays as it is.
    fn transfer(&mut self, host: &mut H, to: &AccountId, value: Balance) -> (result: DispatchResult)
        ensures
            final(self)@ == old(self)@,
            value == 0 ==> result is Ok && *final(host) == *old(host),
            value != 0 ==> exists|decision: Result<ExistenceRequirement, Error>| #[trigger]
                decided_for(
                    &*old(host),
                    true,
                    false,
                    old(self)@.top().account_id,
                    value,
                    decision,
                ) && (match decision {
                    Err(objection) => result == Err::<(), DispatchError>(
                        DispatchError::Contract(objection),
                    ) && *final(host) == *old(host),
                    Ok(existence) => exists|currency: &mut H, answer: Result<(), HostError>|
                        *currency == *old(host) && *final(currency) == *final(host) && #[trigger]
                        call_ensures(
                            H::currency_transfer,
                            (currency, &old(self)@.top().account_id, to, value, existence),
                            answer,
                        ) && result == transfer_outcome(answer),
                }),
            result is Err ==> (result == Err::<(), DispatchError>(
                DispatchError::Contract(Error::BelowSubsistenceThreshold),
            ) || result == Err::<(), DispatchError>(
                DispatchError::Contract(Error::TransferFailed),
            )),
            result == Err::<(), DispatchError>(
                DispatchError::Contract(Error::BelowSubsistenceThreshold),
            ) ==> *final(host) == *old(host),
            old(self)@.same_invocations(final(self)@),
    {
        let account_id = self.frame().account_id;
        crate::transfer::transfer(host, true, false, &account_id, to, value)
    }

    /// Reads under the trie of the running contract's record, which is read
    /// anew from the chain first where the frame's view of it is
    /// invalidated. Nothing else of the stack changes.
    fn get_storage(&mut self, host: &H, key: &StorageKey) -> (value: Option<Vec<u8>>)
        ensures
            final(self)@.top().contract_info is Cached,
            final(self)@ == old(self)@.with_top_cache(final(self)@.top().contract_info),
            old(self)@.top().contract_info is Cached ==> final(self)@ == old(self)@,
            old(self)@.same_invocations(final(self)@),
            loaded_record(old(self)@.top().contract_info, host, old(self)@.top().account_id, final(self)@.top().contract_info->Cached_0),
            call_ensures(
                H::read_storage,
                (host, &final(self)@.top().contract_info->Cached_0.trie_id, key),
                value,
            ),
    {
        let mut frame = *self.frame();
        let value = host.read_storage(&frame.contract_info(host).trie_id, key);
        self.set_top_cache(frame.contract_info);
        proof {
            lemma_same_top_cache(old(self)@);
        }
        value
    }

    /// Writes under the trie of the running contract's record; the chain
    /// adjusts the size bookkeeping of the record, which stays cached in the
    /// running frame. Nothing else of the stack changes.
    fn set_storage(&mut self, host: &mut H, key: StorageKey, value: Option<Vec<u8>>) -> (result:
        DispatchResult)
        ensures
            final(self)@.top().contract_info is Cached,
            final(self)@ == old(self)@.with_top_cache(final(self)@.top().contract_info),
            old(self)@.same_invocations(final(self)@),
            exists|
                chain: &mut H,
                info: &mut AliveContractInfo,
                written: Result<(), HostError>,
            | #[trigger]
                call_ensures(
                    H::write_storage,
                    (chain, old(self)@.block_number, info, &key, value),
                    written,
                ) && loaded_record(old(self)@.top().contract_info, &*old(host), old(self)@.top().account_id, *info) && *chain == *old(host)
                    && *final(chain) == *final(host) && final(self)@.top().contract_info
                    == CachedContract::Cached(*final(info)) && result == (match written {
                    Ok(()) => Ok::<(), DispatchError>(()),
                    Err(refused) => Err::<(), DispatchError>(DispatchError::of_host(refused)),
                }),
    {
        let block_number = self.block_height();
        let mut frame = *self.frame();
        let info = frame.contract_info(&*host);
        let written = host.write_storage(block_number, info, &key, value);
        self.set_top_cache(frame.contract_info);
        match written {
            Ok(()) => Ok(()),
            Err(error) => Err(DispatchError::from_host(error)),
        }
    }

    /// The account of the frame under the running one, or the origin where
    /// the first frame runs.
    fn caller(&self) -> (caller: &AccountId)
        ensures
            *caller == self@.caller(),
            self@.depth() == 1 ==> *caller == self@.origin,
            self@.depth() > 1 ==> *caller == self@.frames[self@.depth() - 2].account_id,
    {
        self.caller_account()
    }

    fn address(&self) -> (address: &AccountId)
        ensures
            *address == self@.top().account_id,
    {
        &self.frame().account_id
    }

    /// What the chain answers when asked for the free balance of the running
    /// contract.
    fn balance(&self, host: &H) -> (balance: Balance)
        ensures
            call_ensures(H::free_balance, (host, &self@.top().account_id), balance),
    {
        host.free_balance(&self.frame().account_id)
    }

    fn value_transferred(&self) -> (value: Balance)
        ensures
            value == self@.top().value_transferred,
    {
        self.frame().value_transferred
    }

    fn now(&self) -> (now: &Moment)
        ensures
            *now == self@.timestamp,
    {
        self.timestamp_ref()
    }

    /// What the chain answers when asked for its minimum balance.
    fn minimum_balance(&self, host: &H) -> (minimum: Balance)
        ensures
            call_ensures(H::minimum_balance, (host,), minimum),
    {
        host.minimum_balance()
    }

    /// What the chain answers when asked for its tombstone deposit.
    fn tombstone_deposit(&self, host: &H) -> (deposit: Balance)
        ensures
            call_ensures(H::tombstone_deposit, (host,), deposit),
    {
        host.tombstone_deposit()
    }

    /// What the chain answers when asked for a random seed for `subject`.
    fn random(&self, host: &H, subject: &[u8]) -> (random: (Seed, BlockNumber))
        ensures
            call_ensures(H::random, (host, subject), random),
    {
        host.random(subject)
    }

    /// The event is `ContractEmitted` with the address of the running
    /// contract; the stack stays as it is.
    fn deposit_event(&mut self, host: &mut H, topics: Vec<Topic>, data: Vec<u8>)
        ensures
            final(self)@ == old(self)@,
            old(self)@.same_invocations(final(self)@),
            exists|chain: &mut H|
                *chain == *old(host) && *final(chain) == *final(host) && #[trigger] call_ensures(
                    H::deposit_event,
                    (chain, topics, Event::ContractEmitted(old(self)@.top().account_id, data)),
                    (),
                ),
    {
        let event = Event::ContractEmitted(self.frame().account_id, data);
        host.deposit_event(topics, event);
    }

    /// The allowance is set in the record cached in the running frame, which
    /// is read anew from the chain first where the frame's view of it is
    /// invalidated. Nothing else of the record or of the stack changes: the
    /// rent figures of the frame keep the allowance they were taken with.
    fn set_rent_allowance(&mut self, host: &H, rent_allowance: Balance)
        ensures
            final(self)@.top().contract_info is Cached,
            final(self)@.top().contract_info->Cached_0.rent_allowance == rent_allowance,
            final(self)@ == old(self)@.with_top_cache(final(self)@.top().contract_info),
            old(self)@.top().contract_info matches CachedContract::Cached(held) ==> {
                let kept = final(self)@.top().contract_info;
                kept == CachedContract::Cached(AliveContractInfo { rent_allowance, ..held })
            },
            old(self)@.same_invocations(final(self)@),
            exists|record: AliveContractInfo| #[trigger]
                loaded_record(old(self)@.top().contract_info, host, old(self)@.top().account_id, record) && final(self)@.top().contract_info
                    == CachedContract::Cached(AliveContractInfo { rent_allowance, ..record }),
    {
        let mut frame = *self.frame();
        let info = frame.contract_info(host);
        let ghost record = *info;
        info.rent_allowance = rent_allowance;
        self.set_top_cache(frame.contract_info);
        assert(loaded_record(old(self)@.top().contract_info, host, old(self)@.top().account_id, record));
    }

    /// The allowance of the record cached in the running frame, which is
    /// read anew from the chain first where the frame's view of it is
    /// invalidated. Nothing else of the stack changes.
    fn rent_allowance(&mut self, host: &H) -> (rent_allowance: Balance)
        ensures
            final(self)@.top().contract_info is Cached,
            rent_allowance == final(self)@.top().contract_info->Cached_0.rent_allowance,
            final(self)@ == old(self)@.with_top_cache(final(self)@.top().contract_info),
            old(self)@.top().contract_info is Cached ==> final(self)@ == old(self)@,
            old(self)@.same_invocations(final(self)@),
            loaded_record(old(self)@.top().contract_info, host, old(self)@.top().account_id, final(self)@.top().contract_info->Cached_0),
    {
        let mut frame = *self.frame();
        let rent_allowance = frame.contract_info(host).rent_allowance;
        self.set_top_cache(frame.contract_info);
        proof {
            lemma_same_top_cache(old(self)@);
        }
        rent_allowance
    }

    fn block_number(&self) -> (block_number: BlockNumber)
        ensures
            block_number == self@.block_number,
    {
        self.block_height()
    }

    /// What the chain answers when asked for the largest value of a cell.
    fn max_value_size(&self, host: &H) -> (size: u32)
        ensures
            call_ensures(H::max_value_size, (host,), size),
    {
        host.max_value_size()
    }

    /// What the chain answers when asked for the price of `weight`.
    fn get_weight_price(&self, host: &H, weight: Weight) -> (price: Balance)
        ensures
            call_ensures(H::weight_price, (host, weight), price),
    {
        host.weight_price(weight)
    }

    fn schedule(&self) -> (schedule: &H::Schedule)
        ensures
            schedule == self.schedule_of(),
    {
        self.schedule_ref()
    }

    /// The figures that were taken when the running frame was made.
    fn rent_params(&self) -> (rent_params: &RentParams)
        ensures
            *rent_params == self@.top().rent_params,
    {
        &self.frame().rent_params
    }

    /// The meter is that of the running frame; charging it changes nothing
    /// else of the stack.
    fn gas_meter(&mut self) -> (meter: &mut GasMeter)
        ensures
            *meter == old(self)@.top().nested_meter,
            old(self)@.same_invocations(final(self)@),
            final(self)@ == old(self)@.with_frames(
                old(self)@.frames.update(
                    old(self)@.frames.len() - 1,
                    old(self)@.top().with_meter(*final(meter)),
                ),
            ),
    {
        proof {
            use_type_invariant(&*self);
            self.lemma_within_depth();
        }
        self.top_meter_mut()
    }
}

} // verus!
