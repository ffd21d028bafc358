#![allow(dead_code, unused_imports)]

use std::cell::RefCell;
use std::collections::HashMap;
use std::rc::Rc;

use contract_executive::contract::{AliveContractInfo, Event};
use contract_executive::error::{
    DispatchError, Error, ErrorOrigin, ExecError, ExecResult, ExecReturnValue, HostError,
    ReturnFlags,
};
use contract_executive::executable::{Executable, ExportedFunction};
use contract_executive::executive::Output;
use contract_executive::ext::Ext;
use contract_executive::gas::GasMeter;
use contract_executive::host::Host;
use contract_executive::primitives::{
    AccountId, Balance, BlockNumber, CodeHash, Digest, ExistenceRequirement, Moment, Perbill,
    Seed, StorageKey, Topic, TrieId, Weight,
};
use contract_executive::rent_params::RentParams;
use contract_executive::stack::Stack;

const GAS_LIMIT: Weight = 10_000_000_000;
const TOMBSTONE_DEPOSIT: Balance = 16;
const MAX_DEPTH: u32 = 100;
const RENT_PER_BLOCK: Balance = 4;

fn alice() -> AccountId {
    AccountId::new([1u8; 32])
}

fn bob() -> AccountId {
    AccountId::new([2u8; 32])
}

fn charlie() -> AccountId {
    AccountId::new([3u8; 32])
}

fn django() -> AccountId {
    AccountId::new([4u8; 32])
}

/// Mixes bytes into a 32-byte digest; stands in for the chain's hash.
fn mix(parts: &[&[u8]]) -> [u8; 32] {
    let mut out = [0u8; 32];
    let mut state: u64 = 0xcbf2_9ce4_8422_2325;
    for part in parts {
        for byte in part.iter() {
            state ^= *byte as u64;
            state = state.wrapping_mul(0x0000_0100_0000_01b3);
        }
        state ^= 0xff;
        state = state.wrapping_mul(0x0000_0100_0000_01b3);
    }
    for (i, slot) in out.iter_mut().enumerate() {
        state ^= i as u64;
        state = state.wrapping_mul(0x0000_0100_0000_01b3);
        *slot = (state >> 24) as u8;
    }
    out
}

struct MockSchedule;

#[derive(Clone)]
struct Ledger {
    balances: HashMap<AccountId, Balance>,
    contracts: HashMap<AccountId, AliveContractInfo>,
    storage: HashMap<(TrieId, StorageKey), Vec<u8>>,
    deletion_queue: Vec<TrieId>,
    events: Vec<Event>,
}

struct MockCtx<'x, 'y> {
    ext: &'x mut Stack<'y, MockHost, MockExecutable>,
    host: &'x mut MockHost,
    input_data: Vec<u8>,
}

type Code = Rc<dyn for<'x, 'y> Fn(MockCtx<'x, 'y>, &MockExecutable) -> ExecResult>;

#[derive(Clone)]
struct MockExecutable {
    func: Code,
    func_type: ExportedFunction,
    code_hash: CodeHash,
    refcount: u64,
}

struct MockHost {
    existential_deposit: Balance,
    block_number: BlockNumber,
    account_counter: u64,
    ledger: Ledger,
    open: Vec<Ledger>,
    loader: HashMap<CodeHash, MockExecutable>,
    loader_counter: u64,
    seeds: RefCell<Vec<u64>>,
}

impl MockHost {
    fn new() -> MockHost {
        MockHost::with_existential_deposit(1)
    }

    fn with_existential_deposit(existential_deposit: Balance) -> MockHost {
        MockHost {
            existential_deposit,
            block_number: 1,
            account_counter: 0,
            ledger: Ledger {
                balances: HashMap::new(),
                contracts: HashMap::new(),
                storage: HashMap::new(),
                deletion_queue: Vec::new(),
                events: Vec::new(),
            },
            open: Vec::new(),
            loader: HashMap::new(),
            loader_counter: 0,
            seeds: RefCell::new(Vec::new()),
        }
    }

    fn insert(
        &mut self,
        func_type: ExportedFunction,
        f: impl for<'x, 'y> Fn(MockCtx<'x, 'y>, &MockExecutable) -> ExecResult + 'static,
    ) -> CodeHash {
        let mut bytes = [0u8; 32];
        bytes[24..].copy_from_slice(&self.loader_counter.to_be_bytes());
        let hash = Digest::new(bytes);
        self.loader_counter += 1;
        self.loader.insert(
            hash,
            MockExecutable { func: Rc::new(f), func_type, code_hash: hash, refcount: 1 },
        );
        hash
    }

    fn increment_refcount(&mut self, code_hash: CodeHash) {
        match self.loader.get_mut(&code_hash) {
            Some(executable) => executable.refcount += 1,
            None => panic!("code_hash does not exist"),
        }
    }

    fn decrement_refcount(&mut self, code_hash: CodeHash) {
        let gone = match self.loader.get_mut(&code_hash) {
            Some(executable) => {
                executable.refcount -= 1;
                executable.refcount == 0
            }
            None => panic!("code_hash does not exist"),
        };
        if gone {
            self.loader.remove(&code_hash);
        }
    }

    fn refcount(&self, code_hash: &CodeHash) -> u32 {
        self.loader.get(code_hash).expect("code_hash does not exist").refcount as u32
    }

    fn set_balance(&mut self, who: &AccountId, amount: Balance) {
        self.ledger.balances.insert(*who, amount);
    }

    fn get_balance(&self, who: &AccountId) -> Balance {
        self.ledger.balances.get(who).copied().unwrap_or(0)
    }

    fn place_contract(&mut self, address: &AccountId, code_hash: CodeHash) {
        let trie_id = self.generate_trie_id(address, 0);
        self.seeds.borrow_mut().clear();
        let subsistence = self.subsistence_threshold();
        self.set_balance(address, subsistence * 10);
        let contract = self.new_contract(address, trie_id, code_hash).unwrap();
        self.ledger.contracts.insert(*address, contract);
    }

    fn code_hash(&self, address: &AccountId) -> Result<CodeHash, &'static str> {
        self.ledger.contracts.get(address).map(|c| c.code_hash).ok_or("ContractNotFound")
    }

    fn events(&self) -> Vec<Event> {
        self.ledger.events.clone()
    }

    /// Calls a contract the way the chain's dispatcher does: inside a
    /// transaction that is kept only where the call yields a value.
    fn call(
        &mut self,
        origin: AccountId,
        dest: AccountId,
        value: Balance,
        gas_meter: &mut GasMeter,
        input_data: Vec<u8>,
    ) -> Output {
        let schedule = MockSchedule;
        self.start_transaction();
        let output = Stack::<MockHost, MockExecutable>::with_call(
            self, origin, dest, gas_meter, &schedule, value, input_data,
        );
        if output.is_ok() {
            self.commit_transaction();
        } else {
            self.rollback_transaction();
        }
        output
    }

    /// Instantiates a contract the way the chain's dispatcher does.
    fn instantiate(
        &mut self,
        origin: AccountId,
        value: Balance,
        gas_meter: &mut GasMeter,
        executable: MockExecutable,
        input_data: Vec<u8>,
        salt: &[u8],
    ) -> Result<(AccountId, ExecReturnValue), ExecError> {
        let schedule = MockSchedule;
        self.start_transaction();
        let result = Stack::<MockHost, MockExecutable>::with_instantiate(
            self, origin, executable, gas_meter, &schedule, value, input_data, salt,
        );
        if result.is_ok() {
            self.commit_transaction();
        } else {
            self.rollback_transaction();
        }
        result
    }
}

impl Host for MockHost {
    type Schedule = MockSchedule;

    fn max_depth(&self) -> u32 {
        MAX_DEPTH
    }

    fn max_value_size(&self) -> u32 {
        16_384
    }

    fn subsistence_threshold(&self) -> Balance {
        self.existential_deposit.saturating_add(TOMBSTONE_DEPOSIT)
    }

    fn minimum_balance(&self) -> Balance {
        self.existential_deposit
    }

    fn tombstone_deposit(&self) -> Balance {
        TOMBSTONE_DEPOSIT
    }

    fn deposit_per_contract(&self) -> Balance {
        8 * 500
    }

    fn deposit_per_storage_byte(&self) -> Balance {
        10
    }

    fn deposit_per_storage_item(&self) -> Balance {
        200
    }

    fn rent_fraction(&self) -> Perbill {
        Perbill { parts: 250_000 }
    }

    fn weight_price(&self, weight: Weight) -> Balance {
        2 * weight as Balance
    }

    fn now(&self) -> Moment {
        6_000 * self.block_number
    }

    fn block_number(&self) -> BlockNumber {
        self.block_number
    }

    fn random(&self, subject: &[u8]) -> (Seed, BlockNumber) {
        (Digest::new(mix(&[b"random", subject])), self.block_number.saturating_sub(1))
    }

    fn account_counter(&self) -> u64 {
        self.account_counter
    }

    fn total_balance(&self, who: &AccountId) -> Balance {
        self.get_balance(who)
    }

    fn free_balance(&self, who: &AccountId) -> Balance {
        self.get_balance(who)
    }

    fn currency_transfer(
        &mut self,
        from: &AccountId,
        to: &AccountId,
        value: Balance,
        existence: ExistenceRequirement,
    ) -> Result<(), HostError> {
        let from_balance = self.get_balance(from);
        let to_balance = self.get_balance(to);
        if from_balance < value {
            return Err(HostError { message: "InsufficientBalance" });
        }
        if from == to {
            return Ok(());
        }
        let left = from_balance - value;
        if left < self.existential_deposit && existence == ExistenceRequirement::KeepAlive {
            return Err(HostError { message: "KeepAlive" });
        }
        let received = match to_balance.checked_add(value) {
            Some(received) => received,
            None => return Err(HostError { message: "Overflow" }),
        };
        if received < self.existential_deposit {
            return Err(HostError { message: "ExistentialDeposit" });
        }
        if left < self.existential_deposit {
            self.ledger.balances.remove(from);
        } else {
            self.ledger.balances.insert(*from, left);
        }
        self.ledger.balances.insert(*to, received);
        Ok(())
    }

    fn alive_contract(&self, account: &AccountId) -> Option<AliveContractInfo> {
        self.ledger.contracts.get(account).copied()
    }

    fn contract_on_stack(&self, account: &AccountId) -> AliveContractInfo {
        match self.ledger.contracts.get(account) {
            Some(contract) => *contract,
            None => panic!("the record of a contract on the call stack is never removed"),
        }
    }

    fn store_contract(&mut self, account: &AccountId, info: AliveContractInfo) {
        self.ledger.contracts.insert(*account, info);
    }

    fn remove_contract(&mut self, account: &AccountId) {
        self.ledger.contracts.remove(account);
    }

    fn contract_address(
        &self,
        deployer: &AccountId,
        code_hash: &CodeHash,
        salt: &[u8],
    ) -> AccountId {
        AccountId::new(mix(&[&deployer.bytes, &code_hash.bytes, salt]))
    }

    fn generate_trie_id(&self, account: &AccountId, seed: u64) -> TrieId {
        self.seeds.borrow_mut().push(seed);
        TrieId::new(mix(&[&account.bytes, &seed.to_le_bytes()]))
    }

    fn new_contract(
        &mut self,
        account: &AccountId,
        trie_id: TrieId,
        code_hash: CodeHash,
    ) -> Result<AliveContractInfo, HostError> {
        if self.ledger.contracts.contains_key(account) {
            return Err(HostError { message: "DuplicateContract" });
        }
        Ok(AliveContractInfo {
            trie_id,
            storage_size: 0,
            pair_count: 0,
            code_hash,
            rent_allowance: Balance::MAX,
            rent_payed: 0,
            deduct_block: self.block_number.saturating_sub(1),
            last_write: None,
        })
    }

    fn queue_trie_for_deletion(&mut self, info: &AliveContractInfo) -> Result<(), HostError> {
        self.ledger.deletion_queue.push(info.trie_id);
        Ok(())
    }

    fn read_storage(&self, trie_id: &TrieId, key: &StorageKey) -> Option<Vec<u8>> {
        self.ledger.storage.get(&(*trie_id, *key)).cloned()
    }

    fn write_storage(
        &mut self,
        block_number: BlockNumber,
        info: &mut AliveContractInfo,
        key: &StorageKey,
        value: Option<Vec<u8>>,
    ) -> Result<(), HostError> {
        let slot = (info.trie_id, *key);
        let old_len = self.ledger.storage.get(&slot).map(|v| v.len() as u32);
        let new_len = value.as_ref().map(|v| v.len() as u32);
        match (old_len, new_len) {
            (None, Some(_)) => info.pair_count += 1,
            (Some(_), None) => info.pair_count -= 1,
            _ => {}
        }
        info.storage_size = info.storage_size - old_len.unwrap_or(0) + new_len.unwrap_or(0);
        info.last_write = Some(block_number);
        match value {
            Some(value) => {
                self.ledger.storage.insert(slot, value);
            }
            None => {
                self.ledger.storage.remove(&slot);
            }
        }
        Ok(())
    }

    fn charge_rent(
        &mut self,
        account: &AccountId,
        info: AliveContractInfo,
        _occupied_storage: u32,
    ) -> Result<Option<AliveContractInfo>, HostError> {
        let balance = self.get_balance(account);
        let subsistence = self.subsistence_threshold();
        if balance < subsistence {
            return Ok(None);
        }
        let blocks = self.block_number.saturating_sub(info.deduct_block) as Balance;
        let due = (blocks * RENT_PER_BLOCK).min(info.rent_allowance).min(balance - subsistence);
        self.ledger.balances.insert(*account, balance - due);
        Ok(Some(AliveContractInfo {
            rent_payed: info.rent_payed + due,
            deduct_block: self.block_number,
            ..info
        }))
    }

    fn restore_to(
        &mut self,
        origin: AccountId,
        dest: AccountId,
        _code_hash: CodeHash,
        _rent_allowance: Balance,
        _delta: Vec<StorageKey>,
    ) -> Result<(u32, u32), (HostError, u32, u32)> {
        if self.ledger.contracts.contains_key(&dest) {
            return Err((HostError { message: "InvalidDestinationContract" }, 3, 5));
        }
        match self.ledger.contracts.remove(&origin) {
            Some(contract) => {
                self.ledger.contracts.insert(dest, contract);
                Ok((3, 5))
            }
            None => Err((HostError { message: "InvalidSourceContract" }, 3, 5)),
        }
    }

    fn start_transaction(&mut self) {
        self.open.push(self.ledger.clone());
    }

    fn commit_transaction(&mut self) {
        self.open.pop().expect("a transaction is open");
    }

    fn rollback_transaction(&mut self) {
        self.ledger = self.open.pop().expect("a transaction is open");
    }

    fn deposit_event(&mut self, _topics: Vec<Topic>, event: Event) {
        self.ledger.events.push(event);
    }
}

impl Executable<MockHost> for MockExecutable {
    fn from_storage(
        host: &mut MockHost,
        code_hash: CodeHash,
        _schedule: &MockSchedule,
        _gas_meter: &mut GasMeter,
    ) -> Result<Self, DispatchError> {
        Self::from_storage_noinstr(host, code_hash)
    }

    fn from_storage_noinstr(host: &mut MockHost, code_hash: CodeHash) -> Result<Self, DispatchError> {
        host.loader.get(&code_hash).cloned().ok_or(DispatchError::Contract(Error::CodeNotFound))
    }

    fn drop_from_storage(self, host: &mut MockHost) {
        host.decrement_refcount(self.code_hash);
    }

    fn add_user(host: &mut MockHost, code_hash: CodeHash) -> Result<u32, DispatchError> {
        host.increment_refcount(code_hash);
        Ok(0)
    }

    fn remove_user(host: &mut MockHost, code_hash: CodeHash) -> u32 {
        host.decrement_refcount(code_hash);
        0
    }

    fn execute<'a>(
        self,
        ext: &mut Stack<'a, MockHost, Self>,
        host: &mut MockHost,
        function: &ExportedFunction,
        input_data: Vec<u8>,
    ) -> ExecResult {
        if let &ExportedFunction::Constructor = function {
            host.increment_refcount(self.code_hash);
        }
        if function == &self.func_type {
            (self.func)(MockCtx { ext, host, input_data }, &self)
        } else {
            exec_success()
        }
    }

    fn code_hash(&self) -> &CodeHash {
        &self.code_hash
    }

    fn code_len(&self) -> u32 {
        0
    }

    fn aggregate_code_len(&self) -> u32 {
        0
    }

    fn refcount(&self) -> u32 {
        self.refcount as u32
    }
}

fn exec_success() -> ExecResult {
    Ok(ExecReturnValue { flags: ReturnFlags::empty(), data: Vec::new() })
}

fn trap(message: &'static str) -> ExecResult {
    Err(ExecError { error: DispatchError::Other(message), origin: ErrorOrigin::Caller })
}

#[test]
fn it_works() {
    let test_data: Rc<RefCell<Vec<usize>>> = Rc::new(RefCell::new(vec![0]));

    let value = Default::default();
    let mut gas_meter = GasMeter::new(GAS_LIMIT);
    let mut host = MockHost::new();
    let exec_ch = host.insert(ExportedFunction::Call, {
        let test_data = Rc::clone(&test_data);
        move |_ctx, _executable| {
            test_data.borrow_mut().push(1);
            exec_success()
        }
    });
    host.place_contract(&bob(), exec_ch);

    assert!(matches!(host.call(alice(), bob(), value, &mut gas_meter, vec![]), Ok(_)));

    assert_eq!(*test_data.borrow(), vec![0, 1]);
}

#[test]
fn transfer_works() {
    // A plain account is able to send funds to another account.
    let origin = alice();
    let dest = bob();

    let mut host = MockHost::new();
    host.set_balance(&origin, 100);
    host.set_balance(&dest, 0);

    contract_executive::transfer::transfer(&mut host, false, false, &origin, &dest, 55).unwrap();

    assert_eq!(host.get_balance(&origin), 45);
    assert_eq!(host.get_balance(&dest), 55);
}

#[test]
fn changes_are_reverted_on_failing_call() {
    // Changes are undone on a call that asks for a revert.
    let origin = alice();
    let dest = bob();

    let mut host = MockHost::new();
    let return_ch = host.insert(ExportedFunction::Call, |_, _| {
        Ok(ExecReturnValue { flags: ReturnFlags::revert(), data: Vec::new() })
    });
    host.place_contract(&bob(), return_ch);
    host.set_balance(&origin, 100);
    let balance = host.get_balance(&dest);

    let output =
        host.call(origin, dest, 55, &mut GasMeter::new(GAS_LIMIT), vec![]).unwrap();

    assert!(!output.0.is_success());
    assert_eq!(host.get_balance(&origin), 100);

    // the rent is still charged
    assert!(host.get_balance(&dest) < balance);
}

#[test]
fn balance_too_low() {
    // An account cannot send value that it does not have.
    let origin = alice();
    let dest = bob();

    let mut host = MockHost::new();
    host.set_balance(&origin, 0);

    let result =
        contract_executive::transfer::transfer(&mut host, false, false, &origin, &dest, 100);

    assert_eq!(result, Err(DispatchError::Contract(Error::TransferFailed)));
    assert_eq!(host.get_balance(&origin), 0);
    assert_eq!(host.get_balance(&dest), 0);
}

#[test]
fn output_is_returned_on_success() {
    let origin = alice();
    let dest = bob();
    let mut host = MockHost::new();
    let return_ch = host.insert(ExportedFunction::Call, |_, _| {
        Ok(ExecReturnValue { flags: ReturnFlags::empty(), data: vec![1, 2, 3, 4] })
    });
    host.place_contract(&bob(), return_ch);

    let result = host.call(origin, dest, 0, &mut GasMeter::new(GAS_LIMIT), vec![]);

    let output = result.unwrap();
    assert!(output.0.is_success());
    assert_eq!(output.0.data, vec![1, 2, 3, 4]);
}

#[test]
fn output_is_returned_on_failure() {
    let origin = alice();
    let dest = bob();
    let mut host = MockHost::new();
    let return_ch = host.insert(ExportedFunction::Call, |_, _| {
        Ok(ExecReturnValue { flags: ReturnFlags::revert(), data: vec![1, 2, 3, 4] })
    });
    host.place_contract(&bob(), return_ch);

    let result = host.call(origin, dest, 0, &mut GasMeter::new(GAS_LIMIT), vec![]);

    let output = result.unwrap();
    assert!(!output.0.is_success());
    assert_eq!(output.0.data, vec![1, 2, 3, 4]);
}

#[test]
fn input_data_to_call() {
    let mut host = MockHost::new();
    let input_data_ch = host.insert(ExportedFunction::Call, |ctx, _| {
        assert_eq!(ctx.input_data, &[1, 2, 3, 4]);
        exec_success()
    });
    host.place_contract(&bob(), input_data_ch);

    let result = host.call(alice(), bob(), 0, &mut GasMeter::new(GAS_LIMIT), vec![1, 2, 3, 4]);
    assert!(matches!(result, Ok(_)));
}

#[test]
fn input_data_to_instantiate() {
    let mut host = MockHost::new();
    let input_data_ch = host.insert(ExportedFunction::Constructor, |ctx, _| {
        assert_eq!(ctx.input_data, &[1, 2, 3, 4]);
        exec_success()
    });

    let schedule = MockSchedule;
    let subsistence = host.subsistence_threshold();
    let mut gas_meter = GasMeter::new(GAS_LIMIT);
    let executable =
        MockExecutable::from_storage(&mut host, input_data_ch, &schedule, &mut gas_meter).unwrap();

    host.set_balance(&alice(), subsistence * 10);

    let result = host.instantiate(
        alice(),
        subsistence * 3,
        &mut gas_meter,
        executable,
        vec![1, 2, 3, 4],
        &[],
    );
    assert!(matches!(result, Ok(_)));
}

#[test]
fn max_depth() {
    // At the maximal depth another frame is refused.
    let reached_bottom: Rc<RefCell<bool>> = Rc::new(RefCell::new(false));
    let value = Default::default();
    let mut host = MockHost::new();
    let recurse_ch = host.insert(ExportedFunction::Call, {
        let reached_bottom = Rc::clone(&reached_bottom);
        move |ctx, _| {
            // Try to call into yourself.
            let r = ctx.ext.call(ctx.host, 0, bob(), 0, vec![]);

            let mut reached_bottom = reached_bottom.borrow_mut();
            if !*reached_bottom {
                // We are first time here, it means we just reached bottom.
                // Verify that we've got proper error and set `reached_bottom`.
                assert_eq!(
                    r,
                    Err((
                        ExecError {
                            error: DispatchError::Contract(Error::MaxCallDepthReached),
                            origin: ErrorOrigin::Caller,
                        },
                        0
                    ))
                );
                *reached_bottom = true;
            } else {
                // We just unwinding stack here.
                assert!(matches!(r, Ok(_)));
            }

            exec_success()
        }
    });

    host.set_balance(&bob(), 1);
    host.place_contract(&bob(), recurse_ch);

    let result = host.call(alice(), bob(), value, &mut GasMeter::new(GAS_LIMIT), vec![]);

    assert!(matches!(result, Ok(_)));
    assert!(*reached_bottom.borrow());
}

#[test]
fn caller_returns_proper_values() {
    let origin = alice();
    let dest = bob();

    let witnessed_caller_bob: Rc<RefCell<Option<AccountId>>> = Rc::new(RefCell::new(None));
    let witnessed_caller_charlie: Rc<RefCell<Option<AccountId>>> = Rc::new(RefCell::new(None));

    let mut host = MockHost::new();
    let bob_ch = host.insert(ExportedFunction::Call, {
        let witnessed_caller_bob = Rc::clone(&witnessed_caller_bob);
        move |ctx, _| {
            // Record the caller for bob.
            *witnessed_caller_bob.borrow_mut() = Some(ctx.ext.caller().clone());

            // Call into CHARLIE contract.
            assert!(matches!(ctx.ext.call(ctx.host, 0, charlie(), 0, vec![]), Ok(_)));
            exec_success()
        }
    });
    let charlie_ch = host.insert(ExportedFunction::Call, {
        let witnessed_caller_charlie = Rc::clone(&witnessed_caller_charlie);
        move |ctx, _| {
            // Record the caller for charlie.
            *witnessed_caller_charlie.borrow_mut() = Some(ctx.ext.caller().clone());
            exec_success()
        }
    });

    host.place_contract(&dest, bob_ch);
    host.place_contract(&charlie(), charlie_ch);

    let result = host.call(origin, dest, 0, &mut GasMeter::new(GAS_LIMIT), vec![]);

    assert!(matches!(result, Ok(_)));

    assert_eq!(*witnessed_caller_bob.borrow(), Some(origin));
    assert_eq!(*witnessed_caller_charlie.borrow(), Some(dest));
}

#[test]
fn address_returns_proper_values() {
    let mut host = MockHost::new();
    let bob_ch = host.insert(ExportedFunction::Call, |ctx, _| {
        // Verify that address matches BOB.
        assert_eq!(*ctx.ext.address(), bob());

        // Call into charlie contract.
        assert!(matches!(ctx.ext.call(ctx.host, 0, charlie(), 0, vec![]), Ok(_)));
        exec_success()
    });
    let charlie_ch = host.insert(ExportedFunction::Call, |ctx, _| {
        assert_eq!(*ctx.ext.address(), charlie());
        exec_success()
    });

    host.place_contract(&bob(), bob_ch);
    host.place_contract(&charlie(), charlie_ch);

    let result = host.call(alice(), bob(), 0, &mut GasMeter::new(GAS_LIMIT), vec![]);

    assert!(matches!(result, Ok(_)));
}

#[test]
fn refuse_instantiate_with_value_below_existential_deposit() {
    let mut host = MockHost::with_existential_deposit(15);
    let dummy_ch = host.insert(ExportedFunction::Constructor, |_, _| exec_success());

    let schedule = MockSchedule;
    let mut gas_meter = GasMeter::new(GAS_LIMIT);
    let executable =
        MockExecutable::from_storage(&mut host, dummy_ch, &schedule, &mut gas_meter).unwrap();

    assert!(matches!(
        host.instantiate(
            alice(),
            0, // <- zero endowment
            &mut gas_meter,
            executable,
            vec![],
            &[],
        ),
        Err(_)
    ));
}

#[test]
fn instantiation_work_with_success_output() {
    let mut host = MockHost::with_existential_deposit(15);
    let dummy_ch = host.insert(ExportedFunction::Constructor, |_, _| {
        Ok(ExecReturnValue { flags: ReturnFlags::empty(), data: vec![80, 65, 83, 83] })
    });

    let schedule = MockSchedule;
    let mut gas_meter = GasMeter::new(GAS_LIMIT);
    let executable =
        MockExecutable::from_storage(&mut host, dummy_ch, &schedule, &mut gas_meter).unwrap();
    host.set_balance(&alice(), 1000);

    let instantiated_contract_address =
        match host.instantiate(alice(), 100, &mut gas_meter, executable, vec![], &[]) {
            Ok((address, ref output)) if output.data == vec![80, 65, 83, 83] => address,
            other => panic!("unexpected result: {:?}", other),
        };

    // Check that the newly created account has the expected code hash and
    // there are instantiation event.
    assert_eq!(host.code_hash(&instantiated_contract_address).unwrap(), dummy_ch);
    assert_eq!(&host.events(), &[Event::Instantiated(alice(), instantiated_contract_address)]);
}

#[test]
fn instantiation_fails_with_failing_output() {
    let mut host = MockHost::with_existential_deposit(15);
    let dummy_ch = host.insert(ExportedFunction::Constructor, |_, _| {
        Ok(ExecReturnValue { flags: ReturnFlags::revert(), data: vec![70, 65, 73, 76] })
    });

    let schedule = MockSchedule;
    let mut gas_meter = GasMeter::new(GAS_LIMIT);
    let executable =
        MockExecutable::from_storage(&mut host, dummy_ch, &schedule, &mut gas_meter).unwrap();
    host.set_balance(&alice(), 1000);

    let instantiated_contract_address =
        match host.instantiate(alice(), 100, &mut gas_meter, executable, vec![], &[]) {
            Ok((address, ref output)) if output.data == vec![70, 65, 73, 76] => address,
            other => panic!("unexpected result: {:?}", other),
        };

    // Check that the account has not been created.
    assert!(host.code_hash(&instantiated_contract_address).is_err());
    assert!(host.events().is_empty());
}

#[test]
fn instantiation_from_contract() {
    let mut host = MockHost::with_existential_deposit(15);
    let dummy_ch = host.insert(ExportedFunction::Call, |_, _| exec_success());
    let instantiated_contract_address = Rc::new(RefCell::new(None::<AccountId>));
    let instantiator_ch = host.insert(ExportedFunction::Call, {
        let dummy_ch = dummy_ch.clone();
        let instantiated_contract_address = Rc::clone(&instantiated_contract_address);
        move |ctx, _| {
            // Instantiate a contract and save it's address in `instantiated_contract_address`.
            let endowment = ctx.host.subsistence_threshold() * 3;
            let (address, output, _) = ctx
                .ext
                .instantiate(ctx.host, 0, dummy_ch, endowment, vec![], &[48, 49, 50])
                .unwrap();

            *instantiated_contract_address.borrow_mut() = address.into();
            Ok(output)
        }
    });

    let subsistence = host.subsistence_threshold();
    host.set_balance(&alice(), subsistence * 100);
    host.place_contract(&bob(), instantiator_ch);

    assert!(matches!(
        host.call(alice(), bob(), 20, &mut GasMeter::new(GAS_LIMIT), vec![]),
        Ok(_)
    ));

    let instantiated_contract_address =
        instantiated_contract_address.borrow().as_ref().unwrap().clone();

    // Check that the newly created account has the expected code hash and
    // there are instantiation event.
    assert_eq!(host.code_hash(&instantiated_contract_address).unwrap(), dummy_ch);
    assert_eq!(&host.events(), &[Event::Instantiated(bob(), instantiated_contract_address)]);
}

#[test]
fn instantiation_traps() {
    let mut host = MockHost::with_existential_deposit(15);
    let dummy_ch = host.insert(ExportedFunction::Constructor, |_, _| trap("It's a trap!"));
    let instantiator_ch = host.insert(ExportedFunction::Call, {
        let dummy_ch = dummy_ch.clone();
        move |ctx, _| {
            // Instantiate a contract and save it's address in `instantiated_contract_address`.
            assert!(matches!(
                ctx.ext.instantiate(ctx.host, 0, dummy_ch, 15u128, vec![], &[]),
                Err((
                    ExecError {
                        error: DispatchError::Other("It's a trap!"),
                        origin: ErrorOrigin::Callee,
                    },
                    0
                ))
            ));

            exec_success()
        }
    });

    host.set_balance(&alice(), 1000);
    host.set_balance(&bob(), 100);
    host.place_contract(&bob(), instantiator_ch);

    assert!(matches!(
        host.call(alice(), bob(), 20, &mut GasMeter::new(GAS_LIMIT), vec![]),
        Ok(_)
    ));

    // The contract wasn't instantiated so we don't expect to see an instantiation
    // event here.
    assert_eq!(&host.events(), &[]);
}

#[test]
fn termination_from_instantiate_fails() {
    let mut host = MockHost::with_existential_deposit(15);
    let terminate_ch = host.insert(ExportedFunction::Constructor, |ctx, _| {
        ctx.ext.terminate(ctx.host, &alice()).unwrap();
        exec_success()
    });

    let schedule = MockSchedule;
    let mut gas_meter = GasMeter::new(GAS_LIMIT);
    let executable =
        MockExecutable::from_storage(&mut host, terminate_ch, &schedule, &mut gas_meter).unwrap();
    host.set_balance(&alice(), 1000);

    assert_eq!(
        host.instantiate(alice(), 100, &mut gas_meter, executable, vec![], &[]),
        Err(ExecError {
            error: DispatchError::Contract(Error::NotCallable),
            origin: ErrorOrigin::Caller,
        })
    );

    assert_eq!(&host.events(), &[]);
}

#[test]
fn rent_allowance() {
    let mut host = MockHost::new();
    let rent_allowance_ch = host.insert(ExportedFunction::Constructor, |ctx, _| {
        let subsistence = ctx.host.subsistence_threshold();
        let allowance = subsistence * 3;
        assert_eq!(ctx.ext.rent_allowance(ctx.host), Balance::MAX);
        ctx.ext.set_rent_allowance(ctx.host, allowance);
        assert_eq!(ctx.ext.rent_allowance(ctx.host), allowance);
        exec_success()
    });

    let subsistence = host.subsistence_threshold();
    let schedule = MockSchedule;
    let mut gas_meter = GasMeter::new(GAS_LIMIT);
    let executable =
        MockExecutable::from_storage(&mut host, rent_allowance_ch, &schedule, &mut gas_meter)
            .unwrap();
    host.set_balance(&alice(), subsistence * 10);

    let result =
        host.instantiate(alice(), subsistence * 5, &mut gas_meter, executable, vec![], &[]);
    assert!(matches!(result, Ok(_)));
}

#[test]
fn rent_params_works() {
    let mut host = MockHost::new();
    let code_hash = host.insert(ExportedFunction::Call, |ctx, executable| {
        let address = *ctx.ext.address();
        let contract = ctx.host.alive_contract(&address).unwrap();
        assert_eq!(
            ctx.ext.rent_params(),
            &RentParams::new(&*ctx.host, &address, &contract, executable)
        );
        exec_success()
    });

    let subsistence = host.subsistence_threshold();
    let mut gas_meter = GasMeter::new(GAS_LIMIT);
    host.set_balance(&alice(), subsistence * 10);
    host.place_contract(&bob(), code_hash);
    host.call(alice(), bob(), 0, &mut gas_meter, vec![]).unwrap();
}

#[test]
fn rent_params_snapshotted() {
    let mut host = MockHost::new();
    let code_hash = host.insert(ExportedFunction::Call, |ctx, executable| {
        let subsistence = ctx.host.subsistence_threshold();
        let rent_params = *ctx.ext.rent_params();

        // Changing the allowance during the call: rent params stay unchanged.
        let allowance = 42;
        assert_ne!(allowance, rent_params.rent_allowance);
        ctx.ext.set_rent_allowance(ctx.host, allowance);
        assert_eq!(ctx.ext.rent_params(), &rent_params);

        // Creating another instance from the same code_hash increases the refcount.
        // This is also not reflected in the rent params.
        assert_eq!(ctx.host.refcount(&executable.code_hash), 1);
        ctx.ext
            .instantiate(ctx.host, 0, executable.code_hash, subsistence * 25, vec![], &[])
            .unwrap();
        assert_eq!(ctx.host.refcount(&executable.code_hash), 2);
        assert_eq!(ctx.ext.rent_params(), &rent_params);

        exec_success()
    });

    let subsistence = host.subsistence_threshold();
    let mut gas_meter = GasMeter::new(GAS_LIMIT);
    host.set_balance(&alice(), subsistence * 100);
    host.place_contract(&bob(), code_hash);
    host.call(alice(), bob(), subsistence * 50, &mut gas_meter, vec![]).unwrap();
}
