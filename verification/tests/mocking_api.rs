use std::sync::{Arc, Mutex};

use drink::account::AccountId;
use drink::carrier::{dummy_contract, InvalidModule};
use drink::code_hash::InvalidCodeHash;
use drink::contract_api::{
    default_gas_limit, CodeUploadResult, CodeUploadReturnValue, ContractApi, ContractExecResult,
    ContractInstantiateResult, ContractResult, Determinism, EngineError, Event, ExecReturnValue,
    InstantiateReturnValue, ReturnFlags, StorageDeposit, Weight,
};
use drink::mock::{ContractMock, MockReply};
use drink::registry::{CallTarget, MockRegistry, RegistryError, SaltAllocator};
use drink::session::mocking_api::{finish_deploy, plan_deploy, MockingApi, MockingError};
use drink::session::Session;

type Callback = Box<dyn Fn(&AccountId, &Vec<u8>, u128) -> MockReply>;

/// What the engine was asked to deploy.
#[derive(Clone, Debug, PartialEq)]
struct Deployment {
    code: Vec<u8>,
    value: u128,
    data: Vec<u8>,
    salt: Vec<u8>,
    origin: AccountId,
    gas_limit: Weight,
    storage_deposit_limit: Option<u128>,
}

/// An engine that places every contract at an address made of its salt, and whose
/// contracts all trap when they are called.
#[derive(Default)]
struct TrappingEngine {
    deployments: Vec<Deployment>,
    instantiations: Vec<Vec<u8>>,
    calls: Vec<AccountId>,
    deploy_error: Option<EngineError>,
    fixed_address: Option<AccountId>,
}

fn address_of(salt: &[u8]) -> AccountId {
    let mut bytes = [0xC0u8; 32];
    bytes[..salt.len()].copy_from_slice(salt);
    AccountId::new(bytes)
}

fn instantiated(deployer: AccountId, contract: AccountId) -> ContractInstantiateResult {
    ContractResult {
        gas_consumed: Weight::from_parts(10, 1),
        gas_required: Weight::from_parts(10, 1),
        storage_deposit: StorageDeposit::Charge(5),
        debug_message: vec![],
        result: Ok(InstantiateReturnValue {
            result: ExecReturnValue { flags: ReturnFlags::empty(), data: vec![] },
            account_id: contract,
        }),
        events: Some(vec![Event::Instantiated { deployer, contract }]),
    }
}

fn refused<R>(error: EngineError) -> ContractResult<Result<R, EngineError>> {
    ContractResult {
        gas_consumed: Weight::from_parts(3, 0),
        gas_required: Weight::from_parts(3, 0),
        storage_deposit: StorageDeposit::Charge(0),
        debug_message: vec![],
        result: Err(error),
        events: Some(vec![]),
    }
}

impl ContractApi for TrappingEngine {
    fn deploy_contract(
        &mut self,
        contract_bytes: Vec<u8>,
        value: u128,
        data: Vec<u8>,
        salt: Vec<u8>,
        origin: AccountId,
        gas_limit: Weight,
        storage_deposit_limit: Option<u128>,
    ) -> ContractInstantiateResult {
        let address = self.fixed_address.unwrap_or(address_of(&salt));
        self.deployments.push(Deployment {
            code: contract_bytes,
            value,
            data,
            salt,
            origin,
            gas_limit,
            storage_deposit_limit,
        });
        match &self.deploy_error {
            Some(error) => refused(error.clone()),
            None => instantiated(origin, address),
        }
    }

    fn instantiate_contract(
        &mut self,
        code_hash: Vec<u8>,
        _value: u128,
        _data: Vec<u8>,
        salt: Vec<u8>,
        origin: AccountId,
        _gas_limit: Weight,
        _storage_deposit_limit: Option<u128>,
    ) -> ContractInstantiateResult {
        self.instantiations.push(code_hash);
        instantiated(origin, address_of(&salt))
    }

    fn upload_contract(
        &mut self,
        contract_bytes: Vec<u8>,
        _origin: AccountId,
        _storage_deposit_limit: Option<u128>,
        _determinism: Determinism,
    ) -> CodeUploadResult {
        Ok(CodeUploadReturnValue { code_hash: contract_bytes, deposit: 0 })
    }

    fn call_contract(
        &mut self,
        address: AccountId,
        _value: u128,
        _data: Vec<u8>,
        _origin: AccountId,
        _gas_limit: Weight,
        _storage_deposit_limit: Option<u128>,
        _determinism: Determinism,
    ) -> ContractExecResult {
        self.calls.push(address);
        refused(EngineError::ContractTrapped)
    }
}

fn account(tag: u8) -> AccountId {
    AccountId::new([tag; 32])
}

fn actor() -> AccountId {
    account(0xAA)
}

fn session() -> Session<TrappingEngine, Callback> {
    Session::new(TrappingEngine::default(), actor())
}

fn fixed(output: Vec<u8>) -> ContractMock<Callback> {
    ContractMock::new(Box::new(move |_: &AccountId, _: &Vec<u8>, _: u128| {
        MockReply::returning(output.clone())
    }))
}

fn failing(reason: Vec<u8>) -> ContractMock<Callback> {
    ContractMock::new(Box::new(move |_: &AccountId, _: &Vec<u8>, _: u128| {
        MockReply::reverting(reason.clone())
    }))
}

fn call(
    session: &mut Session<TrappingEngine, Callback>,
    address: AccountId,
    data: Vec<u8>,
) -> ContractExecResult {
    session.call_contract(address, 0, data, actor(), default_gas_limit(), None, Determinism::Enforced)
}

#[test]
fn deploy_registers_the_mock_at_the_address_of_the_carrier() {
    let mut session = session();
    let address = session.mocking_api().deploy(fixed(vec![7])).unwrap();
    assert_eq!(address, address_of(&[1, 0, 0, 0, 0, 0, 0, 0]));
    assert!(session.mocks.is_mocked(&address));
    assert_eq!(session.mocks.len(), 1);
}

#[test]
fn deploy_hands_the_carrier_under_a_fresh_salt_to_the_engine() {
    let mut session = session();
    MockingApi::new(&mut session).deploy(fixed(vec![])).unwrap();
    assert_eq!(
        session.sandbox.deployments,
        vec![Deployment {
            code: dummy_contract().unwrap(),
            value: 0,
            data: vec![],
            salt: vec![1, 0, 0, 0, 0, 0, 0, 0],
            origin: actor(),
            gas_limit: Weight::from_parts(100_000_000_000, 3 * 1024 * 1024),
            storage_deposit_limit: None,
        }]
    );
}

#[test]
fn two_deploys_use_distinct_salts_and_addresses() {
    let mut session = session();
    let first = session.mocking_api().deploy(fixed(vec![1])).unwrap();
    let second = session.mocking_api().deploy(fixed(vec![2])).unwrap();
    assert_ne!(first, second);
    assert_ne!(session.sandbox.deployments[0].salt, session.sandbox.deployments[1].salt);
    assert_eq!(call(&mut session, first, vec![]).result.unwrap().data, vec![1]);
    assert_eq!(call(&mut session, second, vec![]).result.unwrap().data, vec![2]);
}

#[test]
fn call_to_a_mock_returns_what_the_callback_returned() {
    let mut session = session();
    let address = session.mocking_api().deploy(fixed(vec![1, 2, 3])).unwrap();
    let result = call(&mut session, address, vec![0xDE, 0xAD, 0xBE, 0xEF]);
    let value = result.result.unwrap();
    assert!(!value.did_revert());
    assert_eq!(value.data, vec![1, 2, 3]);
    assert_eq!(result.events, Some(vec![Event::Called { caller: actor(), contract: address }]));
    assert!(session.sandbox.calls.is_empty());
}

#[test]
fn call_to_a_mock_passes_caller_input_and_value() {
    let mut session = session();
    let echo: Callback = Box::new(|caller: &AccountId, input: &Vec<u8>, value: u128| {
        let mut output = caller.bytes[..2].to_vec();
        output.extend_from_slice(input);
        output.extend_from_slice(&value.to_le_bytes()[..2]);
        MockReply::returning(output)
    });
    let address = session.mocking_api().deploy(ContractMock::new(echo)).unwrap();
    let result = session.call_contract(
        address,
        0x0201,
        vec![9, 8],
        account(0x55),
        default_gas_limit(),
        Some(1),
        Determinism::Relaxed,
    );
    assert_eq!(result.result.unwrap().data, vec![0x55, 0x55, 9, 8, 1, 2]);
}

#[test]
fn call_to_a_failing_mock_reverts_with_its_reason() {
    let mut session = session();
    let address = session.mocking_api().deploy(failing(vec![0x0B, 0xAD])).unwrap();
    let result = call(&mut session, address, vec![1]);
    let value = result.result.unwrap();
    assert!(value.did_revert());
    assert_eq!(value.data, vec![0x0B, 0xAD]);
    assert_eq!(result.events, Some(vec![]));
    assert_eq!(session.mocks.len(), 1);
    assert!(session.sandbox.calls.is_empty());
    let again = call(&mut session, address, vec![1]);
    assert!(again.result.unwrap().did_revert());
}

#[test]
fn call_to_an_unmocked_address_runs_the_bytecode() {
    let mut session = session();
    session.mocking_api().deploy(fixed(vec![1])).unwrap();
    let result = call(&mut session, account(3), vec![]);
    assert_eq!(result.result, Err(EngineError::ContractTrapped));
    assert_eq!(result.gas_consumed, Weight::from_parts(3, 0));
    assert_eq!(session.sandbox.calls, vec![account(3)]);
}

#[test]
fn a_mock_can_call_another_mock() {
    let shared = Arc::new(Mutex::new(MockRegistry::<Callback>::new()));

    let inner_address = account(2);
    shared.lock().unwrap().register(inner_address, fixed(vec![20])).unwrap();

    let handle = Arc::clone(&shared);
    let relay: Callback = Box::new(move |_: &AccountId, input: &Vec<u8>, value: u128| {
        let found = match handle.lock().unwrap().resolve_call(&account(2)) {
            CallTarget::Native(mock) => Some(mock.clone()),
            CallTarget::Bytecode => None,
        };
        let inner = found.unwrap().answer(account(2), account(1), input, value);
        let mut output = vec![10];
        output.extend_from_slice(&inner.result.unwrap().data);
        MockReply::returning(output)
    });
    let outer_address = account(1);
    shared.lock().unwrap().register(outer_address, ContractMock::new(relay)).unwrap();

    let outer = match shared.lock().unwrap().resolve_call(&outer_address) {
        CallTarget::Native(mock) => mock.clone(),
        CallTarget::Bytecode => panic!("a mock stands at this address"),
    };
    let result = outer.answer(outer_address, actor(), &vec![], 0);
    assert_eq!(result.result.unwrap().data, vec![10, 20]);
    assert_eq!(shared.lock().unwrap().len(), 2);
}

#[test]
fn a_mock_can_register_another_mock() {
    let shared = Arc::new(Mutex::new(MockRegistry::<Callback>::new()));
    let handle = Arc::clone(&shared);
    let spawning: Callback = Box::new(move |_: &AccountId, _: &Vec<u8>, _: u128| {
        let done = handle.lock().unwrap().register(account(9), fixed(vec![9]));
        MockReply::returning(vec![done.is_ok() as u8])
    });
    shared.lock().unwrap().register(account(1), ContractMock::new(spawning)).unwrap();

    let outer = shared.lock().unwrap().lookup(&account(1)).unwrap().clone();
    assert_eq!(outer.answer(account(1), actor(), &vec![], 0).result.unwrap().data, vec![1]);
    assert!(shared.lock().unwrap().is_mocked(&account(9)));
    assert_eq!(outer.answer(account(1), actor(), &vec![], 0).result.unwrap().data, vec![0]);
    assert_eq!(shared.lock().unwrap().len(), 2);
}

#[test]
fn deploy_fails_with_the_error_of_the_engine() {
    let mut session = session();
    session.sandbox.deploy_error = Some(EngineError::StorageDepositLimitExhausted);
    assert_eq!(
        session.mocking_api().deploy(fixed(vec![1])),
        Err(MockingError::Engine(EngineError::StorageDepositLimitExhausted))
    );
    assert_eq!(session.mocks.len(), 0);

    session.sandbox.deploy_error = None;
    let address = session.mocking_api().deploy(fixed(vec![2])).unwrap();
    assert_eq!(address, address_of(&[2, 0, 0, 0, 0, 0, 0, 0]));
}

#[test]
fn deploy_at_a_mocked_address_is_refused() {
    let mut session = session();
    session.sandbox.fixed_address = Some(account(4));
    assert_eq!(session.mocking_api().deploy(fixed(vec![1])), Ok(account(4)));
    assert_eq!(
        session.mocking_api().deploy(fixed(vec![2])),
        Err(MockingError::Registry(RegistryError::AddressAlreadyMocked))
    );
    assert_eq!(call(&mut session, account(4), vec![]).result.unwrap().data, vec![1]);
    assert_eq!(session.mocks.len(), 1);
}

#[test]
fn deploy_fails_when_no_salt_is_left() {
    let mut session = Session {
        sandbox: TrappingEngine::default(),
        mocks: MockRegistry::<Callback>::with_allocator(SaltAllocator::resuming(u64::MAX)),
        actor: actor(),
    };
    assert_eq!(
        session.mocking_api().deploy(fixed(vec![1])),
        Err(MockingError::Registry(RegistryError::AllocatorExhausted))
    );
    assert!(session.sandbox.deployments.is_empty());
    assert_eq!(session.mocks.len(), 0);
}

#[test]
fn prepare_and_conclude_make_a_deployment() {
    let mut session = session();
    let mut api = session.mocking_api();
    let request = api.prepare_deploy().unwrap();
    assert_eq!(request.salt, vec![1, 0, 0, 0, 0, 0, 0, 0]);
    assert_eq!(request.contract_bytes, dummy_contract().unwrap());
    assert_eq!(request.origin, actor());
    assert_eq!(request.value, 0);
    assert_eq!(request.gas_limit, default_gas_limit());
    assert_eq!(request.storage_deposit_limit, None);
    assert!(request.data.is_empty());

    let done = api.conclude_deploy(fixed(vec![6]), instantiated(actor(), account(6)));
    assert_eq!(done, Ok(account(6)));
    let failed = api.conclude_deploy(fixed(vec![7]), refused(EngineError::OutOfGas));
    assert_eq!(failed, Err(MockingError::Engine(EngineError::OutOfGas)));
    let twice = api.conclude_deploy(fixed(vec![8]), instantiated(actor(), account(6)));
    assert_eq!(twice, Err(MockingError::Registry(RegistryError::AddressAlreadyMocked)));
    assert_eq!(call(&mut session, account(6), vec![]).result.unwrap().data, vec![6]);
}

#[test]
fn mocking_an_existing_contract_is_refused() {
    let mut session = session();
    let address = session.mocking_api().deploy(fixed(vec![1])).unwrap();
    assert_eq!(
        session.mocking_api().mock_existing_contract(fixed(vec![2]), address),
        Err(MockingError::ExistingContractUnsupported)
    );
    assert_eq!(
        session.mocking_api().mock_existing_contract(fixed(vec![3]), account(3)),
        Err(MockingError::ExistingContractUnsupported)
    );
    assert_eq!(session.mocks.len(), 1);
    assert_eq!(call(&mut session, address, vec![]).result.unwrap().data, vec![1]);
}

#[test]
fn instantiate_refuses_bytes_that_hold_no_code_hash() {
    let mut session = session();
    let result = session.instantiate_contract(
        vec![1; 31],
        0,
        vec![],
        vec![],
        actor(),
        default_gas_limit(),
        None,
    );
    assert_eq!(result, Err(InvalidCodeHash));
    assert!(session.sandbox.instantiations.is_empty());
}

#[test]
fn instantiate_hands_a_code_hash_to_the_engine() {
    let mut session = session();
    let result = session
        .instantiate_contract(vec![1; 32], 0, vec![], vec![5], actor(), default_gas_limit(), None)
        .unwrap();
    assert_eq!(result.result.unwrap().account_id, address_of(&[5]));
    assert_eq!(session.sandbox.instantiations, vec![vec![1; 32]]);
}

#[test]
fn plan_refuses_a_carrier_that_did_not_assemble() {
    let mut registry = MockRegistry::<Callback>::new();
    assert_eq!(
        plan_deploy(&mut registry, actor(), Err(InvalidModule)),
        Err(MockingError::CarrierRejected)
    );
    assert_eq!(registry.salt(), Ok(vec![1, 0, 0, 0, 0, 0, 0, 0]));
}

#[test]
fn plan_refuses_when_no_salt_is_left() {
    let mut registry =
        MockRegistry::<Callback>::with_allocator(SaltAllocator::resuming(u64::MAX));
    assert_eq!(
        plan_deploy(&mut registry, actor(), Ok(vec![0, 97, 115, 109])),
        Err(MockingError::Registry(RegistryError::AllocatorExhausted))
    );
}

#[test]
fn plan_builds_the_request_from_the_carrier_as_given() {
    let mut registry = MockRegistry::<Callback>::with_allocator(SaltAllocator::resuming(41));
    let request = plan_deploy(&mut registry, account(3), Ok(vec![9, 9])).unwrap();
    assert_eq!(request.contract_bytes, vec![9, 9]);
    assert_eq!(request.salt, vec![42, 0, 0, 0, 0, 0, 0, 0]);
    assert_eq!(request.origin, account(3));
    assert_eq!(request.value, 0);
    assert!(request.data.is_empty());
    assert_eq!(request.gas_limit, default_gas_limit());
    assert_eq!(request.storage_deposit_limit, None);
}

#[test]
fn finish_registers_at_the_address_of_the_engine() {
    let mut registry = MockRegistry::<Callback>::new();
    assert_eq!(
        finish_deploy(&mut registry, fixed(vec![1]), instantiated(actor(), account(5))),
        Ok(account(5))
    );
    assert_eq!(
        finish_deploy(&mut registry, fixed(vec![2]), instantiated(actor(), account(5))),
        Err(MockingError::Registry(RegistryError::AddressAlreadyMocked))
    );
    assert_eq!(
        finish_deploy(&mut registry, fixed(vec![3]), refused(EngineError::CodeTooLarge)),
        Err(MockingError::Engine(EngineError::CodeTooLarge))
    );
    assert_eq!(registry.len(), 1);
}
