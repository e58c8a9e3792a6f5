//! A session: the engine, the mocks registered with it, and the dispatch between them.

use vstd::prelude::*;

use crate::account::AccountId;
use crate::code_hash::{decode_code_hash, InvalidCodeHash};
use crate::contract_api::{
    holds_code_hash, ContractApi, ContractExecResult, ContractInstantiateResult, Determinism,
    Weight,
};
use crate::mock::MockReply;
use crate::registry::{CallTarget, MockRegistry, RegistryModel};
use crate::session::mocking_api::MockingApi;

pub mod mocking_api;

verus! {

/// One test run: an engine with its world, and the mocks that stand in for contracts
/// of that world.
///
/// The session owns its registry. Who holds the session exclusively holds the
/// registry exclusively, so registrations and lookups never overlap.
pub struct Session<E, F> {
    /// The execution engine.
    pub sandbox: E,
    /// The mocks registered in this session.
    pub mocks: MockRegistry<F>,
    /// The account in whose name the session deploys carriers.
    pub actor: AccountId,
}

impl<E: ContractApi, F: Fn(&AccountId, &Vec<u8>, u128) -> MockReply> Session<E, F> {
    /// The registry of the session is well formed.
    pub open spec fn wf(&self) -> bool {
        self.mocks.wf()
    }

    /// A session on `sandbox` without mocks, which deploys in the name of `actor`.
    pub fn new(sandbox: E, actor: AccountId) -> (session: Self)
        ensures
            session.wf(),
            session.sandbox == sandbox,
            session.actor == actor,
            session.mocks@ == RegistryModel::<F>::empty(),
    {
        Session { sandbox, mocks: MockRegistry::new(), actor }
    }

    /// The mocking interface of this session.
    pub fn mocking_api(&mut self) -> (api: MockingApi<'_, E, F>)
        ensures
            *api.session == *old(self),
            *final(api.session) == *final(self),
    {
        MockingApi::new(self)
    }

    /// Calls the contract at `address` in the name of `origin`.
    ///
    /// Where a mock is registered at `address`, the mock answers and the engine is not
    /// touched: the result carries the mock's output, or the revert flag with the
    /// mock's reason. Where none is, the engine is asked once, with the arguments as
    /// they came, and its answer is handed on as it is. The registry is the same
    /// afterwards either way.
    pub fn call_contract(
        &mut self,
        address: AccountId,
        value: u128,
        data: Vec<u8>,
        origin: AccountId,
        gas_limit: Weight,
        storage_deposit_limit: Option<u128>,
        determinism: Determinism,
    ) -> (result: ContractExecResult)
        requires
            old(self).wf(),
        ensures
            final(self).wf(),
            final(self).mocks == old(self).mocks,
            final(self).actor == old(self).actor,
            old(self).mocks@.lookup(address) matches Some(mock) ==> final(self).sandbox == old(
                self,
            ).sandbox && mock.may_give(result, address, origin, data, value),
            old(self).mocks@.lookup(address) is None ==> exists|engine: &mut E|
                {
                    &&& *engine == old(self).sandbox
                    &&& *final(engine) == final(self).sandbox
                    &&& #[trigger] call_ensures(
                        E::call_contract,
                        (
                            engine,
                            address,
                            value,
                            data,
                            origin,
                            gas_limit,
                            storage_deposit_limit,
                            determinism,
                        ),
                        result,
                    )
                },
    {
        match self.mocks.resolve_call(&address) {
            CallTarget::Native(mock) => mock.answer(address, origin, &data, value),
            CallTarget::Bytecode => self.sandbox.call_contract(
                address,
                value,
                data,
                origin,
                gas_limit,
                storage_deposit_limit,
                determinism,
            ),
        }
    }

    /// Instantiates code that was uploaded before, found by `code_hash`.
    ///
    /// Bytes that hold no complete code hash are refused before the engine is asked.
    /// Otherwise the engine is asked once, with the arguments as they came, and its
    /// answer is handed on as it is.
    pub fn instantiate_contract(
        &mut self,
        code_hash: Vec<u8>,
        value: u128,
        data: Vec<u8>,
        salt: Vec<u8>,
        origin: AccountId,
        gas_limit: Weight,
        storage_deposit_limit: Option<u128>,
    ) -> (result: Result<ContractInstantiateResult, InvalidCodeHash>)
        ensures
            final(self).mocks == old(self).mocks,
            final(self).actor == old(self).actor,
            result is Ok <==> holds_code_hash(code_hash@),
            result is Err ==> final(self).sandbox == old(self).sandbox,
            result matches Ok(answer) ==> exists|engine: &mut E|
                {
                    &&& *engine == old(self).sandbox
                    &&& *final(engine) == final(self).sandbox
                    &&& #[trigger] call_ensures(
                        E::instantiate_contract,
                        (
                            engine,
                            code_hash,
                            value,
                            data,
                            salt,
                            origin,
                            gas_limit,
                            storage_deposit_limit,
                        ),
                        answer,
                    )
                },
    {
        match decode_code_hash(code_hash.as_slice()) {
            Ok(_) => Ok(
                self.sandbox.instantiate_contract(
                    code_hash,
                    value,
                    data,
                    salt,
                    origin,
                    gas_limit,
                    storage_deposit_limit,
                ),
            ),
            Err(e) => Err(e),
        }
    }
}

} // verus!
