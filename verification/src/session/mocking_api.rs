//! Mocking API for the sandbox.

use vstd::prelude::*;

use crate::account::AccountId;
use crate::carrier::{assembled_from, dummy_contract, InvalidModule, DUMMY_CONTRACT};
use crate::contract_api::{
    default_gas_limit, spec_default_gas_limit, ContractApi, ContractInstantiateResult,
    EngineError, Weight,
};
use crate::mock::{ContractMock, MockReply};
use crate::registry::{lemma_salts_distinct, MockRegistry, RegistryError, RegistryModel};
use crate::session::Session;

verus! {

/// Why a mock could not be put in place.
#[derive(Clone, Debug, PartialEq, Eq)]
pub enum MockingError {
    /// The carrier did not assemble to a module.
    CarrierRejected,
    /// The registry refused.
    Registry(RegistryError),
    /// The engine refused to deploy the carrier.
    Engine(EngineError),
    /// Mocking part of a contract that is already live is not offered.
    ExistingContractUnsupported,
}

/// What the engine is asked to deploy for one mock.
#[derive(Clone, Debug, PartialEq, Eq)]
pub struct DeployRequest {
    pub contract_bytes: Vec<u8>,
    pub value: u128,
    pub data: Vec<u8>,
    pub salt: Vec<u8>,
    pub origin: AccountId,
    pub gas_limit: Weight,
    pub storage_deposit_limit: Option<u128>,
}

/// A [`DeployRequest`] as plain values.
pub struct DeployRequestView {
    pub contract_bytes: Seq<u8>,
    pub value: u128,
    pub data: Seq<u8>,
    pub salt: Seq<u8>,
    pub origin: AccountId,
    pub gas_limit: Weight,
    pub storage_deposit_limit: Option<u128>,
}

impl View for DeployRequest {
    type V = DeployRequestView;

    open spec fn view(&self) -> DeployRequestView {
        DeployRequestView {
            contract_bytes: self.contract_bytes@,
            value: self.value,
            data: self.data@,
            salt: self.salt@,
            origin: self.origin,
            gas_limit: self.gas_limit,
            storage_deposit_limit: self.storage_deposit_limit,
        }
    }
}

/// What the assembler made of a text, for a carrier as plain values.
pub open spec fn outcome_of(carrier: Result<Seq<u8>, InvalidModule>) -> Option<Seq<u8>> {
    match carrier {
        Ok(bytes) => Some(bytes),
        Err(_) => None,
    }
}

/// The carrier as it came from the assembler, as plain values.
pub open spec fn carrier_view(carrier: Result<Vec<u8>, InvalidModule>) -> Result<
    Seq<u8>,
    InvalidModule,
> {
    match carrier {
        Ok(bytes) => Ok(bytes@),
        Err(e) => Err(e),
    }
}

/// What a deployment starts with: the carrier's binary under a fresh salt, deployed
/// by `actor` with no value, no input, the default weight limit and no deposit limit.
/// It fails before anything is asked of the engine where the carrier did not
/// assemble, and then where no salt is left.
pub open spec fn planned<F>(
    registry: RegistryModel<F>,
    actor: AccountId,
    carrier: Result<Seq<u8>, InvalidModule>,
) -> Result<DeployRequestView, MockingError> {
    match carrier {
        Err(_) => Err(MockingError::CarrierRejected),
        Ok(contract_bytes) => match registry.salt() {
            Err(e) => Err(MockingError::Registry(e)),
            Ok(salt) => Ok(
                DeployRequestView {
                    contract_bytes,
                    value: 0,
                    data: Seq::empty(),
                    salt,
                    origin: actor,
                    gas_limit: spec_default_gas_limit(),
                    storage_deposit_limit: None,
                },
            ),
        },
    }
}

/// The registry after a deployment was started: a salt is taken only where the
/// carrier assembled.
pub open spec fn registry_after_plan<F>(
    registry: RegistryModel<F>,
    carrier: Result<Seq<u8>, InvalidModule>,
) -> RegistryModel<F> {
    match carrier {
        Err(_) => registry,
        Ok(_) => registry.after_salt(),
    }
}

/// What a deployment ends with, once the engine has answered with `result`: the
/// engine's error, or the registry's where the new address is already mocked, or the
/// address of the carrier, which is now the address of the mock.
pub open spec fn concluded<F>(
    registry: RegistryModel<F>,
    result: ContractInstantiateResult,
) -> Result<AccountId, MockingError> {
    match result.result {
        Err(e) => Err(MockingError::Engine(e)),
        Ok(instantiated) => match registry.register(instantiated.account_id) {
            Err(e) => Err(MockingError::Registry(e)),
            Ok(()) => Ok(instantiated.account_id),
        },
    }
}

/// The registry after a deployment ended with `result` from the engine.
pub open spec fn registry_after_conclusion<F>(
    registry: RegistryModel<F>,
    mock: ContractMock<F>,
    result: ContractInstantiateResult,
) -> RegistryModel<F> {
    match result.result {
        Err(_) => registry,
        Ok(instantiated) => registry.after_register(instantiated.account_id, mock),
    }
}

/// Whether starting a deployment with `carrier` on the registry `before` gives
/// `request` and leaves the registry `after`.
pub open spec fn prepared<F>(
    before: RegistryModel<F>,
    actor: AccountId,
    carrier: Result<Seq<u8>, InvalidModule>,
    request: Result<DeployRequest, MockingError>,
    after: RegistryModel<F>,
) -> bool {
    &&& after == registry_after_plan(before, carrier)
    &&& match planned(before, actor, carrier) {
        Ok(plan) => request matches Ok(r) && r@ == plan,
        Err(e) => request == Err::<DeployRequest, MockingError>(e),
    }
}

/// A deployment never gives out an address that already holds a mock, and leaves
/// every mock that was registered before where it was.
pub proof fn lemma_deploy_keeps_earlier_mocks<F>(
    registry: RegistryModel<F>,
    earlier: AccountId,
    mock: ContractMock<F>,
    result: ContractInstantiateResult,
)
    requires
        registry.lookup(earlier) is Some,
    ensures
        concluded(registry, result) != Ok::<AccountId, MockingError>(earlier),
        registry_after_conclusion(registry, mock, result).lookup(earlier) == registry.lookup(
            earlier,
        ),
{
}

/// A mock that was deployed is found under the address that the deployment returned.
pub proof fn lemma_deployed_mock_is_found<F>(
    registry: RegistryModel<F>,
    mock: ContractMock<F>,
    result: ContractInstantiateResult,
)
    requires
        concluded(registry, result) is Ok,
    ensures
        registry_after_conclusion(registry, mock, result).lookup(
            concluded(registry, result)->Ok_0,
        ) == Some(mock),
{
}

/// A deployment that starts with an assembled carrier fails for want of a salt
/// exactly when the count of salts is used up, and then with
/// [`RegistryError::AllocatorExhausted`].
pub proof fn lemma_exhausted_allocator_refuses<F>(
    registry: RegistryModel<F>,
    actor: AccountId,
    contract_bytes: Seq<u8>,
)
    ensures
        registry.issued >= u64::MAX <==> planned(registry, actor, Ok(contract_bytes)) == Err::<
            DeployRequestView,
            MockingError,
        >(MockingError::Registry(RegistryError::AllocatorExhausted)),
        registry.issued < u64::MAX <==> planned(registry, actor, Ok(contract_bytes)) is Ok,
{
}

/// Two deployments one after the other hand different salts to the engine and, where
/// both succeed, put their mocks at different addresses.
pub proof fn lemma_sequential_deploys_distinct<F>(
    registry: RegistryModel<F>,
    actor: AccountId,
    first_carrier: Result<Seq<u8>, InvalidModule>,
    first: ContractMock<F>,
    first_result: ContractInstantiateResult,
    second_carrier: Result<Seq<u8>, InvalidModule>,
    second_result: ContractInstantiateResult,
)
    requires
        planned(registry, actor, first_carrier) is Ok,
        planned(
            registry_after_conclusion(registry.after_salt(), first, first_result),
            actor,
            second_carrier,
        ) is Ok,
    ensures
        ({
            let between = registry_after_conclusion(registry.after_salt(), first, first_result);
            &&& planned(registry, actor, first_carrier)->Ok_0.salt != planned(
                between,
                actor,
                second_carrier,
            )->Ok_0.salt
            &&& concluded(registry.after_salt(), first_result) is Ok && concluded(
                between.after_salt(),
                second_result,
            ) is Ok ==> concluded(registry.after_salt(), first_result)->Ok_0 != concluded(
                between.after_salt(),
                second_result,
            )->Ok_0
        }),
{
    let between = registry_after_conclusion(registry.after_salt(), first, first_result);
    lemma_salts_distinct((registry.issued + 1) as u64, (between.issued + 1) as u64);
}

/// Starts a deployment on `registry` with the carrier as the assembler gave it:
/// takes a fresh salt and builds what the engine is to be asked.
///
/// A carrier that did not assemble is refused with [`MockingError::CarrierRejected`]
/// and no salt is taken; a registry without salts refuses with its own error.
pub fn plan_deploy<F: Fn(&AccountId, &Vec<u8>, u128) -> MockReply>(
    registry: &mut MockRegistry<F>,
    actor: AccountId,
    carrier: Result<Vec<u8>, InvalidModule>,
) -> (request: Result<DeployRequest, MockingError>)
    requires
        old(registry).wf(),
    ensures
        final(registry).wf(),
        prepared(old(registry)@, actor, carrier_view(carrier), request, final(registry)@),
{
    // We have to deploy some contract. We use a dummy contract for that. Thanks to that, we
    // ensure that the engine will treat our mock just as a regular contract, until we
    // actually call it.
    let contract_bytes = match carrier {
        Ok(bytes) => bytes,
        Err(_) => {
            return Err(MockingError::CarrierRejected);
        },
    };
    let salt = match registry.salt() {
        Ok(salt) => salt,
        Err(e) => {
            return Err(MockingError::Registry(e));
        },
    };
    Ok(
        DeployRequest {
            contract_bytes,
            value: 0,
            data: Vec::new(),
            salt,
            origin: actor,
            gas_limit: default_gas_limit(),
            storage_deposit_limit: None,
        },
    )
}

/// Ends a deployment on `registry`: registers `mock` at the address that the engine
/// gave the carrier. Where the engine failed, or a mock stands at that address
/// already, the registry stays as it is.
pub fn finish_deploy<F: Fn(&AccountId, &Vec<u8>, u128) -> MockReply>(
    registry: &mut MockRegistry<F>,
    mock: ContractMock<F>,
    result: ContractInstantiateResult,
) -> (address: Result<AccountId, MockingError>)
    requires
        old(registry).wf(),
        mock.callable(),
    ensures
        final(registry).wf(),
        address == concluded(old(registry)@, result),
        final(registry)@ == registry_after_conclusion(old(registry)@, mock, result),
{
    match result.result {
        Err(e) => Err(MockingError::Engine(e)),
        Ok(instantiated) => {
            let mock_address = instantiated.account_id;
            match registry.register(mock_address, mock) {
                Err(e) => Err(MockingError::Registry(e)),
                Ok(()) => Ok(mock_address),
            }
        },
    }
}

/// Interface for putting mocks in place.
pub struct MockingApi<'a, E, F> {
    pub session: &'a mut Session<E, F>,
}

impl<'a, E: ContractApi, F: Fn(&AccountId, &Vec<u8>, u128) -> MockReply> MockingApi<'a, E, F> {
    /// Create a new MockingApi
    pub fn new(session: &'a mut Session<E, F>) -> (api: Self)
        ensures
            *api.session == *old(session),
            *final(api.session) == *final(session),
    {
        MockingApi { session }
    }

    /// Starts a deployment: assembles the carrier and takes a salt for it.
    ///
    /// The carrier is what the assembler made of [`DUMMY_CONTRACT`]; the request and
    /// the registry are those of [`plan_deploy`] for it.
    pub fn prepare_deploy(&mut self) -> (request: Result<DeployRequest, MockingError>)
        requires
            old(self).session.wf(),
        ensures
            final(self).session.wf(),
            *final(final(self).session) == *final(old(self).session),
            final(self).session.sandbox == old(self).session.sandbox,
            final(self).session.actor == old(self).session.actor,
            exists|carrier: Result<Seq<u8>, InvalidModule>|
                assembled_from(DUMMY_CONTRACT@, outcome_of(carrier)) && #[trigger] prepared(
                    old(self).session.mocks@,
                    old(self).session.actor,
                    carrier,
                    request,
                    final(self).session.mocks@,
                ),
    {
        let carrier = dummy_contract();
        let ghost given = carrier_view(carrier);
        let request = plan_deploy(&mut self.session.mocks, self.session.actor, carrier);
        proof {
            assert(prepared(
                old(self).session.mocks@,
                old(self).session.actor,
                given,
                request,
                self.session.mocks@,
            ));
        }
        request
    }

    /// Ends a deployment: registers `mock` at the address that the engine gave the
    /// carrier. Where the engine failed, or a mock stands at that address already,
    /// the registry stays as it is.
    pub fn conclude_deploy(&mut self, mock: ContractMock<F>, result: ContractInstantiateResult) -> (address:
        Result<AccountId, MockingError>)
        requires
            old(self).session.wf(),
            mock.callable(),
        ensures
            final(self).session.wf(),
            *final(final(self).session) == *final(old(self).session),
            final(self).session.sandbox == old(self).session.sandbox,
            final(self).session.actor == old(self).session.actor,
            address == concluded(old(self).session.mocks@, result),
            final(self).session.mocks@ == registry_after_conclusion(
                old(self).session.mocks@,
                mock,
                result,
            ),
    {
        finish_deploy(&mut self.session.mocks, mock, result)
    }

    /// Deploy `mock` as a standard contract. Returns the address of the deployed contract.
    ///
    /// The carrier is what the assembler made of [`DUMMY_CONTRACT`]. Where the
    /// deployment cannot start, its error comes back and the engine is untouched. Where it starts, the engine
    /// is asked once to deploy the planned request, and the mock is registered at the
    /// address of its answer.
    pub fn deploy(&mut self, mock: ContractMock<F>) -> (address: Result<AccountId, MockingError>)
        requires
            old(self).session.wf(),
            mock.callable(),
        ensures
            final(self).session.wf(),
            *final(final(self).session) == *final(old(self).session),
            final(self).session.actor == old(self).session.actor,
            exists|carrier: Result<Seq<u8>, InvalidModule>|
                #![trigger planned(old(self).session.mocks@, old(self).session.actor, carrier)]
                assembled_from(DUMMY_CONTRACT@, outcome_of(carrier)) && match planned(
                    old(self).session.mocks@,
                    old(self).session.actor,
                    carrier,
                ) {
                    Err(e) => {
                        &&& address == Err::<AccountId, MockingError>(e)
                        &&& final(self).session.sandbox == old(self).session.sandbox
                        &&& final(self).session.mocks@ == registry_after_plan(
                            old(self).session.mocks@,
                            carrier,
                        )
                    },
                    Ok(plan) => exists|
                        engine: &mut E,
                        request: DeployRequest,
                        result: ContractInstantiateResult,
                    |
                        {
                            &&& *engine == old(self).session.sandbox
                            &&& *final(engine) == final(self).session.sandbox
                            &&& request@ == plan
                            &&& #[trigger] call_ensures(
                                E::deploy_contract,
                                (
                                    engine,
                                    request.contract_bytes,
                                    request.value,
                                    request.data,
                                    request.salt,
                                    request.origin,
                                    request.gas_limit,
                                    request.storage_deposit_limit,
                                ),
                                result,
                            )
                            &&& address == concluded(
                                old(self).session.mocks@.after_salt(),
                                result,
                            )
                            &&& final(self).session.mocks@ == registry_after_conclusion(
                                old(self).session.mocks@.after_salt(),
                                mock,
                                result,
                            )
                        },
                },
    {
        let carrier = dummy_contract();
        let ghost given = carrier_view(carrier);
        let request = match plan_deploy(&mut self.session.mocks, self.session.actor, carrier) {
            Ok(request) => request,
            Err(e) => {
                proof {
                    assert(planned(old(self).session.mocks@, old(self).session.actor, given)
                        == Err::<DeployRequestView, MockingError>(e));
                }
                return Err(e);
            },
        };
        proof {
            assert(planned(old(self).session.mocks@, old(self).session.actor, given) == Ok::<
                DeployRequestView,
                MockingError,
            >(request@));
        }
        let result = self.session.sandbox.deploy_contract(
            request.contract_bytes,
            request.value,
            request.data,
            request.salt,
            request.origin,
            request.gas_limit,
            request.storage_deposit_limit,
        );
        finish_deploy(&mut self.session.mocks, mock, result)
    }

    /// Mock part of an existing contract. In particular, allows to override real behavior of
    /// deployed contract's messages.
    ///
    /// This is not offered yet: the call is refused and the session stays as it is.
    pub fn mock_existing_contract(&mut self, mock: ContractMock<F>, address: AccountId) -> (done:
        Result<(), MockingError>)
        ensures
            done == Err::<(), MockingError>(MockingError::ExistingContractUnsupported),
            *final(self).session == *old(self).session,
            *final(final(self).session) == *final(old(self).session),
    {
        Err(MockingError::ExistingContractUnsupported)
    }
}

} // verus!
