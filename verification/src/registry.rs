//! The registry of mocked contracts and the salts it allots.

use vstd::bytes::{lemma_auto_spec_u64_to_from_le_bytes, spec_u64_to_le_bytes, u64_to_le_bytes};
use vstd::prelude::*;

use crate::account::AccountId;
use crate::mock::{ContractMock, MockReply};

verus! {

/// Why the registry refused.
#[derive(Clone, Copy, Debug, PartialEq, Eq, Structural)]
pub enum RegistryError {
    /// A mock is already registered at the address.
    AddressAlreadyMocked,
    /// Every salt has been handed out.
    AllocatorExhausted,
}

/// Number of bytes in a salt.
pub const SALT_LEN: usize = 8;

/// The `k`-th salt: `k` as eight bytes, least significant first.
pub open spec fn salt_bytes(k: u64) -> Seq<u8> {
    spec_u64_to_le_bytes(k)
}

/// Different counts give different salts, each of [`SALT_LEN`] bytes.
pub proof fn lemma_salts_distinct(i: u64, j: u64)
    ensures
        salt_bytes(i).len() == SALT_LEN,
        i != j ==> salt_bytes(i) != salt_bytes(j),
{
    lemma_auto_spec_u64_to_from_le_bytes();
}

/// Hands out salts, each one once.
#[derive(Debug)]
pub struct SaltAllocator {
    issued: u64,
}

impl SaltAllocator {
    /// How many salts have been handed out.
    pub closed spec fn issued(&self) -> nat {
        self.issued as nat
    }

    /// An allocator that has handed out nothing.
    pub fn new() -> (allocator: Self)
        ensures
            allocator.issued() == 0,
    {
        SaltAllocator { issued: 0 }
    }

    /// An allocator that goes on after `issued` salts were handed out.
    pub fn resuming(issued: u64) -> (allocator: Self)
        ensures
            allocator.issued() == issued,
    {
        SaltAllocator { issued }
    }

    /// The next salt, or [`RegistryError::AllocatorExhausted`] when the count cannot
    /// grow any more. No salt is handed out twice.
    pub fn next_salt(&mut self) -> (salt: Result<Vec<u8>, RegistryError>)
        ensures
            match salt {
                Ok(bytes) => {
                    &&& old(self).issued() < u64::MAX
                    &&& final(self).issued() == old(self).issued() + 1
                    &&& bytes@ == salt_bytes(final(self).issued() as u64)
                },
                Err(e) => {
                    &&& old(self).issued() == u64::MAX
                    &&& e == RegistryError::AllocatorExhausted
                    &&& *final(self) == *old(self)
                },
            },
    {
        if self.issued == u64::MAX {
            Err(RegistryError::AllocatorExhausted)
        } else {
            self.issued = self.issued + 1;
            Ok(u64_to_le_bytes(self.issued))
        }
    }
}

/// What answers a call to an address.
pub enum CallTarget<'a, F> {
    /// A mock is registered there: it answers, and no bytecode runs.
    Native(&'a ContractMock<F>),
    /// Nothing is registered there: the deployed bytecode runs.
    Bytecode,
}

/// The registry as a mathematical value: which mock stands at which address, and how
/// many salts have been handed out.
pub struct RegistryModel<F> {
    pub mocks: Map<AccountId, ContractMock<F>>,
    pub issued: nat,
}

impl<F> RegistryModel<F> {
    /// The registry of a fresh session.
    pub open spec fn empty() -> Self {
        RegistryModel { mocks: Map::empty(), issued: 0 }
    }

    /// The mock registered at `address`, if there is one.
    pub open spec fn lookup(self, address: AccountId) -> Option<ContractMock<F>> {
        if self.mocks.dom().contains(address) {
            Some(self.mocks[address])
        } else {
            None
        }
    }

    /// What asking for a salt returns.
    pub open spec fn salt(self) -> Result<Seq<u8>, RegistryError> {
        if self.issued < u64::MAX {
            Ok(salt_bytes((self.issued + 1) as u64))
        } else {
            Err(RegistryError::AllocatorExhausted)
        }
    }

    /// The registry after a salt was asked for.
    pub open spec fn after_salt(self) -> Self {
        if self.issued < u64::MAX {
            RegistryModel { mocks: self.mocks, issued: self.issued + 1 }
        } else {
            self
        }
    }

    /// What registering a mock at `address` returns.
    pub open spec fn register(self, address: AccountId) -> Result<(), RegistryError> {
        if self.mocks.dom().contains(address) {
            Err(RegistryError::AddressAlreadyMocked)
        } else {
            Ok(())
        }
    }

    /// The registry after `mock` was offered for `address`.
    pub open spec fn after_register(self, address: AccountId, mock: ContractMock<F>) -> Self {
        if self.mocks.dom().contains(address) {
            self
        } else {
            RegistryModel { mocks: self.mocks.insert(address, mock), issued: self.issued }
        }
    }

    /// The registry after one operation.
    pub open spec fn after(self, op: RegistryOp<F>) -> Self {
        match op {
            RegistryOp::Salt => self.after_salt(),
            RegistryOp::Register { address, mock } => self.after_register(address, mock),
        }
    }

    /// The registry after the operations of `ops`, first to last.
    pub open spec fn after_all(self, ops: Seq<RegistryOp<F>>) -> Self
        decreases ops.len(),
    {
        if ops.len() == 0 {
            self
        } else {
            self.after_all(ops.drop_last()).after(ops.last())
        }
    }
}

/// A mock that was registered is found under its address.
pub proof fn lemma_registered_mock_is_found<F>(
    registry: RegistryModel<F>,
    address: AccountId,
    mock: ContractMock<F>,
)
    requires
        registry.register(address) is Ok,
    ensures
        registry.after_register(address, mock).lookup(address) == Some(mock),
{
}

/// Registering at an address that holds a mock fails with
/// [`RegistryError::AddressAlreadyMocked`] and leaves the registry, and with it the
/// earlier mock, as it was.
pub proof fn lemma_second_registration_refused<F>(
    registry: RegistryModel<F>,
    address: AccountId,
    first: ContractMock<F>,
    second: ContractMock<F>,
)
    requires
        registry.register(address) is Ok,
    ensures
        ({
            let registered = registry.after_register(address, first);
            &&& registered.register(address) == Err::<(), RegistryError>(
                RegistryError::AddressAlreadyMocked,
            )
            &&& registered.after_register(address, second) == registered
            &&& registered.lookup(address) == Some(first)
        }),
{
}

/// Whatever is done to the registry afterwards, an address keeps the mock that was
/// registered there.
pub proof fn lemma_registration_lasts<F>(
    registry: RegistryModel<F>,
    address: AccountId,
    ops: Seq<RegistryOp<F>>,
)
    requires
        registry.lookup(address) is Some,
    ensures
        registry.after_all(ops).lookup(address) == registry.lookup(address),
    decreases ops.len(),
{
    if ops.len() != 0 {
        lemma_registration_lasts(registry, address, ops.drop_last());
    }
}

/// The count of salts never falls, whatever is done to the registry.
pub proof fn lemma_issued_never_falls<F>(registry: RegistryModel<F>, ops: Seq<RegistryOp<F>>)
    ensures
        registry.after_all(ops).issued >= registry.issued,
    decreases ops.len(),
{
    if ops.len() != 0 {
        lemma_issued_never_falls(registry, ops.drop_last());
    }
}

/// A salt that was handed out is never handed out again, whatever is done to the
/// registry in between.
pub proof fn lemma_salt_never_repeats<F>(registry: RegistryModel<F>, ops: Seq<RegistryOp<F>>)
    requires
        registry.salt() is Ok,
        registry.after_salt().after_all(ops).salt() is Ok,
    ensures
        registry.salt() != registry.after_salt().after_all(ops).salt(),
{
    let later = registry.after_salt().after_all(ops);
    lemma_issued_never_falls(registry.after_salt(), ops);
    lemma_salts_distinct((registry.issued + 1) as u64, (later.issued + 1) as u64);
}

/// Two mocks registered one after the other stand at different addresses.
pub proof fn lemma_sequential_registrations_distinct<F>(
    registry: RegistryModel<F>,
    first_address: AccountId,
    first: ContractMock<F>,
    second_address: AccountId,
)
    requires
        registry.register(first_address) is Ok,
        registry.after_register(first_address, first).register(second_address) is Ok,
    ensures
        first_address != second_address,
{
}

/// Two mocks registered at different addresses are each found under their own
/// address: a call that one of them makes to the other is answered by the other.
pub proof fn lemma_each_address_keeps_its_mock<F>(
    registry: RegistryModel<F>,
    first_address: AccountId,
    first: ContractMock<F>,
    second_address: AccountId,
    second: ContractMock<F>,
)
    requires
        registry.register(first_address) is Ok,
        registry.after_register(first_address, first).register(second_address) is Ok,
    ensures
        ({
            let both = registry.after_register(first_address, first).after_register(
                second_address,
                second,
            );
            &&& both.lookup(first_address) == Some(first)
            &&& both.lookup(second_address) == Some(second)
        }),
{
}

/// One operation that changes the registry.
pub enum RegistryOp<F> {
    /// A salt is asked for.
    Salt,
    /// A mock is offered for an address.
    Register { address: AccountId, mock: ContractMock<F> },
}

struct Entry<F> {
    address: AccountId,
    mock: ContractMock<F>,
}

/// The mocks of one session, each under the address of its carrier.
pub struct MockRegistry<F> {
    entries: Vec<Entry<F>>,
    allocator: SaltAllocator,
}

impl<F: Fn(&AccountId, &Vec<u8>, u128) -> MockReply> MockRegistry<F> {
    /// No address holds two mocks, and every mock accepts every call.
    pub closed spec fn wf(&self) -> bool {
        &&& forall|i: int, j: int|
            0 <= i < j < self.entries@.len() ==> (#[trigger] self.entries@[i]).address != (
            #[trigger] self.entries@[j]).address
        &&& forall|i: int|
            0 <= i < self.entries@.len() ==> (#[trigger] self.entries@[i]).mock.callable()
    }

    spec fn position(&self, address: AccountId) -> int {
        choose|i: int| 0 <= i < self.entries@.len() && self.entries@[i].address == address
    }

    spec fn holds(&self, address: AccountId) -> bool {
        exists|i: int| 0 <= i < self.entries@.len() && self.entries@[i].address == address
    }

    /// The registry as a mathematical value.
    pub closed spec fn view(&self) -> RegistryModel<F> {
        RegistryModel {
            mocks: Map::new(
                |address: AccountId| self.holds(address),
                |address: AccountId| self.entries@[self.position(address)].mock,
            ),
            issued: self.allocator.issued(),
        }
    }

    /// A registry without mocks that has handed out no salt.
    pub fn new() -> (registry: Self)
        ensures
            registry.wf(),
            registry@ == RegistryModel::<F>::empty(),
    {
        let registry = MockRegistry { entries: Vec::new(), allocator: SaltAllocator::new() };
        assert(registry@.mocks =~= Map::empty());
        registry
    }

    /// A registry without mocks that takes its salts from `allocator`.
    pub fn with_allocator(allocator: SaltAllocator) -> (registry: Self)
        ensures
            registry.wf(),
            registry@ == (RegistryModel::<F> { mocks: Map::empty(), issued: allocator.issued() }),
    {
        let registry = MockRegistry { entries: Vec::new(), allocator };
        assert(registry@.mocks =~= Map::empty());
        registry
    }

    /// How many mocks are registered.
    pub fn len(&self) -> (n: usize)
        requires
            self.wf(),
        ensures
            n == self@.mocks.dom().len(),
            self@.mocks.dom().finite(),
    {
        proof {
            self.lemma_domain_size(self.entries@.len() as int);
            assert(self.addresses_below(self.entries@.len() as int) =~= self@.mocks.dom());
        }
        self.entries.len()
    }

    spec fn addresses_below(&self, n: int) -> Set<AccountId> {
        Set::new(|a: AccountId| exists|i: int| 0 <= i < n && self.entries@[i].address == a)
    }

    proof fn lemma_domain_size(&self, n: int)
        requires
            self.wf(),
            0 <= n <= self.entries@.len(),
        ensures
            self.addresses_below(n).finite(),
            self.addresses_below(n).len() == n,
        decreases n,
    {
        if n == 0 {
            assert(self.addresses_below(n) =~= Set::empty());
        } else {
            self.lemma_domain_size(n - 1);
            let shorter = self.addresses_below(n - 1);
            let added = self.entries@[n - 1].address;
            assert(!shorter.contains(added));
            assert(self.addresses_below(n) =~= shorter.insert(added));
        }
    }

    /// A salt for the next carrier deployment. No salt is handed out twice; when the
    /// count is used up the registry stays as it is.
    pub fn salt(&mut self) -> (salt: Result<Vec<u8>, RegistryError>)
        requires
            old(self).wf(),
        ensures
            final(self).wf(),
            final(self)@ == old(self)@.after_salt(),
            match salt {
                Ok(bytes) => old(self)@.salt() == Ok::<Seq<u8>, RegistryError>(bytes@),
                Err(e) => old(self)@.salt() == Err::<Seq<u8>, RegistryError>(e),
            },
    {
        let ghost before = *self;
        let salt = self.allocator.next_salt();
        proof {
            assert(self.entries == before.entries);
            assert(self@.mocks =~= before@.mocks);
        }
        salt
    }

    fn find(&self, address: &AccountId) -> (found: Option<usize>)
        requires
            self.wf(),
        ensures
            match found {
                Some(i) => i < self.entries@.len() && self.entries@[i as int].address == *address
                    && self.position(*address) == i && self.holds(*address),
                None => !self.holds(*address),
            },
    {
        let mut i: usize = 0;
        while i < self.entries.len()
            invariant
                self.wf(),
                i <= self.entries@.len(),
                forall|k: int| 0 <= k < i ==> self.entries@[k].address != *address,
            decreases self.entries@.len() - i,
        {
            if self.entries[i].address == *address {
                proof {
                    let j = self.position(*address);
                    assert(self.entries@[i as int].address == self.entries@[j].address);
                }
                return Some(i);
            }
            i = i + 1;
        }
        None
    }

    /// Registers `mock` at `address`, unless a mock stands there already: then the
    /// registry stays as it is and the error is [`RegistryError::AddressAlreadyMocked`].
    ///
    /// The registry deploys nothing: the caller sees to it that a carrier lives at
    /// `address` in the engine's world.
    pub fn register(&mut self, address: AccountId, mock: ContractMock<F>) -> (done: Result<
        (),
        RegistryError,
    >)
        requires
            old(self).wf(),
            mock.callable(),
        ensures
            final(self).wf(),
            done == old(self)@.register(address),
            final(self)@ == old(self)@.after_register(address, mock),
    {
        match self.find(&address) {
            Some(_) => Err(RegistryError::AddressAlreadyMocked),
            None => {
                let ghost before = *self;
                self.entries.push(Entry { address, mock });
                proof {
                    let last = before.entries@.len() as int;
                    assert(self.entries@[last].address == address);
                    assert forall|a: AccountId| self.holds(a) == (a == address || before.holds(
                        a,
                    )) by {
                        if before.holds(a) {
                            let i = before.position(a);
                            assert(self.entries@[i].address == a);
                        }
                    }
                    assert forall|a: AccountId| #[trigger] self.holds(a) implies self.entries@[self.position(
                        a,
                    )].mock == before@.mocks.insert(address, mock)[a] by {
                        let i = self.position(a);
                        if a != address {
                            let j = before.position(a);
                            assert(self.entries@[j].address == a);
                            assert(i == j);
                        } else {
                            assert(i == last);
                        }
                    }
                    assert(self@.mocks =~= before@.mocks.insert(address, mock));
                }
                Ok(())
            },
        }
    }

    /// The mock registered at `address`, if there is one.
    pub fn lookup(&self, address: &AccountId) -> (found: Option<&ContractMock<F>>)
        requires
            self.wf(),
        ensures
            match found {
                Some(mock) => self@.lookup(*address) == Some(*mock) && mock.callable(),
                None => self@.lookup(*address) is None,
            },
    {
        match self.find(address) {
            Some(i) => Some(&self.entries[i].mock),
            None => None,
        }
    }

    /// Whether a mock is registered at `address`.
    pub fn is_mocked(&self, address: &AccountId) -> (mocked: bool)
        requires
            self.wf(),
        ensures
            mocked == self@.mocks.dom().contains(*address),
    {
        self.find(address).is_some()
    }

    /// Decides what answers a call to `address`: the mock registered there, or, where
    /// none is, the deployed bytecode.
    pub fn resolve_call(&self, address: &AccountId) -> (target: CallTarget<'_, F>)
        requires
            self.wf(),
        ensures
            match target {
                CallTarget::Native(mock) => self@.lookup(*address) == Some(*mock)
                    && mock.callable(),
                CallTarget::Bytecode => self@.lookup(*address) is None,
            },
    {
        match self.lookup(address) {
            Some(mock) => CallTarget::Native(mock),
            None => CallTarget::Bytecode,
        }
    }
}

} // verus!
