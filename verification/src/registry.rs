//! The capability registry: each contract of the service is bound to one
//! component at startup, and handlers resolve a contract to its component.
//!
//! A module is built once, from a builder in which every contract has been
//! bound exactly once. After that nothing can be bound again: resolving is a
//! lookup that cannot fail and changes nothing.

use vstd::prelude::*;
use std::sync::Arc;

verus! {

/// The contracts that the service binds.
#[derive(Debug, Clone, Copy, PartialEq, Eq, Structural)]
pub enum Contract {
    Database,
    UserRepository,
    Cache,
    PasswordHasher,
    GetUsers,
    CreateUser,
    UpdateUser,
    DeleteUser,
}

/// The number of contracts.
pub const CONTRACTS: usize = 8;

impl Contract {
    /// The place of the contract among all contracts.
    pub open spec fn spec_index(self) -> usize {
        match self {
            Contract::Database => 0,
            Contract::UserRepository => 1,
            Contract::Cache => 2,
            Contract::PasswordHasher => 3,
            Contract::GetUsers => 4,
            Contract::CreateUser => 5,
            Contract::UpdateUser => 6,
            Contract::DeleteUser => 7,
        }
    }

    #[verifier::when_used_as_spec(spec_index)]
    pub fn index(self) -> (place: usize)
        ensures
            place == self.spec_index(),
            place < CONTRACTS,
    {
        match self {
            Contract::Database => 0,
            Contract::UserRepository => 1,
            Contract::Cache => 2,
            Contract::PasswordHasher => 3,
            Contract::GetUsers => 4,
            Contract::CreateUser => 5,
            Contract::UpdateUser => 6,
            Contract::DeleteUser => 7,
        }
    }

    /// The contract at a place.
    pub open spec fn spec_at(place: usize) -> Option<Contract> {
        if place == 0 {
            Some(Contract::Database)
        } else if place == 1 {
            Some(Contract::UserRepository)
        } else if place == 2 {
            Some(Contract::Cache)
        } else if place == 3 {
            Some(Contract::PasswordHasher)
        } else if place == 4 {
            Some(Contract::GetUsers)
        } else if place == 5 {
            Some(Contract::CreateUser)
        } else if place == 6 {
            Some(Contract::UpdateUser)
        } else if place == 7 {
            Some(Contract::DeleteUser)
        } else {
            None
        }
    }

    #[verifier::when_used_as_spec(spec_at)]
    pub fn at(place: usize) -> (contract: Option<Contract>)
        ensures
            contract == Contract::spec_at(place),
            place < CONTRACTS ==> contract is Some && contract->Some_0.spec_index() == place,
            place >= CONTRACTS ==> contract is None,
    {
        if place == 0 {
            Some(Contract::Database)
        } else if place == 1 {
            Some(Contract::UserRepository)
        } else if place == 2 {
            Some(Contract::Cache)
        } else if place == 3 {
            Some(Contract::PasswordHasher)
        } else if place == 4 {
            Some(Contract::GetUsers)
        } else if place == 5 {
            Some(Contract::CreateUser)
        } else if place == 6 {
            Some(Contract::UpdateUser)
        } else if place == 7 {
            Some(Contract::DeleteUser)
        } else {
            None
        }
    }
}

/// The bindings made so far, before the service accepts traffic.
pub struct ModuleBuilder<T> {
    slots: Vec<Option<T>>,
}

/// The bindings of the running service: every contract has its component.
pub struct AppModule<T> {
    slots: Vec<Option<T>>,
}

/// What every handler is given: the module, shared and read-only.
pub struct AppState<T> {
    pub module: Arc<AppModule<T>>,
}

impl<T> ModuleBuilder<T> {
    #[verifier::type_invariant]
    spec fn sized(&self) -> bool {
        self.slots@.len() == CONTRACTS
    }

    /// The component bound to a contract, if one has been bound.
    pub closed spec fn binding(&self, contract: Contract) -> Option<T> {
        self.slots@[contract.spec_index() as int]
    }

    /// Whether every contract has been bound.
    pub open spec fn complete(&self) -> bool {
        forall|contract: Contract| (#[trigger] self.binding(contract)) is Some
    }

    /// The first contract that has not been bound yet.
    pub open spec fn first_unbound(&self, contract: Contract) -> bool {
        &&& self.binding(contract) is None
        &&& forall|other: Contract|
            other.spec_index() < contract.spec_index() ==> (#[trigger] self.binding(other)) is Some
    }

    /// A builder in which nothing is bound.
    pub fn new() -> (builder: Self)
        ensures
            forall|contract: Contract| (#[trigger] builder.binding(contract)) is None,
    {
        let mut slots: Vec<Option<T>> = Vec::new();
        let mut i: usize = 0;
        while i < CONTRACTS
            invariant
                i <= CONTRACTS,
                slots@.len() == i,
                forall|k: int| 0 <= k < i ==> (#[trigger] slots@[k]) is None,
            decreases CONTRACTS - i,
        {
            slots.push(None);
            i = i + 1;
        }
        ModuleBuilder { slots }
    }

    /// Binds a contract to a component. A contract is bound once: where it
    /// is bound already, the component is handed back and nothing changes.
    pub fn bind(self, contract: Contract, component: T) -> (bound: (Self, Option<T>))
        ensures
            self.binding(contract) is Some ==> bound.1 == Some(component) && bound.0 == self,
            self.binding(contract) is None ==> bound.1 is None && bound.0.binding(contract) == Some(
                component,
            ),
            forall|other: Contract|
                other != contract ==> (#[trigger] bound.0.binding(other)) == self.binding(other),
    {
        proof {
            use_type_invariant(&self);
        }
        let place = contract.index();
        if self.slots[place].is_some() {
            return (self, Some(component));
        }
        let ghost before = self.slots@;
        let mut slots = self.slots;
        slots.set(place, Some(component));
        let next = ModuleBuilder { slots };
        assert forall|other: Contract| other != contract implies (#[trigger] next.binding(other))
            == before[other.spec_index() as int] by {
            assert(other.spec_index() != contract.spec_index());
        }
        (next, None)
    }

    /// Closes the bindings. The module is built when every contract has
    /// been bound, and binds each to the component it was given; else the
    /// first contract without a component is named.
    pub fn build(self) -> (built: Result<AppModule<T>, Contract>)
        ensures
            built is Ok <==> self.complete(),
            built is Ok ==> forall|contract: Contract|
                Some(#[trigger] built->Ok_0.bound(contract)) == self.binding(contract),
            built is Err ==> self.first_unbound(built->Err_0),
    {
        proof {
            use_type_invariant(&self);
        }
        let mut i: usize = 0;
        while i < CONTRACTS
            invariant
                i <= CONTRACTS,
                self.slots@.len() == CONTRACTS,
                forall|k: int| 0 <= k < i ==> (#[trigger] self.slots@[k]) is Some,
            decreases CONTRACTS - i,
        {
            if self.slots[i].is_none() {
                let missing = Contract::at(i);
                assert forall|other: Contract|
                    other.spec_index() < i implies (#[trigger] self.binding(other)) is Some by {
                    assert(self.slots@[other.spec_index() as int] is Some);
                }
                assert(self.binding(missing->Some_0) is None);
                return Err(missing.unwrap());
            }
            i = i + 1;
        }
        assert forall|contract: Contract| (#[trigger] self.binding(contract)) is Some by {
            assert(self.slots@[contract.spec_index() as int] is Some);
        }
        Ok(AppModule { slots: self.slots })
    }
}

impl<T> AppModule<T> {
    #[verifier::type_invariant]
    spec fn filled(&self) -> bool {
        &&& self.slots@.len() == CONTRACTS
        &&& forall|k: int| 0 <= k < CONTRACTS ==> (#[trigger] self.slots@[k]) is Some
    }

    /// The component that the contract is bound to.
    pub closed spec fn bound(&self, contract: Contract) -> T {
        self.slots@[contract.spec_index() as int]->Some_0
    }

    /// Resolves a contract to its component.
    pub fn resolve(&self, contract: Contract) -> (component: &T)
        ensures
            *component == self.bound(contract),
    {
        proof {
            use_type_invariant(self);
        }
        let place = contract.index();
        self.slots[place].as_ref().unwrap()
    }
}

impl<T> AppState<T> {
    /// Shares a module among the handlers.
    pub fn new(module: AppModule<T>) -> (state: Self)
        ensures
            *state.module == module,
    {
        AppState { module: Arc::new(module) }
    }

    /// Resolves a contract to its component.
    pub fn resolve(&self, contract: Contract) -> (component: &T)
        ensures
            *component == self.module.bound(contract),
    {
        self.module.resolve(contract)
    }
}

impl<T> Clone for AppState<T> {
    /// Another handle on the same module.
    fn clone(&self) -> (copy: Self)
        ensures
            copy.module == self.module,
    {
        AppState { module: self.module.clone() }
    }
}

} // verus!
