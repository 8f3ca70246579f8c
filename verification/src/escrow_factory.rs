//! The escrow factory: it keeps the digest of the escrow's code and
//! instantiates escrows at addresses that follow from a salt.

use crate::escrow::SorobanEscrow;
use crate::host::Address;
use crate::host::Bytes32;
use crate::host::Env;
use crate::host::Event;
use vstd::prelude::*;

pub use crate::escrow::Immutables;

verus! {

/// The slots of the factory's instance storage.
#[derive(Clone, Copy, Debug, PartialEq, Eq, Structural)]
pub enum DataKey {
    EscrowWasmHash,
    Admin,
}

#[derive(Copy, Clone, Debug, Eq, PartialEq, PartialOrd, Ord, Structural)]
pub enum Error {
    NotInitialized,
    AlreadyInitialized,
    NotAuthorized,
    DeploymentFailed,
}

impl Error {
    /// The number under which the ledger reports the error.
    pub fn code(&self) -> (c: u32)
        ensures
            c == match *self {
                Error::NotInitialized => 1u32,
                Error::AlreadyInitialized => 2u32,
                Error::NotAuthorized => 3u32,
                Error::DeploymentFailed => 4u32,
            },
    {
        match self {
            Error::NotInitialized => 1,
            Error::AlreadyInitialized => 2,
            Error::NotAuthorized => 3,
            Error::DeploymentFailed => 4,
        }
    }
}

/// What a successful `deploy_escrow` asks of the host and hands back: the
/// code to instantiate with the salt, the address the instance gets, the
/// instance as its initialization left it, and the event.
#[derive(Clone, Copy, Debug, PartialEq, Eq)]
pub struct EscrowDeployment {
    pub address: Address,
    pub wasm_hash: Bytes32,
    pub salt: Bytes32,
    pub escrow: SorobanEscrow,
    pub event: Event,
}

/// The factory's instance storage.
#[derive(Clone, Copy, Debug, PartialEq, Eq)]
pub struct SorobanEscrowFactory {
    admin: Option<Address>,
    escrow_wasm_hash: Option<Bytes32>,
}

impl SorobanEscrowFactory {
    /// The admin that the factory stores, if any.
    pub closed spec fn stored_admin(&self) -> Option<Address> {
        self.admin
    }

    /// The digest of the escrow's code that the factory stores, if any.
    pub closed spec fn stored_wasm_hash(&self) -> Option<Bytes32> {
        self.escrow_wasm_hash
    }

    /// Whether the storage slot `key` is filled.
    pub open spec fn spec_has(&self, key: DataKey) -> bool {
        match key {
            DataKey::EscrowWasmHash => self.stored_wasm_hash() is Some,
            DataKey::Admin => self.stored_admin() is Some,
        }
    }

    /// What `get_escrow_address` answers in this state.
    pub open spec fn spec_get_escrow_address(&self, env: &Env, salt: Bytes32) -> Result<
        Address,
        Error,
    > {
        if self.stored_wasm_hash() is None {
            Err(Error::NotInitialized)
        } else {
            Ok(env.spec_contract_address(env.current_contract, salt))
        }
    }

    /// What `update_escrow_wasm_hash` answers in this state.
    pub open spec fn spec_update(&self, env: &Env) -> Result<(), Error> {
        match self.stored_admin() {
            None => Err(Error::NotInitialized),
            Some(admin) => if env.authorizes(admin) {
                Ok(())
            } else {
                Err(Error::NotAuthorized)
            },
        }
    }

    /// A freshly deployed factory: nothing is stored.
    pub fn new() -> (factory: SorobanEscrowFactory)
        ensures
            factory.stored_admin() is None,
            factory.stored_wasm_hash() is None,
    {
        SorobanEscrowFactory { admin: None, escrow_wasm_hash: None }
    }

    /// Whether the storage slot `key` is filled.
    pub fn has(&self, key: &DataKey) -> (present: bool)
        ensures
            present == self.spec_has(*key),
    {
        match key {
            DataKey::EscrowWasmHash => self.escrow_wasm_hash.is_some(),
            DataKey::Admin => self.admin.is_some(),
        }
    }

    /// Stores the admin and the digest of the escrow's code. Only the first
    /// call succeeds.
    pub fn initialize(&mut self, admin: Address, escrow_wasm_hash: Bytes32) -> (r: Result<
        (),
        Error,
    >)
        ensures
            r == if old(self).stored_wasm_hash() is Some {
                Err::<(), Error>(Error::AlreadyInitialized)
            } else {
                Ok::<(), Error>(())
            },
            r is Ok ==> final(self).stored_admin() == Some(admin),
            r is Ok ==> final(self).stored_wasm_hash() == Some(escrow_wasm_hash),
            r is Err ==> *final(self) == *old(self),
    {
        if self.escrow_wasm_hash.is_some() {
            return Err(Error::AlreadyInitialized);
        }
        self.escrow_wasm_hash = Some(escrow_wasm_hash);
        self.admin = Some(admin);
        Ok(())
    }

    /// Instantiates an escrow at the address that follows from `salt` and
    /// initializes it with `immutables`. Without a stored digest it fails
    /// with `NotInitialized`; where the escrow refuses the immutables, with
    /// `DeploymentFailed`.
    pub fn deploy_escrow(&self, env: &Env, immutables: Immutables, salt: &Bytes32) -> (r: Result<
        EscrowDeployment,
        Error,
    >)
        ensures
            self.stored_wasm_hash() is None ==> r == Err::<EscrowDeployment, Error>(
                Error::NotInitialized,
            ),
            self.stored_wasm_hash() is Some && immutables.amount < 0 ==> r == Err::<
                EscrowDeployment,
                Error,
            >(Error::DeploymentFailed),
            self.stored_wasm_hash() is Some && immutables.amount >= 0 ==> r is Ok,
            r matches Ok(deployed) ==> {
                &&& Ok::<Address, Error>(deployed.address) == self.spec_get_escrow_address(
                    env,
                    *salt,
                )
                &&& Some(deployed.wasm_hash) == self.stored_wasm_hash()
                &&& deployed.salt == *salt
                &&& deployed.escrow.stored() == Some(immutables)
                &&& deployed.event == (Event::DeployEscrow { address: deployed.address })
            },
    {
        let escrow_wasm_hash = match self.escrow_wasm_hash {
            Some(hash) => hash,
            None => {
                return Err(Error::NotInitialized);
            },
        };
        let escrow_address = env.contract_address(&env.current_contract_address(), salt);
        let mut escrow = SorobanEscrow::new();
        match escrow.initialize(immutables) {
            Ok(_) => {},
            Err(_) => {
                return Err(Error::DeploymentFailed);
            },
        }
        Ok(
            EscrowDeployment {
                address: escrow_address,
                wasm_hash: escrow_wasm_hash,
                salt: *salt,
                escrow,
                event: Event::DeployEscrow { address: escrow_address },
            },
        )
    }

    /// The address at which `deploy_escrow` instantiates an escrow for
    /// `salt`. Nothing is deployed.
    pub fn get_escrow_address(&self, env: &Env, salt: &Bytes32) -> (r: Result<Address, Error>)
        ensures
            r == self.spec_get_escrow_address(env, *salt),
    {
        if self.escrow_wasm_hash.is_none() {
            return Err(Error::NotInitialized);
        }
        Ok(env.contract_address(&env.current_contract_address(), salt))
    }

    /// Replaces the digest of the escrow's code. Needs the admin's
    /// authorization. Escrows that exist are not touched.
    pub fn update_escrow_wasm_hash(&mut self, env: &Env, new_wasm_hash: Bytes32) -> (r: Result<
        (),
        Error,
    >)
        ensures
            r == old(self).spec_update(env),
            r is Ok ==> final(self).stored_wasm_hash() == Some(new_wasm_hash),
            r is Err ==> final(self).stored_wasm_hash() == old(self).stored_wasm_hash(),
            final(self).stored_admin() == old(self).stored_admin(),
    {
        let admin = match self.admin {
            Some(admin) => admin,
            None => {
                return Err(Error::NotInitialized);
            },
        };
        if !env.has_auth(&admin) {
            return Err(Error::NotAuthorized);
        }
        self.escrow_wasm_hash = Some(new_wasm_hash);
        Ok(())
    }

    /// The digest of the escrow's code.
    pub fn get_escrow_wasm_hash(&self) -> (r: Result<Bytes32, Error>)
        ensures
            r == match self.stored_wasm_hash() {
                Some(hash) => Ok::<Bytes32, Error>(hash),
                None => Err::<Bytes32, Error>(Error::NotInitialized),
            },
    {
        match self.escrow_wasm_hash {
            Some(hash) => Ok(hash),
            None => Err(Error::NotInitialized),
        }
    }

    /// The admin of the factory.
    pub fn get_admin(&self) -> (r: Result<Address, Error>)
        ensures
            r == match self.stored_admin() {
                Some(admin) => Ok::<Address, Error>(admin),
                None => Err::<Address, Error>(Error::NotInitialized),
            },
    {
        match self.admin {
            Some(admin) => Ok(admin),
            None => Err(Error::NotInitialized),
        }
    }
}

/// The predicted address is the deployed one. Where `deploy_escrow`
/// succeeds, the address of the escrow is the address that
/// `get_escrow_address` answers for the same salt in the same invocation
/// context, and that answer depends on nothing but the network, the
/// factory's address and the salt.
pub proof fn lemma_escrow_address_prediction(
    factory: SorobanEscrowFactory,
    deploy_env: Env,
    query_env: Env,
    salt: Bytes32,
)
    requires
        deploy_env.network_id == query_env.network_id,
        deploy_env.current_contract == query_env.current_contract,
    ensures
        factory.spec_get_escrow_address(&deploy_env, salt) == factory.spec_get_escrow_address(
            &query_env,
            salt,
        ),
{
}

} // verus!
