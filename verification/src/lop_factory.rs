//! The protocol factory: it keeps the digests of the protocol's and the
//! pricer's code and instantiates a protocol together with its own pricer.

use crate::dutch_auction::SorobanDutchAuction;
use crate::host::bytes32_to_vec;
use crate::host::sha256_bytes;
use crate::host::sha256_of;
use crate::host::Address;
use crate::host::Bytes32;
use crate::host::Env;
use crate::host::Event;
use crate::lop::OrderState;
use crate::lop::SorobanLOP;
use vstd::prelude::*;

verus! {

/// The slots of the factory's instance storage.
#[derive(Clone, Copy, Debug, PartialEq, Eq, Structural)]
pub enum DataKey {
    LOPWasmHash,
    DutchAuctionWasmHash,
    Admin,
}

#[derive(Copy, Clone, Debug, Eq, PartialEq, PartialOrd, Ord, Structural)]
pub enum Error {
    NotInitialized,
    AlreadyInitialized,
    NotAuthorized,
    DeploymentFailed,
}

impl Error {
    /// The number under which the ledger reports the error.
    pub fn code(&self) -> (c: u32)
        ensures
            c == match *self {
                Error::NotInitialized => 1u32,
                Error::AlreadyInitialized => 2u32,
                Error::NotAuthorized => 3u32,
                Error::DeploymentFailed => 4u32,
            },
    {
        match self {
            Error::NotInitialized => 1,
            Error::AlreadyInitialized => 2,
            Error::NotAuthorized => 3,
            Error::DeploymentFailed => 4,
        }
    }
}

/// What a successful deployment of a pricer asks of the host and hands
/// back: the code to instantiate with the salt, the address the instance
/// gets, the instance, and the event.
#[derive(Debug)]
pub struct DutchAuctionDeployment {
    pub address: Address,
    pub wasm_hash: Bytes32,
    pub salt: Bytes32,
    pub dutch_auction: SorobanDutchAuction,
    pub event: Event,
}

/// What a successful `deploy_lop` asks of the host and hands back: first the
/// pricer's deployment, then the protocol's code to instantiate with the
/// salt, the address the instance gets, the instance as its initialization
/// left it, and the event.
#[derive(Debug)]
pub struct LopDeployment {
    pub dutch_auction: DutchAuctionDeployment,
    pub address: Address,
    pub wasm_hash: Bytes32,
    pub salt: Bytes32,
    pub lop: SorobanLOP,
    pub event: Event,
}

/// The salt of the pricer that is deployed together with the protocol at
/// `salt`: the SHA-256 digest of `salt`.
pub open spec fn paired_auction_salt(salt: Bytes32) -> Bytes32 {
    sha256_of(salt@)
}

/// The factory's instance storage.
#[derive(Clone, Copy, Debug, PartialEq, Eq)]
pub struct SorobanLOPFactory {
    admin: Option<Address>,
    lop_wasm_hash: Option<Bytes32>,
    dutch_auction_wasm_hash: Option<Bytes32>,
}

impl SorobanLOPFactory {
    /// The admin that the factory stores, if any.
    pub closed spec fn stored_admin(&self) -> Option<Address> {
        self.admin
    }

    /// The digest of the protocol's code that the factory stores, if any.
    pub closed spec fn stored_lop_wasm_hash(&self) -> Option<Bytes32> {
        self.lop_wasm_hash
    }

    /// The digest of the pricer's code that the factory stores, if any.
    pub closed spec fn stored_dutch_auction_wasm_hash(&self) -> Option<Bytes32> {
        self.dutch_auction_wasm_hash
    }

    /// Whether the storage slot `key` is filled.
    pub open spec fn spec_has(&self, key: DataKey) -> bool {
        match key {
            DataKey::LOPWasmHash => self.stored_lop_wasm_hash() is Some,
            DataKey::DutchAuctionWasmHash => self.stored_dutch_auction_wasm_hash() is Some,
            DataKey::Admin => self.stored_admin() is Some,
        }
    }

    /// What `get_lop_address` answers in this state.
    pub open spec fn spec_get_lop_address(&self, env: &Env, salt: Bytes32) -> Result<
        Address,
        Error,
    > {
        if self.stored_lop_wasm_hash() is None {
            Err(Error::NotInitialized)
        } else {
            Ok(env.spec_contract_address(env.current_contract, salt))
        }
    }

    /// What `get_dutch_auction_address` answers in this state.
    pub open spec fn spec_get_dutch_auction_address(&self, env: &Env, salt: Bytes32) -> Result<
        Address,
        Error,
    > {
        if self.stored_dutch_auction_wasm_hash() is None {
            Err(Error::NotInitialized)
        } else {
            Ok(env.spec_contract_address(env.current_contract, salt))
        }
    }

    /// What the two updates of a digest answer in this state.
    pub open spec fn spec_update(&self, env: &Env) -> Result<(), Error> {
        match self.stored_admin() {
            None => Err(Error::NotInitialized),
            Some(admin) => if env.authorizes(admin) {
                Ok(())
            } else {
                Err(Error::NotAuthorized)
            },
        }
    }

    /// A freshly deployed factory: nothing is stored.
    pub fn new() -> (factory: SorobanLOPFactory)
        ensures
            factory.stored_admin() is None,
            factory.stored_lop_wasm_hash() is None,
            factory.stored_dutch_auction_wasm_hash() is None,
    {
        SorobanLOPFactory { admin: None, lop_wasm_hash: None, dutch_auction_wasm_hash: None }
    }

    /// Whether the storage slot `key` is filled.
    pub fn has(&self, key: &DataKey) -> (present: bool)
        ensures
            present == self.spec_has(*key),
    {
        match key {
            DataKey::LOPWasmHash => self.lop_wasm_hash.is_some(),
            DataKey::DutchAuctionWasmHash => self.dutch_auction_wasm_hash.is_some(),
            DataKey::Admin => self.admin.is_some(),
        }
    }

    /// Stores the admin and the two digests. Only the first call succeeds.
    pub fn initialize(
        &mut self,
        admin: Address,
        lop_wasm_hash: Bytes32,
        dutch_auction_wasm_hash: Bytes32,
    ) -> (r: Result<(), Error>)
        ensures
            r == if old(self).stored_admin() is Some {
                Err::<(), Error>(Error::AlreadyInitialized)
            } else {
                Ok::<(), Error>(())
            },
            r is Ok ==> final(self).stored_admin() == Some(admin),
            r is Ok ==> final(self).stored_lop_wasm_hash() == Some(lop_wasm_hash),
            r is Ok ==> final(self).stored_dutch_auction_wasm_hash() == Some(
                dutch_auction_wasm_hash,
            ),
            r is Err ==> *final(self) == *old(self),
    {
        if self.admin.is_some() {
            return Err(Error::AlreadyInitialized);
        }
        self.lop_wasm_hash = Some(lop_wasm_hash);
        self.dutch_auction_wasm_hash = Some(dutch_auction_wasm_hash);
        self.admin = Some(admin);
        Ok(())
    }

    /// Instantiates a pricer at the address that follows from the digest of
    /// `salt`, then a protocol at the address that follows from `salt`, and
    /// initializes the protocol with `admin` and the pricer's address. It
    /// fails with `NotInitialized` unless both digests are stored.
    pub fn deploy_lop(&self, env: &Env, salt: &Bytes32, admin: &Address) -> (r: Result<
        LopDeployment,
        Error,
    >)
        ensures
            r is Ok <==> self.stored_lop_wasm_hash() is Some
                && self.stored_dutch_auction_wasm_hash() is Some,
            r is Err ==> r == Err::<LopDeployment, Error>(Error::NotInitialized),
            r matches Ok(deployed) ==> {
                &&& Ok::<Address, Error>(deployed.address) == self.spec_get_lop_address(env, *salt)
                &&& Some(deployed.wasm_hash) == self.stored_lop_wasm_hash()
                &&& deployed.salt == *salt
                &&& deployed.lop.stored_admin() == Some(*admin)
                &&& deployed.lop.stored_pricer() == Some(deployed.dutch_auction.address)
                &&& forall|hash: Bytes32| deployed.lop.state_of(hash) == OrderState::Active
                &&& deployed.event == (Event::DeployLop { address: deployed.address })
                &&& Ok::<Address, Error>(deployed.dutch_auction.address)
                    == self.spec_get_dutch_auction_address(env, paired_auction_salt(*salt))
                &&& Some(deployed.dutch_auction.wasm_hash) == self.stored_dutch_auction_wasm_hash()
                &&& deployed.dutch_auction.salt == paired_auction_salt(*salt)
                &&& deployed.dutch_auction.event == (Event::DeployDutchAuction {
                    address: deployed.dutch_auction.address,
                })
            },
    {
        let lop_wasm_hash = match self.lop_wasm_hash {
            Some(hash) => hash,
            None => {
                return Err(Error::NotInitialized);
            },
        };
        let dutch_auction_salt = sha256_bytes(&bytes32_to_vec(salt));
        let dutch_auction = match self.deploy_dutch_auction_internal(env, dutch_auction_salt) {
            Ok(deployed) => deployed,
            Err(e) => {
                return Err(e);
            },
        };
        let lop_address = env.contract_address(&env.current_contract_address(), salt);
        let mut lop = SorobanLOP::new();
        match lop.initialize(*admin, dutch_auction.address) {
            Ok(_) => {},
            Err(_) => {
                return Err(Error::DeploymentFailed);
            },
        }
        Ok(
            LopDeployment {
                dutch_auction,
                address: lop_address,
                wasm_hash: lop_wasm_hash,
                salt: *salt,
                lop,
                event: Event::DeployLop { address: lop_address },
            },
        )
    }

    /// Instantiates a pricer at the address that follows from `salt`. It
    /// fails with `NotInitialized` unless the pricer's digest is stored.
    pub fn deploy_dutch_auction(&self, env: &Env, salt: &Bytes32) -> (r: Result<
        DutchAuctionDeployment,
        Error,
    >)
        ensures
            self.deployed_dutch_auction(env, *salt, r),
    {
        self.deploy_dutch_auction_internal(env, *salt)
    }

    /// Whether `r` is the outcome of deploying a pricer for `salt`.
    pub open spec fn deployed_dutch_auction(
        &self,
        env: &Env,
        salt: Bytes32,
        r: Result<DutchAuctionDeployment, Error>,
    ) -> bool {
        match r {
            Err(e) => e == Error::NotInitialized && self.stored_dutch_auction_wasm_hash() is None,
            Ok(deployed) => {
                &&& Ok::<Address, Error>(deployed.address) == self.spec_get_dutch_auction_address(
                    env,
                    salt,
                )
                &&& Some(deployed.wasm_hash) == self.stored_dutch_auction_wasm_hash()
                &&& deployed.salt == salt
                &&& deployed.event == (Event::DeployDutchAuction { address: deployed.address })
            },
        }
    }

    fn deploy_dutch_auction_internal(&self, env: &Env, salt: Bytes32) -> (r: Result<
        DutchAuctionDeployment,
        Error,
    >)
        ensures
            self.deployed_dutch_auction(env, salt, r),
    {
        let dutch_auction_wasm_hash = match self.dutch_auction_wasm_hash {
            Some(hash) => hash,
            None => {
                return Err(Error::NotInitialized);
            },
        };
        let dutch_auction_address = env.contract_address(&env.current_contract_address(), &salt);
        Ok(
            DutchAuctionDeployment {
                address: dutch_auction_address,
                wasm_hash: dutch_auction_wasm_hash,
                salt,
                dutch_auction: SorobanDutchAuction,
                event: Event::DeployDutchAuction { address: dutch_auction_address },
            },
        )
    }

    /// The address at which `deploy_lop` instantiates a protocol for `salt`.
    /// Nothing is deployed.
    pub fn get_lop_address(&self, env: &Env, salt: &Bytes32) -> (r: Result<Address, Error>)
        ensures
            r == self.spec_get_lop_address(env, *salt),
    {
        if self.lop_wasm_hash.is_none() {
            return Err(Error::NotInitialized);
        }
        Ok(env.contract_address(&env.current_contract_address(), salt))
    }

    /// The address at which `deploy_dutch_auction` instantiates a pricer for
    /// `salt`. Nothing is deployed.
    pub fn get_dutch_auction_address(&self, env: &Env, salt: &Bytes32) -> (r: Result<
        Address,
        Error,
    >)
        ensures
            r == self.spec_get_dutch_auction_address(env, *salt),
    {
        if self.dutch_auction_wasm_hash.is_none() {
            return Err(Error::NotInitialized);
        }
        Ok(env.contract_address(&env.current_contract_address(), salt))
    }

    /// Replaces the digest of the protocol's code. Needs the admin's
    /// authorization. Instances that exist are not touched.
    pub fn update_lop_wasm_hash(&mut self, env: &Env, new_wasm_hash: Bytes32) -> (r: Result<
        (),
        Error,
    >)
        ensures
            r == old(self).spec_update(env),
            r is Ok ==> final(self).stored_lop_wasm_hash() == Some(new_wasm_hash),
            r is Err ==> final(self).stored_lop_wasm_hash() == old(self).stored_lop_wasm_hash(),
            final(self).stored_dutch_auction_wasm_hash() == old(
                self,
            ).stored_dutch_auction_wasm_hash(),
            final(self).stored_admin() == old(self).stored_admin(),
    {
        let admin = match self.admin {
            Some(admin) => admin,
            None => {
                return Err(Error::NotInitialized);
            },
        };
        if !env.has_auth(&admin) {
            return Err(Error::NotAuthorized);
        }
        self.lop_wasm_hash = Some(new_wasm_hash);
        Ok(())
    }

    /// Replaces the digest of the pricer's code. Needs the admin's
    /// authorization. Instances that exist are not touched.
    pub fn update_dutch_auction_wasm_hash(&mut self, env: &Env, new_wasm_hash: Bytes32) -> (r:
        Result<(), Error>)
        ensures
            r == old(self).spec_update(env),
            r is Ok ==> final(self).stored_dutch_auction_wasm_hash() == Some(new_wasm_hash),
            r is Err ==> final(self).stored_dutch_auction_wasm_hash() == old(
                self,
            ).stored_dutch_auction_wasm_hash(),
            final(self).stored_lop_wasm_hash() == old(self).stored_lop_wasm_hash(),
            final(self).stored_admin() == old(self).stored_admin(),
    {
        let admin = match self.admin {
            Some(admin) => admin,
            None => {
                return Err(Error::NotInitialized);
            },
        };
        if !env.has_auth(&admin) {
            return Err(Error::NotAuthorized);
        }
        self.dutch_auction_wasm_hash = Some(new_wasm_hash);
        Ok(())
    }

    /// The digest of the protocol's code.
    pub fn get_lop_wasm_hash(&self) -> (r: Result<Bytes32, Error>)
        ensures
            r == match self.stored_lop_wasm_hash() {
                Some(hash) => Ok::<Bytes32, Error>(hash),
                None => Err::<Bytes32, Error>(Error::NotInitialized),
            },
    {
        match self.lop_wasm_hash {
            Some(hash) => Ok(hash),
            None => Err(Error::NotInitialized),
        }
    }

    /// The digest of the pricer's code.
    pub fn get_dutch_auction_wasm_hash(&self) -> (r: Result<Bytes32, Error>)
        ensures
            r == match self.stored_dutch_auction_wasm_hash() {
                Some(hash) => Ok::<Bytes32, Error>(hash),
                None => Err::<Bytes32, Error>(Error::NotInitialized),
            },
    {
        match self.dutch_auction_wasm_hash {
            Some(hash) => Ok(hash),
            None => Err(Error::NotInitialized),
        }
    }

    /// The admin of the factory.
    pub fn get_admin(&self) -> (r: Result<Address, Error>)
        ensures
            r == match self.stored_admin() {
                Some(admin) => Ok::<Address, Error>(admin),
                None => Err::<Address, Error>(Error::NotInitialized),
            },
    {
        match self.admin {
            Some(admin) => Ok(admin),
            None => Err(Error::NotInitialized),
        }
    }
}

/// The predicted addresses are the deployed ones. What `get_lop_address`
/// and `get_dutch_auction_address` answer for a salt depends on nothing but
/// the network, the factory's address and the salt; `deploy_lop` and
/// `deploy_dutch_auction` instantiate at exactly these addresses, and the
/// pricer that comes with a protocol stands at the address predicted for
/// the digest of the protocol's salt.
pub proof fn lemma_lop_address_prediction(
    factory: SorobanLOPFactory,
    deploy_env: Env,
    query_env: Env,
    salt: Bytes32,
)
    requires
        deploy_env.network_id == query_env.network_id,
        deploy_env.current_contract == query_env.current_contract,
    ensures
        factory.spec_get_lop_address(&deploy_env, salt) == factory.spec_get_lop_address(
            &query_env,
            salt,
        ),
        factory.spec_get_dutch_auction_address(&deploy_env, salt)
            == factory.spec_get_dutch_auction_address(&query_env, salt),
        factory.spec_get_dutch_auction_address(&deploy_env, paired_auction_salt(salt))
            == factory.spec_get_dutch_auction_address(&query_env, paired_auction_salt(salt)),
{
}

} // verus!
