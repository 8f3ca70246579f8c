//! The ledger host as the contracts see it: principals, the facts of one
//! invocation, hashing, address derivation, and the effects a contract asks
//! the host to carry out.

use soroban_sdk::address_payload::AddressPayload;
use soroban_sdk::testutils::EnvTestConfig;
use soroban_sdk::testutils::Ledger;
use vstd::prelude::*;

verus! {

/// A 32-byte value: a digest, a salt, a preimage or a key.
pub type Bytes32 = [u8; 32];

/// Compares two 32-byte values byte for byte.
pub fn bytes_eq(a: &Bytes32, b: &Bytes32) -> (same: bool)
    ensures
        same == (*a == *b),
{
    let mut i: usize = 0;
    while i < 32
        invariant
            i <= 32,
            forall|j: int| 0 <= j < i ==> a@[j] == b@[j],
        decreases 32 - i,
    {
        if a[i] != b[i] {
            return false;
        }
        i += 1;
    }
    proof {
        assert(a@ =~= b@);
        assert(*a =~= *b);
    }
    true
}

/// The bytes of a 32-byte value as a vector.
pub fn bytes32_to_vec(a: &Bytes32) -> (v: Vec<u8>)
    ensures
        v@ == a@,
{
    let mut v: Vec<u8> = Vec::new();
    let mut i: usize = 0;
    while i < 32
        invariant
            i <= 32,
            v@ == a@.subrange(0, i as int),
        decreases 32 - i,
    {
        v.push(a[i]);
        proof {
            assert(v@ =~= a@.subrange(0, i + 1));
        }
        i += 1;
    }
    proof {
        assert(v@ =~= a@);
    }
    v
}

/// The two kinds of principal the ledger knows.
#[derive(Clone, Copy, Debug, PartialEq, Eq, Structural)]
pub enum AddressKind {
    /// An account, named by its Ed25519 public key.
    Account,
    /// A contract instance, named by its contract id.
    Contract,
}

/// A principal on the ledger: an account or a contract instance.
#[derive(Clone, Copy, Debug)]
pub struct Address {
    pub kind: AddressKind,
    pub id: Bytes32,
}

impl PartialEq for Address {
    fn eq(&self, other: &Address) -> (same: bool) {
        self.kind == other.kind && bytes_eq(&self.id, &other.id)
    }
}

impl Eq for Address {

}

impl vstd::std_specs::cmp::PartialEqSpecImpl for Address {
    open spec fn obeys_eq_spec() -> bool {
        true
    }

    open spec fn eq_spec(&self, other: &Address) -> bool {
        *self == *other
    }
}

impl Address {
    /// The account with the given public key.
    pub fn account(id: Bytes32) -> (a: Address)
        ensures
            a == (Address { kind: AddressKind::Account, id }),
    {
        Address { kind: AddressKind::Account, id }
    }

    /// The contract instance with the given contract id.
    pub fn contract(id: Bytes32) -> (a: Address)
        ensures
            a == (Address { kind: AddressKind::Contract, id }),
    {
        Address { kind: AddressKind::Contract, id }
    }

    /// Whether the principal is a contract instance.
    pub open spec fn is_contract(&self) -> bool {
        self.kind == AddressKind::Contract
    }
}

/// The SHA-256 digest of a byte string, as the host computes it.
pub uninterp spec fn sha256_digest(data: Seq<u8>) -> Seq<u8>;

/// The id of the contract that `deployer` creates with `salt` on the network
/// `network_id`, as the host derives it. The deployer is given by its kind
/// and its 32 bytes.
pub uninterp spec fn derived_contract_id(
    network_id: Seq<u8>,
    deployer_is_contract: bool,
    deployer_id: Seq<u8>,
    salt: Seq<u8>,
) -> Seq<u8>;

/// The longest input that is handed to the host for hashing. The host meters
/// every byte it hashes; an input of this length stays far within what one
/// invocation may spend.
pub const MAX_HASH_INPUT: usize = 65536;

/// Calls `soroban_sdk::crypto::Crypto::sha256` on `data` in a fresh host. The
/// contract only names the digest: it is the SHA-256 of the bytes handed in,
/// and nothing more is claimed of it than that it has 32 bytes, which its
/// type says. The host stops an invocation that hashes more than its budget
/// allows, so long inputs are left out.
#[verifier::external_body]
pub(crate) fn sha256(data: &Vec<u8>) -> (digest: Bytes32)
    requires
        data@.len() <= MAX_HASH_INPUT,
    ensures
        digest@ == sha256_digest(data@),
{
    let env = soroban_sdk::Env::new_with_config(EnvTestConfig { capture_snapshot_at_drop: false });
    let bytes = soroban_sdk::Bytes::from_slice(&env, data.as_slice());
    env.crypto().sha256(&bytes).to_array()
}

/// Calls `soroban_sdk::deploy::DeployerWithAddress::deployed_address` for
/// `deployer` and `salt` in a fresh host whose ledger carries `network_id`.
/// The host hashes exactly these three values and always answers with a
/// contract address, so the contract claims `Some` of the named id.
#[verifier::external_body]
pub(crate) fn deployed_contract_id(
    network_id: &Bytes32,
    deployer: &Address,
    salt: &Bytes32,
) -> (id: Option<Bytes32>)
    ensures
        id is Some,
        id->0@ == derived_contract_id(network_id@, deployer.is_contract(), deployer.id@, salt@),
{
    let env = soroban_sdk::Env::new_with_config(EnvTestConfig { capture_snapshot_at_drop: false });
    env.ledger().set_network_id(*network_id);
    let key = soroban_sdk::BytesN::from_array(&env, &deployer.id);
    let payload = match deployer.kind {
        AddressKind::Account => AddressPayload::AccountIdPublicKeyEd25519(key),
        AddressKind::Contract => AddressPayload::ContractIdHash(key),
    };
    let salt = soroban_sdk::BytesN::from_array(&env, salt);
    let derived = env.deployer().with_address(payload.to_address(&env), salt).deployed_address();
    match derived.to_payload() {
        Some(AddressPayload::ContractIdHash(hash)) => Some(hash.to_array()),
        _ => None,
    }
}

/// What the host tells a contract about the invocation it is running: the
/// ledger's time and network, the contract's own address, and the principals
/// whose authorization the host has verified for this invocation.
#[derive(Debug)]
pub struct Env {
    pub timestamp: u64,
    pub network_id: Bytes32,
    pub current_contract: Address,
    pub auths: Vec<Address>,
}

impl Env {
    /// An invocation of `current_contract` at time `timestamp` on the network
    /// `network_id`, with no principal authorized yet.
    pub fn new(timestamp: u64, network_id: Bytes32, current_contract: Address) -> (env: Env)
        ensures
            env.timestamp == timestamp,
            env.network_id == network_id,
            env.current_contract == current_contract,
            env.auths@ == Seq::<Address>::empty(),
    {
        Env { timestamp, network_id, current_contract, auths: Vec::new() }
    }

    /// Whether `who` has authorized this invocation.
    pub open spec fn authorizes(&self, who: Address) -> bool {
        self.auths@.contains(who)
    }

    /// Records that the host has verified `who`'s authorization.
    pub fn authorize(&mut self, who: Address)
        ensures
            final(self).timestamp == old(self).timestamp,
            final(self).network_id == old(self).network_id,
            final(self).current_contract == old(self).current_contract,
            final(self).auths@ == old(self).auths@.push(who),
            final(self).authorizes(who),
            forall|a: Address| old(self).authorizes(a) ==> final(self).authorizes(a),
    {
        self.auths.push(who);
        proof {
            let after = self.auths@;
            assert(after[after.len() - 1] == who);
            assert forall|a: Address| old(self).authorizes(a) implies self.authorizes(a) by {
                let i = choose|i: int| 0 <= i < old(self).auths@.len() && old(self).auths@[i] == a;
                assert(after[i] == a);
            }
        }
    }

    /// The ledger's current time, in seconds.
    pub fn ledger_timestamp(&self) -> (now: u64)
        ensures
            now == self.timestamp,
    {
        self.timestamp
    }

    /// The address of the contract that is running.
    pub fn current_contract_address(&self) -> (me: Address)
        ensures
            me == self.current_contract,
    {
        self.current_contract
    }

    /// Whether `who` has authorized this invocation.
    pub fn has_auth(&self, who: &Address) -> (ok: bool)
        ensures
            ok == self.authorizes(*who),
    {
        let mut i: usize = 0;
        while i < self.auths.len()
            invariant
                i <= self.auths.len(),
                forall|j: int| 0 <= j < i ==> self.auths@[j] != *who,
            decreases self.auths.len() - i,
        {
            if self.auths[i] == *who {
                return true;
            }
            i += 1;
        }
        false
    }

    /// The address of the contract that `deployer` creates with `salt` on this
    /// network.
    pub open spec fn spec_contract_address(&self, deployer: Address, salt: Bytes32) -> Address {
        contract_address_on(self.network_id, deployer, salt)
    }

    /// The address of the contract that `deployer` creates with `salt` on this
    /// network. Deriving it deploys nothing.
    pub fn contract_address(&self, deployer: &Address, salt: &Bytes32) -> (addr: Address)
        ensures
            addr == self.spec_contract_address(*deployer, *salt),
            addr.kind == AddressKind::Contract,
            addr.id@ == derived_contract_id(
                self.network_id@,
                deployer.is_contract(),
                deployer.id@,
                salt@,
            ),
    {
        match deployed_contract_id(&self.network_id, deployer, salt) {
            Some(id) => {
                proof {
                    let want = contract_address_on(self.network_id, *deployer, *salt);
                    assert(id@ =~= want.id@);
                    assert(id =~= want.id);
                }
                Address::contract(id)
            },
            None => unreached(),
        }
    }
}

/// The 32-byte value with the given bytes. Of a sequence of another length
/// it says nothing.
pub open spec fn bytes32_of(bytes: Seq<u8>) -> Bytes32
    recommends
        bytes.len() == 32,
{
    choose|b: Bytes32| b@ == bytes
}

/// The address of the contract that `deployer` creates with `salt` on the
/// network `network_id`.
pub open spec fn contract_address_on(
    network_id: Bytes32,
    deployer: Address,
    salt: Bytes32,
) -> Address {
    Address {
        kind: AddressKind::Contract,
        id: bytes32_of(
            derived_contract_id(network_id@, deployer.is_contract(), deployer.id@, salt@),
        ),
    }
}

/// The digest of `data` as a 32-byte value.
pub open spec fn sha256_of(data: Seq<u8>) -> Bytes32 {
    bytes32_of(sha256_digest(data))
}

/// Hashes `data` with SHA-256.
pub fn sha256_bytes(data: &Vec<u8>) -> (digest: Bytes32)
    requires
        data@.len() <= MAX_HASH_INPUT,
    ensures
        digest == sha256_of(data@),
        digest@ == sha256_digest(data@),
{
    let digest = sha256(data);
    proof {
        let want = sha256_of(data@);
        assert(digest@ == sha256_digest(data@));
        assert(want@ == sha256_digest(data@));
        assert(digest@ =~= want@);
        assert(digest =~= want);
    }
    digest
}

/// A request to the token contract at `token` to move `amount` from `from`
/// to `to`.
#[derive(Clone, Copy, Debug, PartialEq, Eq)]
pub struct Transfer {
    pub token: Address,
    pub from: Address,
    pub to: Address,
    pub amount: i128,
}

/// Token holdings, by token contract and holder. A pair that is absent holds
/// nothing.
pub type Balances = Map<(Address, Address), int>;

/// What `holder` holds of `token`.
pub open spec fn balance_of(balances: Balances, token: Address, holder: Address) -> int {
    if balances.dom().contains((token, holder)) {
        balances[(token, holder)]
    } else {
        0
    }
}

impl Transfer {
    /// Whether a token contract carries the transfer out: the amount is not
    /// negative and the sender holds at least as much.
    pub open spec fn succeeds_on(&self, balances: Balances) -> bool {
        0 <= self.amount <= balance_of(balances, self.token, self.from)
    }

    /// The holdings after the transfer: the sender is debited, then the
    /// recipient is credited.
    pub open spec fn apply(&self, balances: Balances) -> Balances {
        let debited = balances.insert(
            (self.token, self.from),
            balance_of(balances, self.token, self.from) - self.amount,
        );
        debited.insert((self.token, self.to), balance_of(debited, self.token, self.to) + self.amount)
    }
}

/// An event that a contract publishes: a topic and its data.
#[derive(Clone, Copy, Debug, PartialEq, Eq)]
pub enum Event {
    Withdraw { taker: Address },
    Cancel { maker: Address },
    OrderFilled { order_hash: Bytes32, making_amount: i128, taking_amount: i128 },
    OrderCancelled { order_hash: Bytes32 },
    DeployEscrow { address: Address },
    DeployLop { address: Address },
    DeployDutchAuction { address: Address },
}

impl Event {
    /// The topic under which the event is published.
    pub open spec fn spec_topic(&self) -> Seq<char> {
        match self {
            Event::Withdraw { .. } => "withdraw"@,
            Event::Cancel { .. } => "cancel"@,
            Event::OrderFilled { .. } => "order_filled"@,
            Event::OrderCancelled { .. } => "order_cancelled"@,
            Event::DeployEscrow { .. } => "deploy_escrow"@,
            Event::DeployLop { .. } => "deploy_lop"@,
            Event::DeployDutchAuction { .. } => "deploy_dutch_auction"@,
        }
    }

    /// The topic under which the event is published.
    pub fn topic(&self) -> (t: &'static str)
        ensures
            t@ == self.spec_topic(),
    {
        match self {
            Event::Withdraw { .. } => "withdraw",
            Event::Cancel { .. } => "cancel",
            Event::OrderFilled { .. } => "order_filled",
            Event::OrderCancelled { .. } => "order_cancelled",
            Event::DeployEscrow { .. } => "deploy_escrow",
            Event::DeployLop { .. } => "deploy_lop",
            Event::DeployDutchAuction { .. } => "deploy_dutch_auction",
        }
    }
}

} // verus!
