//! The limit-order protocol: it validates an order, prices it (through the
//! Dutch-auction pricer where the order asks for it), settles it with two
//! transfers, and remembers under the order's fingerprint that it was filled
//! or cancelled.

use crate::dutch_auction::taking_amount_result;
use crate::dutch_auction::SorobanDutchAuction;
use crate::encoding::i128_be_bytes;
use crate::encoding::push_i128_be;
use crate::encoding::push_u64_be;
use crate::encoding::u64_be_bytes;
use crate::host::balance_of;
use crate::host::bytes_eq;
use crate::host::sha256_bytes;
use crate::host::sha256_of;
use crate::host::Address;
use crate::host::Balances;
use crate::host::Bytes32;
use crate::host::Env;
use crate::host::Event;
use crate::host::Transfer;
use vstd::prelude::*;

verus! {

/// The slots of the protocol's storage: one per order fingerprint in
/// persistent storage, two in instance storage.
#[derive(Clone, Copy, Debug, PartialEq, Eq)]
pub enum DataKey {
    OrderState(Bytes32),
    DutchAuctionContract,
    Admin,
}

/// An order as its maker wrote it. The protocol stores none of it, only what
/// became of its fingerprint.
#[derive(Clone, Copy, Debug, PartialEq, Eq)]
pub struct Order {
    pub salt: u64,
    pub maker: Address,
    pub receiver: Address,
    pub maker_asset: Address,
    pub taker_asset: Address,
    pub making_amount: i128,
    pub taking_amount: i128,
    pub maker_traits: u64,
    pub auction_start_time: u64,
    pub auction_end_time: u64,
    pub taking_amount_start: i128,
    pub taking_amount_end: i128,
}

#[derive(Clone, Copy, Debug, Eq, PartialEq, Structural)]
pub enum OrderState {
    Active,
    Filled,
    Cancelled,
}

#[derive(Copy, Clone, Debug, Eq, PartialEq, PartialOrd, Ord, Structural)]
pub enum Error {
    NotInitialized,
    AlreadyInitialized,
    NotAuthorized,
    OrderAlreadyFilled,
    OrderCancelled,
    InsufficientBalance,
    InvalidOrder,
    DutchAuctionError,
    TransferFailed,
}

impl Error {
    /// The number under which the ledger reports the error.
    pub fn code(&self) -> (c: u32)
        ensures
            c == match *self {
                Error::NotInitialized => 1u32,
                Error::AlreadyInitialized => 2u32,
                Error::NotAuthorized => 3u32,
                Error::OrderAlreadyFilled => 4u32,
                Error::OrderCancelled => 5u32,
                Error::InsufficientBalance => 6u32,
                Error::InvalidOrder => 7u32,
                Error::DutchAuctionError => 8u32,
                Error::TransferFailed => 9u32,
            },
    {
        match self {
            Error::NotInitialized => 1,
            Error::AlreadyInitialized => 2,
            Error::NotAuthorized => 3,
            Error::OrderAlreadyFilled => 4,
            Error::OrderCancelled => 5,
            Error::InsufficientBalance => 6,
            Error::InvalidOrder => 7,
            Error::DutchAuctionError => 8,
            Error::TransferFailed => 9,
        }
    }
}

/// The lease of a stored order state, in ledgers. Whenever a state is
/// stored, the host is asked to keep the entry alive for this long if less
/// is left.
pub const ORDER_STATE_LEASE: u32 = 100;

/// A request to the host to keep a storage entry alive: where fewer than
/// `threshold` ledgers are left to the entry under `key`, its lease is
/// extended to `extend_to` ledgers.
#[derive(Clone, Copy, Debug, PartialEq, Eq)]
pub struct LeaseExtension {
    pub key: DataKey,
    pub threshold: u32,
    pub extend_to: u32,
}

/// The lease that is asked for the state of the order with the fingerprint
/// `order_hash`.
pub open spec fn order_state_lease(order_hash: Bytes32) -> LeaseExtension {
    LeaseExtension {
        key: DataKey::OrderState(order_hash),
        threshold: ORDER_STATE_LEASE,
        extend_to: ORDER_STATE_LEASE,
    }
}

/// Bit 0 of `maker_traits`: the taking amount follows a Dutch auction.
pub const IS_DUTCH_AUCTION: u64 = 1;

/// Bit 1 of `maker_traits`: reserved, ignored.
pub const UNWRAP_WETH: u64 = 2;

/// Bit 2 of `maker_traits`: reserved, ignored.
pub const ALLOW_PARTIAL_FILLS: u64 = 4;

impl Order {
    /// Whether the order's taking amount follows a Dutch auction.
    pub open spec fn spec_is_dutch_auction(&self) -> bool {
        self.maker_traits & IS_DUTCH_AUCTION != 0
    }

    /// The bytes that identify the order: salt, making amount, taking amount
    /// and maker traits, each big-endian, in this order.
    pub open spec fn preimage(&self) -> Seq<u8> {
        u64_be_bytes(self.salt) + i128_be_bytes(self.making_amount) + i128_be_bytes(
            self.taking_amount,
        ) + u64_be_bytes(self.maker_traits)
    }

    /// The order's fingerprint: the SHA-256 digest of its preimage.
    pub open spec fn spec_hash(&self) -> Bytes32 {
        sha256_of(self.preimage())
    }
}

/// What a successful fill asks of the host: the maker's leg, then the
/// taker's leg, then the lease of the stored state, then the event.
#[derive(Clone, Copy, Debug, PartialEq, Eq)]
pub struct Settlement {
    pub maker_transfer: Transfer,
    pub taker_transfer: Transfer,
    pub lease: LeaseExtension,
    pub event: Event,
}

/// What a successful cancellation asks of the host: the lease of the stored
/// state, then the event.
#[derive(Clone, Copy, Debug, PartialEq, Eq)]
pub struct Cancellation {
    pub lease: LeaseExtension,
    pub event: Event,
}

/// Who receives the maker's asset: the taker where the order names the
/// protocol's own address as receiver, else the receiver it names.
pub open spec fn receiver_of(order: Order, taker: Address, protocol: Address) -> Address {
    if order.receiver == protocol {
        taker
    } else {
        order.receiver
    }
}

/// The settlement of `order` with `taker` by the protocol at `protocol`, for
/// the taking amount `taking_amount`.
pub open spec fn settlement_of(
    order: Order,
    taker: Address,
    protocol: Address,
    taking_amount: i128,
) -> Settlement {
    Settlement {
        maker_transfer: Transfer {
            token: order.maker_asset,
            from: order.maker,
            to: receiver_of(order, taker, protocol),
            amount: order.making_amount,
        },
        taker_transfer: Transfer {
            token: order.taker_asset,
            from: taker,
            to: order.maker,
            amount: taking_amount,
        },
        lease: order_state_lease(order.spec_hash()),
        event: Event::OrderFilled {
            order_hash: order.spec_hash(),
            making_amount: order.making_amount,
            taking_amount,
        },
    }
}

/// The cancellation of `order`.
pub open spec fn cancellation_of(order: Order) -> Cancellation {
    Cancellation {
        lease: order_state_lease(order.spec_hash()),
        event: Event::OrderCancelled { order_hash: order.spec_hash() },
    }
}

/// What is stored under one fingerprint.
#[derive(Clone, Copy, Debug, PartialEq, Eq)]
struct OrderRecord {
    hash: Bytes32,
    state: OrderState,
}

/// The state stored in `records` under `hash`; `Active` where there is none.
spec fn lookup(records: Seq<OrderRecord>, hash: Bytes32) -> OrderState {
    if exists|i: int| 0 <= i < records.len() && records[i].hash == hash {
        let i = choose|i: int| 0 <= i < records.len() && records[i].hash == hash;
        records[i].state
    } else {
        OrderState::Active
    }
}

/// No fingerprint has two records.
spec fn distinct(records: Seq<OrderRecord>) -> bool {
    forall|i: int, j: int|
        0 <= i < j < records.len() ==> (#[trigger] records[i]).hash != (#[trigger] records[j]).hash
}

proof fn lemma_lookup_found(records: Seq<OrderRecord>, i: int)
    requires
        distinct(records),
        0 <= i < records.len(),
    ensures
        lookup(records, records[i].hash) == records[i].state,
{
    let hash = records[i].hash;
    let c = choose|c: int| 0 <= c < records.len() && records[c].hash == hash;
    if c < i {
        assert(records[c].hash != records[i].hash);
    } else if i < c {
        assert(records[i].hash != records[c].hash);
    }
}

proof fn lemma_lookup_after_push(records: Seq<OrderRecord>, record: OrderRecord, hash: Bytes32)
    requires
        distinct(records),
        forall|i: int| 0 <= i < records.len() ==> (#[trigger] records[i]).hash != record.hash,
    ensures
        distinct(records.push(record)),
        lookup(records.push(record), hash) == if hash == record.hash {
            record.state
        } else {
            lookup(records, hash)
        },
{
    let after = records.push(record);
    assert(distinct(after)) by {
        assert forall|i: int, j: int| 0 <= i < j < after.len() implies (#[trigger] after[i]).hash != (
        #[trigger] after[j]).hash by {
            if j < records.len() {
                assert(records[i].hash != records[j].hash);
            } else {
                assert(records[i].hash != record.hash);
            }
        }
    }
    if hash == record.hash {
        assert(after[records.len() as int] == record);
        lemma_lookup_found(after, records.len() as int);
    } else if exists|i: int| 0 <= i < records.len() && records[i].hash == hash {
        let i = choose|i: int| 0 <= i < records.len() && records[i].hash == hash;
        assert(after[i] == records[i]);
        lemma_lookup_found(records, i);
        lemma_lookup_found(after, i);
    } else {
        assert forall|i: int| 0 <= i < after.len() implies after[i].hash != hash by {
            if i < records.len() {
                assert(after[i] == records[i]);
            }
        }
    }
}

/// One instance of the protocol: its instance storage and the states of the
/// orders it has seen come to an end.
#[derive(Debug)]
pub struct SorobanLOP {
    admin: Option<Address>,
    dutch_auction_contract: Option<Address>,
    order_states: Vec<OrderRecord>,
}

impl SorobanLOP {
    #[verifier::type_invariant]
    spec fn well_formed(self) -> bool {
        &&& distinct(self.order_states@)
        &&& forall|i: int|
            0 <= i < self.order_states@.len() ==> (#[trigger] self.order_states@[i]).state
                != OrderState::Active
    }

    /// The admin that the instance stores, if it has been initialized.
    pub closed spec fn stored_admin(&self) -> Option<Address> {
        self.admin
    }

    /// The pricer's address that the instance stores, if it has been
    /// initialized.
    pub closed spec fn stored_pricer(&self) -> Option<Address> {
        self.dutch_auction_contract
    }

    /// The state of the order with the fingerprint `hash`: `Active` until a
    /// fill or a cancellation has been stored for it.
    pub closed spec fn state_of(&self, hash: Bytes32) -> OrderState {
        lookup(self.order_states@, hash)
    }

    /// Whether the storage slot `key` is filled.
    pub open spec fn spec_has(&self, key: DataKey) -> bool {
        match key {
            DataKey::OrderState(hash) => self.state_of(hash) != OrderState::Active,
            DataKey::DutchAuctionContract => self.stored_pricer() is Some,
            DataKey::Admin => self.stored_admin() is Some,
        }
    }

    /// Whether `later` can be a later state of this instance: an order that
    /// was filled or cancelled stays so.
    pub open spec fn evolves_to(&self, later: &SorobanLOP) -> bool {
        forall|hash: Bytes32|
            #![trigger later.state_of(hash)]
            self.state_of(hash) != OrderState::Active ==> later.state_of(hash) == self.state_of(
                hash,
            )
    }

    /// Whether the order with the fingerprint `hash` came to its end between
    /// this state and `later`: it was active and is no more.
    pub open spec fn commits(&self, later: &SorobanLOP, hash: Bytes32) -> bool {
        self.state_of(hash) == OrderState::Active && later.state_of(hash) != OrderState::Active
    }

    /// What `get_current_price` answers in this state.
    pub open spec fn spec_current_price(&self, env: &Env, order: Order) -> Result<i128, Error> {
        if !order.spec_is_dutch_auction() {
            Ok(order.taking_amount)
        } else if self.stored_pricer() is None {
            Err(Error::NotInitialized)
        } else {
            match taking_amount_result(
                env.timestamp,
                order.taking_amount_start,
                order.taking_amount_end,
                order.auction_start_time,
                order.auction_end_time,
            ) {
                Ok(price) => Ok(price),
                Err(_) => Err(Error::DutchAuctionError),
            }
        }
    }

    /// What `fill_order` answers in this state.
    pub open spec fn spec_fill_order(&self, env: &Env, order: Order, taker: Address) -> Result<
        Settlement,
        Error,
    > {
        if !env.authorizes(taker) {
            Err(Error::NotAuthorized)
        } else if self.state_of(order.spec_hash()) == OrderState::Filled {
            Err(Error::OrderAlreadyFilled)
        } else if self.state_of(order.spec_hash()) == OrderState::Cancelled {
            Err(Error::OrderCancelled)
        } else if !env.authorizes(order.maker) {
            Err(Error::NotAuthorized)
        } else {
            match self.spec_current_price(env, order) {
                Err(e) => Err(e),
                Ok(taking_amount) => if order.making_amount <= 0 || taking_amount <= 0 {
                    Err(Error::InvalidOrder)
                } else {
                    Ok(settlement_of(order, taker, env.current_contract, taking_amount))
                },
            }
        }
    }

    /// What `cancel_order` answers in this state.
    pub open spec fn spec_cancel_order(&self, env: &Env, order: Order) -> Result<
        Cancellation,
        Error,
    > {
        if !env.authorizes(order.maker) {
            Err(Error::NotAuthorized)
        } else if self.state_of(order.spec_hash()) == OrderState::Filled {
            Err(Error::OrderAlreadyFilled)
        } else if self.state_of(order.spec_hash()) == OrderState::Cancelled {
            Err(Error::OrderCancelled)
        } else {
            Ok(cancellation_of(order))
        }
    }

    /// A freshly deployed instance: nothing is stored, every order is active.
    pub fn new() -> (lop: SorobanLOP)
        ensures
            lop.stored_admin() is None,
            lop.stored_pricer() is None,
            forall|hash: Bytes32| lop.state_of(hash) == OrderState::Active,
    {
        SorobanLOP { admin: None, dutch_auction_contract: None, order_states: Vec::new() }
    }

    /// An instance as it stands in storage when `state` is what is stored
    /// for the order with the fingerprint `order_hash`, and nothing else is
    /// stored.
    pub fn with_order_state(order_hash: Bytes32, state: OrderState) -> (lop: SorobanLOP)
        ensures
            lop.stored_admin() is None,
            lop.stored_pricer() is None,
            lop.state_of(order_hash) == state,
            forall|other: Bytes32|
                other != order_hash ==> #[trigger] lop.state_of(other) == OrderState::Active,
    {
        let mut lop = SorobanLOP::new();
        match state {
            OrderState::Active => {},
            OrderState::Filled => {
                lop.store_state(order_hash, OrderState::Filled);
            },
            OrderState::Cancelled => {
                lop.store_state(order_hash, OrderState::Cancelled);
            },
        }
        lop
    }

    /// Whether the storage slot `key` is filled.
    pub fn has(&self, key: &DataKey) -> (present: bool)
        ensures
            present == self.spec_has(*key),
    {
        match key {
            DataKey::OrderState(hash) => match self.load_state(hash) {
                OrderState::Active => false,
                _ => true,
            },
            DataKey::DutchAuctionContract => self.dutch_auction_contract.is_some(),
            DataKey::Admin => self.admin.is_some(),
        }
    }

    /// The state stored under `hash`, `Active` where there is none.
    fn load_state(&self, hash: &Bytes32) -> (state: OrderState)
        ensures
            state == self.state_of(*hash),
    {
        proof {
            use_type_invariant(self);
        }
        let mut i: usize = 0;
        while i < self.order_states.len()
            invariant
                i <= self.order_states.len(),
                distinct(self.order_states@),
                forall|j: int| 0 <= j < i ==> self.order_states@[j].hash != *hash,
            decreases self.order_states.len() - i,
        {
            if bytes_eq(&self.order_states[i].hash, hash) {
                proof {
                    lemma_lookup_found(self.order_states@, i as int);
                }
                return self.order_states[i].state;
            }
            i += 1;
        }
        OrderState::Active
    }

    /// Stores the end `state` of the order with the fingerprint `hash`.
    fn store_state(&mut self, hash: Bytes32, state: OrderState)
        requires
            old(self).state_of(hash) == OrderState::Active,
            state != OrderState::Active,
        ensures
            final(self).state_of(hash) == state,
            forall|other: Bytes32|
                other != hash ==> #[trigger] final(self).state_of(other) == old(self).state_of(
                    other,
                ),
            final(self).stored_admin() == old(self).stored_admin(),
            final(self).stored_pricer() == old(self).stored_pricer(),
    {
        proof {
            use_type_invariant(&*self);
        }
        let ghost before = self.order_states@;
        let record = OrderRecord { hash, state };
        proof {
            assert forall|i: int| 0 <= i < before.len() implies (#[trigger] before[i]).hash
                != hash by {
                if before[i].hash == hash {
                    lemma_lookup_found(before, i);
                }
            }
            lemma_lookup_after_push(before, record, hash);
            assert forall|other: Bytes32| other != hash implies lookup(before.push(record), other)
                == lookup(before, other) by {
                lemma_lookup_after_push(before, record, other);
            }
            assert forall|i: int| 0 <= i < before.push(record).len() implies (
            #[trigger] before.push(record)[i]).state != OrderState::Active by {
                if i < before.len() {
                    assert(before.push(record)[i] == before[i]);
                }
            }
        }
        let mut records: Vec<OrderRecord> = Vec::new();
        core::mem::swap(&mut self.order_states, &mut records);
        records.push(record);
        core::mem::swap(&mut self.order_states, &mut records);
    }
    /// Stores the admin and the pricer's address. Only the first call
    /// succeeds.
    pub fn initialize(&mut self, admin: Address, dutch_auction_contract: Address) -> (r: Result<
        (),
        Error,
    >)
        ensures
            r == if old(self).stored_admin() is Some {
                Err::<(), Error>(Error::AlreadyInitialized)
            } else {
                Ok::<(), Error>(())
            },
            r is Ok ==> final(self).stored_admin() == Some(admin) && final(self).stored_pricer()
                == Some(dutch_auction_contract),
            r is Err ==> *final(self) == *old(self),
            forall|hash: Bytes32| final(self).state_of(hash) == old(self).state_of(hash),
            old(self).evolves_to(final(self)),
    {
        proof {
            use_type_invariant(&*self);
        }
        if self.admin.is_some() {
            return Err(Error::AlreadyInitialized);
        }
        self.admin = Some(admin);
        self.dutch_auction_contract = Some(dutch_auction_contract);
        Ok(())
    }

    /// Fills `order` for `taker`. Tested in this order: the taker's
    /// authorization, the order's state, the maker's authorization, the
    /// price, the two amounts. On success the order is stored as filled and
    /// the settlement is handed back for the host to carry out; on failure
    /// nothing changes.
    pub fn fill_order(&mut self, env: &Env, order: &Order, taker: &Address) -> (r: Result<
        Settlement,
        Error,
    >)
        ensures
            r == old(self).spec_fill_order(env, *order, *taker),
            r is Ok ==> old(self).commits(final(self), order.spec_hash()) && final(self).state_of(
                order.spec_hash(),
            ) == OrderState::Filled,
            r is Ok ==> r->Ok_0.maker_transfer.amount > 0 && r->Ok_0.taker_transfer.amount > 0,
            r is Err ==> *final(self) == *old(self),
            forall|other: Bytes32|
                other != order.spec_hash() ==> #[trigger] final(self).state_of(other) == old(
                    self,
                ).state_of(other),
            final(self).stored_admin() == old(self).stored_admin(),
            final(self).stored_pricer() == old(self).stored_pricer(),
            old(self).evolves_to(final(self)),
    {
        if !env.has_auth(taker) {
            return Err(Error::NotAuthorized);
        }
        let order_hash = Self::calculate_order_hash(order);
        match self.load_state(&order_hash) {
            OrderState::Filled => {
                return Err(Error::OrderAlreadyFilled);
            },
            OrderState::Cancelled => {
                return Err(Error::OrderCancelled);
            },
            OrderState::Active => {},
        }
        if !env.has_auth(&order.maker) {
            return Err(Error::NotAuthorized);
        }
        let actual_making_amount = order.making_amount;
        let actual_taking_amount = match self.get_current_price(env, order) {
            Ok(price) => price,
            Err(e) => {
                return Err(e);
            },
        };
        if actual_making_amount <= 0 || actual_taking_amount <= 0 {
            return Err(Error::InvalidOrder);
        }
        let receiver = if order.receiver == env.current_contract_address() {
            *taker
        } else {
            order.receiver
        };
        let maker_transfer = Transfer {
            token: order.maker_asset,
            from: order.maker,
            to: receiver,
            amount: actual_making_amount,
        };
        let taker_transfer = Transfer {
            token: order.taker_asset,
            from: *taker,
            to: order.maker,
            amount: actual_taking_amount,
        };
        self.store_state(order_hash, OrderState::Filled);
        Ok(
            Settlement {
                maker_transfer,
                taker_transfer,
                lease: Self::lease_of(order_hash),
                event: Event::OrderFilled {
                    order_hash,
                    making_amount: actual_making_amount,
                    taking_amount: actual_taking_amount,
                },
            },
        )
    }

    /// The lease that is asked for the state stored under `order_hash`.
    fn lease_of(order_hash: Bytes32) -> (lease: LeaseExtension)
        ensures
            lease == order_state_lease(order_hash),
    {
        LeaseExtension {
            key: DataKey::OrderState(order_hash),
            threshold: ORDER_STATE_LEASE,
            extend_to: ORDER_STATE_LEASE,
        }
    }

    /// Cancels `order`. Tested in this order: the maker's authorization, the
    /// order's state. On success the order is stored as cancelled, and the
    /// lease and the event are handed back for the host to carry out; on
    /// failure nothing changes.
    pub fn cancel_order(&mut self, env: &Env, order: &Order) -> (r: Result<Cancellation, Error>)
        ensures
            r == old(self).spec_cancel_order(env, *order),
            r is Ok ==> old(self).commits(final(self), order.spec_hash()) && final(self).state_of(
                order.spec_hash(),
            ) == OrderState::Cancelled,
            r is Err ==> *final(self) == *old(self),
            forall|other: Bytes32|
                other != order.spec_hash() ==> #[trigger] final(self).state_of(other) == old(
                    self,
                ).state_of(other),
            final(self).stored_admin() == old(self).stored_admin(),
            final(self).stored_pricer() == old(self).stored_pricer(),
            old(self).evolves_to(final(self)),
    {
        if !env.has_auth(&order.maker) {
            return Err(Error::NotAuthorized);
        }
        let order_hash = Self::calculate_order_hash(order);
        match self.load_state(&order_hash) {
            OrderState::Filled => {
                return Err(Error::OrderAlreadyFilled);
            },
            OrderState::Cancelled => {
                return Err(Error::OrderCancelled);
            },
            OrderState::Active => {},
        }
        self.store_state(order_hash, OrderState::Cancelled);
        Ok(
            Cancellation {
                lease: Self::lease_of(order_hash),
                event: Event::OrderCancelled { order_hash },
            },
        )
    }

    /// The state of `order`: `Active` unless it has been filled or
    /// cancelled.
    pub fn get_order_state(&self, order: &Order) -> (state: OrderState)
        ensures
            state == self.state_of(order.spec_hash()),
    {
        let order_hash = Self::calculate_order_hash(order);
        self.load_state(&order_hash)
    }

    /// The taking amount that a fill of `order` would ask now: the order's
    /// own for a plain order, the pricer's answer for a Dutch auction.
    pub fn get_current_price(&self, env: &Env, order: &Order) -> (r: Result<i128, Error>)
        ensures
            r == self.spec_current_price(env, *order),
    {
        if !Self::is_dutch_auction(order) {
            return Ok(order.taking_amount);
        }
        if self.dutch_auction_contract.is_none() {
            return Err(Error::NotInitialized);
        }
        match SorobanDutchAuction::calculate_taking_amount(
            env,
            order.making_amount,
            order.taking_amount_start,
            order.taking_amount_end,
            order.auction_start_time,
            order.auction_end_time,
        ) {
            Ok(price) => Ok(price),
            Err(_) => Err(Error::DutchAuctionError),
        }
    }

    /// Whether `order` is priced by a Dutch auction.
    pub fn is_dutch_auction(order: &Order) -> (dutch: bool)
        ensures
            dutch == order.spec_is_dutch_auction(),
    {
        order.maker_traits & IS_DUTCH_AUCTION != 0
    }

    /// The fingerprint of `order`.
    pub fn calculate_order_hash(order: &Order) -> (hash: Bytes32)
        ensures
            hash == order.spec_hash(),
    {
        let mut data: Vec<u8> = Vec::new();
        push_u64_be(&mut data, order.salt);
        push_i128_be(&mut data, order.making_amount);
        push_i128_be(&mut data, order.taking_amount);
        push_u64_be(&mut data, order.maker_traits);
        proof {
            assert(data@ =~= order.preimage());
        }
        sha256_bytes(&data)
    }

    /// The admin of this instance.
    pub fn get_admin(&self) -> (r: Result<Address, Error>)
        ensures
            r == match self.stored_admin() {
                Some(admin) => Ok::<Address, Error>(admin),
                None => Err::<Address, Error>(Error::NotInitialized),
            },
    {
        match self.admin {
            Some(admin) => Ok(admin),
            None => Err(Error::NotInitialized),
        }
    }

    /// The address of the pricer that this instance consults.
    pub fn get_dutch_auction_contract(&self) -> (r: Result<Address, Error>)
        ensures
            r == match self.stored_pricer() {
                Some(pricer) => Ok::<Address, Error>(pricer),
                None => Err::<Address, Error>(Error::NotInitialized),
            },
    {
        match self.dutch_auction_contract {
            Some(pricer) => Ok(pricer),
            None => Err(Error::NotInitialized),
        }
    }
}

/// What was stored for an order stays: along a history in which each state
/// evolves to the next, an order that has left `Active` keeps its state.
pub proof fn lemma_spent_order_stays_spent(
    history: Seq<SorobanLOP>,
    hash: Bytes32,
    from: int,
    to: int,
)
    requires
        forall|k: int|
            0 <= k < history.len() - 1 ==> (#[trigger] history[k]).evolves_to(&history[k + 1]),
        0 <= from <= to < history.len(),
        history[from].state_of(hash) != OrderState::Active,
    ensures
        history[to].state_of(hash) == history[from].state_of(hash),
    decreases to - from,
{
    if from < to {
        lemma_spent_order_stays_spent(history, hash, from, to - 1);
        assert(history[to - 1].evolves_to(&history[to - 1 + 1]));
    }
}

/// An order is spent at most once. Every call of `initialize`, `fill_order`
/// and `cancel_order` takes an instance to a state it evolves to, and a fill
/// or a cancellation succeeds only where it commits the order's
/// fingerprint. In a history of such states, a fingerprint that was
/// committed at one step is committed at no later step.
pub proof fn lemma_order_single_spend(
    history: Seq<SorobanLOP>,
    hash: Bytes32,
    first: int,
    second: int,
)
    requires
        forall|k: int|
            0 <= k < history.len() - 1 ==> (#[trigger] history[k]).evolves_to(&history[k + 1]),
        0 <= first < second < history.len() - 1,
        history[first].commits(&history[first + 1], hash),
    ensures
        !history[second].commits(&history[second + 1], hash),
{
    lemma_spent_order_stays_spent(history, hash, first + 1, second);
}

/// A spent order is refused: once the fingerprint of `order` has left
/// `Active`, neither a fill nor a cancellation of it succeeds, whoever asks
/// and whenever.
pub proof fn lemma_spent_order_is_refused(lop: SorobanLOP, env: Env, order: Order, taker: Address)
    requires
        lop.state_of(order.spec_hash()) != OrderState::Active,
    ensures
        lop.spec_fill_order(&env, order, taker) is Err,
        lop.spec_cancel_order(&env, order) is Err,
{
}

/// The fingerprint depends on four fields only. Two orders that agree in
/// salt, making amount, taking amount and maker traits have one
/// fingerprint, and an instance holds one state for both.
pub proof fn lemma_fingerprint_determinism(lop: SorobanLOP, a: Order, b: Order)
    requires
        a.salt == b.salt,
        a.making_amount == b.making_amount,
        a.taking_amount == b.taking_amount,
        a.maker_traits == b.maker_traits,
    ensures
        a.preimage() == b.preimage(),
        a.spec_hash() == b.spec_hash(),
        lop.state_of(a.spec_hash()) == lop.state_of(b.spec_hash()),
{
}

/// A fill moves exactly the two effective amounts. Take a successful fill
/// whose two assets differ and whose maker is neither its receiver nor its
/// taker. Once both transfers are carried out, the maker holds less of the
/// maker asset by the making amount and the receiver more by the same; the
/// taker holds less of the taker asset by the taking amount and the maker
/// more by the same.
pub proof fn lemma_fill_conserves(
    lop: SorobanLOP,
    env: Env,
    order: Order,
    taker: Address,
    settlement: Settlement,
    balances: Balances,
)
    requires
        lop.spec_fill_order(&env, order, taker) == Ok::<Settlement, Error>(settlement),
        order.maker_asset != order.taker_asset,
        order.maker != receiver_of(order, taker, env.current_contract),
        order.maker != taker,
    ensures
        ({
            let receiver = receiver_of(order, taker, env.current_contract);
            let making = settlement.maker_transfer.amount;
            let taking = settlement.taker_transfer.amount;
            let after = settlement.taker_transfer.apply(settlement.maker_transfer.apply(balances));
            &&& making == order.making_amount
            &&& lop.spec_current_price(&env, order) == Ok::<i128, Error>(taking)
            &&& balance_of(after, order.maker_asset, order.maker) == balance_of(
                balances,
                order.maker_asset,
                order.maker,
            ) - making
            &&& balance_of(after, order.maker_asset, receiver) == balance_of(
                balances,
                order.maker_asset,
                receiver,
            ) + making
            &&& balance_of(after, order.taker_asset, taker) == balance_of(
                balances,
                order.taker_asset,
                taker,
            ) - taking
            &&& balance_of(after, order.taker_asset, order.maker) == balance_of(
                balances,
                order.taker_asset,
                order.maker,
            ) + taking
        }),
{
}

} // verus!
