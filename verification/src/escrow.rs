//! The hashlock/timelock escrow: an amount of a token that the taker redeems
//! with a preimage before a deadline, or that the maker takes back from the
//! deadline on.

use crate::host::balance_of;
use crate::host::bytes32_to_vec;
use crate::host::bytes_eq;
use crate::host::sha256_bytes;
use crate::host::sha256_digest;
use crate::host::sha256_of;
use crate::host::Address;
use crate::host::Balances;
use crate::host::Bytes32;
use crate::host::Env;
use crate::host::Event;
use crate::host::Transfer;
use vstd::prelude::*;

verus! {

/// The slots of an escrow's instance storage.
#[derive(Clone, Copy, Debug, PartialEq, Eq, Structural)]
pub enum DataKey {
    Immutables,
    Initialized,
}

/// The parameters of one escrow, fixed when it is initialized.
#[derive(Clone, Copy, Debug, PartialEq, Eq)]
pub struct Immutables {
    pub hashlock: Bytes32,
    pub maker: Address,
    pub taker: Address,
    pub token: Address,
    pub amount: i128,
    pub cancellation_timestamp: u64,
}

#[derive(Copy, Clone, Debug, Eq, PartialEq, PartialOrd, Ord, Structural)]
pub enum Error {
    AlreadyInitialized,
    NotInitialized,
    InvalidSecret,
    NotAuthorized,
    TimePredicateNotMet,
    NegativeAmount,
}

impl Error {
    /// The number under which the ledger reports the error.
    pub fn code(&self) -> (c: u32)
        ensures
            c == match *self {
                Error::AlreadyInitialized => 1u32,
                Error::NotInitialized => 2u32,
                Error::InvalidSecret => 3u32,
                Error::NotAuthorized => 4u32,
                Error::TimePredicateNotMet => 5u32,
                Error::NegativeAmount => 6u32,
            },
    {
        match self {
            Error::AlreadyInitialized => 1,
            Error::NotInitialized => 2,
            Error::InvalidSecret => 3,
            Error::NotAuthorized => 4,
            Error::TimePredicateNotMet => 5,
            Error::NegativeAmount => 6,
        }
    }
}

/// What a successful `withdraw` or `cancel` asks of the host: the transfer of
/// the escrowed amount, then the event.
#[derive(Clone, Copy, Debug, PartialEq, Eq)]
pub struct Payout {
    pub transfer: Transfer,
    pub event: Event,
}

/// The payout of `immutables` to its taker from the escrow at `escrow`.
pub open spec fn withdrawal(immutables: Immutables, escrow: Address) -> Payout {
    Payout {
        transfer: Transfer {
            token: immutables.token,
            from: escrow,
            to: immutables.taker,
            amount: immutables.amount,
        },
        event: Event::Withdraw { taker: immutables.taker },
    }
}

/// The payout of `immutables` back to its maker from the escrow at `escrow`.
pub open spec fn refund(immutables: Immutables, escrow: Address) -> Payout {
    Payout {
        transfer: Transfer {
            token: immutables.token,
            from: escrow,
            to: immutables.maker,
            amount: immutables.amount,
        },
        event: Event::Cancel { maker: immutables.maker },
    }
}

/// One escrow instance: its instance storage.
#[derive(Clone, Copy, Debug, PartialEq, Eq)]
pub struct SorobanEscrow {
    immutables: Option<Immutables>,
}

impl SorobanEscrow {
    #[verifier::type_invariant]
    spec fn amount_is_not_negative(self) -> bool {
        self.immutables matches Some(i) ==> i.amount >= 0
    }

    /// The immutables that the instance stores, if it has been initialized.
    pub closed spec fn stored(&self) -> Option<Immutables> {
        self.immutables
    }

    /// Whether the storage slot `key` is filled. Both slots are written
    /// together, by `initialize`.
    pub open spec fn spec_has(&self, key: DataKey) -> bool {
        self.stored() is Some
    }

    /// What `initialize` answers in this state.
    pub open spec fn spec_initialize(&self, immutables: Immutables) -> Result<(), Error> {
        if self.stored() is Some {
            Err(Error::AlreadyInitialized)
        } else if immutables.amount < 0 {
            Err(Error::NegativeAmount)
        } else {
            Ok(())
        }
    }

    /// What `withdraw` answers in this state.
    pub open spec fn spec_withdraw(&self, env: &Env, secret: Bytes32) -> Result<Payout, Error> {
        match self.stored() {
            None => Err(Error::NotInitialized),
            Some(immutables) => if !env.authorizes(immutables.taker) {
                Err(Error::NotAuthorized)
            } else if env.timestamp >= immutables.cancellation_timestamp {
                Err(Error::TimePredicateNotMet)
            } else if sha256_of(secret@) != immutables.hashlock {
                Err(Error::InvalidSecret)
            } else {
                Ok(withdrawal(immutables, env.current_contract))
            },
        }
    }

    /// What `cancel` answers in this state.
    pub open spec fn spec_cancel(&self, env: &Env) -> Result<Payout, Error> {
        match self.stored() {
            None => Err(Error::NotInitialized),
            Some(immutables) => if !env.authorizes(immutables.maker) {
                Err(Error::NotAuthorized)
            } else if env.timestamp < immutables.cancellation_timestamp {
                Err(Error::TimePredicateNotMet)
            } else {
                Ok(refund(immutables, env.current_contract))
            },
        }
    }

    /// A freshly deployed instance: nothing is stored.
    pub fn new() -> (escrow: SorobanEscrow)
        ensures
            escrow.stored() is None,
    {
        SorobanEscrow { immutables: None }
    }

    /// Whether the storage slot `key` is filled.
    pub fn has(&self, key: &DataKey) -> (present: bool)
        ensures
            present == self.spec_has(*key),
            present == (self.stored() is Some),
    {
        self.immutables.is_some()
    }

    /// Stores the immutables. The first call with a non-negative amount
    /// succeeds; no later call changes what is stored.
    pub fn initialize(&mut self, immutables: Immutables) -> (r: Result<(), Error>)
        ensures
            r == old(self).spec_initialize(immutables),
            r is Ok ==> final(self).stored() == Some(immutables),
            r is Err ==> *final(self) == *old(self),
    {
        if self.immutables.is_some() {
            return Err(Error::AlreadyInitialized);
        }
        if immutables.amount < 0 {
            return Err(Error::NegativeAmount);
        }
        self.immutables = Some(immutables);
        Ok(())
    }

    /// Pays the escrowed amount to the taker: needs the taker's
    /// authorization, a time before the cancellation timestamp and the
    /// preimage of the hashlock, tested in this order. Nothing is stored.
    pub fn withdraw(&self, env: &Env, secret: &Bytes32) -> (r: Result<Payout, Error>)
        ensures
            r == self.spec_withdraw(env, *secret),
            r is Ok ==> self.stored() is Some && self.stored()->0.hashlock@ == sha256_digest(
                secret@,
            ),
            r is Ok ==> env.timestamp < self.stored()->0.cancellation_timestamp,
            r is Ok ==> env.authorizes(self.stored()->0.taker),
            r is Ok ==> r->Ok_0.transfer.amount >= 0,
    {
        proof {
            use_type_invariant(self);
        }
        let immutables = match self.get_immutables() {
            Ok(i) => i,
            Err(e) => {
                return Err(e);
            },
        };
        if !env.has_auth(&immutables.taker) {
            return Err(Error::NotAuthorized);
        }
        let current_timestamp = env.ledger_timestamp();
        if current_timestamp >= immutables.cancellation_timestamp {
            return Err(Error::TimePredicateNotMet);
        }
        let secret_hash = sha256_bytes(&bytes32_to_vec(secret));
        if !bytes_eq(&secret_hash, &immutables.hashlock) {
            return Err(Error::InvalidSecret);
        }
        let transfer = Self::transfer_tokens(
            env,
            &immutables.token,
            &immutables.taker,
            immutables.amount,
        );
        Ok(Payout { transfer, event: Event::Withdraw { taker: immutables.taker } })
    }

    /// Pays the escrowed amount back to the maker: needs the maker's
    /// authorization and a time at or after the cancellation timestamp,
    /// tested in this order. Nothing is stored.
    pub fn cancel(&self, env: &Env) -> (r: Result<Payout, Error>)
        ensures
            r == self.spec_cancel(env),
            r is Ok ==> self.stored() is Some && env.timestamp
                >= self.stored()->0.cancellation_timestamp,
            r is Ok ==> env.authorizes(self.stored()->0.maker),
            r is Ok ==> r->Ok_0.transfer.amount >= 0,
    {
        proof {
            use_type_invariant(self);
        }
        let immutables = match self.get_immutables() {
            Ok(i) => i,
            Err(e) => {
                return Err(e);
            },
        };
        if !env.has_auth(&immutables.maker) {
            return Err(Error::NotAuthorized);
        }
        let current_timestamp = env.ledger_timestamp();
        if current_timestamp < immutables.cancellation_timestamp {
            return Err(Error::TimePredicateNotMet);
        }
        let transfer = Self::transfer_tokens(
            env,
            &immutables.token,
            &immutables.maker,
            immutables.amount,
        );
        Ok(Payout { transfer, event: Event::Cancel { maker: immutables.maker } })
    }

    /// The immutables of this escrow.
    pub fn get_immutables(&self) -> (r: Result<Immutables, Error>)
        ensures
            r == match self.stored() {
                Some(immutables) => Ok::<Immutables, Error>(immutables),
                None => Err::<Immutables, Error>(Error::NotInitialized),
            },
            r is Ok ==> r->Ok_0.amount >= 0,
    {
        proof {
            use_type_invariant(self);
        }
        match self.immutables {
            Some(immutables) => Ok(immutables),
            None => Err(Error::NotInitialized),
        }
    }

    /// The transfer of `amount` of `token` from the running contract to `to`.
    fn transfer_tokens(env: &Env, token: &Address, to: &Address, amount: i128) -> (t: Transfer)
        ensures
            t == (Transfer { token: *token, from: env.current_contract, to: *to, amount }),
    {
        Transfer { token: *token, from: env.current_contract_address(), to: *to, amount }
    }
}

/// At one moment an escrow offers one way out: whatever the secret and the
/// authorizations, `withdraw` and `cancel` cannot both succeed at the same
/// ledger time.
pub proof fn lemma_withdraw_excludes_cancel(
    escrow: SorobanEscrow,
    withdraw_env: Env,
    cancel_env: Env,
    secret: Bytes32,
)
    requires
        withdraw_env.timestamp == cancel_env.timestamp,
    ensures
        !(escrow.spec_withdraw(&withdraw_env, secret) is Ok && escrow.spec_cancel(&cancel_env)
            is Ok),
{
}

/// An escrow pays out at most once. Take an escrow at the address `me` that
/// holds exactly its amount, a positive one, and whose maker and taker are
/// not the escrow itself. Once the token contract has carried out the
/// transfer of one successful `withdraw` or `cancel`, it refuses the transfer
/// of every other successful `withdraw` or `cancel` of that escrow.
pub proof fn lemma_at_most_one_payout(
    escrow: SorobanEscrow,
    me: Address,
    balances: Balances,
    first_env: Env,
    first_secret: Bytes32,
    first: Payout,
    second_env: Env,
    second_secret: Bytes32,
    second: Payout,
)
    requires
        first_env.current_contract == me,
        second_env.current_contract == me,
        escrow.spec_withdraw(&first_env, first_secret) == Ok::<Payout, Error>(first)
            || escrow.spec_cancel(&first_env) == Ok::<Payout, Error>(first),
        escrow.spec_withdraw(&second_env, second_secret) == Ok::<Payout, Error>(second)
            || escrow.spec_cancel(&second_env) == Ok::<Payout, Error>(second),
        escrow.stored()->0.amount > 0,
        escrow.stored()->0.maker != me,
        escrow.stored()->0.taker != me,
        balance_of(balances, escrow.stored()->0.token, me) == escrow.stored()->0.amount,
        first.transfer.succeeds_on(balances),
    ensures
        balance_of(first.transfer.apply(balances), escrow.stored()->0.token, me) == 0,
        !second.transfer.succeeds_on(first.transfer.apply(balances)),
{
}

} // verus!
