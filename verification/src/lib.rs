//! On-ledger primitives of an atomic-swap and limit-order venue: a
//! hashlock/timelock escrow, a Dutch-auction pricer, a limit-order protocol
//! and the factories that instantiate them.

pub mod dutch_auction;
pub mod encoding;
pub mod escrow;
pub mod escrow_factory;
pub mod host;
pub mod lop;
pub mod lop_factory;
