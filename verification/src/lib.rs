//! A bounty escrow ledger: bounties are issued with escrowed funds, topped up
//! by contributions, paid out once on the issuer's approval, and reclaimed by
//! the issuer after the deadline has passed.

pub mod bounty;
pub mod custodian;
pub mod engine;
pub mod errors;
pub mod events;
pub mod laws;
pub mod model;
pub mod registry;
