//! State engine for a play-to-earn pet game.
//!
//! The library owns the lifecycle of collectible pets, the quests they can
//! undertake, and head-to-head wagered battles between pets. Every mutating
//! request is a pure state transition over an explicit [`store::Store`]:
//! it reads and writes the store and returns the economic instructions
//! (token mints and burns) that the host must forward to the external
//! fungible-token ledger. Ownership lookups and balance queries against the
//! external registry and ledger are performed by the host, which hands their
//! results in as plain values.

pub mod battle;
pub mod battle_ops;
pub mod economy;
pub mod error;
pub mod pet;
pub mod pet_ops;
pub mod quest;
pub mod quest_ops;
pub mod randomness;
pub mod stats;
pub mod store;
pub mod token_id;
