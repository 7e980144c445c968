//! A registry of uniquely owned collectible kitties: creation for a fee,
//! transfer, breeding by genetic crossover, and a simple marketplace.
//!
//! The registry is a deterministic state machine. Whatever lies outside it
//! (the currency, the randomness beacon, the transaction context) reaches it
//! as plain values handed to each operation, and leaves it as the payments it
//! asks for and the events it returns.

pub mod entropy;
pub mod genome;
pub mod laws;
pub mod pallet;
pub mod state;
pub mod treasury;
pub mod types;

pub use genome::derive_child_genome;
pub use pallet::Pallet;
pub use state::State;
pub use types::{
    AccountId, Balance, Error, Event, Kitty, KittyCreateFeeDefault, KittyIndex, Payment,
    RandomSeed,
};
