//! A registry of collectible kitties: minting, per-account ownership under a
//! fixed capacity, direct transfer, and sale at the owner's asking price.

pub mod bounded;
pub mod hashing;
pub mod laws;
pub mod model;
pub mod pallet;
pub mod store;
pub mod types;
pub mod weights;

pub use pallet::Pallet;
pub use store::RegistryStore;
pub use types::{AccountId, Balance, BlockNumber, Dna, Error, Event, Gender, Kitty, Payment, Settlement};
pub use weights::{SubstrateWeight, WeightInfo};
