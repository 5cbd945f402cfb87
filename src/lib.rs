//! Breeding of kitties whose offspring is admitted through a proof of work
//! instead of a signature: the genome and its crossover, the difficulty check,
//! the replay guard on the breeding nonce, and the bounded background search
//! that finds a breedable pair together with a valid proof.
pub mod difficulty;
pub mod hashing;
pub mod kitty;
pub mod laws;
pub mod lock;
pub mod offchain;
pub mod pallet;

pub use difficulty::{meets_difficulty, validate_solution};
pub use kitty::{combine_dna, crossover, Kitty, KittyGender};
pub use lock::AdvisoryLock;
pub use pallet::{
    Entropy, Error, Event, Pallet, PalletView, Proof, TokenInfo, ValidTransaction,
    AUTO_BREED_LONGEVITY, AUTO_BREED_TAG_PREFIX,
};
