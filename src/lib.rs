//! A proof-of-existence claim registry: content fingerprints mapped to the
//! account that claimed them and the logical time of the claim.

pub mod fingerprint;
pub mod laws;
pub mod pallet;
pub mod proofs;

pub use fingerprint::Fingerprint;
pub use pallet::{Config, Error, Event, Pallet};
pub use proofs::{AccountId, BlockNumber, ClaimRecord, Proofs};
