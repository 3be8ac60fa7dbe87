//! A bounded, chronologically ordered feed of opaque event records.
//!
//! The feed engine appends byte-payload records stamped with the round at
//! which they were recorded, enforces a hard bound on the number of records
//! retained, and evicts records older than a configured age once per round,
//! at round finalization.

mod laws;
mod pallet;
mod types;

pub use laws::lemma_sweep_fresh;
pub use laws::lemma_sweep_idempotent;
pub use laws::lemma_sweep_len;
pub use laws::lemma_sweep_of_fresh_feed;
pub use laws::lemma_sweep_preserves_order;
pub use laws::lemma_sweep_retains_fresh;
pub use pallet::emitted;
pub use pallet::oldest_allowed;
pub use pallet::record;
pub use pallet::same_config;
pub use pallet::swept;
pub use pallet::Pallet;
pub use pallet::PalletView;
pub use types::BoundedBytes;
pub use types::Error;
pub use types::Event;
pub use types::FeedEvent;
pub use types::SubmitError;
