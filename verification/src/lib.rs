//! Hash-timelock escrow: a custodian holds a deposit and releases it to a
//! designated recipient if the recipient proves knowledge of a secret whose
//! digest matches a pre-registered commitment before a deadline; otherwise
//! the deposit reverts to the depositor.
//!
//! The escrow itself is a pure state machine: callers hand each operation
//! the clock reading, the verified caller identity and the custodied
//! balance, and receive the new state together with the transfers to
//! schedule. Executing those transfers, reading the clock and
//! authenticating callers belong to the surrounding runtime.

mod hashing;
mod swap;

pub use hashing::digests_equal;
pub use hashing::sha256_of;
pub use swap::lemma_retry_after_mismatch;
pub use swap::lemma_terminal_claim_never_succeeds;
pub use swap::AtomicSwap;
pub use swap::State;
pub use swap::SwapError;
pub use swap::Transfer;
