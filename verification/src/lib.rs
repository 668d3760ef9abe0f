//! A random-access, sequential-read adapter over a byte resource whose native
//! primitive is range slicing in a host numeric domain that represents integers
//! exactly only up to a known bound. The crate verifies the two halves that
//! share that invariant: the lossless numeric bridge, and the cursor arithmetic
//! of `read` and `seek`.

pub mod arith;
pub mod bridge;
pub mod source;
