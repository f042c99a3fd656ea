//! Nonces for AEAD sealing and opening: a fixed-width, move-only value that
//! can be built only from exactly twelve bytes, or from a counter.

pub mod counter;
pub mod error;
pub mod nonce;

pub use counter::Counter;
pub use error::Unspecified;
pub use nonce::{Nonce, NONCE_LEN};
