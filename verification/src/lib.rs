//! Entropy adapter for a platform whose native routine fills a buffer with
//! random bytes and cannot fail.
//!
//! The platform routine itself lives outside this library. What is verified
//! here is the hand-over: every slot of the caller's buffer ends up
//! initialised with the byte that the platform produced for it, and the
//! adapter reports success.

pub mod adapter;
pub mod error;
pub mod slot;

pub use adapter::getrandom_inner;
pub use error::Error;
pub use slot::ByteSlot;
