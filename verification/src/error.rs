//! The error type shared by the platform adapters.

use vstd::prelude::*;

verus! {

/// What an adapter can report instead of success.
#[derive(Clone, Copy, Debug, PartialEq, Eq, Structural)]
pub enum Error {
    /// The platform's entropy call failed.
    PlatformCallFailed,
}

} // verus!
