//! The places a destination buffer is made of.
//!
//! A caller that has just allocated its buffer holds uninitialised slots; a
//! caller that reuses one holds plain bytes. Both are filled the same way,
//! so the adapter is written once over this trait.

use core::mem::MaybeUninit;
use vstd::prelude::*;
use vstd::std_specs::maybe_uninit::MaybeUninitAdditionalSpecFns;

verus! {

/// A place for one byte of a destination buffer.
pub trait ByteSlot: Sized {
    /// The byte in the slot, or `None` while the slot is uninitialised.
    spec fn byte(&self) -> Option<u8>;

    /// An initialised slot that holds `b`.
    fn holding(b: u8) -> (slot: Self)
        ensures
            slot.byte() == Some(b),
    ;
}

impl ByteSlot for u8 {
    open spec fn byte(&self) -> Option<u8> {
        Some(*self)
    }

    fn holding(b: u8) -> (slot: Self) {
        b
    }
}

impl ByteSlot for MaybeUninit<u8> {
    open spec fn byte(&self) -> Option<u8> {
        self.as_option()
    }

    fn holding(b: u8) -> (slot: Self) {
        MaybeUninit::new(b)
    }
}

} // verus!
