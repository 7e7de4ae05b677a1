//! The adapter between a caller's buffer and the platform's entropy routine.
//!
//! The platform routine takes a length, always produces that many random
//! bytes, and has no way to report failure. The adapter therefore has one
//! outcome: every slot of the caller's buffer is initialised with the byte
//! that the routine produced for it, and the result is success.

use vstd::prelude::*;

use crate::error::Error;
use crate::slot::ByteSlot;

verus! {

/// `dest` is fully initialised and holds `entropy`, byte for byte.
pub open spec fn filled_with<S: ByteSlot>(dest: Seq<S>, entropy: Seq<u8>) -> bool {
    &&& dest.len() == entropy.len()
    &&& forall|k: int| 0 <= k < dest.len() ==> (#[trigger] dest[k]).byte() == Some(entropy[k])
}

/// Fills `dest` with `entropy`, the bytes that the platform's routine produced
/// when asked for `dest.len()` of them, and reports success.
///
/// The slots of `dest` may be uninitialised on entry; what they held is
/// never read. On return every one of them is initialised. An empty buffer
/// is left as it is. No input leads to an error: the error type is in the
/// signature only so that all platform adapters share one shape.
///
/// How unpredictable the bytes are is a property of the platform and of how
/// its entropy sources are configured. The adapter can neither observe nor
/// improve it.
pub fn getrandom_inner<S: ByteSlot>(dest: &mut [S], entropy: &[u8]) -> (res: Result<(), Error>)
    requires
        entropy@.len() == old(dest)@.len(),
    ensures
        res is Ok,
        filled_with(final(dest)@, entropy@),
        old(dest)@.len() == 0 ==> final(dest)@ == old(dest)@,
{
    let n: usize = dest.len();
    let mut i: usize = 0;
    while i < n
        invariant
            i <= n,
            n == dest@.len(),
            n == entropy@.len(),
            forall|k: int| 0 <= k < i ==> (#[trigger] dest@[k]).byte() == Some(entropy@[k]),
        decreases n - i,
    {
        dest[i] = S::holding(entropy[i]);
        i += 1;
    }
    Ok(())
}

/// A buffer of plain bytes that was filled with `entropy` is `entropy`.
pub proof fn filled_bytes_are_the_entropy(dest: Seq<u8>, entropy: Seq<u8>)
    requires
        filled_with(dest, entropy),
    ensures
        dest == entropy,
{
    assert(dest =~= entropy);
}

/// Two buffers that were filled from different outputs of the platform
/// differ: the adapter never makes two draws look alike.
pub proof fn fills_differ_when_draws_differ<S: ByteSlot>(
    first: Seq<S>,
    second: Seq<S>,
    first_draw: Seq<u8>,
    second_draw: Seq<u8>,
)
    requires
        filled_with(first, first_draw),
        filled_with(second, second_draw),
        first_draw != second_draw,
    ensures
        first != second,
{
    if first == second {
        assert forall|k: int| 0 <= k < first_draw.len() implies first_draw[k] == second_draw[k] by {
            assert(first[k].byte() == Some(first_draw[k]));
            assert(second[k].byte() == Some(second_draw[k]));
        }
        assert(first_draw =~= second_draw);
    }
}

} // verus!
