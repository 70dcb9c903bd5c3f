//! Wiping buffers that held secrets.
use vstd::prelude::*;
use zeroize::Zeroize;

verus! {

/// Relies on zeroize's `Zeroize` for arrays: every byte is overwritten with zero.
#[verifier::external_body]
pub(crate) fn wipe<const N: usize>(buf: &mut [u8; N])
    ensures
        final(buf)@ == Seq::new(N as nat, |i: int| 0u8),
{
    buf.zeroize();
}

/// Relies on zeroize's `Zeroize` for `Vec`: the bytes are overwritten with zero and the
/// vector is emptied.
#[verifier::external_body]
pub(crate) fn wipe_vec(buf: &mut Vec<u8>)
    ensures
        final(buf)@.len() == 0,
{
    buf.zeroize();
}

} // verus!
