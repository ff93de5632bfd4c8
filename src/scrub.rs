//! Zeroing of borrowed byte buffers.
use vstd::prelude::*;

verus! {

/// The bytes of a buffer of `len` bytes that holds nothing but zeros.
pub open spec fn zeros(len: nat) -> Seq<u8> {
    Seq::new(len, |i: int| 0u8)
}

/// Whether every byte of `s` is zero.
pub open spec fn all_zero(s: Seq<u8>) -> bool {
    forall|i: int| 0 <= i < s.len() ==> s[i] == 0u8
}

/// Relies on zeroize's `Zeroize` impl for `[u8]`: it writes a zero to each
/// byte of the slice with a volatile write and keeps the slice's length.
#[verifier::external_body]
fn volatile_zero(buf: &mut [u8])
    ensures
        final(buf)@ == zeros(old(buf)@.len()),
{
    zeroize::Zeroize::zeroize(buf)
}

/// Overwrites every byte of `buf` with zero, with writes that are not
/// optimized away. A buffer of length zero is left as it is.
pub fn zeroize(buf: &mut [u8])
    ensures
        final(buf)@.len() == old(buf)@.len(),
        all_zero(final(buf)@),
        final(buf)@ == zeros(old(buf)@.len()),
{
    volatile_zero(buf);
}

/// Scrubbing is idempotent: a second scrub of a scrubbed buffer leaves the
/// same all-zero bytes as the first.
pub proof fn lemma_zeroize_twice(contents: Seq<u8>)
    ensures
        zeros(zeros(contents.len()).len()) == zeros(contents.len()),
        all_zero(zeros(contents.len())),
{
}

} // verus!
