//! Handling of secret bytes: zeroing them after use, and comparing them in
//! time that does not depend on where they differ.

use vstd::prelude::*;
use zeroize::Zeroize;

verus! {

/// `Zeroize::zeroize` of the zeroize crate on a byte slice: every byte is set
/// to zero with volatile writes; the length is unchanged. The crate asserts
/// that the length fits in `isize`, which every slice's does.
#[verifier::external_body]
fn zeroize_slice(buf: &mut [u8])
    requires
        old(buf)@.len() <= isize::MAX,
    ensures
        final(buf)@ == Seq::new(old(buf)@.len(), |i: int| 0u8),
{
    buf.zeroize();
}

/// `Zeroize::zeroize` of the zeroize crate on an array of 32 bytes: every
/// byte is set to zero with volatile writes.
#[verifier::external_body]
pub(crate) fn zeroize_key(key: &mut [u8; 32])
    ensures
        final(key)@ == Seq::new(32, |i: int| 0u8),
{
    key.zeroize();
}

/// `Zeroize::zeroize` of the zeroize crate on a byte vector: its bytes and
/// spare capacity are set to zero, then it is cleared.
#[verifier::external_body]
fn zeroize_vec(buf: &mut Vec<u8>)
    ensures
        final(buf)@ == Seq::<u8>::empty(),
{
    buf.zeroize();
}

/// `Zeroize::zeroize` of the zeroize crate on a string: its bytes are set to
/// zero, then it is cleared.
#[verifier::external_body]
fn zeroize_string(s: &mut String)
    ensures
        final(s)@ == Seq::<char>::empty(),
{
    s.zeroize();
}

/// Overwrite every byte of `buf` with zero.
pub fn zeroize_bytes(buf: &mut [u8])
    requires
        old(buf)@.len() <= isize::MAX,
    ensures
        final(buf)@.len() == old(buf)@.len(),
        forall|i: int| 0 <= i < final(buf)@.len() ==> #[trigger] final(buf)@[i] == 0u8,
{
    zeroize_slice(buf);
}

/// Run `f` on secret bytes, then zero them.
pub fn with_secure_bytes<T, F: FnOnce(&[u8]) -> T>(bytes: Vec<u8>, f: F) -> (r: T)
    requires
        forall|s: &[u8]| s@ == bytes@ ==> #[trigger] f.requires((s,)),
    ensures
        exists|s: &[u8]| s@ == bytes@ && #[trigger] f.ensures((s,), r),
{
    let mut bytes = bytes;
    let r = f(bytes.as_slice());
    zeroize_vec(&mut bytes);
    r
}

/// Run `f` on a secret string, then zero it.
pub fn with_secure_string<T, F: FnOnce(&str) -> T>(secret: String, f: F) -> (r: T)
    requires
        forall|s: &str| s@ == secret@ ==> #[trigger] f.requires((s,)),
    ensures
        exists|s: &str| s@ == secret@ && #[trigger] f.ensures((s,), r),
{
    let mut secret = secret;
    let r = f(secret.as_str());
    zeroize_string(&mut secret);
    r
}

/// Whether two byte strings are equal, reading every byte of both when their
/// lengths agree, so that the time taken does not tell where they differ.
pub fn constant_time_equals(a: &[u8], b: &[u8]) -> (r: bool)
    ensures
        r == (a@ == b@),
{
    if a.len() != b.len() {
        return false;
    }
    let mut result: u8 = 0;
    let mut i: usize = 0;
    while i < a.len()
        invariant
            a@.len() == b@.len(),
            i <= a@.len(),
            (result == 0) == (forall|j: int| 0 <= j < i ==> a@[j] == b@[j]),
        decreases a@.len() - i,
    {
        let x = a[i];
        let y = b[i];
        assert((result | (x ^ y)) == 0 <==> (result == 0 && x == y)) by (bit_vector);
        result = result | (x ^ y);
        proof {
            if result == 0 {
                assert forall|j: int| 0 <= j < i + 1 implies a@[j] == b@[j] by {
                    if j == i {
                        assert(a@[j] == x && b@[j] == y);
                    }
                }
            }
        }
        i = i + 1;
    }
    proof {
        if result == 0 {
            assert(a@ =~= b@);
        }
    }
    result == 0
}

} // verus!
