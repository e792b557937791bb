use vstd::prelude::*;
use vstd::slice::slice_to_vec;

verus! {

/// The cipher's key length in bytes (a 256-bit key).
pub const KEY_LEN: usize = 32;

/// A key `encrypt` accepts: non-empty and at most `KEY_LEN` bytes.
///
/// A key longer than the cipher accepts is rejected outright rather than
/// truncated, so that no two distinct caller keys ever select the same
/// effective key.
pub open spec fn key_ok(k: Seq<u8>) -> bool {
    1 <= k.len() <= KEY_LEN
}

/// A key `decrypt` accepts: at most `KEY_LEN` bytes. The empty key is not
/// rejected there — like every shorter key it zero-pads to a full effective
/// key — only an over-long one is.
pub open spec fn key_fits(k: Seq<u8>) -> bool {
    k.len() <= KEY_LEN
}

/// The effective key material: a key shorter than `KEY_LEN` is zero-padded on
/// the right to exactly `KEY_LEN`; anything else is left untouched.
pub open spec fn pad_key_spec(k: Seq<u8>) -> Seq<u8> {
    if k.len() >= KEY_LEN {
        k
    } else {
        k + Seq::new((KEY_LEN - k.len()) as nat, |i: int| 0u8)
    }
}

/// Builds the effective key for the cipher by zero-padding short keys.
pub fn pad_key_as_needed(key: &[u8]) -> (r: Vec<u8>)
    ensures
        r@ == pad_key_spec(key@),
{
    let mut v: Vec<u8> = slice_to_vec(key);
    while v.len() < KEY_LEN
        invariant
            key@.len() <= v@.len(),
            v@.len() <= KEY_LEN || v@ == key@,
            v@.subrange(0, key@.len() as int) == key@,
            forall|i: int| key@.len() <= i < v@.len() ==> v@[i] == 0u8,
        decreases KEY_LEN - v.len(),
    {
        v.push(0u8);
        assert(v@.subrange(0, key@.len() as int) == key@);
    }
    proof {
        if key@.len() >= KEY_LEN as nat {
            assert(v@ =~= key@);
        } else {
            assert(v@ =~= key@ + Seq::new((KEY_LEN - key@.len()) as nat, |i: int| 0u8));
        }
    }
    v
}

/// Zero-padding is idempotent: the effective key of an already padded key is
/// itself, and it is always exactly `KEY_LEN` bytes for a usable key.
pub proof fn lemma_pad_key_idempotent(k: Seq<u8>)
    requires
        key_fits(k),
    ensures
        pad_key_spec(k).len() == KEY_LEN as nat,
        key_ok(pad_key_spec(k)),
        pad_key_spec(pad_key_spec(k)) == pad_key_spec(k),
{
}

} // verus!
