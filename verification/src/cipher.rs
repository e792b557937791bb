use vstd::prelude::*;
use crate::keys::KEY_LEN;

verus! {

/// The cipher's nonce length in bytes (a 96-bit nonce).
pub const NONCE_LEN: usize = 12;

/// The cipher's authentication tag length in bytes (a 128-bit tag).
pub const TAG_LEN: usize = 16;

/// The largest message (in bytes) this codec seals: 1 GiB, far below the
/// cipher's own input limit, so that sealing never fails for length reasons.
pub const MAX_MSG_LEN: usize = 0x4000_0000;

/// What sealing returns for a given effective key, nonce and message: the
/// ciphertext with the authentication tag appended (empty associated data).
pub uninterp spec fn seal_of(key: Seq<u8>, nonce: Seq<u8>, msg: Seq<u8>) -> Seq<u8>;

/// Relies on ring's `aead::CHACHA20_POLY1305` through `UnboundKey::new`,
/// `LessSafeKey::new`, `Nonce::try_assume_unique_for_key` and
/// `LessSafeKey::seal_in_place_append_tag`: sealing is a deterministic
/// function of key, nonce and message; it appends the 16-byte tag; and with a
/// 32-byte key, a 12-byte nonce and a message within the cipher's input limit
/// it does not fail.
#[verifier::external_body]
pub(crate) fn aead_seal(key: &[u8], nonce: &[u8], msg: &[u8]) -> (r: Option<Vec<u8>>)
    requires
        key@.len() == KEY_LEN,
        nonce@.len() == NONCE_LEN,
        msg@.len() <= MAX_MSG_LEN,
    ensures
        r is Some,
        r matches Some(c) ==> c@ == seal_of(key@, nonce@, msg@) && c@.len() == msg@.len()
            + TAG_LEN,
{
    let unbound = ring::aead::UnboundKey::new(&ring::aead::CHACHA20_POLY1305, key).ok()?;
    let sealing = ring::aead::LessSafeKey::new(unbound);
    let n = ring::aead::Nonce::try_assume_unique_for_key(nonce).ok()?;
    let mut buf: Vec<u8> = msg.to_vec();
    sealing.seal_in_place_append_tag(n, ring::aead::Aad::empty(), &mut buf).ok()?;
    Some(buf)
}

/// Relies on ring's `aead::CHACHA20_POLY1305` through `UnboundKey::new`,
/// `LessSafeKey::new`, `Nonce::try_assume_unique_for_key` and
/// `LessSafeKey::open_in_place`: opening verifies the trailing tag and
/// succeeds exactly when the buffer is what sealing the recovered message
/// under this key and nonce produces, returning that message. The middle
/// clause is the cipher's injectivity for a fixed key and nonce: the stream
/// cipher is a length-preserving bijection, so only one message seals to a
/// given buffer.
#[verifier::external_body]
pub(crate) fn aead_open(key: &[u8], nonce: &[u8], buf: &[u8]) -> (r: Option<Vec<u8>>)
    requires
        key@.len() == KEY_LEN,
        nonce@.len() == NONCE_LEN,
        buf@.len() <= MAX_MSG_LEN + TAG_LEN,
    ensures
        r matches Some(m) ==> buf@ == seal_of(key@, nonce@, m@),
        r matches Some(m) ==> forall|m2: Seq<u8>|
            buf@ == seal_of(key@, nonce@, m2) ==> m2 == m@,
        r is None ==> !(exists|m: Seq<u8>| buf@ == seal_of(key@, nonce@, m)),
{
    let unbound = ring::aead::UnboundKey::new(&ring::aead::CHACHA20_POLY1305, key).ok()?;
    let opening = ring::aead::LessSafeKey::new(unbound);
    let n = ring::aead::Nonce::try_assume_unique_for_key(nonce).ok()?;
    let mut b: Vec<u8> = buf.to_vec();
    let len = opening.open_in_place(n, ring::aead::Aad::empty(), &mut b).ok()?.len();
    b.truncate(len);
    Some(b)
}

/// Relies on ring's `rand::SystemRandom` and `SecureRandom::fill`: the OS
/// secure random source fills the buffer on success; nothing is promised of
/// the bytes themselves.
#[verifier::external_body]
pub(crate) fn random_bytes(n: usize) -> (r: Option<Vec<u8>>)
    ensures
        r matches Some(v) ==> v@.len() == n,
{
    let rng = ring::rand::SystemRandom::new();
    let mut v: Vec<u8> = vec![0u8; n];
    match ring::rand::SecureRandom::fill(&rng, &mut v) {
        Ok(()) => Some(v),
        Err(_) => None,
    }
}

} // verus!
