use vstd::prelude::*;
use vstd::utf8::{decode_utf8, encode_utf8, valid_utf8};
use crate::b64::{b64_decode, b64_decode_of, b64_encode, b64_encode_spec};
use crate::cipher::{aead_open, aead_seal, random_bytes, seal_of, MAX_MSG_LEN, NONCE_LEN, TAG_LEN};
use crate::errors::CryptoError;
use crate::keys::{key_fits, key_ok, pad_key_as_needed, pad_key_spec, KEY_LEN};

verus! {

broadcast use {vstd::utf8::encode_utf8_valid_utf8, vstd::utf8::encode_utf8_decode_utf8};

/// The transport envelope, the only artifact ever stored or sent: the nonce
/// and the ciphertext-with-tag, each as standard padded base64 text.
pub struct EncryptedAPIObject {
    pub nonce: String,
    pub data: String,
}

/// The envelope `(nonce_text, data_text)` is exactly what sealing `plain`
/// under `key` with some 12-byte nonce produces: its nonce field encodes that
/// nonce, and its data field encodes the sealed bytes of the UTF-8 encoding
/// of `plain`, tag included.
pub open spec fn is_encryption_of(
    key: Seq<u8>,
    nonce_text: Seq<char>,
    data_text: Seq<char>,
    plain: Seq<char>,
) -> bool {
    exists|n: Seq<u8>|
        {
            &&& n.len() == NONCE_LEN as nat
            &&& nonce_text == #[trigger] b64_encode_spec(n)
            &&& b64_decode_of(nonce_text) == Some(n)
            &&& data_text == b64_encode_spec(seal_of(pad_key_spec(key), n, encode_utf8(plain)))
            &&& b64_decode_of(data_text) == Some(
                seal_of(pad_key_spec(key), n, encode_utf8(plain)),
            )
            &&& seal_of(pad_key_spec(key), n, encode_utf8(plain)).len() == encode_utf8(plain).len()
                + TAG_LEN as nat
        }
}

/// The exact outcome of decrypting an envelope: which plaintext comes back,
/// or which error, for every key and every pair of envelope fields.
///
/// The fields are decoded before the key is even looked at, so `DecodeError`
/// comes exactly when a field is not decodable text; `KeyError` only on a
/// decodable envelope with an over-long key. A decoded ciphertext longer than
/// the codec ever seals is rejected as unauthentic, like any other buffer
/// that no sealing produced.
pub open spec fn decrypt_spec(key: Seq<u8>, nonce_text: Seq<char>, data_text: Seq<char>) -> Result<
    Seq<char>,
    CryptoError,
> {
    match (b64_decode_of(nonce_text), b64_decode_of(data_text)) {
        (Some(nonce), Some(data)) => {
            if !key_fits(key) {
                Err(CryptoError::KeyError)
            } else if nonce.len() != NONCE_LEN as nat || data.len() > MAX_MSG_LEN as nat
                + TAG_LEN as nat {
                Err(CryptoError::AuthenticationError)
            } else if exists|m: Seq<u8>| data == seal_of(pad_key_spec(key), nonce, m) {
                let m = choose|m: Seq<u8>| data == seal_of(pad_key_spec(key), nonce, m);
                if valid_utf8(m) {
                    Ok(decode_utf8(m))
                } else {
                    Err(CryptoError::EncodingError)
                }
            } else {
                Err(CryptoError::AuthenticationError)
            }
        },
        _ => Err(CryptoError::DecodeError),
    }
}

/// Relies on `String::from_utf8`: it succeeds exactly on valid UTF-8 input
/// and returns the string whose UTF-8 encoding is that input.
#[verifier::external_body]
fn bytes_to_string(b: Vec<u8>) -> (r: Option<String>)
    ensures
        r matches Some(s) ==> valid_utf8(b@) && encode_utf8(s@) == b@,
        valid_utf8(b@) ==> r is Some,
{
    match String::from_utf8(b) {
        Ok(s) => Some(s),
        Err(_) => None,
    }
}

/// Encrypts `data` under `key` with the given fresh nonce, deterministically.
///
/// This is the whole of `encrypt` once the nonce is fixed: callers that need
/// an outcome pinned to its inputs (rather than to a random draw) use it
/// directly.
pub fn encrypt_with_nonce(key: &[u8], nonce: &[u8], data: &str) -> (r: Result<
    EncryptedAPIObject,
    CryptoError,
>)
    requires
        nonce@.len() == NONCE_LEN as nat,
        encode_utf8(data@).len() <= MAX_MSG_LEN as nat,
    ensures
        match r {
            Ok(env) => key_ok(key@) && env.nonce@ == b64_encode_spec(nonce@) && env.data@
                == b64_encode_spec(seal_of(pad_key_spec(key@), nonce@, encode_utf8(data@)))
                && is_encryption_of(key@, env.nonce@, env.data@, data@),
            Err(e) => e == CryptoError::KeyError && !key_ok(key@),
        },
{
    if key.len() == 0 || key.len() > KEY_LEN {
        return Err(CryptoError::KeyError);
    }
    let padded = pad_key_as_needed(key);
    let sealed = match aead_seal(padded.as_slice(), nonce, data.as_bytes()) {
        Some(c) => c,
        None => unreached(),
    };
    let env = EncryptedAPIObject { nonce: b64_encode(nonce), data: b64_encode(sealed.as_slice()) };
    proof {
        assert(is_encryption_of(key@, env.nonce@, env.data@, data@));
    }
    Ok(env)
}

/// Encrypts `data` under `key`: draws a fresh 12-byte nonce from the secure
/// random source, zero-pads a short key, seals with empty associated data and
/// text-encodes both parts.
///
/// Succeeds exactly when the key is usable and entropy could be drawn; two
/// calls draw independent nonces.
pub fn encrypt(key: &[u8], data: &str) -> (r: Result<EncryptedAPIObject, CryptoError>)
    requires
        encode_utf8(data@).len() <= MAX_MSG_LEN as nat,
    ensures
        match r {
            Ok(env) => key_ok(key@) && is_encryption_of(key@, env.nonce@, env.data@, data@),
            Err(e) => (e == CryptoError::KeyError && !key_ok(key@)) || (e
                == CryptoError::RandomSourceError && key_ok(key@)),
        },
{
    if key.len() == 0 || key.len() > KEY_LEN {
        return Err(CryptoError::KeyError);
    }
    let nonce = match random_bytes(NONCE_LEN) {
        Some(n) => n,
        None => {
            return Err(CryptoError::RandomSourceError);
        },
    };
    encrypt_with_nonce(key, nonce.as_slice(), data)
}

/// Decrypts an envelope under `key`: decodes both fields, zero-pads a short
/// key — the empty one included, which pads to the all-zero key — opens the
/// sealed buffer (verifying the tag) and interprets the recovered bytes as
/// UTF-8.
///
/// The first clause pins the outcome exactly to `decrypt_spec`; the second is
/// the round trip: whatever `encrypt` produced from `plain` under this key
/// comes back as `Ok(plain)`.
pub fn decrypt(key: &[u8], obj: &EncryptedAPIObject) -> (r: Result<String, CryptoError>)
    ensures
        (match r {
            Ok(p) => decrypt_spec(key@, obj.nonce@, obj.data@) == Ok::<Seq<char>, CryptoError>(p@),
            Err(e) => decrypt_spec(key@, obj.nonce@, obj.data@) == Err::<Seq<char>, CryptoError>(e),
        }),
        forall|plain: Seq<char>|
            key_fits(key@) && encode_utf8(plain).len() <= MAX_MSG_LEN as nat && is_encryption_of(
                key@,
                obj.nonce@,
                obj.data@,
                plain,
            ) ==> (r matches Ok(q) && q@ == plain),
{
    let nonce = match b64_decode(obj.nonce.as_str()) {
        Some(n) => n,
        None => {
            return Err(CryptoError::DecodeError);
        },
    };
    let data = match b64_decode(obj.data.as_str()) {
        Some(d) => d,
        None => {
            return Err(CryptoError::DecodeError);
        },
    };
    if key.len() > KEY_LEN {
        return Err(CryptoError::KeyError);
    }
    if nonce.len() != NONCE_LEN || data.len() > MAX_MSG_LEN + TAG_LEN {
        return Err(CryptoError::AuthenticationError);
    }
    let padded = pad_key_as_needed(key);
    let opened = match aead_open(padded.as_slice(), nonce.as_slice(), data.as_slice()) {
        Some(m) => m,
        None => {
            return Err(CryptoError::AuthenticationError);
        },
    };
    match bytes_to_string(opened) {
        Some(s) => Ok(s),
        None => Err(CryptoError::EncodingError),
    }
}

/// Key padding law: a key that fits the cipher — the empty key included —
/// and its zero-padded form are the same key to this codec: they make the
/// same envelopes and decrypt every envelope to the same outcome.
pub proof fn lemma_key_padding(key: Seq<u8>)
    requires
        key_fits(key),
    ensures
        key_ok(pad_key_spec(key)),
        pad_key_spec(pad_key_spec(key)) == pad_key_spec(key),
        forall|nt: Seq<char>, dt: Seq<char>, p: Seq<char>|
            is_encryption_of(key, nt, dt, p) <==> is_encryption_of(pad_key_spec(key), nt, dt, p),
        forall|nt: Seq<char>, dt: Seq<char>|
            decrypt_spec(key, nt, dt) == decrypt_spec(pad_key_spec(key), nt, dt),
{
    crate::keys::lemma_pad_key_idempotent(key);
}

} // verus!
