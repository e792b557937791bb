use vstd::prelude::*;
use vstd::utf8::encode_utf8;
use crate::cipher::MAX_MSG_LEN;
use crate::codec::{decrypt, decrypt_spec, encrypt, is_encryption_of, EncryptedAPIObject};
use crate::errors::CryptoError;
use crate::keys::{key_ok, KEY_LEN};

verus! {

#[verifier::external_type_specification]
#[verifier::external_body]
pub struct ExJsonValue(serde_json::Value);

/// Whether a text parses as a JSON value.
pub uninterp spec fn json_parses(s: Seq<char>) -> bool;

/// Relies on `serde_json::to_string` for `Value`: it renders the value as
/// JSON text. The value is opaque here, so nothing is claimed of the text.
#[verifier::external_body]
fn json_to_string(v: &serde_json::Value) -> (r: Option<String>) {
    serde_json::to_string(v).ok()
}

/// Relies on `serde_json::from_str` for `Value`: it parses JSON text into a
/// value, failing on malformed syntax, deterministically in the text alone —
/// that success is the name `json_parses`. The value is opaque here.
#[verifier::external_body]
fn json_from_str(s: &str) -> (r: Option<serde_json::Value>)
    ensures
        r is Some <==> json_parses(s@),
{
    serde_json::from_str(s).ok()
}

/// Encrypts an already serialized text under `key`, gating its size: a text
/// too large to seal is reported as `SerializationError`, exactly when its
/// UTF-8 form exceeds the sealing cap.
pub fn encrypt_serialized(key: &[u8], s: &str) -> (r: Result<EncryptedAPIObject, CryptoError>)
    ensures
        match r {
            Ok(env) => key_ok(key@) && encode_utf8(s@).len() <= MAX_MSG_LEN as nat
                && is_encryption_of(key@, env.nonce@, env.data@, s@),
            Err(e) => (e == CryptoError::KeyError && !key_ok(key@)) || (e
                == CryptoError::SerializationError && key_ok(key@) && encode_utf8(s@).len()
                > MAX_MSG_LEN as nat) || (e == CryptoError::RandomSourceError && key_ok(key@)
                && encode_utf8(s@).len() <= MAX_MSG_LEN as nat),
        },
{
    if key.len() == 0 || key.len() > KEY_LEN {
        return Err(CryptoError::KeyError);
    }
    if s.as_bytes().len() > MAX_MSG_LEN {
        return Err(CryptoError::SerializationError);
    }
    encrypt(key, s)
}

/// Serializes a JSON value to text and encrypts that text under `key`.
///
/// A value whose serialization exceeds the size this codec seals cannot be
/// serialized by it and is reported as `SerializationError`; the size gate
/// itself is stated and verified on `encrypt_serialized`.
pub fn encrypt_obj(key: &[u8], obj: &serde_json::Value) -> (r: Result<
    EncryptedAPIObject,
    CryptoError,
>)
    ensures
        r matches Ok(env) ==> key_ok(key@) && (exists|s: Seq<char>|
            #![auto]
            encode_utf8(s).len() <= MAX_MSG_LEN as nat && is_encryption_of(
                key@,
                env.nonce@,
                env.data@,
                s,
            )),
        r matches Err(e) ==> e == CryptoError::SerializationError || (e == CryptoError::KeyError
            && !key_ok(key@)) || (e == CryptoError::RandomSourceError && key_ok(key@)),
{
    let s = match json_to_string(obj) {
        Some(s) => s,
        None => {
            return Err(CryptoError::SerializationError);
        },
    };
    encrypt_serialized(key, s.as_str())
}

/// Decrypts an envelope under `key` and parses the recovered text as a JSON
/// value.
///
/// Fails exactly as `decrypt` does on the envelope itself; when decryption
/// recovers a text, the result is `Ok` exactly when that text parses, and
/// `DeserializationError` exactly when it does not.
pub fn decrypt_obj(key: &[u8], api_obj: &EncryptedAPIObject) -> (r: Result<
    serde_json::Value,
    CryptoError,
>)
    ensures
        r matches Ok(v) ==> (decrypt_spec(key@, api_obj.nonce@, api_obj.data@) matches Ok(t)
            && json_parses(t)),
        r matches Err(e) ==> if e == CryptoError::DeserializationError {
            decrypt_spec(key@, api_obj.nonce@, api_obj.data@) matches Ok(t) && !json_parses(t)
        } else {
            decrypt_spec(key@, api_obj.nonce@, api_obj.data@) == Err::<Seq<char>, CryptoError>(e)
        },
        (decrypt_spec(key@, api_obj.nonce@, api_obj.data@) matches Ok(t) && json_parses(t)) ==> r
            is Ok,
{
    let s = match decrypt(key, api_obj) {
        Ok(s) => s,
        Err(e) => {
            return Err(e);
        },
    };
    match json_from_str(s.as_str()) {
        Some(v) => Ok(v),
        None => Err(CryptoError::DeserializationError),
    }
}

} // verus!
