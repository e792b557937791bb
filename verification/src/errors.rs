use vstd::prelude::*;

verus! {

/// Every way an envelope operation can fail.
///
/// `AuthenticationError` deliberately covers tampered ciphertext, a wrong key
/// and a corrupted nonce alike: distinguishing them would hand an attacker a
/// decryption oracle.
#[derive(Clone, Copy, Debug, PartialEq, Eq, Structural)]
pub enum CryptoError {
    /// The key cannot be used: longer than the cipher's key length, or (for
    /// encryption only) empty.
    KeyError,
    /// The secure random source failed to produce a nonce; fatal, never retried.
    RandomSourceError,
    /// An envelope field is not decodable base64 text.
    DecodeError,
    /// The authentication tag did not verify: tampering, a wrong key, or a bad nonce.
    AuthenticationError,
    /// The recovered plaintext bytes are not valid UTF-8.
    EncodingError,
    /// The value could not be serialized, or its serialization is too large to seal.
    SerializationError,
    /// The recovered text does not parse as a JSON value.
    DeserializationError,
}

} // verus!
