//! Symmetric authenticated-encryption envelope codec.
//!
//! Encrypts and decrypts UTF-8 strings and JSON values with ChaCha20-Poly1305
//! (a 256-bit key, a 96-bit nonce and a 128-bit tag), producing a
//! transport-safe envelope whose nonce and ciphertext-plus-tag are carried as
//! standard padded base64 text.

pub mod b64;
pub mod cipher;
pub mod codec;
pub mod errors;
pub mod keys;
pub mod object;

pub use codec::{decrypt, encrypt, encrypt_with_nonce, EncryptedAPIObject};
pub use errors::CryptoError;
pub use object::{decrypt_obj, encrypt_obj, encrypt_serialized};
