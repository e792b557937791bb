use aead_envelope::{
    decrypt, decrypt_obj, encrypt, encrypt_obj, encrypt_with_nonce, CryptoError,
    EncryptedAPIObject,
};
use rustc_serialize::base64::{ToBase64, STANDARD};

#[test]
fn encrypt_decrypt_data() {
    let api_obj = encrypt(
        "foobarfoobar1234foobarfoobar1234".to_owned().as_bytes(),
        "123456789abcdef0",
    )
    .unwrap();
    let data = decrypt(
        "foobarfoobar1234foobarfoobar1234".to_owned().as_bytes(),
        &api_obj,
    )
    .unwrap();
    assert_eq!(data, "123456789abcdef0");
}

#[test]
fn encrypt_decrypt_objects() {
    let mut map = serde_json::Map::new();
    map.insert("x".to_owned(), serde_json::Value::from(1i64));
    map.insert("y".to_owned(), serde_json::Value::from(2i64));
    let point = serde_json::Value::Object(map);

    let api_obj = encrypt_obj("foobar".to_owned().as_bytes(), &point).unwrap();
    let point_out = decrypt_obj("foobar".to_owned().as_bytes(), &api_obj).unwrap();
    assert_eq!(point_out.get("x").and_then(|v| v.as_i64()), Some(1));
    assert_eq!(point_out.get("y").and_then(|v| v.as_i64()), Some(2));
}

#[test]
fn pad_keys() {
    let api_obj = encrypt("foobar".to_owned().as_bytes(), "123456789abcdef0").unwrap();
    let data = decrypt("foobar".to_owned().as_bytes(), &api_obj).unwrap();
    assert_eq!(data, "123456789abcdef0");
}

#[test]
fn short_key_and_its_padded_form_are_interchangeable() {
    let short: &[u8] = b"foobar";
    let mut padded: Vec<u8> = short.to_vec();
    padded.resize(32, 0u8);

    let env = encrypt(short, "same key either way").unwrap();
    assert_eq!(decrypt(&padded, &env).unwrap(), "same key either way");

    let env2 = encrypt(&padded, "same key either way").unwrap();
    assert_eq!(decrypt(short, &env2).unwrap(), "same key either way");
}

#[test]
fn overlong_key_is_rejected() {
    let long_key = [7u8; 33];
    assert!(matches!(
        encrypt(&long_key, "data"),
        Err(CryptoError::KeyError)
    ));

    let env = encrypt(b"foobar", "data").unwrap();
    assert_eq!(decrypt(&long_key, &env), Err(CryptoError::KeyError));
}

#[test]
fn empty_key_is_rejected_for_encryption_only() {
    assert!(matches!(encrypt(b"", "data"), Err(CryptoError::KeyError)));

    // for decryption the empty key zero-pads like any other short key
    let zero_key = [0u8; 32];
    let env = encrypt(&zero_key, "padded all the way").unwrap();
    assert_eq!(decrypt(b"", &env).unwrap(), "padded all the way");
}

#[test]
fn fields_are_decoded_before_the_key_is_judged() {
    let bad = EncryptedAPIObject {
        nonce: "!!!".to_owned(),
        data: "!!!".to_owned(),
    };
    assert_eq!(decrypt(b"", &bad), Err(CryptoError::DecodeError));
    let long_key = [7u8; 33];
    assert_eq!(decrypt(&long_key, &bad), Err(CryptoError::DecodeError));
}

#[test]
fn fresh_nonce_every_call() {
    let key = b"foobarfoobar1234foobarfoobar1234";
    let a = encrypt(key, "123456789abcdef0").unwrap();
    let b = encrypt(key, "123456789abcdef0").unwrap();
    assert_ne!(a.nonce, b.nonce);
    assert_ne!(a.data, b.data);
}

#[test]
fn tampered_data_fails_authentication() {
    let key = b"foobarfoobar1234foobarfoobar1234";
    let mut env = encrypt(key, "123456789abcdef0").unwrap();
    let replacement = if env.data.starts_with('A') { "B" } else { "A" };
    env.data.replace_range(0..1, replacement);
    assert_eq!(decrypt(key, &env), Err(CryptoError::AuthenticationError));
}

#[test]
fn tampered_nonce_fails_authentication() {
    let key = b"foobarfoobar1234foobarfoobar1234";
    let mut env = encrypt(key, "123456789abcdef0").unwrap();
    let replacement = if env.nonce.starts_with('A') { "B" } else { "A" };
    env.nonce.replace_range(0..1, replacement);
    assert_eq!(decrypt(key, &env), Err(CryptoError::AuthenticationError));
}

#[test]
fn wrong_key_fails_authentication() {
    let env = encrypt(b"foobarfoobar1234foobarfoobar1234", "123456789abcdef0").unwrap();
    assert_eq!(
        decrypt(b"other-key", &env),
        Err(CryptoError::AuthenticationError)
    );
}

#[test]
fn malformed_base64_is_a_decode_error() {
    let key = b"foobar";
    let good = encrypt(key, "x").unwrap();

    let bad_nonce = EncryptedAPIObject {
        nonce: "!!!".to_owned(),
        data: good.data.clone(),
    };
    assert_eq!(decrypt(key, &bad_nonce), Err(CryptoError::DecodeError));

    let bad_data = EncryptedAPIObject {
        nonce: good.nonce.clone(),
        data: "!!!".to_owned(),
    };
    assert_eq!(decrypt(key, &bad_data), Err(CryptoError::DecodeError));
}

#[test]
fn recovered_text_that_is_not_json_fails_deserialization() {
    let key = b"foobar";
    let env = encrypt(key, "this is not json").unwrap();
    assert_eq!(
        decrypt_obj(key, &env),
        Err(CryptoError::DeserializationError)
    );
}

#[test]
fn non_ascii_plaintext_round_trips() {
    let key = b"foobar";
    let plain = "caf\u{e9} \u{2603} \u{1f512}";
    let env = encrypt(key, plain).unwrap();
    assert_eq!(decrypt(key, &env).unwrap(), plain);
}

#[test]
fn externally_sealed_envelope_decrypts() {
    let mut key_bytes = b"foobar".to_vec();
    key_bytes.resize(32, 0u8);
    let unbound = ring::aead::UnboundKey::new(&ring::aead::CHACHA20_POLY1305, &key_bytes).unwrap();
    let sealing = ring::aead::LessSafeKey::new(unbound);
    let nonce = [5u8; 12];
    let mut buf: Vec<u8> = b"hello".to_vec();
    sealing
        .seal_in_place_append_tag(
            ring::aead::Nonce::assume_unique_for_key(nonce),
            ring::aead::Aad::empty(),
            &mut buf,
        )
        .unwrap();
    let env = EncryptedAPIObject {
        nonce: (&nonce[..]).to_base64(STANDARD),
        data: (&buf[..]).to_base64(STANDARD),
    };
    // the short key pads to the very key the envelope was sealed under
    assert_eq!(decrypt(b"foobar", &env).unwrap(), "hello");
}

#[test]
fn recovered_bytes_that_are_not_utf8_fail_encoding() {
    let mut key_bytes = b"foobar".to_vec();
    key_bytes.resize(32, 0u8);
    let unbound = ring::aead::UnboundKey::new(&ring::aead::CHACHA20_POLY1305, &key_bytes).unwrap();
    let sealing = ring::aead::LessSafeKey::new(unbound);
    let nonce = [5u8; 12];
    let mut buf: Vec<u8> = vec![0xff, 0xfe, 0x00, 0x80];
    sealing
        .seal_in_place_append_tag(
            ring::aead::Nonce::assume_unique_for_key(nonce),
            ring::aead::Aad::empty(),
            &mut buf,
        )
        .unwrap();
    let env = EncryptedAPIObject {
        nonce: (&nonce[..]).to_base64(STANDARD),
        data: (&buf[..]).to_base64(STANDARD),
    };
    assert_eq!(decrypt(b"foobar", &env), Err(CryptoError::EncodingError));
}

#[test]
fn fixed_nonce_makes_encryption_deterministic() {
    let key = b"foobarfoobar1234foobarfoobar1234";
    let nonce = [3u8; 12];
    let a = encrypt_with_nonce(key, &nonce, "123456789abcdef0").unwrap();
    let b = encrypt_with_nonce(key, &nonce, "123456789abcdef0").unwrap();
    assert_eq!(a.nonce, b.nonce);
    assert_eq!(a.data, b.data);
    assert_eq!(decrypt(key, &a).unwrap(), "123456789abcdef0");
}

#[test]
fn envelope_fields_are_base64_of_nonce_and_sealed_bytes() {
    let key = b"foobarfoobar1234foobarfoobar1234";
    let nonce = [9u8; 12];
    let plain = "123456789abcdef0";
    let env = encrypt_with_nonce(key, &nonce, plain).unwrap();

    assert_eq!(env.nonce, (&nonce[..]).to_base64(STANDARD));
    assert_eq!(env.nonce.len(), 16);
    // the data field holds ciphertext plus a 16-byte tag, never the plaintext
    assert_ne!(env.data, plain.as_bytes().to_base64(STANDARD));
    assert_eq!(env.data.len(), 4 * ((plain.len() + 16 + 2) / 3));
}
