use wasm_crypto::{
    decode, decode_exact, decrypt_data, derive_key, encode, encrypt_credentials, encrypt_data,
    seal_credentials, CipherError, DecodingError, EncryptedData,
};

const ZERO_IV: &str = "AAAAAAAAAAAAAAAA";

fn ascending(n: u8) -> Vec<u8> {
    (0..n).collect()
}

#[test]
fn test_encrypt_credentials() {
    let username = "testuser";
    let password = "testpass";

    let result = encrypt_credentials(username, password);
    assert!(result.is_ok());
}

#[test]
fn encode_writes_padded_standard_base64() {
    assert_eq!(encode(b""), "");
    assert_eq!(encode(b"f"), "Zg==");
    assert_eq!(encode(b"fo"), "Zm8=");
    assert_eq!(encode(b"foo"), "Zm9v");
    assert_eq!(encode(b"foobar"), "Zm9vYmFy");
    assert_eq!(encode(&[0xfb, 0xff]), "+/8=");
    assert_eq!(encode(&[0u8; 12]), ZERO_IV);
    assert_eq!(encode(&[0u8; 32]).len(), 44);
}

#[test]
fn decode_reads_what_encode_wrote() {
    for n in [0u8, 1, 2, 3, 4, 12, 31, 32, 33, 255] {
        let bytes = ascending(n);
        assert_eq!(decode(&encode(&bytes)), Ok(bytes));
    }
}

#[test]
fn decode_refuses_malformed_text() {
    assert_eq!(decode("Zg"), Err(DecodingError::Malformed));
    assert_eq!(decode("Zg="), Err(DecodingError::Malformed));
    assert_eq!(decode("Z"), Err(DecodingError::Malformed));
    assert_eq!(decode("Zm9v!"), Err(DecodingError::Malformed));
    assert_eq!(decode("Zm 9v"), Err(DecodingError::Malformed));
    assert_eq!(decode("-_8="), Err(DecodingError::Malformed));
    assert_eq!(decode("Zh=="), Err(DecodingError::Malformed));
}

#[test]
fn decode_exact_checks_the_length() {
    assert_eq!(decode_exact(ZERO_IV, 12), Ok(vec![0u8; 12]));
    assert_eq!(
        decode_exact(ZERO_IV, 32),
        Err(DecodingError::WrongLength { expected: 32, actual: 12 })
    );
    assert_eq!(decode_exact("", 12), Err(DecodingError::WrongLength { expected: 12, actual: 0 }));
    assert_eq!(decode_exact("", 0), Ok(vec![]));
    assert_eq!(decode_exact("****", 12), Err(DecodingError::Malformed));
}

#[test]
fn encrypt_data_matches_the_published_vector() {
    let plaintext = "\0\0\0\0\0\0\0\0\0\0\0\0\0\0\0\0";
    assert_eq!(
        encrypt_data(plaintext, &[0u8; 32], ZERO_IV),
        Ok(String::from("zqdAPU1ga24HTsXTuvOdGNDRyKeZmWvwJluYtdSKuRk="))
    );
    assert_eq!(
        encrypt_data("", &[0u8; 32], ZERO_IV),
        Ok(String::from("Uw+K+8dFNrmpY7TxxMtziw=="))
    );
}

#[test]
fn decrypt_data_opens_the_published_vector() {
    assert_eq!(
        decrypt_data("zqdAPU1ga24HTsXTuvOdGNDRyKeZmWvwJluYtdSKuRk=", &[0u8; 32], ZERO_IV),
        Ok(vec![0u8; 16])
    );
    assert_eq!(decrypt_data("Uw+K+8dFNrmpY7TxxMtziw==", &[0u8; 32], ZERO_IV), Ok(vec![]));
}

#[test]
fn sealed_text_is_sixteen_bytes_longer() {
    for text in ["", "a", "testuser", "pässwörd", "a much longer text that spans several blocks"] {
        let sealed = encrypt_data(text, &[3u8; 32], ZERO_IV).unwrap();
        assert_eq!(decode(&sealed).unwrap().len(), text.len() + 16);
    }
}

#[test]
fn encrypt_data_refuses_a_key_of_another_length() {
    assert_eq!(encrypt_data("x", &[0u8; 31], ZERO_IV), Err(CipherError::Key { length: 31 }));
    assert_eq!(encrypt_data("x", &[0u8; 33], ZERO_IV), Err(CipherError::Key { length: 33 }));
    assert_eq!(encrypt_data("x", &[0u8; 16], ZERO_IV), Err(CipherError::Key { length: 16 }));
    assert_eq!(encrypt_data("x", &[], ZERO_IV), Err(CipherError::Key { length: 0 }));
}

#[test]
fn encrypt_data_looks_at_the_key_before_the_nonce() {
    assert_eq!(encrypt_data("x", &[0u8; 5], "?"), Err(CipherError::Key { length: 5 }));
    assert_eq!(decrypt_data("?", &[0u8; 5], "?"), Err(CipherError::Key { length: 5 }));
}

#[test]
fn encrypt_data_refuses_a_malformed_nonce() {
    assert_eq!(
        encrypt_data("x", &[0u8; 32], "not base64"),
        Err(CipherError::Decode(DecodingError::Malformed))
    );
}

#[test]
fn encrypt_data_refuses_a_nonce_of_another_length() {
    assert_eq!(
        encrypt_data("x", &[0u8; 32], &encode(&[0u8; 11])),
        Err(CipherError::Decode(DecodingError::WrongLength { expected: 12, actual: 11 }))
    );
    assert_eq!(
        encrypt_data("x", &[0u8; 32], &encode(&[0u8; 16])),
        Err(CipherError::Decode(DecodingError::WrongLength { expected: 12, actual: 16 }))
    );
    assert_eq!(
        encrypt_data("x", &[0u8; 32], ""),
        Err(CipherError::Decode(DecodingError::WrongLength { expected: 12, actual: 0 }))
    );
}

#[test]
fn decrypt_data_refuses_malformed_arguments() {
    let sealed = encrypt_data("x", &[0u8; 32], ZERO_IV).unwrap();
    assert_eq!(decrypt_data(&sealed, &[0u8; 12], ZERO_IV), Err(CipherError::Key { length: 12 }));
    assert_eq!(
        decrypt_data(&sealed, &[0u8; 32], "@@@@"),
        Err(CipherError::Decode(DecodingError::Malformed))
    );
    assert_eq!(
        decrypt_data(&sealed, &[0u8; 32], &encode(&[0u8; 13])),
        Err(CipherError::Decode(DecodingError::WrongLength { expected: 12, actual: 13 }))
    );
    assert_eq!(
        decrypt_data("@@@@", &[0u8; 32], ZERO_IV),
        Err(CipherError::Decode(DecodingError::Malformed))
    );
}

#[test]
fn decrypt_data_refuses_what_is_shorter_than_a_tag() {
    assert_eq!(decrypt_data("", &[0u8; 32], ZERO_IV), Err(CipherError::Authentication));
    assert_eq!(
        decrypt_data(&encode(&[0u8; 15]), &[0u8; 32], ZERO_IV),
        Err(CipherError::Authentication)
    );
}

#[test]
fn decrypt_data_refuses_another_key_or_nonce() {
    let sealed = encrypt_data("testuser", &[1u8; 32], ZERO_IV).unwrap();
    assert_eq!(decrypt_data(&sealed, &[1u8; 32], ZERO_IV), Ok(b"testuser".to_vec()));
    assert_eq!(decrypt_data(&sealed, &[2u8; 32], ZERO_IV), Err(CipherError::Authentication));
    assert_eq!(
        decrypt_data(&sealed, &[1u8; 32], &encode(&[1u8; 12])),
        Err(CipherError::Authentication)
    );
}

#[test]
fn flipping_any_bit_of_a_sealed_field_fails_authentication() {
    let key = [9u8; 32];
    let sealed = decode(&encrypt_data("testuser", &key, ZERO_IV).unwrap()).unwrap();
    assert_eq!(sealed.len(), 24);
    for position in 0..sealed.len() {
        for bit in 0..8 {
            let mut tampered = sealed.clone();
            tampered[position] ^= 1 << bit;
            assert_eq!(
                decrypt_data(&encode(&tampered), &key, ZERO_IV),
                Err(CipherError::Authentication)
            );
        }
    }
}

#[test]
fn seal_credentials_gives_the_expected_envelope() {
    let salt: [u8; 32] = ascending(32).try_into().unwrap();
    let iv: [u8; 12] = ascending(12).try_into().unwrap();
    let envelope = seal_credentials("testuser", "testpass", &salt, &iv).unwrap();
    assert_eq!(envelope.encrypted_username, "BEWgZzsLoZ6BwnB9PA9Sa70WWjH5hdQs");
    assert_eq!(envelope.encrypted_password, "BEWgZz4Zt5/bL4cVNrbH8OId8f+Z2wcs");
    assert_eq!(envelope.salt, "AAECAwQFBgcICQoLDA0ODxAREhMUFRYXGBkaGxwdHh8=");
    assert_eq!(envelope.iv, "AAECAwQFBgcICQoL");
}

#[test]
fn seal_credentials_is_a_function_of_its_arguments() {
    let salt = [5u8; 32];
    let iv = [6u8; 12];
    let first = seal_credentials("user", "pass", &salt, &iv).unwrap();
    let second = seal_credentials("user", "pass", &salt, &iv).unwrap();
    assert_eq!(first.encrypted_username, second.encrypted_username);
    assert_eq!(first.encrypted_password, second.encrypted_password);
    assert_eq!(first.salt, second.salt);
    assert_eq!(first.iv, second.iv);
    let other = seal_credentials("user", "pass", &[4u8; 32], &iv).unwrap();
    assert_ne!(first.encrypted_username, other.encrypted_username);
}

#[test]
fn envelope_fields_are_base64_of_the_right_sizes() {
    for (username, password) in [("testuser", "testpass"), ("", ""), ("üser", "pässwörd")] {
        let envelope = encrypt_credentials(username, password).unwrap();
        assert!(envelope.is_well_formed());
        assert_eq!(envelope.salt_bytes().unwrap().len(), 32);
        assert_eq!(envelope.iv_bytes().unwrap().len(), 12);
        assert_eq!(decode(&envelope.salt).unwrap().len(), 32);
        assert_eq!(decode(&envelope.iv).unwrap().len(), 12);
        assert_eq!(decode(&envelope.encrypted_username).unwrap().len(), username.len() + 16);
        assert_eq!(decode(&envelope.encrypted_password).unwrap().len(), password.len() + 16);
    }
}

#[test]
fn envelope_opens_to_the_credentials() {
    for (username, password) in [("testuser", "testpass"), ("", ""), ("üser", "pässwörd")] {
        let envelope = encrypt_credentials(username, password).unwrap();
        let salt = envelope.salt_bytes().unwrap();
        let key = derive_key(password, &salt);
        assert_eq!(
            decrypt_data(&envelope.encrypted_username, &key, &envelope.iv),
            Ok(username.as_bytes().to_vec())
        );
        assert_eq!(
            decrypt_data(&envelope.encrypted_password, &key, &envelope.iv),
            Ok(password.as_bytes().to_vec())
        );
    }
}

#[test]
fn envelope_does_not_open_under_another_password() {
    let envelope = encrypt_credentials("testuser", "testpass").unwrap();
    let key = derive_key("wrongpass", &envelope.salt_bytes().unwrap());
    assert_eq!(
        decrypt_data(&envelope.encrypted_username, &key, &envelope.iv),
        Err(CipherError::Authentication)
    );
}

#[test]
fn tampered_envelope_fails_authentication() {
    let envelope = encrypt_credentials("testuser", "testpass").unwrap();
    let key = derive_key("testpass", &envelope.salt_bytes().unwrap());
    let sealed = decode(&envelope.encrypted_password).unwrap();
    for position in 0..sealed.len() {
        let mut tampered = sealed.clone();
        tampered[position] ^= 0x80;
        assert_eq!(
            decrypt_data(&encode(&tampered), &key, &envelope.iv),
            Err(CipherError::Authentication)
        );
    }
}

#[test]
fn successive_envelopes_are_fresh() {
    let first = encrypt_credentials("testuser", "testpass").unwrap();
    let second = encrypt_credentials("testuser", "testpass").unwrap();
    assert_ne!(first.salt, second.salt);
    assert_ne!(first.iv, second.iv);
    assert_ne!(first.encrypted_username, second.encrypted_username);
    assert_ne!(first.encrypted_password, second.encrypted_password);
}

#[test]
fn malformed_envelope_is_told_apart() {
    let good = encrypt_credentials("testuser", "testpass").unwrap();
    let short_salt = EncryptedData {
        encrypted_username: good.encrypted_username.clone(),
        encrypted_password: good.encrypted_password.clone(),
        salt: encode(&[0u8; 31]),
        iv: good.iv.clone(),
    };
    assert!(!short_salt.is_well_formed());
    assert_eq!(
        short_salt.salt_bytes(),
        Err(DecodingError::WrongLength { expected: 32, actual: 31 })
    );
    let long_iv = EncryptedData {
        encrypted_username: good.encrypted_username.clone(),
        encrypted_password: good.encrypted_password.clone(),
        salt: good.salt.clone(),
        iv: encode(&[0u8; 16]),
    };
    assert!(!long_iv.is_well_formed());
    assert_eq!(long_iv.iv_bytes(), Err(DecodingError::WrongLength { expected: 12, actual: 16 }));
    let broken = EncryptedData {
        encrypted_username: String::from("%%%"),
        encrypted_password: good.encrypted_password.clone(),
        salt: good.salt.clone(),
        iv: good.iv.clone(),
    };
    assert!(!broken.is_well_formed());
    assert_eq!(broken.salt_bytes().map(|salt| salt.len()), Ok(32));
}
