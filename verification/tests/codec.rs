use encryption::container::{frame, unframe, HEADER};
use encryption::credentials::{Credentials, InvalidCredentials};
use encryption::decrypt::{decrypt, decrypt_data};
use encryption::encrypt::{encrypt, encrypt_data};
use encryption::error::{CryptError, KdfError};
use encryption::metadata::EncryptedInfo;
use encryption::params::Argon2Params;

const MAGIC: [u8; 8] = [0x6E, 0x43, 0x72, 0x79, 0x70, 0x74, 0x31, 0x00];

fn creds(username: &str, password: &str) -> Credentials {
    Credentials::new(username.to_string(), password.to_string(), password.to_string())
}

fn cheap() -> Argon2Params {
    Argon2Params::new(64, 1, 1, 32)
}

fn meta_len(blob: &[u8]) -> usize {
    u32::from_le_bytes([blob[8], blob[9], blob[10], blob[11]]) as usize
}

#[test]
fn can_encrypt() {
    let some_data = vec![1, 2, 3, 4, 5, 6, 7, 8, 9, 10];
    let credentials = Credentials::new(
        "username".to_string(),
        "password".to_string(),
        "password".to_string(),
    );
    let argon_params = Argon2Params::very_fast();

    let encrypted_data = encrypt_data(argon_params, some_data.clone(), credentials.clone())
        .expect("Failed to encrypt data");

    assert_eq!(&encrypted_data[..8], &MAGIC);

    let decrypted_data = decrypt_data(encrypted_data, credentials).expect("Failed to decrypt data");

    assert_eq!(some_data, decrypted_data);
}

#[test]
fn header_is_the_magic() {
    assert_eq!(HEADER, MAGIC);
    assert_eq!(&HEADER, b"nCrypt1\0");
}

#[test]
fn empty_plaintext_round_trips() {
    let credentials = creds("username", "password");
    let blob = encrypt_data(cheap(), Vec::new(), credentials.clone()).unwrap();
    assert_eq!(blob.len(), 12 + meta_len(&blob) + 16);
    assert_eq!(decrypt_data(blob, credentials), Ok(Vec::new()));
}

#[test]
fn metadata_of_a_fresh_container_is_82_bytes() {
    let blob = encrypt_data(cheap(), vec![7; 5], creds("u", "p")).unwrap();
    assert_eq!(meta_len(&blob), 8 + 22 + 8 + 24 + 4 + 4 + 4 + 8);
    assert_eq!(blob.len(), 12 + 82 + 5 + 16);
}

#[test]
fn large_plaintext_round_trips() {
    let mut state: u32 = 0x1234_5678;
    let mut data = Vec::with_capacity(16 * 1024 * 1024);
    for _ in 0..16 * 1024 * 1024 {
        state = state.wrapping_mul(1_664_525).wrapping_add(1_013_904_223);
        data.push((state >> 24) as u8);
    }
    let credentials = creds("username", "password");
    let blob = encrypt_data(Argon2Params::fast(), data.clone(), credentials.clone()).unwrap();
    assert_eq!(blob.len(), 12 + 82 + data.len() + 16);
    let back = decrypt_data(blob, credentials).unwrap();
    assert!(back == data);
}

#[test]
fn password_mismatch_is_refused_by_encrypt_data() {
    let credentials = Credentials::new("u".to_string(), "p".to_string(), "q".to_string());
    assert_eq!(credentials.is_valid(), Err(InvalidCredentials::PasswordMismatch));
    assert_eq!(
        encrypt_data(Argon2Params::very_fast(), vec![1, 2, 3], credentials),
        Err(CryptError::InvalidCredentials(InvalidCredentials::PasswordMismatch))
    );
}

#[test]
fn each_credential_defect_is_refused_by_both_directions() {
    let cases = [
        (("", "p", "p"), InvalidCredentials::EmptyUsername),
        (("u", "", "p"), InvalidCredentials::EmptyPassword),
        (("u", "p", ""), InvalidCredentials::EmptyConfirm),
        (("u", "p", "q"), InvalidCredentials::PasswordMismatch),
    ];
    let blob = encrypt_data(cheap(), vec![1], creds("u", "p")).unwrap();
    for ((u, p, c), reason) in cases {
        let bad = Credentials::new(u.to_string(), p.to_string(), c.to_string());
        assert_eq!(
            encrypt_data(cheap(), vec![1], bad.clone()),
            Err(CryptError::InvalidCredentials(reason))
        );
        assert_eq!(
            decrypt_data(blob.clone(), bad.clone()),
            Err(CryptError::InvalidCredentials(reason))
        );
        assert_eq!(
            decrypt_data(vec![0; 3], bad),
            Err(CryptError::InvalidCredentials(reason))
        );
    }
}

#[test]
fn wrong_password_is_an_aead_failure() {
    let blob = encrypt_data(cheap(), vec![1, 2, 3], creds("username", "hunter2")).unwrap();
    assert_eq!(decrypt_data(blob, creds("username", "hunter3")), Err(CryptError::AeadFailure));
}

#[test]
fn wrong_username_is_an_aead_failure() {
    let blob = encrypt_data(cheap(), vec![1, 2, 3], creds("alice", "hunter2")).unwrap();
    assert_eq!(decrypt_data(blob.clone(), creds("alicf", "hunter2")), Err(CryptError::AeadFailure));
    assert_eq!(decrypt_data(blob, creds("alice", "hunter2")), Ok(vec![1, 2, 3]));
}

#[test]
fn flipping_the_last_byte_is_an_aead_failure() {
    let credentials = creds("username", "password");
    let mut blob = encrypt_data(cheap(), vec![1, 2, 3, 4], credentials.clone()).unwrap();
    let last = blob.len() - 1;
    blob[last] ^= 0x01;
    assert_eq!(decrypt_data(blob, credentials), Err(CryptError::AeadFailure));
}

#[test]
fn flipping_any_bit_of_the_ciphertext_is_an_aead_failure() {
    let credentials = creds("username", "password");
    let blob = encrypt_data(cheap(), vec![9, 8, 7], credentials.clone()).unwrap();
    let start = 12 + meta_len(&blob);
    for at in start..blob.len() {
        for bit in 0..8 {
            let mut altered = blob.clone();
            altered[at] ^= 1 << bit;
            assert_eq!(decrypt_data(altered, credentials.clone()), Err(CryptError::AeadFailure));
        }
    }
}

#[test]
fn flipping_a_bit_of_the_length_salt_or_nonce_never_opens() {
    let credentials = creds("username", "password");
    let blob = encrypt_data(cheap(), vec![9, 8, 7], credentials.clone()).unwrap();
    // the length of the metadata, the salt field and the nonce field
    let end = 12 + 8 + 22 + 8 + 24;
    for at in 8..end {
        let mut altered = blob.clone();
        altered[at] ^= 0x01;
        let result = decrypt_data(altered, credentials.clone());
        assert!(result.is_err());
        assert_ne!(result, Err(CryptError::BadMagic));
        assert_ne!(result, Err(CryptError::IoFailure));
    }
}

#[test]
fn flipping_the_lowest_bit_of_a_cost_never_opens() {
    let credentials = creds("username", "password");
    let blob = encrypt_data(cheap(), vec![9, 8, 7], credentials.clone()).unwrap();
    let costs = 12 + 8 + 22 + 8 + 24;
    let expected = [
        (costs, CryptError::AeadFailure),
        (costs + 4, CryptError::BadMetadata),
        (costs + 8, CryptError::BadMetadata),
        (costs + 12, CryptError::AeadFailure),
    ];
    for (at, failure) in expected {
        let mut altered = blob.clone();
        altered[at] ^= 0x01;
        assert_eq!(decrypt_data(altered, credentials.clone()), Err(failure));
    }
}

#[test]
fn altered_nonce_is_an_aead_failure() {
    let credentials = creds("username", "password");
    let mut blob = encrypt_data(cheap(), vec![9, 8, 7], credentials.clone()).unwrap();
    // the nonce starts after the prefix, the salt field and the nonce's length
    let at = 12 + 8 + 22 + 8;
    blob[at] ^= 0x80;
    assert_eq!(decrypt_data(blob, credentials), Err(CryptError::AeadFailure));
}

#[test]
fn bad_magic_is_reported_for_any_other_start() {
    let credentials = creds("username", "password");
    let blob = encrypt_data(cheap(), vec![1], credentials.clone()).unwrap();
    for at in 0..8 {
        let mut altered = blob.clone();
        altered[at] ^= 0x01;
        assert_eq!(decrypt_data(altered, credentials.clone()), Err(CryptError::BadMagic));
    }
    assert_eq!(decrypt_data(Vec::new(), credentials.clone()), Err(CryptError::BadMagic));
    assert_eq!(decrypt_data(vec![0x6E, 0x43, 0x72], credentials.clone()), Err(CryptError::BadMagic));
    assert_eq!(decrypt_data(b"nCrypt2\0rest of it".to_vec(), credentials), Err(CryptError::BadMagic));
}

#[test]
fn short_or_overlong_length_is_truncated() {
    let credentials = creds("username", "password");
    assert_eq!(decrypt_data(MAGIC.to_vec(), credentials.clone()), Err(CryptError::Truncated));
    let mut blob = MAGIC.to_vec();
    blob.extend_from_slice(&[1, 0, 0]);
    assert_eq!(decrypt_data(blob, credentials.clone()), Err(CryptError::Truncated));
    let mut blob = MAGIC.to_vec();
    blob.extend_from_slice(&5u32.to_le_bytes());
    blob.extend_from_slice(&[0; 4]);
    assert_eq!(decrypt_data(blob, credentials.clone()), Err(CryptError::Truncated));
    let mut blob = MAGIC.to_vec();
    blob.extend_from_slice(&u32::MAX.to_le_bytes());
    blob.extend_from_slice(&[0; 100]);
    assert_eq!(decrypt_data(blob, credentials), Err(CryptError::Truncated));
}

#[test]
fn metadata_that_does_not_parse_is_bad_metadata() {
    let credentials = creds("username", "password");
    let mut blob = MAGIC.to_vec();
    blob.extend_from_slice(&0u32.to_le_bytes());
    assert_eq!(decrypt_data(blob, credentials.clone()), Err(CryptError::BadMetadata));
    let mut blob = MAGIC.to_vec();
    blob.extend_from_slice(&8u32.to_le_bytes());
    blob.extend_from_slice(&9u64.to_le_bytes());
    assert_eq!(decrypt_data(blob, credentials), Err(CryptError::BadMetadata));
}

fn container_with(info: &EncryptedInfo, ciphertext: &[u8]) -> Vec<u8> {
    frame(&info.to_bytes(), ciphertext)
}

#[test]
fn metadata_that_breaks_its_invariants_is_bad_metadata() {
    let credentials = creds("username", "password");
    let salt = "c2FsdHNhbHRzYWx0c2FsdA".to_string();
    let nonce = vec![0u8; 24];
    let cases = [
        EncryptedInfo::new("abc".to_string(), nonce.clone(), cheap()),
        EncryptedInfo::new("a".repeat(65), nonce.clone(), cheap()),
        EncryptedInfo::new("abc$abcd".to_string(), nonce.clone(), cheap()),
        EncryptedInfo::new(salt.clone(), vec![0u8; 23], cheap()),
        EncryptedInfo::new(salt.clone(), vec![0u8; 25], cheap()),
        EncryptedInfo::new(salt.clone(), nonce.clone(), Argon2Params::new(64, 0, 1, 32)),
        EncryptedInfo::new(salt.clone(), nonce.clone(), Argon2Params::new(64, 1, 0, 32)),
        EncryptedInfo::new(salt.clone(), nonce.clone(), Argon2Params::new(15, 1, 2, 32)),
        EncryptedInfo::new(salt.clone(), nonce.clone(), Argon2Params::new(64, 1, 1, 31)),
        EncryptedInfo::new(salt.clone(), nonce.clone(), Argon2Params::new(64, 1, 1, 1 << 32)),
        EncryptedInfo::new(salt.clone(), nonce.clone(), Argon2Params::new(u32::MAX, 1, 1 << 24, 32)),
    ];
    for info in cases {
        let blob = container_with(&info, &[0u8; 16]);
        assert_eq!(decrypt_data(blob, credentials.clone()), Err(CryptError::BadMetadata));
    }
}

#[test]
fn well_formed_metadata_with_garbage_ciphertext_is_an_aead_failure() {
    let credentials = creds("username", "password");
    let info = EncryptedInfo::new("c2FsdHNhbHRzYWx0c2FsdA".to_string(), vec![0u8; 24], cheap());
    assert_eq!(
        decrypt_data(container_with(&info, &[0u8; 16]), credentials.clone()),
        Err(CryptError::AeadFailure)
    );
    assert_eq!(
        decrypt_data(container_with(&info, &[0u8; 15]), credentials.clone()),
        Err(CryptError::AeadFailure)
    );
    assert_eq!(decrypt_data(container_with(&info, &[]), credentials), Err(CryptError::AeadFailure));
}

#[test]
fn salt_that_argon2_cannot_decode_is_a_kdf_failure() {
    let credentials = creds("username", "password");
    // in the salt alphabet, but no Base64
    let info = EncryptedInfo::new("....----....".to_string(), vec![0u8; 24], cheap());
    assert_eq!(
        decrypt_data(container_with(&info, &[0u8; 16]), credentials.clone()),
        Err(CryptError::KdfFailure(KdfError::Hash))
    );
    // Base64 of fewer than eight bytes
    let info = EncryptedInfo::new("c2FsdA".to_string(), vec![0u8; 24], cheap());
    assert_eq!(
        decrypt_data(container_with(&info, &[0u8; 16]), credentials),
        Err(CryptError::KdfFailure(KdfError::Hash))
    );
}

#[test]
fn refused_parameters_are_a_kdf_failure_on_encode() {
    let cases = [
        Argon2Params::new(64, 0, 1, 32),
        Argon2Params::new(64, 1, 0, 32),
        Argon2Params::new(7, 1, 1, 32),
        Argon2Params::new(15, 1, 2, 32),
        Argon2Params::new(64, 1, 1, 31),
        Argon2Params::new(64, 1, 1, 16),
        Argon2Params::new(64, 1, 1, 0x1_0000_0000),
        Argon2Params::new(u32::MAX, 1, 0x100_0000, 32),
        Argon2Params::new(u32::MAX, 1, 0x2000_0000, 32),
    ];
    for params in cases {
        assert_eq!(
            encrypt_data(params, vec![1, 2, 3], creds("u", "p")),
            Err(CryptError::KdfFailure(KdfError::Parameters))
        );
    }
}

#[test]
fn output_longer_than_the_hasher_holds_is_a_kdf_failure() {
    assert_eq!(
        encrypt_data(Argon2Params::new(64, 1, 1, 65), vec![1, 2, 3], creds("u", "p")),
        Err(CryptError::KdfFailure(KdfError::Hash))
    );
}

#[test]
fn every_preset_hash_length_round_trips() {
    for hash_length in [32u64, 48, 64] {
        let credentials = creds("username", "password");
        let params = Argon2Params::new(64, 1, 1, hash_length);
        let blob = encrypt_data(params, vec![5, 6], credentials.clone()).unwrap();
        assert_eq!(decrypt_data(blob, credentials), Ok(vec![5, 6]));
    }
}

#[test]
fn two_encryptions_differ_in_nonce_salt_and_ciphertext() {
    let credentials = creds("username", "password");
    let a = encrypt_data(cheap(), vec![1, 2, 3], credentials.clone()).unwrap();
    let b = encrypt_data(cheap(), vec![1, 2, 3], credentials.clone()).unwrap();
    let (meta_a, cipher_a) = unframe(&a).unwrap();
    let (meta_b, cipher_b) = unframe(&b).unwrap();
    let info_a = EncryptedInfo::from_bytes(meta_a).unwrap();
    let info_b = EncryptedInfo::from_bytes(meta_b).unwrap();
    assert_ne!(info_a.cipher_nonce, info_b.cipher_nonce);
    assert_ne!(info_a.password_salt, info_b.password_salt);
    assert_ne!(cipher_a, cipher_b);
    assert_ne!(a, b);
}

#[test]
fn encrypt_with_given_salt_and_nonce_is_deterministic() {
    let salt = "c2FsdHNhbHRzYWx0c2FsdA".to_string();
    let nonce: Vec<u8> = (0u8..24).collect();
    let mut first = creds("username", "password");
    let mut second = creds("username", "password");
    let (cipher_a, info_a) =
        encrypt(cheap(), &mut first, &[1, 2, 3], salt.clone(), nonce.clone()).unwrap();
    let (cipher_b, info_b) =
        encrypt(cheap(), &mut second, &[1, 2, 3], salt.clone(), nonce.clone()).unwrap();
    assert_eq!(cipher_a, cipher_b);
    assert_eq!(cipher_a.len(), 3 + 16);
    assert_ne!(&cipher_a[..3], &[1, 2, 3]);
    assert_eq!(info_a.password_salt, salt);
    assert_eq!(info_a.cipher_nonce, nonce);
    assert_eq!(info_b.argon2_params.m_cost, 64);
    assert!(first.username().is_empty() && first.password().is_empty());
    assert!(first.confirm_password().is_empty());

    let mut opener = creds("username", "password");
    assert_eq!(decrypt(&mut opener, &info_a, &cipher_a), Ok(vec![1, 2, 3]));
    assert!(opener.username().is_empty() && opener.password().is_empty());
    assert!(opener.confirm_password().is_empty());
}

#[test]
fn credentials_are_destroyed_on_failure_paths() {
    let salt = "c2FsdHNhbHRzYWx0c2FsdA".to_string();
    let nonce = vec![0u8; 24];

    let mut mismatched = Credentials::new("u".to_string(), "p".to_string(), "q".to_string());
    let refused = encrypt(cheap(), &mut mismatched, &[1], salt.clone(), nonce.clone());
    assert_eq!(
        refused.err(),
        Some(CryptError::InvalidCredentials(InvalidCredentials::PasswordMismatch))
    );
    assert!(mismatched.username().is_empty() && mismatched.password().is_empty());
    assert!(mismatched.confirm_password().is_empty());

    let mut valid = creds("u", "p");
    let refused = encrypt(Argon2Params::new(64, 0, 1, 32), &mut valid, &[1], salt.clone(), nonce);
    assert_eq!(refused.err(), Some(CryptError::KdfFailure(KdfError::Parameters)));
    assert!(valid.username().is_empty() && valid.password().is_empty());

    let mut opener = creds("u", "p");
    let info = EncryptedInfo::new(salt, vec![0u8; 24], cheap());
    assert_eq!(decrypt(&mut opener, &info, &[0u8; 20]), Err(CryptError::AeadFailure));
    assert!(opener.username().is_empty() && opener.password().is_empty());

    let mut opener = creds("u", "p");
    let info = EncryptedInfo::new("bad".to_string(), vec![0u8; 24], cheap());
    assert_eq!(decrypt(&mut opener, &info, &[0u8; 20]), Err(CryptError::BadMetadata));
    assert!(opener.username().is_empty() && opener.password().is_empty());
}

#[test]
fn known_container_decrypts_to_known_plaintext() {
    // sealed once with salt "c2FsdHNhbHRzYWx0c2FsdA", nonce 0..24, costs (64, 1, 1, 32)
    let salt = "c2FsdHNhbHRzYWx0c2FsdA".to_string();
    let nonce: Vec<u8> = (0u8..24).collect();
    let mut sealer = creds("username", "password");
    let (ciphertext, info) = encrypt(cheap(), &mut sealer, b"attack at dawn", salt, nonce).unwrap();
    let blob = frame(&info.to_bytes(), &ciphertext);
    assert_eq!(decrypt_data(blob.clone(), creds("username", "password")), Ok(b"attack at dawn".to_vec()));
    assert_eq!(decrypt_data(blob, creds("username", "passwore")), Err(CryptError::AeadFailure));
}
