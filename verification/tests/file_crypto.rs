use tou_http::applications::{seal_package_file, stored_file_plaintext};
use tou_http::error::ApiError;
use tou_http::file_crypto::{FileCipher, FileCryptoError};

const MASTER: &[u8] = b"a-test-master-key-with-32-bytes!!";

#[test]
fn round_trip_preserves_pdf() {
    let application_id = uuid::Uuid::now_v7().as_u128();
    let cipher = FileCipher::new(MASTER).expect("cipher");
    let plaintext = b"%PDF-1.7\nprivate dossier";

    let encrypted = cipher.encrypt(application_id, plaintext).expect("encrypt");
    let decrypted = cipher.decrypt(application_id, &encrypted).expect("decrypt");

    assert_ne!(encrypted, plaintext);
    assert_eq!(decrypted, plaintext);
}

#[test]
fn another_application_cannot_decrypt_the_envelope() {
    let cipher = FileCipher::new(MASTER).expect("cipher");
    let owner = uuid::Uuid::now_v7().as_u128();
    let encrypted = cipher.encrypt(owner, b"%PDF-secret").expect("encrypt");

    let error = cipher
        .decrypt(uuid::Uuid::now_v7().as_u128(), &encrypted)
        .expect_err("different application key must fail");

    assert!(matches!(error, FileCryptoError::Decryption));
}

#[test]
fn short_master_key_is_rejected() {
    let error = FileCipher::new(b"short").err().expect("weak key must fail");
    assert!(matches!(error, FileCryptoError::WeakMasterKey));
}

#[test]
fn a_master_key_of_sixteen_bytes_is_enough() {
    assert!(FileCipher::new(&MASTER[..16]).is_ok());
    assert!(matches!(FileCipher::new(&MASTER[..15]), Err(FileCryptoError::WeakMasterKey)));
}

#[test]
fn an_envelope_is_magic_nonce_ciphertext_and_tag() {
    let cipher = FileCipher::new(MASTER).expect("cipher");
    for n in [0usize, 1, 100] {
        let plaintext = vec![7u8; n];
        let envelope = cipher.encrypt(9, &plaintext).expect("encrypt");
        assert_eq!(envelope.len(), 8 + 12 + n + 16);
    }
}

#[test]
fn envelope_starts_with_magic_and_nonce() {
    let cipher = FileCipher::new(MASTER).expect("cipher");
    let envelope = cipher.encrypt(7, b"abc").expect("encrypt");
    assert_eq!(&envelope[..8], b"TOURENT1");
    assert_eq!(envelope.len(), 8 + 12 + 3 + 16);
}

#[test]
fn a_foreign_or_truncated_envelope_is_refused() {
    let cipher = FileCipher::new(MASTER).expect("cipher");
    assert!(matches!(cipher.decrypt(1, b"%PDF"), Err(FileCryptoError::InvalidEnvelope)));
    assert!(matches!(
        cipher.decrypt(1, b"TOURENT1short"),
        Err(FileCryptoError::InvalidEnvelope)
    ));
    let mut envelope = cipher.encrypt(1, b"%PDF").expect("encrypt");
    let last = envelope.len() - 1;
    envelope[last] ^= 1;
    assert!(matches!(cipher.decrypt(1, &envelope), Err(FileCryptoError::Decryption)));
}

#[test]
fn another_master_key_cannot_open_the_envelope() {
    let cipher = FileCipher::new(MASTER).expect("cipher");
    let other = FileCipher::new(b"another-master-key-of-32-bytes!!!").expect("cipher");
    let envelope = cipher.encrypt(3, b"%PDF").expect("encrypt");
    assert!(matches!(other.decrypt(3, &envelope), Err(FileCryptoError::Decryption)));
}

#[test]
fn a_sealed_package_file_opens_as_version_one() {
    let cipher = FileCipher::new(MASTER).expect("cipher");
    let id = uuid::Uuid::now_v7().as_u128();
    let sealed = seal_package_file(&cipher, id, "application/pdf", b"%PDF-1.7 dossier").unwrap();
    assert_ne!(sealed, b"%PDF-1.7 dossier");
    let opened = stored_file_plaintext(&cipher, id, 1, &sealed).unwrap();
    assert_eq!(opened, b"%PDF-1.7 dossier");
    assert_eq!(stored_file_plaintext(&cipher, id, 0, b"plain").unwrap(), b"plain");
}

#[test]
fn only_pdf_enters_the_package_and_unknown_versions_fail() {
    let cipher = FileCipher::new(MASTER).expect("cipher");
    match seal_package_file(&cipher, 1, "image/png", b"png") {
        Err(ApiError::UnsupportedMediaType(m)) => {
            assert_eq!(m, "пакет заявки принимается только в формате PDF")
        }
        other => panic!("unexpected {other:?}"),
    }
    match stored_file_plaintext(&cipher, 1, 7, b"x") {
        Err(ApiError::Internal(m)) => {
            assert_eq!(m, "unsupported application file encryption version: 7")
        }
        other => panic!("unexpected {other:?}"),
    }
}
