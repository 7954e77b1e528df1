use base64::Engine;
use http_server_rs::config::crypto::CryptoSettings;
use http_server_rs::domain::crypto::EncryptedPayload;
use http_server_rs::domain::vault::EncryptedCV;
use http_server_rs::errors::AppError;
use http_server_rs::infrastructure::crypto::aes_service::AesCryptoService;
use http_server_rs::services::vault::vault_service::VaultService as BinaryVaultService;
use http_server_rs::services::vault_service::VaultService;
use http_server_rs::application::use_cases::unlock_cv::UnlockCvUseCase;
use http_server_rs::utils::crypto::CryptoUtils;

fn settings(m: u32, t: u32, p: u32) -> CryptoSettings {
    CryptoSettings {
        secret_key: "pepper".to_string(),
        token_expiry_hours: 24,
        argon2_m_cost: m,
        argon2_t_cost: t,
        argon2_p_cost: p,
        salt_len: 16,
        nonce_len: 12,
    }
}

#[test]
fn utils_round_trip() {
    let (c, s, n) = CryptoUtils::encrypt("{\"name\":\"Ala\"}", "klucz").unwrap();
    let b64 = base64::engine::general_purpose::STANDARD;
    assert_eq!(b64.decode(&s).unwrap().len(), 16);
    assert_eq!(b64.decode(&n).unwrap().len(), 12);
    // ciphertext carries a 16-byte tag after the 14 bytes of text
    assert_eq!(b64.decode(&c).unwrap().len(), 14 + 16);
    assert_eq!(CryptoUtils::decrypt(&c, "klucz", &s, &n).unwrap(), "{\"name\":\"Ala\"}");
}

#[test]
fn utils_wrong_password_refused() {
    let salt = [7u8; 16];
    let nonce = [9u8; 12];
    let (c, s, n) = CryptoUtils::encrypt_with("tajne", "dobre", &salt, &nonce).unwrap();
    assert_ne!(c, base64::engine::general_purpose::STANDARD.encode("tajne"));
    match CryptoUtils::decrypt(&c, "złe", &s, &n) {
        Err(AppError::CryptoError(m)) => assert_eq!(m, "Invalid access key or corrupted data"),
        other => panic!("unexpected {other:?}"),
    }
}

#[test]
fn utils_encrypt_with_is_deterministic() {
    let salt = [1u8; 16];
    let nonce = [2u8; 12];
    let a = CryptoUtils::encrypt_with("x", "p", &salt, &nonce).unwrap();
    let b = CryptoUtils::encrypt_with("x", "p", &salt, &nonce).unwrap();
    assert_eq!(a, b);
    assert_eq!(a.1, "AQEBAQEBAQEBAQEBAQEBAQ==");
    assert_eq!(a.2, "AgICAgICAgICAgIC");
}

#[test]
fn utils_bad_base64_refused() {
    match CryptoUtils::decrypt("!!", "k", "AAAAAAAAAAAAAAAAAAAAAA==", "AAAAAAAAAAAAAAAA") {
        Err(AppError::ValidationError(m)) => assert_eq!(m, "Invalid ciphertext base64"),
        other => panic!("unexpected {other:?}"),
    }
    match CryptoUtils::decrypt("AAAA", "k", "#", "AAAAAAAAAAAAAAAA") {
        Err(AppError::ValidationError(m)) => assert_eq!(m, "Invalid salt base64"),
        other => panic!("unexpected {other:?}"),
    }
    match CryptoUtils::decrypt("AAAA", "k", "AAAAAAAAAAAAAAAAAAAAAA==", "@") {
        Err(AppError::ValidationError(m)) => assert_eq!(m, "Invalid nonce base64"),
        other => panic!("unexpected {other:?}"),
    }
}

#[test]
fn utils_short_salt_refused() {
    // four bytes of salt: argon2 refuses it
    match CryptoUtils::decrypt("AAAA", "k", "AAAAAA==", "AAAAAAAAAAAAAAAA") {
        Err(AppError::CryptoError(m)) => assert_eq!(m, "Argon2 failure: salt is too short"),
        other => panic!("unexpected {other:?}"),
    }
}

#[test]
fn utils_checked_reports_bad_nonce() {
    // an 8-byte nonce would reach Nonce::from_slice
    let r = CryptoUtils::decrypt_checked(
        "AAAAAAAAAAAAAAAAAAAAAA==",
        "k",
        "AAAAAAAAAAAAAAAAAAAAAA==",
        "AAAAAAAAAAA=",
    );
    assert!(r.is_none());
    let r = CryptoUtils::decrypt_checked("!!", "k", "AAAA", "AAAAAAAAAAA=");
    assert!(matches!(r, Some(Err(AppError::ValidationError(_)))));
}

#[test]
fn utils_derive_key_is_deterministic() {
    let a = CryptoUtils::derive_key("hasło", b"saltsaltsalt").unwrap();
    let b = CryptoUtils::derive_key("hasło", b"saltsaltsalt").unwrap();
    let c = CryptoUtils::derive_key("hasło", b"saltsaltsalu").unwrap();
    assert_eq!(a, b);
    assert_ne!(a, c);
}

#[test]
fn aes_service_round_trip() {
    let svc = AesCryptoService::new(settings(8, 1, 1));
    let p = svc.encrypt(b"hello vault", "secret").unwrap();
    assert_eq!(p.salt.len(), 16);
    assert_eq!(p.nonce.len(), 12);
    assert_eq!(p.ciphertext.len(), 11 + 16);
    assert_ne!(&p.ciphertext[..11], b"hello vault");
    assert_eq!(svc.decrypt(&p, "secret").unwrap(), b"hello vault".to_vec());
    match svc.decrypt(&p, "other") {
        Err(AppError::CryptoError(m)) => {
            assert_eq!(m, "Decryption failed: check password or data integrity")
        }
        other => panic!("unexpected {other:?}"),
    }
}

#[test]
fn aes_service_pepper_matters() {
    let a = AesCryptoService::new(settings(8, 1, 1));
    let mut s = settings(8, 1, 1);
    s.secret_key = "other".to_string();
    let b = AesCryptoService::new(s);
    let p = a.encrypt_with(b"data", "pw", &[3u8; 16], &[4u8; 12]).unwrap();
    assert!(b.decrypt(&p, "pw").is_err());
    assert_eq!(a.decrypt(&p, "pw").unwrap(), b"data".to_vec());
}

#[test]
fn aes_service_bad_lengths() {
    let svc = AesCryptoService::new(settings(8, 1, 1));
    let p = EncryptedPayload { ciphertext: vec![0; 20], salt: vec![0; 15], nonce: vec![0; 12] };
    match svc.decrypt(&p, "x") {
        Err(AppError::CryptoError(m)) => assert_eq!(m, "Invalid salt length: expected 16 bytes"),
        other => panic!("unexpected {other:?}"),
    }
    let p = EncryptedPayload { ciphertext: vec![0; 20], salt: vec![0; 16], nonce: vec![0; 11] };
    match svc.decrypt(&p, "x") {
        Err(AppError::CryptoError(m)) => assert_eq!(m, "Invalid nonce length: expected 12 bytes"),
        other => panic!("unexpected {other:?}"),
    }
}

#[test]
fn aes_service_bad_params() {
    let svc = AesCryptoService::new(settings(4, 1, 1));
    match svc.derive_key("x", &[0u8; 16]) {
        Err(AppError::CryptoError(m)) => {
            assert_eq!(m, "Argon2 params invalid: memory cost is too small")
        }
        other => panic!("unexpected {other:?}"),
    }
    let svc = AesCryptoService::new(settings(8, 0, 1));
    match svc.derive_key("x", &[0u8; 16]) {
        Err(AppError::CryptoError(m)) => assert_eq!(m, "Argon2 params invalid: time cost is too small"),
        other => panic!("unexpected {other:?}"),
    }
    let svc = AesCryptoService::new(settings(8, 1, 1));
    match svc.derive_key("x", &[0u8; 4]) {
        Err(AppError::CryptoError(m)) => assert_eq!(m, "Argon2 derivation failed: salt is too short"),
        other => panic!("unexpected {other:?}"),
    }
}

#[test]
fn vault_service_unlocks_stored_cv() {
    let (data, salt, nonce) = CryptoUtils::encrypt_with(
        "{\"name\":\"Jan\",\"experience\":[],\"contact\":\"jan@x.pl\"}",
        "dostęp",
        &[5u8; 16],
        &[6u8; 12],
    )
    .unwrap();
    let svc = VaultService::new(());
    let enc = EncryptedCV { id: "cv1".to_string(), data, salt, nonce };
    let text = svc.decrypt_logic(&enc, "dostęp").unwrap();
    assert!(text.starts_with("{\"name\":\"Jan\""));
    match svc.unlock_found(None, "cv9", "dostęp") {
        Some(Err(AppError::NotFound(m))) => assert_eq!(m, "CV o ID cv9 nie istnieje"),
        _ => panic!("expected not found"),
    }
    assert!(matches!(svc.unlock_found(Some(enc), "cv1", "dostęp"), Some(Ok(_))));
}

#[test]
fn use_case_opens_stored_cv() {
    let crypto = AesCryptoService::new(settings(8, 1, 1));
    let p = crypto.encrypt_with(b"{\"a\":1}", "key", &[8u8; 16], &[9u8; 12]).unwrap();
    let b64 = base64::engine::general_purpose::STANDARD;
    let enc = EncryptedCV {
        id: "7".to_string(),
        data: b64.encode(&p.ciphertext),
        salt: b64.encode(&p.salt),
        nonce: b64.encode(&p.nonce),
    };
    let uc = UnlockCvUseCase::new((), crypto, ());
    assert_eq!(uc.open_found(Some(enc), "7", "key").unwrap(), b"{\"a\":1}".to_vec());
    match uc.open_found(None, "8", "key") {
        Err(AppError::NotFound(m)) => assert_eq!(m, "CV 8 not found"),
        other => panic!("unexpected {other:?}"),
    }
    let bad = EncryptedCV {
        id: "7".to_string(),
        data: "***".to_string(),
        salt: String::new(),
        nonce: String::new(),
    };
    let svc = BinaryVaultService::new((), AesCryptoService::new(settings(8, 1, 1)), ());
    match svc.open_found(Some(bad), "7", "key") {
        Err(AppError::ValidationError(m)) => assert_eq!(m, "Invalid ciphertext base64"),
        other => panic!("unexpected {other:?}"),
    }
}

#[test]
fn aes_service_uses_configured_salt_length() {
    let mut s = settings(8, 1, 1);
    s.salt_len = 20;
    let svc = AesCryptoService::new(s);
    let p = svc.encrypt(b"twenty", "pw").unwrap();
    assert_eq!(p.salt.len(), 20);
    assert_eq!(p.nonce.len(), 12);
    assert_eq!(p.ciphertext.len(), 6 + 16);
    assert_eq!(svc.decrypt(&p, "pw").unwrap(), b"twenty".to_vec());
    let short = EncryptedPayload { ciphertext: p.ciphertext.clone(), salt: vec![0; 16], nonce: p.nonce.clone() };
    match svc.decrypt(&short, "pw") {
        Err(AppError::CryptoError(m)) => assert_eq!(m, "Invalid salt length: expected 20 bytes"),
        other => panic!("unexpected {other:?}"),
    }
}

#[test]
fn aes_service_refuses_other_nonce_length() {
    let mut s = settings(8, 1, 1);
    s.nonce_len = 16;
    let svc = AesCryptoService::new(s);
    match svc.encrypt(b"data", "pw") {
        Err(AppError::CryptoError(m)) => assert_eq!(m, "Invalid nonce length: expected 12 bytes"),
        Err(other) => panic!("unexpected {other:?}"),
        Ok(_) => panic!("unexpected success"),
    }
}

#[test]
fn aes_service_short_configured_salt_fails_in_argon2() {
    let mut s = settings(8, 1, 1);
    s.salt_len = 4;
    let svc = AesCryptoService::new(s);
    match svc.encrypt(b"data", "pw") {
        Err(AppError::CryptoError(m)) => assert_eq!(m, "Argon2 derivation failed: salt is too short"),
        Err(other) => panic!("unexpected {other:?}"),
        Ok(_) => panic!("unexpected success"),
    }
}

#[test]
fn open_found_checked_reports_overflowing_costs() {
    let b64 = base64::engine::general_purpose::STANDARD;
    let stored = |salt_len: usize| EncryptedCV {
        id: "1".to_string(),
        data: b64.encode([0u8; 20]),
        salt: b64.encode(vec![0u8; salt_len]),
        nonce: b64.encode([0u8; 12]),
    };
    let svc = BinaryVaultService::new((), AesCryptoService::new(settings(8, 1, 0x2000_0000)), ());
    assert!(svc.open_found_checked(Some(stored(16)), "1", "k").is_none());
    // a salt of the wrong length is refused before the costs are looked at
    match svc.open_found_checked(Some(stored(15)), "1", "k") {
        Some(Err(AppError::CryptoError(m))) => assert_eq!(m, "Invalid salt length: expected 16 bytes"),
        other => panic!("unexpected {other:?}"),
    }
    // with costs that argon2 checks within u32 the result is the ordinary one
    let ok = BinaryVaultService::new((), AesCryptoService::new(settings(8, 1, 1)), ());
    match ok.open_found_checked(Some(stored(16)), "1", "k") {
        Some(Err(AppError::CryptoError(m))) => {
            assert_eq!(m, "Decryption failed: check password or data integrity")
        }
        other => panic!("unexpected {other:?}"),
    }
}
