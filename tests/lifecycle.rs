use aes_gcm::aead::Aead;
use aes_gcm::KeyInit;
use url_wrap::auth_type::WrapAuthType;
use url_wrap::cipher::{decrypt_url, encrypt_url, encrypt_url_with_nonce, CipherError, EncryptionParameter};
use url_wrap::credential::{
    hash_password, hash_password_with_salt, verify_password, CredentialError, HashedPassword,
    HashingParameter,
};
use url_wrap::usecase::{generate_id, WrapStore, WrapUseCase};
use url_wrap::wrap::{resolve_at, CreateWrap, NewWrap, WrapDocument, WrapError};

const KEY: &[u8] = b"0123456789abcdef0123456789abcdef";

fn hashing() -> HashingParameter {
    HashingParameter::new("argon2id".to_string(), 0x13, 1, 8, 1)
}

fn encryption() -> EncryptionParameter {
    EncryptionParameter::new(KEY).unwrap()
}

fn use_case() -> WrapUseCase {
    WrapUseCase::new(hashing(), encryption())
}

fn request(url: &str, password: &str, expiration_at: u32) -> CreateWrap {
    CreateWrap::new(url.to_string(), password.to_string(), 1, "demo".to_string(), expiration_at)
}

#[test]
fn hash_then_verify_succeeds() {
    for p in ["hunter2", "", "1234", "pässwörd"] {
        let d = hash_password(&hashing(), p).unwrap();
        assert_eq!(verify_password(&d, p), Ok(()));
    }
}

#[test]
fn other_credential_is_a_mismatch() {
    let d = hash_password(&hashing(), "hunter2").unwrap();
    assert_eq!(verify_password(&d, "hunter3"), Err(CredentialError::Mismatch));
    assert_eq!(verify_password(&d, ""), Err(CredentialError::Mismatch));
}

#[test]
fn two_hashes_differ_and_both_verify() {
    let a = hash_password(&hashing(), "hunter2").unwrap();
    let b = hash_password(&hashing(), "hunter2").unwrap();
    assert_ne!(a, b);
    assert_eq!(verify_password(&a, "hunter2"), Ok(()));
    assert_eq!(verify_password(&b, "hunter2"), Ok(()));
}

#[test]
fn digest_is_self_describing() {
    let salt = [7u8; 16];
    let a = hash_password_with_salt(&hashing(), &salt, "hunter2").unwrap();
    let b = hash_password_with_salt(&hashing(), &salt, "hunter2").unwrap();
    assert_eq!(a, b);
    assert!(a.starts_with("$argon2id$v=19$m=8,t=1,p=1$BwcHBwcHBwcHBwcHBwcHBw$"));
    assert_ne!(a, "hunter2");
}

#[test]
fn salt_length_limits() {
    for len in [0usize, 2, 3, 7, 49, 64] {
        let salt = vec![1u8; len];
        assert_eq!(hash_password_with_salt(&hashing(), &salt, "pw"), Err(CredentialError::Crypto));
    }
    for len in [8usize, 16, 48] {
        let salt = vec![1u8; len];
        let d = hash_password_with_salt(&hashing(), &salt, "pw").unwrap();
        assert_eq!(verify_password(&d, "pw"), Ok(()));
    }
}

#[test]
fn oversized_parallelism_in_digest_is_malformed() {
    let d = "$argon2id$v=19$m=65536,t=1,p=536870912$c29tZXNhbHQ$aGFzaGhhc2hoYXNoaGFzaA";
    assert_eq!(verify_password(d, "x"), Err(CredentialError::MalformedDigest));
    let d = "$argon2id$v=19$m=65536,t=1,p=99999999$c29tZXNhbHQ$aGFzaGhhc2hoYXNoaGFzaA";
    assert_eq!(verify_password(d, "x"), Err(CredentialError::MalformedDigest));
}

#[test]
fn digest_from_old_parameters_still_verifies() {
    let old = HashingParameter::new("argon2i".to_string(), 0x10, 2, 16, 1);
    let d = hash_password(&old, "hunter2").unwrap();
    assert!(d.starts_with("$argon2i$v=16$m=16,t=2,p=1$"));
    assert_eq!(verify_password(&d, "hunter2"), Ok(()));
}

#[test]
fn unusable_digest_is_malformed() {
    assert_eq!(verify_password("not a digest", "x"), Err(CredentialError::MalformedDigest));
    assert_eq!(verify_password("", "x"), Err(CredentialError::MalformedDigest));
}

#[test]
fn bad_hashing_parameters_fail_as_crypto() {
    let bad_variant = HashingParameter::new("argon3".to_string(), 0x13, 1, 8, 1);
    assert_eq!(hash_password(&bad_variant, "x"), Err(CredentialError::Crypto));
    let bad_version = HashingParameter::new("argon2id".to_string(), 7, 1, 8, 1);
    assert_eq!(hash_password(&bad_version, "x"), Err(CredentialError::Crypto));
    let bad_memory = HashingParameter::new("argon2id".to_string(), 0x13, 1, 1, 1);
    assert_eq!(hash_password(&bad_memory, "x"), Err(CredentialError::Crypto));
    let few_blocks = HashingParameter::new("argon2id".to_string(), 0x13, 1, 15, 2);
    assert_eq!(hash_password(&few_blocks, "x"), Err(CredentialError::Crypto));
    let no_pass = HashingParameter::new("argon2id".to_string(), 0x13, 0, 8, 1);
    assert_eq!(hash_password(&no_pass, "x"), Err(CredentialError::Crypto));
    let huge_lanes = HashingParameter::new("argon2id".to_string(), 0x13, 1, u32::MAX, 1 << 29);
    assert_eq!(hash_password(&huge_lanes, "x"), Err(CredentialError::Crypto));
    let too_many = HashingParameter::new("argon2id".to_string(), 0x13, 1, u32::MAX, 0x1000000);
    assert_eq!(hash_password(&too_many, "x"), Err(CredentialError::Crypto));
}

#[test]
fn hashed_password_wraps_a_digest() {
    let h = HashedPassword::from_plaintext(&hashing(), "1234").unwrap();
    assert_eq!(h.verify("1234"), Ok(()));
    assert_eq!(h.verify("4321"), Err(CredentialError::Mismatch));
    let again = HashedPassword::new(h.as_str());
    assert_eq!(again.verify("1234"), Ok(()));
}

#[test]
fn encrypt_decrypt_round_trip() {
    for u in ["https://example.com/secret", "", "https://例え.jp/?q=ü"] {
        let t = encrypt_url(&encryption(), u).unwrap();
        assert!(!t.contains(u) || u.is_empty());
        assert_eq!(t.len(), 2 * (12 + u.len() + 16));
        assert_eq!(decrypt_url(&encryption(), &t), Ok(u.to_string()));
    }
}

#[test]
fn known_aes_gcm_vector() {
    let zero_key = EncryptionParameter::new(&[0u8; 32]).unwrap();
    let t = encrypt_url_with_nonce(&zero_key, &[0u8; 12], "").unwrap();
    assert_eq!(t, "000000000000000000000000530f8afbc74536b9a963b4f1c4cb738b");
    let zeros = String::from_utf8(vec![0u8; 16]).unwrap();
    let t = encrypt_url_with_nonce(&zero_key, &[0u8; 12], &zeros).unwrap();
    assert_eq!(
        t,
        "000000000000000000000000cea7403d4d606b6e074ec5d3baf39d18d0d1c8a799996bf0265b98b5d48ab919"
    );
    assert_eq!(decrypt_url(&zero_key, &t), Ok(zeros));
}

#[test]
fn fresh_nonce_each_encryption() {
    let a = encrypt_url(&encryption(), "https://example.com/secret").unwrap();
    let b = encrypt_url(&encryption(), "https://example.com/secret").unwrap();
    assert_ne!(a, b);
}

#[test]
fn tampered_token_fails_authentication() {
    let t = encrypt_url(&encryption(), "https://example.com/secret").unwrap();
    for i in 0..t.len() {
        let mut bytes = t.clone().into_bytes();
        bytes[i] = if bytes[i] == b'0' { b'1' } else { b'0' };
        let tampered = String::from_utf8(bytes).unwrap();
        assert_eq!(decrypt_url(&encryption(), &tampered), Err(CipherError::Authentication));
    }
}

#[test]
fn non_text_plaintext_is_an_encoding_error() {
    let cipher = aes_gcm::Aes256Gcm::new_from_slice(KEY).unwrap();
    let nonce = [3u8; 12];
    let sealed = cipher.encrypt(aes_gcm::Nonce::from_slice(&nonce), &[0xffu8, 0xfe][..]).unwrap();
    let mut bytes = nonce.to_vec();
    bytes.extend_from_slice(&sealed);
    let token = data_encoding::HEXLOWER.encode(&bytes);
    assert_eq!(decrypt_url(&encryption(), &token), Err(CipherError::Encoding));
}

#[test]
fn wrong_key_fails_authentication() {
    let t = encrypt_url(&encryption(), "https://example.com/secret").unwrap();
    let other = EncryptionParameter::new(&[9u8; 32]).unwrap();
    assert_eq!(decrypt_url(&other, &t), Err(CipherError::Authentication));
}

#[test]
fn malformed_tokens_fail_to_decode() {
    let p = encryption();
    assert_eq!(decrypt_url(&p, "xyz"), Err(CipherError::Decode));
    assert_eq!(decrypt_url(&p, "abc"), Err(CipherError::Decode));
    assert_eq!(decrypt_url(&p, "ABCDEF"), Err(CipherError::Decode));
    assert_eq!(decrypt_url(&p, "00112233445566778899aa"), Err(CipherError::Decode));
    assert_eq!(decrypt_url(&p, ""), Err(CipherError::Decode));
}

#[test]
fn key_must_have_thirty_two_bytes() {
    assert!(EncryptionParameter::new(b"short").is_err());
    assert_eq!(EncryptionParameter::new(&[1u8; 33]).err(), Some(CipherError::Configuration));
    assert!(EncryptionParameter::new(&[1u8; 32]).is_ok());
}

#[test]
fn auth_type_numbers() {
    assert_eq!(WrapAuthType::Text.id(), 1);
    assert_eq!(WrapAuthType::FourDigit.id(), 2);
    assert_eq!(WrapAuthType::from_id(1), Some(WrapAuthType::Text));
    assert_eq!(WrapAuthType::from_id(2), Some(WrapAuthType::FourDigit));
    assert_eq!(WrapAuthType::from_id(0), None);
    assert_eq!(WrapAuthType::from_id(3), None);
}

#[test]
fn invalid_auth_type_is_refused() {
    let cw = CreateWrap::new("https://a.b".to_string(), "x".to_string(), 3, String::new(), 0);
    assert!(matches!(NewWrap::from_create(cw, "id".to_string()), Err(WrapError::InvalidAuthType)));
    let mut uc = use_case();
    let cw = CreateWrap::new("https://a.b".to_string(), "x".to_string(), 0, String::new(), 0);
    assert!(matches!(uc.register_wrap(cw), Err(WrapError::InvalidAuthType)));
    let cw = CreateWrap::new("https://a.b".to_string(), "x".to_string(), 7, String::new(), 0);
    assert!(matches!(uc.register_wrap_at(cw, "k".to_string(), 0), Err(WrapError::InvalidAuthType)));
    assert!(uc.store.get(&"k".to_string()).is_none());
}

#[test]
fn identifiers_are_fresh_hex() {
    let a = generate_id().unwrap();
    let b = generate_id().unwrap();
    assert_eq!(a.len(), 32);
    assert!(a.chars().all(|c| c.is_ascii_digit() || ('a'..='f').contains(&c)));
    assert_ne!(a, b);
}

#[test]
fn store_lookup_is_exact() {
    let mut uc = use_case();
    uc.register_wrap_at(request("https://a.example", "pw", 100), "abc".to_string(), 0).unwrap();
    assert!(uc.store.get(&"abc".to_string()).is_some());
    assert!(uc.store.get(&"ab".to_string()).is_none());
    assert!(uc.store.get(&"abcd".to_string()).is_none());
    let again = uc.register_wrap_at(request("https://b.example", "pw", 100), "abc".to_string(), 0);
    assert!(matches!(again, Err(WrapError::DuplicateId)));
    let empty = WrapStore::new();
    assert!(empty.get(&"abc".to_string()).is_none());
}

#[test]
fn stored_record_hides_url_and_credential() {
    let mut uc = use_case();
    uc.register_wrap_at(request("https://example.com/secret", "hunter2", 100), "w1".to_string(), 42)
        .unwrap();
    let d: &WrapDocument = uc.store.get(&"w1".to_string()).unwrap();
    assert!(!d.redirect_url.contains("example"));
    assert!(!d.password.contains("hunter2"));
    assert!(d.password.starts_with("$argon2id$"));
    assert_eq!(d.created_at, 42);
    assert_eq!(d.expiration_at, 100);
    assert_eq!(d.verify_password("hunter2"), Ok(()));
}

#[test]
fn resolve_expired_with_correct_credential() {
    let mut uc = use_case();
    uc.register_wrap_at(request("https://example.com/secret", "hunter2", 1000), "w".to_string(), 0)
        .unwrap();
    let r = uc.verify_wrap_at(&"w".to_string(), "hunter2", 1001);
    assert!(matches!(r, Err(WrapError::Expired)));
    let r = uc.verify_wrap_at(&"w".to_string(), "hunter2", 1000);
    assert_eq!(r.unwrap().redirect_url, "https://example.com/secret");
}

#[test]
fn resolve_expired_with_wrong_credential() {
    let mut uc = use_case();
    uc.register_wrap_at(request("https://example.com/secret", "hunter2", 1000), "w".to_string(), 0)
        .unwrap();
    let r = uc.verify_wrap_at(&"w".to_string(), "wrong", 5000);
    assert!(matches!(r, Err(WrapError::Credential(CredentialError::Mismatch))));
}

#[test]
fn resolve_unknown_id_is_not_found() {
    let mut uc = use_case();
    uc.register_wrap_at(request("https://example.com/secret", "hunter2", 1000), "w".to_string(), 0)
        .unwrap();
    let r = uc.verify_wrap_at(&"nope".to_string(), "hunter2", 0);
    assert!(matches!(r, Err(WrapError::NotFound)));
    let r = resolve_at(None, "hunter2", &encryption(), 0);
    assert!(matches!(r, Err(WrapError::NotFound)));
    assert!(matches!(uc.get_wrap(&"nope".to_string()), Ok(None)));
}

#[test]
fn end_to_end_scenario() {
    let mut uc = use_case();
    let now: u32 = 1_700_000_000;
    let created = uc
        .register_wrap(CreateWrap::new(
            "https://example.com/secret".to_string(),
            "hunter2".to_string(),
            1,
            "demo".to_string(),
            now + 3600,
        ))
        .unwrap();
    assert_eq!(created.id.len(), 32);
    assert_eq!(created.auth_type, 1);
    assert_eq!(created.comment, "demo");
    assert_eq!(created.expiration_at, (now + 3600) as i64);

    let read = uc.get_wrap(&created.id).unwrap().unwrap();
    assert_eq!(read.redirect_url, "https://example.com/secret");
    assert_eq!(read.id, created.id);
    assert_eq!(read.comment, "demo");

    let ok = uc.verify_wrap_at(&created.id, "hunter2", now as i64).unwrap();
    assert_eq!(ok.redirect_url, "https://example.com/secret");
    let wrong = uc.verify_wrap_at(&created.id, "wrong", now as i64);
    assert!(matches!(wrong, Err(WrapError::Credential(CredentialError::Mismatch))));
    let late = uc.verify_wrap_at(&created.id, "hunter2", (now + 3601) as i64);
    assert!(matches!(late, Err(WrapError::Expired)));
}

#[test]
fn resolve_at_current_time() {
    let mut uc = use_case();
    let created = uc.register_wrap(request("https://example.com/now", "pw", u32::MAX)).unwrap();
    let ok = uc.verify_wrap(&created.id, "pw").unwrap();
    assert_eq!(ok.redirect_url, "https://example.com/now");
    let past = uc.register_wrap(request("https://example.com/old", "pw", 0)).unwrap();
    assert!(matches!(uc.verify_wrap(&past.id, "pw"), Err(WrapError::Expired)));
}

#[test]
fn four_digit_kind_verifies_like_text() {
    let mut uc = use_case();
    let cw = CreateWrap::new("https://pin.example".to_string(), "0042".to_string(), 2, "pin".to_string(), 10);
    let created = uc.register_wrap_at(cw, "pin".to_string(), 0).unwrap();
    assert_eq!(created.auth_type, 2);
    let v = uc.verify_wrap_at(&"pin".to_string(), "0042", 10).unwrap();
    assert_eq!(v.auth_type, 2);
    assert_eq!(v.redirect_url, "https://pin.example");
}

#[test]
fn new_wrap_from_request() {
    let w = NewWrap::from_create(request("https://x.example", "pw", 77), "id9".to_string()).unwrap();
    assert_eq!(w.id, "id9");
    assert_eq!(w.expiration_at, 77);
    assert_eq!(w.auth_type, WrapAuthType::Text);
    let d = WrapDocument::seal(w, &hashing(), &encryption(), 5).unwrap();
    assert_eq!(d.created_at, 5);
    assert_eq!(decrypt_url(&encryption(), &d.redirect_url), Ok("https://x.example".to_string()));
}
