use argon2::password_hash::{PasswordHash, PasswordHasher, PasswordVerifier, SaltString};
use argon2::Argon2;
use base64::engine::general_purpose::{STANDARD, STANDARD_NO_PAD};
use base64::Engine;
use centaurus::pw::{hash_secret, InitError, PasswordState, PwError, MAX_PEPPER_LEN, PHC_PREFIX};
use rsa::pkcs1::DecodeRsaPublicKey;
use rsa::{Pkcs1v15Encrypt, RsaPrivateKey, RsaPublicKey};

fn new_key() -> RsaPrivateKey {
    let mut rng = rand::thread_rng();
    RsaPrivateKey::new(&mut rng, 1024).expect("key generation")
}

fn encrypt(key: &RsaPublicKey, msg: &[u8]) -> Vec<u8> {
    let mut rng = rand::thread_rng();
    key.encrypt(&mut rng, Pkcs1v15Encrypt, msg).expect("encryption")
}

fn verifies(hash: &str, password: &[u8]) -> bool {
    let parsed = PasswordHash::new(hash).expect("a PHC string");
    Argon2::default().verify_password(password, &parsed).is_ok()
}

fn salt_of(n: usize) -> String {
    let bytes: Vec<u8> = (0..n).map(|i| i as u8 + 1).collect();
    STANDARD_NO_PAD.encode(bytes)
}

#[test]
fn decrypt_round_trip_with_published_key() {
    let key = new_key();
    let state = PasswordState::init(b"pepper".to_vec(), key).unwrap();
    let published = RsaPublicKey::from_pkcs1_pem(&state.pub_key).expect("PKCS#1 PEM");
    for msg in [&b"hunter2"[..], &b""[..], "pässwörd \u{1F511}".as_bytes()] {
        let ct = encrypt(&published, msg);
        assert_eq!(state.decrypt(&ct), Ok(msg.to_vec()));
    }
}

#[test]
fn published_key_is_pkcs1_pem_with_crlf() {
    let key = new_key();
    let expected = RsaPublicKey::from(&key);
    let state = PasswordState::init(Vec::new(), key).unwrap();
    assert!(state.pub_key.starts_with("-----BEGIN RSA PUBLIC KEY-----\r\n"));
    assert!(state.pub_key.ends_with("\r\n-----END RSA PUBLIC KEY-----\r\n"));
    assert_eq!(state.pub_key.matches('\n').count(), state.pub_key.matches("\r\n").count());
    assert_eq!(RsaPublicKey::from_pkcs1_pem(&state.pub_key).unwrap(), expected);
}

#[test]
fn decrypt_rejects_foreign_ciphertext() {
    let state = PasswordState::init(Vec::new(), new_key()).unwrap();
    assert_eq!(state.decrypt(&[0xff; 200]), Err(PwError::Decryption));
}

#[test]
fn hash_raw_verifies_and_repeats() {
    let state = PasswordState::init(b"pepper".to_vec(), new_key()).unwrap();
    let salt = salt_of(16);
    let h1 = state.pw_hash_raw(&salt, "correct horse").unwrap();
    let h2 = state.pw_hash_raw(&salt, "correct horse").unwrap();
    assert!(verifies(&h1, b"correct horse"));
    assert!(verifies(&h2, b"correct horse"));
    assert!(!verifies(&h1, b"correct horsE"));
    assert_eq!(h1, h2);
    assert!(h1.starts_with("$argon2id$v=19$"));
}

#[test]
fn pepper_changes_embedded_salt_and_hash() {
    let key = new_key();
    let a = PasswordState::init(b"pepper-a".to_vec(), key.clone()).unwrap();
    let b = PasswordState::init(b"pepper-b".to_vec(), key).unwrap();
    let salt_bytes: Vec<u8> = (0..16u8).collect();
    let salt = STANDARD_NO_PAD.encode(&salt_bytes);
    let ha = a.pw_hash_raw(&salt, "secret").unwrap();
    let hb = b.pw_hash_raw(&salt, "secret").unwrap();
    assert_ne!(ha, hb);
    let mut effective = salt_bytes.clone();
    effective.extend_from_slice(b"pepper-a");
    let parsed = PasswordHash::new(&ha).unwrap();
    assert_eq!(
        parsed.salt.unwrap().as_str(),
        STANDARD_NO_PAD.encode(&effective)
    );
}

#[test]
fn effective_salt_bounds() {
    let pepper = b"pep".to_vec();
    let state = PasswordState::init(pepper, new_key()).unwrap();
    // Decoded salt plus three bytes of pepper.
    assert_eq!(state.pw_hash_raw(&salt_of(4), "pw"), Err(PwError::InvalidSalt));
    assert!(state.pw_hash_raw(&salt_of(5), "pw").is_ok());
    assert!(state.pw_hash_raw(&salt_of(45), "pw").is_ok());
    assert!(state.pw_hash_raw(&salt_of(46), "pw").is_ok());
    assert!(state.pw_hash_raw(&salt_of(61), "pw").is_ok());
    assert_eq!(state.pw_hash_raw(&salt_of(62), "pw"), Err(PwError::InvalidSalt));
    assert_eq!(state.pw_hash_raw(&salt_of(70), "pw"), Err(PwError::InvalidSalt));
    assert_eq!(state.pw_hash_raw("", "pw"), Err(PwError::InvalidSalt));
}

#[test]
fn salt_must_be_unpadded_base64() {
    let state = PasswordState::init(Vec::new(), new_key()).unwrap();
    assert_eq!(state.pw_hash_raw("AAAAAAAAAAA=", "pw"), Err(PwError::BadEncoding));
    assert_eq!(state.pw_hash_raw("not base64!", "pw"), Err(PwError::BadEncoding));
}

#[test]
fn pepper_length_guard() {
    assert!(matches!(
        PasswordState::init(vec![7u8; MAX_PEPPER_LEN + 1], new_key()),
        Err(InitError::PepperTooLong)
    ));
    let state = PasswordState::init(vec![7u8; MAX_PEPPER_LEN], new_key()).unwrap();
    assert_eq!(state.pepper, vec![7u8; 32]);
}

#[test]
fn malformed_ciphertext_is_bad_encoding() {
    let state = PasswordState::init(b"pepper".to_vec(), new_key()).unwrap();
    assert_eq!(state.pw_hash(&salt_of(16), "this is not base64!"), Err(PwError::BadEncoding));
    assert_eq!(state.pw_hash(&salt_of(16), "AAAA="), Err(PwError::BadEncoding));
}

#[test]
fn undecryptable_password_is_decryption_error() {
    let state = PasswordState::init(b"pepper".to_vec(), new_key()).unwrap();
    let wire = STANDARD.encode([0xffu8; 200]);
    assert_eq!(state.pw_hash(&salt_of(16), &wire), Err(PwError::Decryption));
}

#[test]
fn pw_hash_decrypts_then_hashes() {
    let key = new_key();
    let public = RsaPublicKey::from(&key);
    let state = PasswordState::init(b"pepper".to_vec(), key).unwrap();
    let salt = salt_of(16);
    let wire = STANDARD.encode(encrypt(&public, b"open sesame"));
    let h = state.pw_hash(&salt, &wire).unwrap();
    assert!(verifies(&h, b"open sesame"));
    assert_eq!(h, state.pw_hash_raw(&salt, "open sesame").unwrap());
}

#[test]
fn pw_hash_replaces_invalid_utf8() {
    let key = new_key();
    let public = RsaPublicKey::from(&key);
    let state = PasswordState::init(Vec::new(), key).unwrap();
    let salt = salt_of(16);
    let wire = STANDARD.encode(encrypt(&public, &[b'a', 0xff, b'b']));
    let h = state.pw_hash(&salt, &wire).unwrap();
    assert_eq!(h, state.pw_hash_raw(&salt, "a\u{FFFD}b").unwrap());
    assert_eq!(h, state.hash_decrypted(&salt, &[b'a', 0xff, b'b']).unwrap());
}

#[test]
fn hash_secret_matches_state() {
    let state = PasswordState::init(b"spice".to_vec(), new_key()).unwrap();
    let salt = salt_of(12);
    let direct = hash_secret(b"spice", &salt, b"pw").unwrap();
    assert_eq!(direct, state.pw_hash_raw(&salt, "pw").unwrap());
    assert_eq!(hash_secret(b"spice", "@@", b"pw"), Err(PwError::BadEncoding));
}

#[test]
fn error_statuses() {
    assert_eq!(PwError::BadEncoding.status_code(), 400);
    assert_eq!(PwError::InvalidSalt.status_code(), 400);
    assert_eq!(PwError::Decryption.status_code(), 500);
    assert_eq!(PwError::Hash.status_code(), 500);
}

fn raw_digest(password: &[u8], salt: &[u8]) -> Vec<u8> {
    let mut out = vec![0u8; 32];
    Argon2::default().hash_password_into(password, salt, &mut out).unwrap();
    out
}

#[test]
fn hash_matches_argon2_encoder() {
    let salt_bytes: Vec<u8> = (10..30u8).collect();
    let mut effective = salt_bytes.clone();
    effective.extend_from_slice(b"pepper");
    let ours = hash_secret(b"pepper", &STANDARD_NO_PAD.encode(&salt_bytes), b"hunter2").unwrap();
    let salt = SaltString::encode_b64(&effective).unwrap();
    let theirs = Argon2::default().hash_password(b"hunter2", salt.as_salt()).unwrap().to_string();
    assert_eq!(ours, theirs);
}

#[test]
fn longest_effective_salt_is_hashed() {
    let salt_bytes: Vec<u8> = (0..60u8).collect();
    let mut effective = salt_bytes.clone();
    effective.extend_from_slice(b"pepr");
    assert_eq!(effective.len(), 64);
    let h = hash_secret(b"pepr", &STANDARD_NO_PAD.encode(&salt_bytes), b"pw").unwrap();
    assert!(h.starts_with(PHC_PREFIX));
    let fields: Vec<&str> = h.split('$').collect();
    assert_eq!(fields.len(), 6);
    assert_eq!(fields[4], STANDARD_NO_PAD.encode(&effective));
    assert_eq!(fields[5], STANDARD_NO_PAD.encode(raw_digest(b"pw", &effective)));
    let again = hash_secret(b"pepr", &STANDARD_NO_PAD.encode(&salt_bytes), b"pw").unwrap();
    assert_eq!(h, again);
}

#[test]
fn same_effective_salt_hashes_alike() {
    let a = hash_secret(b"cd", &STANDARD_NO_PAD.encode(b"abcdefgh"), b"pw").unwrap();
    let b = hash_secret(b"gh", &STANDARD_NO_PAD.encode(b"abcdefcd"), b"pw").unwrap();
    let c = hash_secret(b"", &STANDARD_NO_PAD.encode(b"abcdefghcd"), b"pw").unwrap();
    assert_ne!(a, b);
    let d = hash_secret(b"cd", &STANDARD_NO_PAD.encode(b"abcdefgh"), b"pw").unwrap();
    assert_eq!(a, d);
    assert_eq!(a, c);
}

#[test]
fn lossy_equal_plaintexts_hash_alike() {
    let key = new_key();
    let public = RsaPublicKey::from(&key);
    let state = PasswordState::init(b"pepper".to_vec(), key).unwrap();
    let salt = salt_of(16);
    let w1 = STANDARD.encode(encrypt(&public, &[0xff]));
    let w2 = STANDARD.encode(encrypt(&public, &[0xef, 0xbf, 0xbd]));
    assert_eq!(state.pw_hash(&salt, &w1).unwrap(), state.pw_hash(&salt, &w2).unwrap());
}
