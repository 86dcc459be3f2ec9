use quantum_kem::kem::{KEM_CIPHERTEXT_BYTES, KEM_PUBLIC_KEY_BYTES, KEM_SHARED_SECRET_BYTES};
use quantum_kem::session::{
    decapsulate, generate_kem_keys, simulate_encapsulation, status, QuantumError,
};
use quantum_kem::store::SecretKeyStore;

#[test]
fn generated_public_key_hex_round_trips() {
    let mut store = SecretKeyStore::new();
    let resp = generate_kem_keys(&mut store);
    let bytes = hex::decode(&resp.public_key).expect("generated key must be valid hex");
    assert_eq!(bytes.len(), KEM_PUBLIC_KEY_BYTES);
    assert_eq!(hex::encode(&bytes), resp.public_key);
}

#[test]
fn generate_stores_a_key_and_advances_generation() {
    let mut store = SecretKeyStore::new();
    assert!(store.get().is_none());
    let first = generate_kem_keys(&mut store);
    assert!(store.get().is_some());
    let second = generate_kem_keys(&mut store);
    assert!(store.get().is_some());
    assert_ne!(first.public_key, second.public_key);
    assert_eq!(
        first.message,
        "Kyber-1024 KeyPair Generated. Secret Key stored securely in memory."
    );
}

#[test]
fn encapsulation_accepts_generated_key() {
    let mut store = SecretKeyStore::new();
    let keys = generate_kem_keys(&mut store);
    let resp = simulate_encapsulation(&keys.public_key).expect("generated key must be accepted");
    assert_eq!(resp.ciphertext.len(), 2 * KEM_CIPHERTEXT_BYTES);
    assert_eq!(resp.shared_secret.len(), 2 * KEM_SHARED_SECRET_BYTES);
    let ct = hex::decode(&resp.ciphertext).unwrap();
    let ss = hex::decode(&resp.shared_secret).unwrap();
    assert_eq!(ct.len(), KEM_CIPHERTEXT_BYTES);
    assert_eq!(ss.len(), KEM_SHARED_SECRET_BYTES);
}

#[test]
fn decapsulation_recovers_encapsulated_secret() {
    let mut store = SecretKeyStore::new();
    let keys = generate_kem_keys(&mut store);
    let enc = simulate_encapsulation(&keys.public_key).expect("generated key must be accepted");
    let dec = decapsulate(&store, &enc.ciphertext).expect("fresh ciphertext must decapsulate");
    assert_eq!(dec.shared_secret, enc.shared_secret);
    assert_eq!(dec.status, "Success. Quantum-safe channel established.");
}

#[test]
fn decapsulate_before_generate_reports_missing_key() {
    let store = SecretKeyStore::new();
    let err = decapsulate(&store, "00").unwrap_err();
    assert_eq!(err, QuantumError::NoSecretKeyAvailable);
    let again = decapsulate(&store, "00").unwrap_err();
    assert_eq!(again, QuantumError::NoSecretKeyAvailable);
}

#[test]
fn non_hex_public_key_is_rejected() {
    let err = simulate_encapsulation("zz").unwrap_err();
    assert_eq!(err, QuantumError::InvalidPublicKey);
}

#[test]
fn empty_public_key_is_rejected() {
    let err = simulate_encapsulation("").unwrap_err();
    assert_eq!(err, QuantumError::InvalidPublicKey);
}

#[test]
fn odd_length_public_key_is_rejected() {
    let err = simulate_encapsulation("abc").unwrap_err();
    assert_eq!(err, QuantumError::InvalidPublicKey);
}

#[test]
fn wrong_length_ciphertext_is_rejected() {
    let mut store = SecretKeyStore::new();
    generate_kem_keys(&mut store);
    let err = decapsulate(&store, "00").unwrap_err();
    assert_eq!(err, QuantumError::InvalidCiphertext);
}

#[test]
fn non_hex_ciphertext_is_rejected() {
    let mut store = SecretKeyStore::new();
    generate_kem_keys(&mut store);
    let err = decapsulate(&store, "zz").unwrap_err();
    assert_eq!(err, QuantumError::InvalidCiphertext);
}

#[test]
fn stale_ciphertext_still_decapsulates_to_well_formed_secret() {
    let mut store = SecretKeyStore::new();
    let old_keys = generate_kem_keys(&mut store);
    let enc = simulate_encapsulation(&old_keys.public_key).expect("key must be accepted");
    // The key is replaced before the ciphertext is decapsulated, as when a
    // regeneration races an in-flight exchange: the operation must still
    // produce a well-formed secret of the fixed length, though its value is
    // unrelated to the encapsulated one.
    generate_kem_keys(&mut store);
    let dec = decapsulate(&store, &enc.ciphertext).expect("full-length ciphertext must decapsulate");
    let ss = hex::decode(&dec.shared_secret).unwrap();
    assert_eq!(ss.len(), KEM_SHARED_SECRET_BYTES);
}

#[test]
fn error_messages_and_statuses() {
    assert_eq!(QuantumError::InvalidPublicKey.message(), "Invalid Public Key");
    assert_eq!(QuantumError::InvalidCiphertext.message(), "Invalid Ciphertext");
    assert_eq!(
        QuantumError::NoSecretKeyAvailable.message(),
        "No Secret Key available"
    );
    assert_eq!(QuantumError::InvalidPublicKey.http_status(), 400);
    assert_eq!(QuantumError::InvalidCiphertext.http_status(), 400);
    assert_eq!(QuantumError::NoSecretKeyAvailable.http_status(), 500);
}

#[test]
fn status_reports_fixed_metadata() {
    let s = status();
    assert_eq!(s.status, "online");
    assert_eq!(s.system, "Quantum Hybrid Security System");
    assert_eq!(s.algorithms, vec!["Kyber-1024", "Dilithium-5"]);
    assert_eq!(s.security_level, "NIST Level 5 (AES-256 equivalent)");
}
