//! The KEM capability: Kyber-1024 keypair generation, encapsulation and
//! decapsulation, provided by the `pqcrypto` crates behind trusted wrappers.
//!
//! Keypair generation and encapsulation are randomized, so their contracts
//! state only what holds of every outcome: the fixed byte lengths, and the
//! KEM correctness relation between the two uninterpreted names below.

use vstd::prelude::*;

verus! {

/// Byte length of a Kyber-1024 public key.
pub const KEM_PUBLIC_KEY_BYTES: usize = 1568;

/// Byte length of a Kyber-1024 secret key.
pub const KEM_SECRET_KEY_BYTES: usize = 3168;

/// Byte length of a Kyber-1024 ciphertext.
pub const KEM_CIPHERTEXT_BYTES: usize = 1568;

/// Byte length of a Kyber-1024 shared secret.
pub const KEM_SHARED_SECRET_BYTES: usize = 32;

/// Whether a public key and a secret key form one generated keypair.
pub uninterp spec fn kem_matching(pk: Seq<u8>, sk: Seq<u8>) -> bool;

/// The shared secret that decapsulating a ciphertext with a secret key
/// yields; decapsulation never fails loudly, it is a total deterministic
/// function of the two byte strings.
pub uninterp spec fn decap_of(ct: Seq<u8>, sk: Seq<u8>) -> Seq<u8>;

/// Relies on pqcrypto_kyber::kyber1024::keypair: it returns a fresh matching
/// keypair whose halves have the algorithm's fixed byte lengths.
#[verifier::external_body]
pub(crate) fn kem_keypair() -> (r: (Vec<u8>, Vec<u8>))
    ensures
        r.0@.len() == KEM_PUBLIC_KEY_BYTES,
        r.1@.len() == KEM_SECRET_KEY_BYTES,
        kem_matching(r.0@, r.1@),
{
    let (pk, sk) = pqcrypto_kyber::kyber1024::keypair();
    (
        pqcrypto_traits::kem::PublicKey::as_bytes(&pk).to_vec(),
        pqcrypto_traits::kem::SecretKey::as_bytes(&sk).to_vec(),
    )
}

/// Relies on pqcrypto_kyber::kyber1024: PublicKey::from_bytes accepts exactly
/// the fixed public-key length, and encapsulate returns a fixed-length
/// ciphertext and shared secret such that decapsulation with any secret key
/// matching the public key recovers that shared secret.
#[verifier::external_body]
pub(crate) fn kem_encapsulate(pk: &Vec<u8>) -> (r: Option<(Vec<u8>, Vec<u8>)>)
    ensures
        r is Some <==> pk@.len() == KEM_PUBLIC_KEY_BYTES,
        r matches Some(p) ==> {
            &&& p.0@.len() == KEM_CIPHERTEXT_BYTES
            &&& p.1@.len() == KEM_SHARED_SECRET_BYTES
            &&& forall|sk: Seq<u8>| kem_matching(pk@, sk) ==> decap_of(p.0@, sk) == p.1@
        },
{
    match <pqcrypto_kyber::kyber1024::PublicKey as pqcrypto_traits::kem::PublicKey>::from_bytes(
        pk.as_slice(),
    ) {
        Ok(key) => {
            let (ss, ct) = pqcrypto_kyber::kyber1024::encapsulate(&key);
            Some((
                pqcrypto_traits::kem::Ciphertext::as_bytes(&ct).to_vec(),
                pqcrypto_traits::kem::SharedSecret::as_bytes(&ss).to_vec(),
            ))
        },
        Err(_) => None,
    }
}

/// Relies on pqcrypto_kyber::kyber1024: Ciphertext::from_bytes accepts
/// exactly the fixed ciphertext length, and decapsulate deterministically
/// maps the ciphertext and secret key to a fixed-length shared secret.
#[verifier::external_body]
pub(crate) fn kem_decapsulate(ct: &Vec<u8>, sk: &Vec<u8>) -> (r: Option<Vec<u8>>)
    requires
        sk@.len() == KEM_SECRET_KEY_BYTES,
    ensures
        r is Some <==> ct@.len() == KEM_CIPHERTEXT_BYTES,
        r matches Some(ss) ==> {
            &&& ss@ == decap_of(ct@, sk@)
            &&& ss@.len() == KEM_SHARED_SECRET_BYTES
        },
{
    let key = <pqcrypto_kyber::kyber1024::SecretKey as pqcrypto_traits::kem::SecretKey>::from_bytes(
        sk.as_slice(),
    ).unwrap();
    match <pqcrypto_kyber::kyber1024::Ciphertext as pqcrypto_traits::kem::Ciphertext>::from_bytes(
        ct.as_slice(),
    ) {
        Ok(c) => {
            let ss = pqcrypto_kyber::kyber1024::decapsulate(&c, &key);
            Some(pqcrypto_traits::kem::SharedSecret::as_bytes(&ss).to_vec())
        },
        Err(_) => None,
    }
}

} // verus!
