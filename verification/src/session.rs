//! The session protocol handler: the three operations of the key-exchange
//! demo (issue a keypair, simulate a peer's encapsulation, decapsulate),
//! with input validation, hex translation and error translation around the
//! KEM capability and the secret key store.

use vstd::prelude::*;
use vstd::string::StringExecFns;

use crate::hex_codec::{
    decode_or_empty, hex_encode, lemma_hex_round_trip, spec_decode_or_empty, spec_hex_decode,
    spec_hex_encode, spec_hex_valid,
};
use crate::kem::{
    decap_of, kem_decapsulate, kem_encapsulate, kem_keypair, kem_matching, KEM_CIPHERTEXT_BYTES,
    KEM_PUBLIC_KEY_BYTES, KEM_SHARED_SECRET_BYTES,
};
use crate::store::SecretKeyStore;

verus! {

/// The protocol's error taxonomy. The first two mark malformed client input;
/// the third marks a server-sequencing violation (decapsulation attempted
/// before any key was generated) and is surfaced with a distinct HTTP status.
#[derive(Debug, Clone, Copy, PartialEq, Eq, Structural)]
pub enum QuantumError {
    InvalidPublicKey,
    InvalidCiphertext,
    NoSecretKeyAvailable,
}

impl QuantumError {
    /// The response body each error is surfaced with.
    pub fn message(&self) -> (r: String)
        ensures
            *self is InvalidPublicKey ==> r@ == "Invalid Public Key"@,
            *self is InvalidCiphertext ==> r@ == "Invalid Ciphertext"@,
            *self is NoSecretKeyAvailable ==> r@ == "No Secret Key available"@,
    {
        match self {
            QuantumError::InvalidPublicKey => String::from_str("Invalid Public Key"),
            QuantumError::InvalidCiphertext => String::from_str("Invalid Ciphertext"),
            QuantumError::NoSecretKeyAvailable => String::from_str("No Secret Key available"),
        }
    }

    /// The HTTP status each error is surfaced with: client errors as 400,
    /// the missing-key state as 500.
    pub fn http_status(&self) -> (r: u16)
        ensures
            *self is InvalidPublicKey ==> r == 400,
            *self is InvalidCiphertext ==> r == 400,
            *self is NoSecretKeyAvailable ==> r == 500,
    {
        match self {
            QuantumError::InvalidPublicKey => 400,
            QuantumError::InvalidCiphertext => 400,
            QuantumError::NoSecretKeyAvailable => 500,
        }
    }
}

#[derive(Debug)]
pub struct KeyPairResponse {
    pub public_key: String,
    pub message: String,
}

#[derive(Debug)]
pub struct EncapsulateResponse {
    pub ciphertext: String,
    pub shared_secret: String,
}

#[derive(Debug)]
pub struct DecapsulateResponse {
    pub shared_secret: String,
    pub status: String,
}

#[derive(Debug)]
pub struct StatusResponse {
    pub status: String,
    pub system: String,
    pub algorithms: Vec<String>,
    pub security_level: String,
}

/// The fixed service metadata.
pub fn status() -> (r: StatusResponse)
    ensures
        r.status@ == "online"@,
        r.system@ == "Quantum Hybrid Security System"@,
        r.algorithms@.len() == 2,
        r.algorithms@[0]@ == "Kyber-1024"@,
        r.algorithms@[1]@ == "Dilithium-5"@,
        r.security_level@ == "NIST Level 5 (AES-256 equivalent)"@,
{
    let mut algorithms: Vec<String> = Vec::new();
    algorithms.push(String::from_str("Kyber-1024"));
    algorithms.push(String::from_str("Dilithium-5"));
    StatusResponse {
        status: String::from_str("online"),
        system: String::from_str("Quantum Hybrid Security System"),
        algorithms,
        security_level: String::from_str("NIST Level 5 (AES-256 equivalent)"),
    }
}

/// Generates a fresh KEM keypair, stores the secret half (unconditionally
/// replacing any previous key) and returns the public half hex-encoded.
/// There is no error path. The returned hex decodes back to the full-length
/// public key matching the key now in the store.
pub fn generate_kem_keys(store: &mut SecretKeyStore) -> (r: KeyPairResponse)
    requires
        old(store).wf(),
        old(store).generation < u64::MAX,
    ensures
        final(store).wf(),
        final(store).key is Some,
        final(store).generation == old(store).generation + 1,
        spec_hex_valid(r.public_key@),
        r.public_key@ == spec_hex_encode(spec_hex_decode(r.public_key@)),
        spec_hex_decode(r.public_key@).len() == KEM_PUBLIC_KEY_BYTES,
        kem_matching(spec_hex_decode(r.public_key@), final(store).key_seq()),
        r.message@ == "Kyber-1024 KeyPair Generated. Secret Key stored securely in memory."@,
{
    let (pk, sk) = kem_keypair();
    store.put(sk);
    let public_key = hex_encode(&pk);
    proof {
        lemma_hex_round_trip(pk@);
    }
    KeyPairResponse {
        public_key,
        message: String::from_str(
            "Kyber-1024 KeyPair Generated. Secret Key stored securely in memory.",
        ),
    }
}

/// What a successful encapsulation response guarantees about its input: both
/// fields are well-formed hex of the fixed lengths, and the shared secret is
/// what decapsulating the ciphertext with any secret key matching the decoded
/// input public key yields.
pub open spec fn encap_response_ok(input: Seq<char>, resp: EncapsulateResponse) -> bool {
    &&& spec_hex_valid(resp.ciphertext@)
    &&& resp.ciphertext@ == spec_hex_encode(spec_hex_decode(resp.ciphertext@))
    &&& spec_hex_decode(resp.ciphertext@).len() == KEM_CIPHERTEXT_BYTES
    &&& spec_hex_valid(resp.shared_secret@)
    &&& resp.shared_secret@ == spec_hex_encode(spec_hex_decode(resp.shared_secret@))
    &&& spec_hex_decode(resp.shared_secret@).len() == KEM_SHARED_SECRET_BYTES
    &&& forall|sk: Seq<u8>|
        kem_matching(spec_decode_or_empty(input), sk) ==> decap_of(
            spec_hex_decode(resp.ciphertext@),
            sk,
        ) == spec_hex_decode(resp.shared_secret@)
}

/// A peer's encapsulation, run locally for demonstration: decodes the hex
/// public key (malformed hex counts as empty bytes), rejects anything but a
/// full-length public key with `InvalidPublicKey`, and otherwise returns the
/// hex-encoded ciphertext and shared secret. It neither reads nor writes the
/// secret key store.
pub fn simulate_encapsulation(public_key_hex: &str) -> (r: Result<
    EncapsulateResponse,
    QuantumError,
>)
    ensures
        r is Ok <==> spec_decode_or_empty(public_key_hex@).len() == KEM_PUBLIC_KEY_BYTES,
        r matches Ok(resp) ==> encap_response_ok(public_key_hex@, resp),
        r is Err ==> r->Err_0 == QuantumError::InvalidPublicKey,
{
    let pk_bytes = decode_or_empty(public_key_hex);
    match kem_encapsulate(&pk_bytes) {
        Some(pair) => {
            let (ct, ss) = pair;
            proof {
                lemma_hex_round_trip(ct@);
                lemma_hex_round_trip(ss@);
            }
            Ok(EncapsulateResponse { ciphertext: hex_encode(&ct), shared_secret: hex_encode(&ss) })
        },
        None => Err(QuantumError::InvalidPublicKey),
    }
}

/// Recovers a shared secret from a hex ciphertext using the stored secret
/// key. With no key ever stored it signals `NoSecretKeyAvailable`; with
/// anything but full-length ciphertext bytes (malformed hex counting as
/// empty) it signals `InvalidCiphertext`; otherwise it returns the
/// hex-encoded decapsulation of the ciphertext with the resident key.
pub fn decapsulate(store: &SecretKeyStore, ciphertext_hex: &str) -> (r: Result<
    DecapsulateResponse,
    QuantumError,
>)
    requires
        store.wf(),
    ensures
        store.key is None ==> r is Err && r->Err_0 == QuantumError::NoSecretKeyAvailable,
        store.key is Some ==> (r is Ok <==> spec_decode_or_empty(ciphertext_hex@).len()
            == KEM_CIPHERTEXT_BYTES),
        store.key is Some && r is Err ==> r->Err_0 == QuantumError::InvalidCiphertext,
        r matches Ok(resp) ==> {
            &&& spec_hex_valid(resp.shared_secret@)
            &&& resp.shared_secret@ == spec_hex_encode(
                decap_of(spec_decode_or_empty(ciphertext_hex@), store.key_seq()),
            )
            &&& spec_hex_decode(resp.shared_secret@) == decap_of(
                spec_decode_or_empty(ciphertext_hex@),
                store.key_seq(),
            )
            &&& spec_hex_decode(resp.shared_secret@).len() == KEM_SHARED_SECRET_BYTES
            &&& resp.status@ == "Success. Quantum-safe channel established."@
        },
{
    match store.get() {
        Some(sk) => {
            let ct_bytes = decode_or_empty(ciphertext_hex);
            match kem_decapsulate(&ct_bytes, sk) {
                Some(ss) => {
                    proof {
                        lemma_hex_round_trip(ss@);
                    }
                    Ok(
                        DecapsulateResponse {
                            shared_secret: hex_encode(&ss),
                            status: String::from_str(
                                "Success. Quantum-safe channel established.",
                            ),
                        },
                    )
                },
                None => Err(QuantumError::InvalidCiphertext),
            }
        },
        None => Err(QuantumError::NoSecretKeyAvailable),
    }
}

/// A public key exactly as `generate_kem_keys` hex-encodes it is accepted by
/// `simulate_encapsulation`: under the malformed-to-empty decoding policy its
/// hex form decodes back to the full-length key, which is the condition under
/// which that operation promises success.
pub proof fn lemma_generated_key_is_accepted(pk: Seq<u8>)
    requires
        pk.len() == KEM_PUBLIC_KEY_BYTES,
    ensures
        spec_decode_or_empty(spec_hex_encode(pk)) == pk,
        spec_decode_or_empty(spec_hex_encode(pk)).len() == KEM_PUBLIC_KEY_BYTES,
{
    lemma_hex_round_trip(pk);
}

/// Protocol round trip: for a store whose resident key matches the public key
/// a successful encapsulation response was produced against, the response's
/// ciphertext is accepted by `decapsulate`, and decapsulating it with the
/// resident key recovers exactly the shared secret the encapsulation
/// reported.
pub proof fn lemma_decapsulation_recovers_secret(
    store: SecretKeyStore,
    input: Seq<char>,
    resp: EncapsulateResponse,
)
    requires
        store.wf(),
        store.key is Some,
        kem_matching(spec_decode_or_empty(input), store.key_seq()),
        encap_response_ok(input, resp),
    ensures
        spec_decode_or_empty(resp.ciphertext@) == spec_hex_decode(resp.ciphertext@),
        spec_decode_or_empty(resp.ciphertext@).len() == KEM_CIPHERTEXT_BYTES,
        decap_of(spec_decode_or_empty(resp.ciphertext@), store.key_seq()) == spec_hex_decode(
            resp.shared_secret@,
        ),
        spec_hex_encode(decap_of(spec_decode_or_empty(resp.ciphertext@), store.key_seq()))
            == resp.shared_secret@,
{
}

} // verus!
