//! A verified core for a post-quantum key-exchange demo server.
//!
//! A server generates a Kyber-1024 KEM keypair and keeps the secret half in a
//! single in-memory slot; a peer encapsulates a shared secret against the
//! public half; the server decapsulates the ciphertext with the stored key.
//! All byte payloads cross the boundary as lowercase hex strings.
//!
//! The lattice math itself is an external capability (the `pqcrypto` crates);
//! this crate verifies the key lifecycle, the hex codec contracts, input
//! validation and error translation around it.

pub mod hex_codec;
pub mod kem;
pub mod store;
pub mod session;
