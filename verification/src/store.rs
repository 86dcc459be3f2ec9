//! The secret key store: a single in-memory slot that holds at most one KEM
//! secret key at a time, plus a generation counter that records how many keys
//! have ever been stored.
//!
//! Replacing the key is irreversible and unannounced: a new key silently
//! invalidates ciphertexts encapsulated against the previous public key. The
//! generation counter makes that replacement observable to callers. Exclusive
//! access across concurrent requests is the embedding program's duty (a
//! mutex around the whole store); the store itself is a plain value.

use vstd::prelude::*;

use crate::kem::KEM_SECRET_KEY_BYTES;

verus! {

pub struct SecretKeyStore {
    pub key: Option<Vec<u8>>,
    pub generation: u64,
}

impl SecretKeyStore {
    /// Well-formedness: any resident key has the fixed secret-key length, and
    /// the slot is empty exactly as long as no key was ever stored.
    pub open spec fn wf(self) -> bool {
        &&& (self.key matches Some(k) ==> k@.len() == KEM_SECRET_KEY_BYTES)
        &&& (self.key is None <==> self.generation == 0)
    }

    /// The bytes of the resident key; meaningful only when one is present.
    pub open spec fn key_seq(self) -> Seq<u8> {
        self.key->Some_0@
    }

    /// A store starts empty, at generation zero.
    pub fn new() -> (r: SecretKeyStore)
        ensures
            r.wf(),
            r.key is None,
            r.generation == 0,
    {
        SecretKeyStore { key: None, generation: 0 }
    }

    /// Stores a key, unconditionally replacing any resident one; there is no
    /// error path. Each call advances the generation by one.
    pub fn put(&mut self, key: Vec<u8>)
        requires
            old(self).wf(),
            key@.len() == KEM_SECRET_KEY_BYTES,
            old(self).generation < u64::MAX,
        ensures
            final(self).wf(),
            final(self).key is Some,
            final(self).key_seq() == key@,
            final(self).generation == old(self).generation + 1,
    {
        self.key = Some(key);
        self.generation = self.generation + 1;
    }

    /// Reads the resident key without consuming it; never blocks, never
    /// panics, returns the absence marker when no key was ever stored.
    pub fn get(&self) -> (r: Option<&Vec<u8>>)
        ensures
            r is Some <==> self.key is Some,
            r matches Some(k) ==> k@ == self.key_seq(),
    {
        self.key.as_ref()
    }
}

} // verus!
