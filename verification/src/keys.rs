//! The server's signing key.

use vstd::prelude::*;
use crate::token::generate_private_key;
use crate::token::keypair_from_private_bytes;
use crate::token::private_bytes;

verus! {

/// The server's long-lived key: the 32 bytes of the private half, and the key
/// pair made from them. Every token is signed with it and verified against
/// its public half, so a new key voids every token issued under the old one.
pub struct RootKey {
    bytes: Vec<u8>,
    pair: biscuit_auth::KeyPair,
}

impl View for RootKey {
    type V = Seq<u8>;

    closed spec fn view(&self) -> Seq<u8> {
        self.bytes@
    }
}

impl RootKey {
    #[verifier::type_invariant]
    spec fn well_formed(self) -> bool {
        &&& self.bytes@.len() == 32
        &&& private_bytes(self.pair) == self.bytes@
    }

    /// The key pair that this key holds. Its private key is this key: it
    /// signs and verifies for as long as the key lives.
    pub closed spec fn key_pair(&self) -> biscuit_auth::KeyPair {
        self.pair
    }

    /// Takes `bytes` as the key, if there are 32 of them.
    pub fn from_bytes(bytes: Vec<u8>) -> (root: Option<RootKey>)
        ensures
            match root {
                Some(key) => bytes@.len() == 32 && key@ == bytes@,
                None => bytes@.len() != 32,
            },
    {
        if bytes.len() == 32 {
            let pair = keypair_from_private_bytes(bytes.as_slice());
            Some(RootKey { bytes, pair })
        } else {
            None
        }
    }

    /// Makes a new random key.
    pub fn generate() -> (root: RootKey)
        ensures
            root@.len() == 32,
    {
        let bytes = generate_private_key();
        let pair = keypair_from_private_bytes(bytes.as_slice());
        RootKey { bytes, pair }
    }

    /// The bytes of the key.
    pub fn to_bytes(&self) -> (bytes: Vec<u8>)
        ensures
            bytes@ == self@,
            bytes@.len() == 32,
    {
        proof {
            use_type_invariant(self);
        }
        self.bytes.clone()
    }

    /// The key pair that this key holds, whose private key is this key.
    pub(crate) fn pair(&self) -> (pair: &biscuit_auth::KeyPair)
        ensures
            *pair == self.key_pair(),
            private_bytes(*pair) == self@,
    {
        proof {
            use_type_invariant(self);
        }
        &self.pair
    }
}

} // verus!
