//! Key material for the two directions of a connection, and the keystream
//! that is laid over them.

pub mod key_exchange;
pub mod stream_cipher;

pub use stream_cipher::Decryptor;
pub use stream_cipher::Encryptor;
pub use stream_cipher::transport_pair;

use vstd::prelude::*;
use vstd::std_specs::convert::FromSpecImpl;

verus! {

/// Length of a cipher key and of an agreed secret, in bytes.
pub const KEY_LENGTH: usize = 32;

/// Length of a cipher nonce, in bytes.
pub const NONCE_LENGTH: usize = 12;

/// Key and nonce of one cipher context.
#[derive(Clone, Copy, Debug, PartialEq, Eq)]
pub struct ChaChaKey {
    pub key: [u8; 32],
    pub nonce: [u8; 12],
}

/// Two agreed secrets: one to become a key, one to become a nonce.
#[derive(Clone, Copy, Debug, PartialEq, Eq)]
pub struct KeyPair {
    pub key: [u8; 32],
    pub nonce: [u8; 32],
}

/// Key and nonce of one cipher context as plain values.
pub struct ChaChaKeyView {
    pub key: Seq<u8>,
    pub nonce: Seq<u8>,
}

impl View for ChaChaKey {
    type V = ChaChaKeyView;

    open spec fn view(&self) -> ChaChaKeyView {
        ChaChaKeyView { key: self.key@, nonce: self.nonce@ }
    }
}

/// The cipher context that two agreed secrets give: the first is the key as
/// it stands, the first twelve bytes of the second are the nonce.
pub open spec fn context_of(key: Seq<u8>, nonce: Seq<u8>) -> ChaChaKeyView {
    ChaChaKeyView { key, nonce: nonce.subrange(0, NONCE_LENGTH as int) }
}

/// The first twelve bytes of an agreed secret.
pub open spec fn truncated(whole: [u8; 32]) -> [u8; 12] {
    choose|part: [u8; 12]| part@ == whole@.subrange(0, NONCE_LENGTH as int)
}

impl FromSpecImpl<KeyPair> for ChaChaKey {
    open spec fn obeys_from_spec() -> bool {
        true
    }

    open spec fn from_spec(pair: KeyPair) -> ChaChaKey {
        ChaChaKey { key: pair.key, nonce: truncated(pair.nonce) }
    }
}

impl From<KeyPair> for ChaChaKey {
    /// Keeps the key and cuts the nonce down to its first twelve bytes.
    fn from(pair: KeyPair) -> (context: ChaChaKey)
        ensures
            context@ == context_of(pair.key@, pair.nonce@),
    {
        let mut iv_m12: [u8; 12] = [0;12];
        let mut i: usize = 0;
        while i < NONCE_LENGTH
            invariant
                i <= NONCE_LENGTH,
                forall|j: int| 0 <= j < i ==> iv_m12@[j] == pair.nonce@[j],
            decreases NONCE_LENGTH - i,
        {
            iv_m12[i] = pair.nonce[i];
            i += 1;
        }
        assert(iv_m12@ =~= pair.nonce@.subrange(0, NONCE_LENGTH as int));
        assert(iv_m12 =~= truncated(pair.nonce)) by {
            let other = truncated(pair.nonce);
            assert(other@ == pair.nonce@.subrange(0, NONCE_LENGTH as int));
            assert forall|j: int| 0 <= j < NONCE_LENGTH implies iv_m12[j] == other[j] by {
                assert(iv_m12@[j] == other@[j]);
            }
        }
        ChaChaKey { key: pair.key, nonce: iv_m12 }
    }
}

} // verus!
