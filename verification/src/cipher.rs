//! The cipher that seals the state file.
use chacha20poly1305::aead::{Aead, Generate};
use chacha20poly1305::{ChaCha20Poly1305, Error, Key, KeyInit, Nonce};
use vstd::prelude::*;

verus! {

pub const NONCE_BYTES: usize = 12;

pub const TAG_BYTES: usize = 16;

/// The most bytes that the cipher encrypts under one nonce.
pub const PLAINTEXT_MAX_BYTES: u64 = 274_877_906_816;

/// From this many bytes on, the cipher turns a message away without looking at it.
pub const REFUSED_FROM_BYTES: u64 = 274_877_906_880;

/// `chacha20poly1305::Error`, which tells no more than that the cipher refused.
#[verifier::external_type_specification]
#[verifier::external_body]
pub struct ExError(Error);

/// What ChaCha20-Poly1305 makes of a plaintext: the ciphertext with its tag.
pub uninterp spec fn sealed(key: Seq<u8>, nonce: Seq<u8>, plaintext: Seq<u8>) -> Seq<u8>;

/// What ChaCha20-Poly1305 finds in a ciphertext with its tag, if the tag is right.
pub uninterp spec fn opened(key: Seq<u8>, nonce: Seq<u8>, ciphertext: Seq<u8>) -> Option<Seq<u8>>;

/// The lengths of a ciphertext with its tag that the cipher answers for: it runs
/// out of key stream on a message of up to one block less than what it refuses.
pub open spec fn answered_length(length: nat) -> bool {
    length <= PLAINTEXT_MAX_BYTES + TAG_BYTES || length >= REFUSED_FROM_BYTES + TAG_BYTES
}

/// `Nonce::generate`: twelve random bytes, others on every call.
#[verifier::external_body]
pub(crate) fn random_nonce() -> [u8; 12] {
    Nonce::generate().into()
}

/// `ChaCha20Poly1305::encrypt` without associated data. The result is a function
/// of the key, the nonce and the plaintext, is longer than the plaintext by the
/// tag, and is what `decrypt` turns back into the plaintext under the same key
/// and nonce.
#[verifier::external_body]
pub(crate) fn encrypt(key: &[u8; 32], nonce: &[u8], plaintext: &[u8]) -> (result: Result<
    Vec<u8>,
    Error,
>)
    requires
        nonce@.len() == NONCE_BYTES,
        plaintext@.len() <= PLAINTEXT_MAX_BYTES,
    ensures
        result is Ok,
        result->Ok_0@ == sealed(key@, nonce@, plaintext@),
        result->Ok_0@.len() == plaintext@.len() + TAG_BYTES,
        opened(key@, nonce@, result->Ok_0@) == Some(plaintext@),
{
    let nonce = Nonce::try_from(nonce).expect("the length of a nonce");
    ChaCha20Poly1305::new(&Key::from(*key)).encrypt(&nonce, plaintext)
}

/// `ChaCha20Poly1305::decrypt` without associated data. The result is a function
/// of the key, the nonce and the ciphertext; it is shorter than the ciphertext by
/// the tag, so that what is too short for a tag is refused.
#[verifier::external_body]
pub(crate) fn decrypt(key: &[u8; 32], nonce: &[u8], ciphertext: &[u8]) -> (result: Result<
    Vec<u8>,
    Error,
>)
    requires
        nonce@.len() == NONCE_BYTES,
        answered_length(ciphertext@.len()),
    ensures
        result is Ok == opened(key@, nonce@, ciphertext@) is Some,
        result is Ok ==> result->Ok_0@ == opened(key@, nonce@, ciphertext@)->0,
        result is Ok ==> result->Ok_0@.len() + TAG_BYTES == ciphertext@.len(),
{
    let nonce = Nonce::try_from(nonce).expect("the length of a nonce");
    ChaCha20Poly1305::new(&Key::from(*key)).decrypt(&nonce, ciphertext)
}

/// Whether a draw gives a nonce. Nothing but a draw shows that it does.
pub closed spec fn nonce_drawn(nonce: Seq<u8>) -> bool {
    exists|drawn: [u8; 12]| #[trigger] call_ensures(random_nonce, (), drawn) && drawn@ == nonce
}

pub(crate) proof fn lemma_nonce_drawn(drawn: [u8; 12])
    requires
        call_ensures(random_nonce, (), drawn),
    ensures
        nonce_drawn(drawn@),
{
}

/// A nonce that was drawn is just what a draw gave.
pub(crate) proof fn law_drawn_nonce_is_a_draw(nonce: Seq<u8>)
    requires
        nonce_drawn(nonce),
    ensures
        nonce.len() == NONCE_BYTES,
        exists|drawn: [u8; 12]| #[trigger] call_ensures(random_nonce, (), drawn) && drawn@ == nonce,
{
}

}
