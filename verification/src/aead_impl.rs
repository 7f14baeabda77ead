//! The AEAD primitives: AES-128-GCM and AES-256-GCM from the `aes-gcm` crate
//! and ChaCha20-Poly1305 from the `chacha20poly1305` crate.
//!
//! Nothing in this file is proved: each function states what the outside
//! code returns, in terms of a name for that result.

use vstd::prelude::*;

verus! {

/// The AES-128-GCM ciphertext with its tag appended, or `None` where the
/// cipher refuses the input.
pub uninterp spec fn spec_aes128gcm_seal(
    key: Seq<u8>,
    nonce: Seq<u8>,
    aad: Seq<u8>,
    pt: Seq<u8>,
) -> Option<Seq<u8>>;

/// The plaintext that AES-128-GCM authenticates and decrypts from `ct`, or
/// `None` where authentication fails.
pub uninterp spec fn spec_aes128gcm_open(
    key: Seq<u8>,
    nonce: Seq<u8>,
    aad: Seq<u8>,
    ct: Seq<u8>,
) -> Option<Seq<u8>>;

/// The AES-256-GCM ciphertext with its tag appended, or `None` where the
/// cipher refuses the input.
pub uninterp spec fn spec_aes256gcm_seal(
    key: Seq<u8>,
    nonce: Seq<u8>,
    aad: Seq<u8>,
    pt: Seq<u8>,
) -> Option<Seq<u8>>;

/// The plaintext that AES-256-GCM authenticates and decrypts from `ct`, or
/// `None` where authentication fails.
pub uninterp spec fn spec_aes256gcm_open(
    key: Seq<u8>,
    nonce: Seq<u8>,
    aad: Seq<u8>,
    ct: Seq<u8>,
) -> Option<Seq<u8>>;

/// The ChaCha20-Poly1305 ciphertext with its tag appended, or `None` where
/// the cipher refuses the input.
pub uninterp spec fn spec_chacha20poly1305_seal(
    key: Seq<u8>,
    nonce: Seq<u8>,
    aad: Seq<u8>,
    pt: Seq<u8>,
) -> Option<Seq<u8>>;

/// The plaintext that ChaCha20-Poly1305 authenticates and decrypts from
/// `ct`, or `None` where authentication fails.
pub uninterp spec fn spec_chacha20poly1305_open(
    key: Seq<u8>,
    nonce: Seq<u8>,
    aad: Seq<u8>,
    ct: Seq<u8>,
) -> Option<Seq<u8>>;

/// Trusted: `aead::Aead::encrypt` of `aes_gcm::Aes128Gcm`, with a 16-byte key
/// and a 12-byte nonce. What it returns (the ciphertext followed by the tag,
/// or an error for an over-long input) depends on the four arguments alone.
#[verifier::external_body]
pub(crate) fn aes128gcm_seal(key: &[u8], nonce: &[u8], aad: &[u8], pt: &[u8]) -> (r: Option<
    Vec<u8>,
>)
    requires
        key@.len() == 16,
        nonce@.len() == 12,
    ensures
        match r {
            Some(ct) => spec_aes128gcm_seal(key@, nonce@, aad@, pt@) == Some(ct@),
            None => spec_aes128gcm_seal(key@, nonce@, aad@, pt@) is None,
        },
{
    let cipher = <aes_gcm::Aes128Gcm as aes_gcm::aead::KeyInit>::new_from_slice(key).ok()?;
    let payload = aes_gcm::aead::Payload { msg: pt, aad };
    aes_gcm::aead::Aead::encrypt(&cipher, aes_gcm::Nonce::from_slice(nonce), payload).ok()
}

/// Trusted: `aead::Aead::decrypt` of `aes_gcm::Aes128Gcm`, with a 16-byte key
/// and a 12-byte nonce. What it returns (the plaintext, or an error where the
/// tag does not match) depends on the four arguments alone.
#[verifier::external_body]
pub(crate) fn aes128gcm_open(key: &[u8], nonce: &[u8], aad: &[u8], ct: &[u8]) -> (r: Option<
    Vec<u8>,
>)
    requires
        key@.len() == 16,
        nonce@.len() == 12,
    ensures
        match r {
            Some(pt) => spec_aes128gcm_open(key@, nonce@, aad@, ct@) == Some(pt@),
            None => spec_aes128gcm_open(key@, nonce@, aad@, ct@) is None,
        },
{
    let cipher = <aes_gcm::Aes128Gcm as aes_gcm::aead::KeyInit>::new_from_slice(key).ok()?;
    let payload = aes_gcm::aead::Payload { msg: ct, aad };
    aes_gcm::aead::Aead::decrypt(&cipher, aes_gcm::Nonce::from_slice(nonce), payload).ok()
}

/// Trusted: `aead::Aead::encrypt` of `aes_gcm::Aes256Gcm`, with a 32-byte key
/// and a 12-byte nonce. What it returns (the ciphertext followed by the tag,
/// or an error for an over-long input) depends on the four arguments alone.
#[verifier::external_body]
pub(crate) fn aes256gcm_seal(key: &[u8], nonce: &[u8], aad: &[u8], pt: &[u8]) -> (r: Option<
    Vec<u8>,
>)
    requires
        key@.len() == 32,
        nonce@.len() == 12,
    ensures
        match r {
            Some(ct) => spec_aes256gcm_seal(key@, nonce@, aad@, pt@) == Some(ct@),
            None => spec_aes256gcm_seal(key@, nonce@, aad@, pt@) is None,
        },
{
    let cipher = <aes_gcm::Aes256Gcm as aes_gcm::aead::KeyInit>::new_from_slice(key).ok()?;
    let payload = aes_gcm::aead::Payload { msg: pt, aad };
    aes_gcm::aead::Aead::encrypt(&cipher, aes_gcm::Nonce::from_slice(nonce), payload).ok()
}

/// Trusted: `aead::Aead::decrypt` of `aes_gcm::Aes256Gcm`, with a 32-byte key
/// and a 12-byte nonce. What it returns (the plaintext, or an error where the
/// tag does not match) depends on the four arguments alone.
#[verifier::external_body]
pub(crate) fn aes256gcm_open(key: &[u8], nonce: &[u8], aad: &[u8], ct: &[u8]) -> (r: Option<
    Vec<u8>,
>)
    requires
        key@.len() == 32,
        nonce@.len() == 12,
    ensures
        match r {
            Some(pt) => spec_aes256gcm_open(key@, nonce@, aad@, ct@) == Some(pt@),
            None => spec_aes256gcm_open(key@, nonce@, aad@, ct@) is None,
        },
{
    let cipher = <aes_gcm::Aes256Gcm as aes_gcm::aead::KeyInit>::new_from_slice(key).ok()?;
    let payload = aes_gcm::aead::Payload { msg: ct, aad };
    aes_gcm::aead::Aead::decrypt(&cipher, aes_gcm::Nonce::from_slice(nonce), payload).ok()
}

/// Trusted: `aead::Aead::encrypt` of `chacha20poly1305::ChaCha20Poly1305`,
/// with a 32-byte key and a 12-byte nonce. What it returns (the ciphertext
/// followed by the tag, or an error for an over-long input) depends on the
/// four arguments alone.
#[verifier::external_body]
pub(crate) fn chacha20poly1305_seal(key: &[u8], nonce: &[u8], aad: &[u8], pt: &[u8]) -> (r:
    Option<Vec<u8>>)
    requires
        key@.len() == 32,
        nonce@.len() == 12,
    ensures
        match r {
            Some(ct) => spec_chacha20poly1305_seal(key@, nonce@, aad@, pt@) == Some(ct@),
            None => spec_chacha20poly1305_seal(key@, nonce@, aad@, pt@) is None,
        },
{
    let cipher = <chacha20poly1305::ChaCha20Poly1305 as chacha20poly1305::aead::KeyInit>::new_from_slice(key).ok()?;
    let payload = chacha20poly1305::aead::Payload { msg: pt, aad };
    chacha20poly1305::aead::Aead::encrypt(&cipher, chacha20poly1305::Nonce::from_slice(nonce), payload).ok()
}

/// Trusted: `aead::Aead::decrypt` of `chacha20poly1305::ChaCha20Poly1305`,
/// with a 32-byte key and a 12-byte nonce. What it returns (the plaintext, or
/// an error where the tag does not match) depends on the four arguments
/// alone.
#[verifier::external_body]
pub(crate) fn chacha20poly1305_open(key: &[u8], nonce: &[u8], aad: &[u8], ct: &[u8]) -> (r:
    Option<Vec<u8>>)
    requires
        key@.len() == 32,
        nonce@.len() == 12,
    ensures
        match r {
            Some(pt) => spec_chacha20poly1305_open(key@, nonce@, aad@, ct@) == Some(pt@),
            None => spec_chacha20poly1305_open(key@, nonce@, aad@, ct@) is None,
        },
{
    let cipher = <chacha20poly1305::ChaCha20Poly1305 as chacha20poly1305::aead::KeyInit>::new_from_slice(key).ok()?;
    let payload = chacha20poly1305::aead::Payload { msg: ct, aad };
    chacha20poly1305::aead::Aead::decrypt(&cipher, chacha20poly1305::Nonce::from_slice(nonce), payload).ok()
}

} // verus!
