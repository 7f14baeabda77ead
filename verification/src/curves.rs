//! The Diffie-Hellman primitives: X25519 from `x25519-dalek`, X448 from
//! `x448`, and P-256, P-384 and P-521 from `p256`, `p384` and `p521`; and the
//! system's random source from `getrandom`.
//!
//! Nothing in this file is proved: each function states what the outside
//! code returns, in terms of a name for that result.

use vstd::prelude::*;

verus! {

/// The X25519 function of a scalar `k` and a u-coordinate `u`, 32 bytes each.
pub uninterp spec fn spec_x25519(k: Seq<u8>, u: Seq<u8>) -> Seq<u8>;

/// The X448 function of a scalar `k` and a u-coordinate `u`, 56 bytes each;
/// `None` where `u` is a point of low order.
pub uninterp spec fn spec_x448(k: Seq<u8>, u: Seq<u8>) -> Option<Seq<u8>>;

/// Trusted: `x25519_dalek::x25519`, which clamps `k` and multiplies the point
/// with u-coordinate `u` by it. The 32 bytes that it returns depend on `k`
/// and `u` alone.
#[verifier::external_body]
pub(crate) fn x25519(k: &[u8], u: &[u8]) -> (r: Vec<u8>)
    requires
        k@.len() == 32,
        u@.len() == 32,
    ensures
        r@ == spec_x25519(k@, u@),
{
    let scalar = <[u8; 32]>::try_from(k).unwrap();
    let point = <[u8; 32]>::try_from(u).unwrap();
    x25519_dalek::x25519(scalar, point).to_vec()
}

/// Trusted: `x448::x448`, which clamps `k` and multiplies the point with
/// u-coordinate `u` by it, and refuses a point of low order. What it returns
/// depends on `k` and `u` alone.
#[verifier::external_body]
pub(crate) fn x448(k: &[u8], u: &[u8]) -> (r: Option<Vec<u8>>)
    requires
        k@.len() == 56,
        u@.len() == 56,
    ensures
        match r {
            Some(z) => spec_x448(k@, u@) == Some(z@),
            None => spec_x448(k@, u@) is None,
        },
{
    let scalar = <[u8; 56]>::try_from(k).unwrap();
    let point = <[u8; 56]>::try_from(u).unwrap();
    match x448::x448(scalar, point) {
        Some(z) => Some(z.to_vec()),
        None => None,
    }
}

/// The x-coordinate of the product of the P-256 point that `pk` encodes
/// (SEC1) and the scalar that `sk` encodes (big-endian); `None` where either
/// does not decode.
pub uninterp spec fn spec_dh_p256(sk: Seq<u8>, pk: Seq<u8>) -> Option<Seq<u8>>;

/// The uncompressed SEC1 encoding of the P-256 public key of the scalar that
/// `sk` encodes (big-endian); `None` where `sk` does not decode.
pub uninterp spec fn spec_public_p256(sk: Seq<u8>) -> Option<Seq<u8>>;

/// Trusted: `p256::ecdh::diffie_hellman` on the secret key that
/// `p256::SecretKey::from_slice` reads from `sk` and the public key that
/// `p256::PublicKey::from_sec1_bytes` reads from `pk`; the result is the raw
/// shared secret. Whether the two decode, and the bytes that come out,
/// depend on `sk` and `pk` alone.
#[verifier::external_body]
pub(crate) fn dh_p256(sk: &[u8], pk: &[u8]) -> (r: Option<Vec<u8>>)
    ensures
        match r {
            Some(z) => spec_dh_p256(sk@, pk@) == Some(z@),
            None => spec_dh_p256(sk@, pk@) is None,
        },
{
    let secret = p256::SecretKey::from_slice(sk).ok()?;
    let public = p256::PublicKey::from_sec1_bytes(pk).ok()?;
    let shared = p256::ecdh::diffie_hellman(secret.to_nonzero_scalar(), public.as_affine());
    Some(shared.raw_secret_bytes().to_vec())
}

/// Trusted: `p256::SecretKey::public_key` of the secret key that
/// `p256::SecretKey::from_slice` reads from `sk`, encoded without
/// compression. Whether `sk` decodes, and the bytes that come out, depend on
/// `sk` alone.
#[verifier::external_body]
pub(crate) fn public_p256(sk: &[u8]) -> (r: Option<Vec<u8>>)
    ensures
        match r {
            Some(pk) => spec_public_p256(sk@) == Some(pk@),
            None => spec_public_p256(sk@) is None,
        },
{
    let secret = p256::SecretKey::from_slice(sk).ok()?;
    let public = secret.public_key();
    let point = p256::elliptic_curve::sec1::ToEncodedPoint::to_encoded_point(&public, false);
    Some(point.as_bytes().to_vec())
}

/// The x-coordinate of the product of the P-384 point that `pk` encodes
/// (SEC1) and the scalar that `sk` encodes (big-endian); `None` where either
/// does not decode.
pub uninterp spec fn spec_dh_p384(sk: Seq<u8>, pk: Seq<u8>) -> Option<Seq<u8>>;

/// The uncompressed SEC1 encoding of the P-384 public key of the scalar that
/// `sk` encodes (big-endian); `None` where `sk` does not decode.
pub uninterp spec fn spec_public_p384(sk: Seq<u8>) -> Option<Seq<u8>>;

/// Trusted: `p384::ecdh::diffie_hellman` on the secret key that
/// `p384::SecretKey::from_slice` reads from `sk` and the public key that
/// `p384::PublicKey::from_sec1_bytes` reads from `pk`; the result is the raw
/// shared secret. Whether the two decode, and the bytes that come out,
/// depend on `sk` and `pk` alone.
#[verifier::external_body]
pub(crate) fn dh_p384(sk: &[u8], pk: &[u8]) -> (r: Option<Vec<u8>>)
    ensures
        match r {
            Some(z) => spec_dh_p384(sk@, pk@) == Some(z@),
            None => spec_dh_p384(sk@, pk@) is None,
        },
{
    let secret = p384::SecretKey::from_slice(sk).ok()?;
    let public = p384::PublicKey::from_sec1_bytes(pk).ok()?;
    let shared = p384::ecdh::diffie_hellman(secret.to_nonzero_scalar(), public.as_affine());
    Some(shared.raw_secret_bytes().to_vec())
}

/// Trusted: `p384::SecretKey::public_key` of the secret key that
/// `p384::SecretKey::from_slice` reads from `sk`, encoded without
/// compression. Whether `sk` decodes, and the bytes that come out, depend on
/// `sk` alone.
#[verifier::external_body]
pub(crate) fn public_p384(sk: &[u8]) -> (r: Option<Vec<u8>>)
    ensures
        match r {
            Some(pk) => spec_public_p384(sk@) == Some(pk@),
            None => spec_public_p384(sk@) is None,
        },
{
    let secret = p384::SecretKey::from_slice(sk).ok()?;
    let public = secret.public_key();
    let point = p384::elliptic_curve::sec1::ToEncodedPoint::to_encoded_point(&public, false);
    Some(point.as_bytes().to_vec())
}

/// The x-coordinate of the product of the P-521 point that `pk` encodes
/// (SEC1) and the scalar that `sk` encodes (big-endian); `None` where either
/// does not decode.
pub uninterp spec fn spec_dh_p521(sk: Seq<u8>, pk: Seq<u8>) -> Option<Seq<u8>>;

/// The uncompressed SEC1 encoding of the P-521 public key of the scalar that
/// `sk` encodes (big-endian); `None` where `sk` does not decode.
pub uninterp spec fn spec_public_p521(sk: Seq<u8>) -> Option<Seq<u8>>;

/// Trusted: `p521::ecdh::diffie_hellman` on the secret key that
/// `p521::SecretKey::from_slice` reads from `sk` and the public key that
/// `p521::PublicKey::from_sec1_bytes` reads from `pk`; the result is the raw
/// shared secret. Whether the two decode, and the bytes that come out,
/// depend on `sk` and `pk` alone.
#[verifier::external_body]
pub(crate) fn dh_p521(sk: &[u8], pk: &[u8]) -> (r: Option<Vec<u8>>)
    ensures
        match r {
            Some(z) => spec_dh_p521(sk@, pk@) == Some(z@),
            None => spec_dh_p521(sk@, pk@) is None,
        },
{
    let secret = p521::SecretKey::from_slice(sk).ok()?;
    let public = p521::PublicKey::from_sec1_bytes(pk).ok()?;
    let shared = p521::ecdh::diffie_hellman(secret.to_nonzero_scalar(), public.as_affine());
    Some(shared.raw_secret_bytes().to_vec())
}

/// Trusted: `p521::SecretKey::public_key` of the secret key that
/// `p521::SecretKey::from_slice` reads from `sk`, encoded without
/// compression. Whether `sk` decodes, and the bytes that come out, depend on
/// `sk` alone.
#[verifier::external_body]
pub(crate) fn public_p521(sk: &[u8]) -> (r: Option<Vec<u8>>)
    ensures
        match r {
            Some(pk) => spec_public_p521(sk@) == Some(pk@),
            None => spec_public_p521(sk@) is None,
        },
{
    let secret = p521::SecretKey::from_slice(sk).ok()?;
    let public = secret.public_key();
    let point = p521::elliptic_curve::sec1::ToEncodedPoint::to_encoded_point(&public, false);
    Some(point.as_bytes().to_vec())
}

/// Trusted: `getrandom::getrandom` on a buffer of `n` bytes. Of the bytes
/// nothing is claimed but their number.
#[verifier::external_body]
pub(crate) fn random_bytes(n: usize) -> (r: Option<Vec<u8>>)
    ensures
        r matches Some(v) ==> v@.len() == n,
{
    let mut buffer = vec![0u8; n];
    match getrandom::getrandom(&mut buffer) {
        Ok(()) => Some(buffer),
        Err(_) => None,
    }
}

} // verus!
