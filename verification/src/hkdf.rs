//! HKDF (extract and expand) over HMAC with SHA-256, SHA-384 or SHA-512.
//!
//! The HMAC computations are made by the `hmac` and `sha2` crates; the
//! HKDF construction on top of them is verified here.

use crate::util::{append, spec_zeros, zeros};
use vstd::prelude::*;

verus! {

/// The hash function under HMAC.
#[derive(Clone, Copy, Debug, PartialEq, Eq, Structural)]
pub enum HashAlg {
    Sha256,
    Sha384,
    Sha512,
}

impl HashAlg {
    /// Length of a digest in bytes.
    pub open spec fn spec_output_len(self) -> nat {
        match self {
            HashAlg::Sha256 => 32,
            HashAlg::Sha384 => 48,
            HashAlg::Sha512 => 64,
        }
    }

    /// Length of a digest in bytes.
    pub fn output_len(self) -> (n: usize)
        ensures
            n == self.spec_output_len(),
    {
        match self {
            HashAlg::Sha256 => 32,
            HashAlg::Sha384 => 48,
            HashAlg::Sha512 => 64,
        }
    }
}

/// The HMAC-SHA-256 tag of `data` under `key`.
pub uninterp spec fn spec_hmac_sha256(key: Seq<u8>, data: Seq<u8>) -> Seq<u8>;

/// The HMAC-SHA-384 tag of `data` under `key`.
pub uninterp spec fn spec_hmac_sha384(key: Seq<u8>, data: Seq<u8>) -> Seq<u8>;

/// The HMAC-SHA-512 tag of `data` under `key`.
pub uninterp spec fn spec_hmac_sha512(key: Seq<u8>, data: Seq<u8>) -> Seq<u8>;

/// Trusted: `hmac::Hmac<sha2::Sha256>`, keyed with `key` (a key of any
/// length is accepted, so construction cannot fail), fed `data` once and
/// finalized. The tag depends on `key` and `data` alone and is 32 bytes long.
#[verifier::external_body]
fn hmac_sha256(key: &[u8], data: &[u8]) -> (r: Vec<u8>)
    ensures
        r@ == spec_hmac_sha256(key@, data@),
        r@.len() == 32,
{
    let mut m = <hmac::Hmac<sha2::Sha256> as hmac::Mac>::new_from_slice(key).unwrap();
    hmac::Mac::update(&mut m, data);
    hmac::Mac::finalize(m).into_bytes().to_vec()
}

/// Trusted: `hmac::Hmac<sha2::Sha384>`, keyed with `key` (a key of any
/// length is accepted, so construction cannot fail), fed `data` once and
/// finalized. The tag depends on `key` and `data` alone and is 48 bytes long.
#[verifier::external_body]
fn hmac_sha384(key: &[u8], data: &[u8]) -> (r: Vec<u8>)
    ensures
        r@ == spec_hmac_sha384(key@, data@),
        r@.len() == 48,
{
    let mut m = <hmac::Hmac<sha2::Sha384> as hmac::Mac>::new_from_slice(key).unwrap();
    hmac::Mac::update(&mut m, data);
    hmac::Mac::finalize(m).into_bytes().to_vec()
}

/// Trusted: `hmac::Hmac<sha2::Sha512>`, keyed with `key` (a key of any
/// length is accepted, so construction cannot fail), fed `data` once and
/// finalized. The tag depends on `key` and `data` alone and is 64 bytes long.
#[verifier::external_body]
fn hmac_sha512(key: &[u8], data: &[u8]) -> (r: Vec<u8>)
    ensures
        r@ == spec_hmac_sha512(key@, data@),
        r@.len() == 64,
{
    let mut m = <hmac::Hmac<sha2::Sha512> as hmac::Mac>::new_from_slice(key).unwrap();
    hmac::Mac::update(&mut m, data);
    hmac::Mac::finalize(m).into_bytes().to_vec()
}

/// The HMAC tag of `data` under `key` with hash `h`.
pub open spec fn spec_hmac(h: HashAlg, key: Seq<u8>, data: Seq<u8>) -> Seq<u8> {
    match h {
        HashAlg::Sha256 => spec_hmac_sha256(key, data),
        HashAlg::Sha384 => spec_hmac_sha384(key, data),
        HashAlg::Sha512 => spec_hmac_sha512(key, data),
    }
}

/// HKDF-Extract: the HMAC of the input keying material under the salt,
/// where an absent (empty) salt stands for a digest's length of zero bytes.
pub open spec fn spec_extract(h: HashAlg, salt: Seq<u8>, ikm: Seq<u8>) -> Seq<u8> {
    spec_hmac(
        h,
        if salt.len() == 0 {
            spec_zeros(h.spec_output_len())
        } else {
            salt
        },
        ikm,
    )
}

/// The `i`-th block `T(i)` of HKDF-Expand; `T(0)` is empty and
/// `T(i) = HMAC(prk, T(i-1) || info || i)`.
pub open spec fn spec_block(h: HashAlg, prk: Seq<u8>, info: Seq<u8>, i: nat) -> Seq<u8>
    decreases i,
{
    if i == 0 {
        Seq::empty()
    } else {
        spec_hmac(h, prk, spec_block(h, prk, info, (i - 1) as nat) + info + seq![i as u8])
    }
}

/// `T(1) || ... || T(n)`.
pub open spec fn spec_blocks(h: HashAlg, prk: Seq<u8>, info: Seq<u8>, n: nat) -> Seq<u8>
    decreases n,
{
    if n == 0 {
        Seq::empty()
    } else {
        spec_blocks(h, prk, info, (n - 1) as nat) + spec_block(h, prk, info, n)
    }
}

/// The number of blocks that cover `len` bytes.
pub open spec fn spec_block_count(h: HashAlg, len: nat) -> nat {
    ((len + h.spec_output_len() - 1) / (h.spec_output_len() as int)) as nat
}

/// The longest output that HKDF-Expand gives: 255 blocks.
pub open spec fn spec_max_output(h: HashAlg) -> nat {
    255 * h.spec_output_len()
}

/// HKDF-Expand: the first `len` bytes of `T(1) || T(2) || ...`.
pub open spec fn spec_expand(h: HashAlg, prk: Seq<u8>, info: Seq<u8>, len: nat) -> Seq<u8> {
    spec_blocks(h, prk, info, spec_block_count(h, len)).subrange(0, len as int)
}

/// The HMAC tag of `data` under `key` with hash `h`.
pub fn hmac(h: HashAlg, key: &[u8], data: &[u8]) -> (r: Vec<u8>)
    ensures
        r@ == spec_hmac(h, key@, data@),
        r@.len() == h.spec_output_len(),
{
    match h {
        HashAlg::Sha256 => hmac_sha256(key, data),
        HashAlg::Sha384 => hmac_sha384(key, data),
        HashAlg::Sha512 => hmac_sha512(key, data),
    }
}

/// HKDF-Extract.
pub fn extract(h: HashAlg, salt: &[u8], ikm: &[u8]) -> (prk: Vec<u8>)
    ensures
        prk@ == spec_extract(h, salt@, ikm@),
        prk@.len() == h.spec_output_len(),
{
    if salt.len() == 0 {
        let key = zeros(h.output_len());
        hmac(h, key.as_slice(), ikm)
    } else {
        hmac(h, salt, ikm)
    }
}

/// HKDF-Expand to `len` bytes, for a `len` of at most 255 digests.
pub fn expand(h: HashAlg, prk: &[u8], info: &[u8], len: usize) -> (okm: Vec<u8>)
    requires
        len <= spec_max_output(h),
    ensures
        okm@ == spec_expand(h, prk@, info@, len as nat),
        okm@.len() == len,
{
    let nh: usize = h.output_len();
    let n: usize = (len + nh - 1) / nh;
    assert(n == spec_block_count(h, len as nat));
    assert(n <= 255 && n * nh >= len) by {
        if nh == 32 {
        } else if nh == 48 {
        } else {
        }
    }
    let mut okm: Vec<u8> = Vec::new();
    let mut block: Vec<u8> = Vec::new();
    let mut i: usize = 0;
    while i < n
        invariant
            i <= n,
            n <= 255,
            nh == h.spec_output_len(),
            block@ == spec_block(h, prk@, info@, i as nat),
            okm@ == spec_blocks(h, prk@, info@, i as nat),
            okm@.len() == i * nh,
        decreases n - i,
    {
        i = i + 1;
        let mut input: Vec<u8> = Vec::new();
        append(&mut input, block.as_slice());
        append(&mut input, info);
        input.push(i as u8);
        assert(input@ =~= block@ + info@ + seq![i as u8]);
        block = hmac(h, prk, input.as_slice());
        append(&mut okm, block.as_slice());
        assert(okm@.len() == i * nh) by (nonlinear_arith)
            requires
                okm@.len() == (i - 1) * nh + nh,
        ;
    }
    okm.truncate(len);
    okm
}

} // verus!
