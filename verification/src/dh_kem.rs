//! The Diffie-Hellman KEM: key derivation, encapsulation and decapsulation
//! over X25519, X448, P-256, P-384 and P-521.

use crate::curves::{
    dh_p256, dh_p384, dh_p521, public_p256, public_p384, public_p521, spec_dh_p256,
    spec_dh_p384, spec_dh_p521, spec_public_p256, spec_public_p384, spec_public_p521,
    spec_x25519, spec_x448, x25519, x448,
};
use crate::kdf::Kdf;
use crate::kem::Mode;
use crate::util::{
    append, concat, i2osp, is_all_zero, lemma_os2ip_zeros, less_than, spec_all_zero,
    spec_bytes_option, spec_bytes_pair_result, spec_bytes_result, spec_i2osp, spec_os2ip,
    spec_zeros, zeros,
};
use crate::HPKEError;
use vstd::prelude::*;
use vstd::string::StringSliceAdditionalSpecFns;

verus! {

/// Whether the group of `mode` is one of the NIST curves, whose private keys
/// are found by rejection sampling.
pub open spec fn spec_is_nist(mode: Mode) -> bool {
    mode == Mode::DhKemP256 || mode == Mode::DhKemP384 || mode == Mode::DhKemP521
}

/// The order of the group of a NIST curve, in big-endian bytes of the length
/// of a private key; empty for the other groups.
pub open spec fn spec_order(mode: Mode) -> Seq<u8> {
    match mode {
        Mode::DhKemP256 => seq![
            0xffu8, 0xffu8, 0xffu8, 0xffu8, 0x00u8, 0x00u8, 0x00u8, 0x00u8, 0xffu8, 0xffu8, 0xffu8, 0xffu8,
            0xffu8, 0xffu8, 0xffu8, 0xffu8, 0xbcu8, 0xe6u8, 0xfau8, 0xadu8, 0xa7u8, 0x17u8, 0x9eu8, 0x84u8,
            0xf3u8, 0xb9u8, 0xcau8, 0xc2u8, 0xfcu8, 0x63u8, 0x25u8, 0x51u8,
        ],
        Mode::DhKemP384 => seq![
            0xffu8, 0xffu8, 0xffu8, 0xffu8, 0xffu8, 0xffu8, 0xffu8, 0xffu8, 0xffu8, 0xffu8, 0xffu8, 0xffu8,
            0xffu8, 0xffu8, 0xffu8, 0xffu8, 0xffu8, 0xffu8, 0xffu8, 0xffu8, 0xffu8, 0xffu8, 0xffu8, 0xffu8,
            0xc7u8, 0x63u8, 0x4du8, 0x81u8, 0xf4u8, 0x37u8, 0x2du8, 0xdfu8, 0x58u8, 0x1au8, 0x0du8, 0xb2u8,
            0x48u8, 0xb0u8, 0xa7u8, 0x7au8, 0xecu8, 0xecu8, 0x19u8, 0x6au8, 0xccu8, 0xc5u8, 0x29u8, 0x73u8,
        ],
        Mode::DhKemP521 => seq![
            0x01u8, 0xffu8, 0xffu8, 0xffu8, 0xffu8, 0xffu8, 0xffu8, 0xffu8, 0xffu8, 0xffu8, 0xffu8, 0xffu8,
            0xffu8, 0xffu8, 0xffu8, 0xffu8, 0xffu8, 0xffu8, 0xffu8, 0xffu8, 0xffu8, 0xffu8, 0xffu8, 0xffu8,
            0xffu8, 0xffu8, 0xffu8, 0xffu8, 0xffu8, 0xffu8, 0xffu8, 0xffu8, 0xffu8, 0xfau8, 0x51u8, 0x86u8,
            0x87u8, 0x83u8, 0xbfu8, 0x2fu8, 0x96u8, 0x6bu8, 0x7fu8, 0xccu8, 0x01u8, 0x48u8, 0xf7u8, 0x09u8,
            0xa5u8, 0xd0u8, 0x3bu8, 0xb5u8, 0xc9u8, 0xb8u8, 0x89u8, 0x9cu8, 0x47u8, 0xaeu8, 0xbbu8, 0x6fu8,
            0xb7u8, 0x1eu8, 0x91u8, 0x38u8, 0x64u8, 0x09u8,
        ],
        _ => Seq::empty(),
    }
}

/// The mask on the leading byte of a candidate private key.
pub open spec fn spec_bitmask(mode: Mode) -> u8 {
    if mode == Mode::DhKemP521 {
        0x01
    } else {
        0xff
    }
}

/// The u-coordinate of the base point of X25519 (9) or X448 (5), in
/// little-endian bytes; empty for the other groups.
pub open spec fn spec_base_point(mode: Mode) -> Seq<u8> {
    match mode {
        Mode::DhKem25519 => seq![9u8] + spec_zeros(31),
        Mode::DhKem448 => seq![5u8] + spec_zeros(55),
        _ => Seq::empty(),
    }
}

/// The Diffie-Hellman value of a private and a public key. There is none
/// where a key has the wrong length, where the group refuses a key, or
/// where X25519 or X448 gives the all-zero value.
pub open spec fn spec_dh(mode: Mode, sk: Seq<u8>, pk: Seq<u8>) -> Option<Seq<u8>> {
    if sk.len() != mode.spec_nsk() || pk.len() != mode.spec_nenc() {
        None
    } else {
        match mode {
            Mode::DhKemP256 => spec_dh_p256(sk, pk),
            Mode::DhKemP384 => spec_dh_p384(sk, pk),
            Mode::DhKemP521 => spec_dh_p521(sk, pk),
            Mode::DhKem25519 => spec_nonzero(Some(spec_x25519(sk, pk))),
            Mode::DhKem448 => spec_nonzero(spec_x448(sk, pk)),
        }
    }
}

/// `z`, unless it is absent or all zero.
pub open spec fn spec_nonzero(z: Option<Seq<u8>>) -> Option<Seq<u8>> {
    match z {
        Some(s) => if spec_all_zero(s) {
            None
        } else {
            Some(s)
        },
        None => None,
    }
}

/// The serialized public key of a private key; none where the private key
/// has the wrong length or the group refuses it.
pub open spec fn spec_public_key(mode: Mode, sk: Seq<u8>) -> Option<Seq<u8>> {
    if sk.len() != mode.spec_nsk() {
        None
    } else {
        match mode {
            Mode::DhKemP256 => spec_public_p256(sk),
            Mode::DhKemP384 => spec_public_p384(sk),
            Mode::DhKemP521 => spec_public_p521(sk),
            Mode::DhKem25519 => Some(spec_x25519(sk, spec_base_point(mode))),
            Mode::DhKem448 => spec_x448(sk, spec_base_point(mode)),
        }
    }
}

/// `ExtractAndExpand(dh, kem_context)`: the shared secret of `Nsecret`
/// bytes, expanded under the label `shared_secret` from the key extracted
/// under the label `eae_prk`.
pub open spec fn spec_extract_and_expand(mode: Mode, dh: Seq<u8>, kem_context: Seq<u8>) -> Seq<
    u8,
> {
    let eae_prk = mode.spec_kdf().spec_labeled_extract(
        Seq::empty(),
        mode.spec_suite_id(),
        "eae_prk".spec_bytes(),
        dh,
    );
    mode.spec_kdf().spec_labeled_expand(
        eae_prk,
        mode.spec_suite_id(),
        "shared_secret".spec_bytes(),
        kem_context,
        mode.spec_nsecret(),
    )
}

/// The candidate private key of a NIST curve for one value of the counter:
/// `Nsk` bytes expanded under the label `candidate` with the counter as
/// info, the leading byte masked.
pub open spec fn spec_candidate(mode: Mode, dkp_prk: Seq<u8>, counter: nat) -> Seq<u8> {
    let bytes = mode.spec_kdf().spec_labeled_expand(
        dkp_prk,
        mode.spec_suite_id(),
        "candidate".spec_bytes(),
        spec_i2osp(counter, 1),
        mode.spec_nsk(),
    );
    bytes.update(0, bytes[0] & spec_bitmask(mode))
}

/// Whether a candidate is a private key of a NIST curve: a number that is
/// not zero and is below the order of the group.
pub open spec fn spec_valid_scalar(mode: Mode, candidate: Seq<u8>) -> bool {
    0 < spec_os2ip(candidate) < spec_os2ip(spec_order(mode))
}

/// The first valid candidate with a counter from `counter` up to 255.
pub open spec fn spec_find_scalar(mode: Mode, dkp_prk: Seq<u8>, counter: nat) -> Option<Seq<u8>>
    decreases 256 - counter,
{
    if counter >= 256 {
        None
    } else if spec_valid_scalar(mode, spec_candidate(mode, dkp_prk, counter)) {
        Some(spec_candidate(mode, dkp_prk, counter))
    } else {
        spec_find_scalar(mode, dkp_prk, counter + 1)
    }
}

/// The private key derived from the key `dkp_prk`: for X25519 and X448 the
/// `Nsk` bytes expanded under the label `sk`, for a NIST curve the first
/// valid candidate, if one of the 256 is valid.
pub open spec fn spec_derive_private_key(mode: Mode, dkp_prk: Seq<u8>) -> Option<Seq<u8>> {
    if spec_is_nist(mode) {
        spec_find_scalar(mode, dkp_prk, 0)
    } else {
        Some(
            mode.spec_kdf().spec_labeled_expand(
                dkp_prk,
                mode.spec_suite_id(),
                "sk".spec_bytes(),
                Seq::empty(),
                mode.spec_nsk(),
            ),
        )
    }
}

/// `DeriveKeyPair(ikm)`: the pair `(sk, pk)`. Keying material of fewer than
/// `Nsk` bytes is `InvalidInput`; that no private key is found, or that it
/// has no public key, is `CryptoFailure`.
pub open spec fn spec_derive_key_pair(mode: Mode, ikm: Seq<u8>) -> Result<
    (Seq<u8>, Seq<u8>),
    HPKEError,
> {
    if ikm.len() < mode.spec_nsk() {
        Err(HPKEError::InvalidInput)
    } else {
        let dkp_prk = mode.spec_kdf().spec_labeled_extract(
            Seq::empty(),
            mode.spec_suite_id(),
            "dkp_prk".spec_bytes(),
            ikm,
        );
        match spec_derive_private_key(mode, dkp_prk) {
            None => Err(HPKEError::CryptoFailure),
            Some(sk) => match spec_public_key(mode, sk) {
                None => Err(HPKEError::CryptoFailure),
                Some(pk) => Ok((sk, pk)),
            },
        }
    }
}

/// What encapsulation gives with the ephemeral key pair `(sk_e, pk_e)`:
/// the shared secret from `DH(sk_e, pk_r)` and the context `pk_e || pk_r`,
/// and `pk_e` as the encapsulation.
pub open spec fn spec_encaps_keyed(mode: Mode, pk_r: Seq<u8>, sk_e: Seq<u8>, pk_e: Seq<u8>) -> Result<
    (Seq<u8>, Seq<u8>),
    HPKEError,
> {
    match spec_dh(mode, sk_e, pk_r) {
        None => Err(HPKEError::CryptoFailure),
        Some(dh) => Ok((spec_extract_and_expand(mode, dh, pk_e + pk_r), pk_e)),
    }
}

/// `Encap(pk_r)` with the ephemeral key pair derived from `ikm_e`: the pair
/// `(shared_secret, enc)`.
pub open spec fn spec_encaps(mode: Mode, pk_r: Seq<u8>, ikm_e: Seq<u8>) -> Result<
    (Seq<u8>, Seq<u8>),
    HPKEError,
> {
    match spec_derive_key_pair(mode, ikm_e) {
        Err(e) => Err(e),
        Ok(pair) => spec_encaps_keyed(mode, pk_r, pair.0, pair.1),
    }
}

/// `Decap(enc, sk_r)`: the shared secret from `DH(sk_r, enc)` and the context
/// `enc || pk(sk_r)`. Every failure is `CryptoFailure`.
pub open spec fn spec_decaps(mode: Mode, enc: Seq<u8>, sk_r: Seq<u8>) -> Result<
    Seq<u8>,
    HPKEError,
> {
    match spec_dh(mode, sk_r, enc) {
        None => Err(HPKEError::CryptoFailure),
        Some(dh) => match spec_public_key(mode, sk_r) {
            None => Err(HPKEError::CryptoFailure),
            Some(pk_r) => Ok(spec_extract_and_expand(mode, dh, enc + pk_r)),
        },
    }
}

/// What authenticated encapsulation gives with the ephemeral key pair
/// `(sk_e, pk_e)`: the shared secret from `DH(sk_e, pk_r) || DH(sk_s, pk_r)`
/// and the context `pk_e || pk_r || pk(sk_s)`, and `pk_e` as the
/// encapsulation.
pub open spec fn spec_auth_encaps_keyed(
    mode: Mode,
    pk_r: Seq<u8>,
    sk_s: Seq<u8>,
    sk_e: Seq<u8>,
    pk_e: Seq<u8>,
) -> Result<(Seq<u8>, Seq<u8>), HPKEError> {
    match spec_dh(mode, sk_e, pk_r) {
        None => Err(HPKEError::CryptoFailure),
        Some(dh_e) => match spec_dh(mode, sk_s, pk_r) {
            None => Err(HPKEError::CryptoFailure),
            Some(dh_s) => match spec_public_key(mode, sk_s) {
                None => Err(HPKEError::CryptoFailure),
                Some(pk_s) => Ok(
                    (spec_extract_and_expand(mode, dh_e + dh_s, pk_e + pk_r + pk_s), pk_e),
                ),
            },
        },
    }
}

/// `AuthEncap(pk_r, sk_s)` with the ephemeral key pair derived from `ikm_e`:
/// the pair `(shared_secret, enc)`.
pub open spec fn spec_auth_encaps(mode: Mode, pk_r: Seq<u8>, sk_s: Seq<u8>, ikm_e: Seq<u8>) -> Result<
    (Seq<u8>, Seq<u8>),
    HPKEError,
> {
    match spec_derive_key_pair(mode, ikm_e) {
        Err(e) => Err(e),
        Ok(pair) => spec_auth_encaps_keyed(mode, pk_r, sk_s, pair.0, pair.1),
    }
}

/// `AuthDecap(enc, sk_r, pk_s)`: the shared secret from
/// `DH(sk_r, enc) || DH(sk_r, pk_s)` and the context
/// `enc || pk(sk_r) || pk_s`. Every failure is `CryptoFailure`.
pub open spec fn spec_auth_decaps(mode: Mode, enc: Seq<u8>, sk_r: Seq<u8>, pk_s: Seq<u8>) -> Result<
    Seq<u8>,
    HPKEError,
> {
    match spec_dh(mode, sk_r, enc) {
        None => Err(HPKEError::CryptoFailure),
        Some(dh_e) => match spec_dh(mode, sk_r, pk_s) {
            None => Err(HPKEError::CryptoFailure),
            Some(dh_s) => match spec_public_key(mode, sk_r) {
                None => Err(HPKEError::CryptoFailure),
                Some(pk_r) => Ok(spec_extract_and_expand(mode, dh_e + dh_s, enc + pk_r + pk_s)),
            },
        },
    }
}

/// The suite identifier of the KEM's own derivations.
pub fn suite_id(mode: Mode) -> (r: Vec<u8>)
    ensures
        r@ == mode.spec_suite_id(),
{
    let mut r: Vec<u8> = Vec::new();
    append(&mut r, "KEM".as_bytes());
    let id = i2osp(mode.id() as u64, 2);
    append(&mut r, id.as_slice());
    assert(r@ =~= mode.spec_suite_id());
    r
}

/// The order of the group of a NIST curve; empty for the other groups.
pub fn order(mode: Mode) -> (r: Vec<u8>)
    ensures
        r@ == spec_order(mode),
{
    let r: Vec<u8> = match mode {
        Mode::DhKemP256 => vec![
            0xffu8, 0xffu8, 0xffu8, 0xffu8, 0x00u8, 0x00u8, 0x00u8, 0x00u8, 0xffu8, 0xffu8, 0xffu8, 0xffu8,
            0xffu8, 0xffu8, 0xffu8, 0xffu8, 0xbcu8, 0xe6u8, 0xfau8, 0xadu8, 0xa7u8, 0x17u8, 0x9eu8, 0x84u8,
            0xf3u8, 0xb9u8, 0xcau8, 0xc2u8, 0xfcu8, 0x63u8, 0x25u8, 0x51u8,
        ],
        Mode::DhKemP384 => vec![
            0xffu8, 0xffu8, 0xffu8, 0xffu8, 0xffu8, 0xffu8, 0xffu8, 0xffu8, 0xffu8, 0xffu8, 0xffu8, 0xffu8,
            0xffu8, 0xffu8, 0xffu8, 0xffu8, 0xffu8, 0xffu8, 0xffu8, 0xffu8, 0xffu8, 0xffu8, 0xffu8, 0xffu8,
            0xc7u8, 0x63u8, 0x4du8, 0x81u8, 0xf4u8, 0x37u8, 0x2du8, 0xdfu8, 0x58u8, 0x1au8, 0x0du8, 0xb2u8,
            0x48u8, 0xb0u8, 0xa7u8, 0x7au8, 0xecu8, 0xecu8, 0x19u8, 0x6au8, 0xccu8, 0xc5u8, 0x29u8, 0x73u8,
        ],
        Mode::DhKemP521 => vec![
            0x01u8, 0xffu8, 0xffu8, 0xffu8, 0xffu8, 0xffu8, 0xffu8, 0xffu8, 0xffu8, 0xffu8, 0xffu8, 0xffu8,
            0xffu8, 0xffu8, 0xffu8, 0xffu8, 0xffu8, 0xffu8, 0xffu8, 0xffu8, 0xffu8, 0xffu8, 0xffu8, 0xffu8,
            0xffu8, 0xffu8, 0xffu8, 0xffu8, 0xffu8, 0xffu8, 0xffu8, 0xffu8, 0xffu8, 0xfau8, 0x51u8, 0x86u8,
            0x87u8, 0x83u8, 0xbfu8, 0x2fu8, 0x96u8, 0x6bu8, 0x7fu8, 0xccu8, 0x01u8, 0x48u8, 0xf7u8, 0x09u8,
            0xa5u8, 0xd0u8, 0x3bu8, 0xb5u8, 0xc9u8, 0xb8u8, 0x89u8, 0x9cu8, 0x47u8, 0xaeu8, 0xbbu8, 0x6fu8,
            0xb7u8, 0x1eu8, 0x91u8, 0x38u8, 0x64u8, 0x09u8,
        ],
        _ => Vec::new(),
    };
    assert(r@ =~= spec_order(mode));
    r
}

/// The u-coordinate of the base point of X25519 or X448; empty for the
/// other groups.
pub fn base_point(mode: Mode) -> (r: Vec<u8>)
    ensures
        r@ == spec_base_point(mode),
{
    let mut r: Vec<u8> = Vec::new();
    match mode {
        Mode::DhKem25519 => {
            r.push(9u8);
            let rest = zeros(31);
            append(&mut r, rest.as_slice());
        },
        Mode::DhKem448 => {
            r.push(5u8);
            let rest = zeros(55);
            append(&mut r, rest.as_slice());
        },
        _ => {},
    }
    assert(r@ =~= spec_base_point(mode));
    r
}

/// `z`, unless it is all zero.
fn nonzero(z: Vec<u8>) -> (r: Option<Vec<u8>>)
    ensures
        spec_bytes_option(r) == spec_nonzero(Some(z@)),
{
    if is_all_zero(z.as_slice()) {
        None
    } else {
        Some(z)
    }
}

/// The Diffie-Hellman value of a private and a public key.
pub fn dh(mode: Mode, sk: &[u8], pk: &[u8]) -> (r: Option<Vec<u8>>)
    ensures
        spec_bytes_option(r) == spec_dh(mode, sk@, pk@),
{
    if sk.len() != mode.nsk() || pk.len() != mode.nenc() {
        return None;
    }
    match mode {
        Mode::DhKemP256 => dh_p256(sk, pk),
        Mode::DhKemP384 => dh_p384(sk, pk),
        Mode::DhKemP521 => dh_p521(sk, pk),
        Mode::DhKem25519 => nonzero(x25519(sk, pk)),
        Mode::DhKem448 => match x448(sk, pk) {
            Some(z) => nonzero(z),
            None => None,
        },
    }
}

/// The serialized public key of a private key.
pub fn public_key(mode: Mode, sk: &[u8]) -> (r: Option<Vec<u8>>)
    ensures
        spec_bytes_option(r) == spec_public_key(mode, sk@),
{
    if sk.len() != mode.nsk() {
        return None;
    }
    match mode {
        Mode::DhKemP256 => public_p256(sk),
        Mode::DhKemP384 => public_p384(sk),
        Mode::DhKemP521 => public_p521(sk),
        Mode::DhKem25519 => {
            let base = base_point(mode);
            Some(x25519(sk, base.as_slice()))
        },
        Mode::DhKem448 => {
            let base = base_point(mode);
            x448(sk, base.as_slice())
        },
    }
}

/// `ExtractAndExpand(dh, kem_context)`.
pub fn extract_and_expand(mode: Mode, dh: &[u8], kem_context: &[u8]) -> (r: Vec<u8>)
    ensures
        r@ == spec_extract_and_expand(mode, dh@, kem_context@),
        r@.len() == mode.spec_nsecret(),
{
    let kdf = Kdf::new(mode.kdf());
    let suite = suite_id(mode);
    let empty: Vec<u8> = Vec::new();
    let eae_prk = kdf.labeled_extract(empty.as_slice(), suite.as_slice(), "eae_prk", dh);
    kdf.labeled_expand(
        eae_prk.as_slice(),
        suite.as_slice(),
        "shared_secret",
        kem_context,
        mode.nsecret(),
    )
}

/// Whether a candidate of `Nsk` bytes is a private key of a NIST curve.
pub fn valid_scalar(mode: Mode, candidate: &[u8]) -> (r: bool)
    requires
        spec_is_nist(mode),
        candidate@.len() == mode.spec_nsk(),
    ensures
        r == spec_valid_scalar(mode, candidate@),
{
    let zero = zeros(candidate.len());
    let limit = order(mode);
    proof {
        lemma_os2ip_zeros(candidate@.len());
    }
    let above_zero = less_than(zero.as_slice(), candidate);
    let below_order = less_than(candidate, limit.as_slice());
    above_zero && below_order
}

/// The private key derived from the key `dkp_prk`.
pub fn derive_private_key(mode: Mode, dkp_prk: &[u8]) -> (r: Option<Vec<u8>>)
    ensures
        spec_bytes_option(r) == spec_derive_private_key(mode, dkp_prk@),
        r matches Some(sk) ==> sk@.len() == mode.spec_nsk(),
{
    let kdf = Kdf::new(mode.kdf());
    let suite = suite_id(mode);
    let nsk: usize = mode.nsk();
    match mode {
        Mode::DhKem25519 | Mode::DhKem448 => {
            let empty: Vec<u8> = Vec::new();
            Some(kdf.labeled_expand(dkp_prk, suite.as_slice(), "sk", empty.as_slice(), nsk))
        },
        _ => {
            let mask: u8 = if mode == Mode::DhKemP521 {
                0x01
            } else {
                0xff
            };
            let mut counter: usize = 0;
            while counter < 256
                invariant
                    spec_is_nist(mode),
                    counter <= 256,
                    kdf@ == mode.spec_kdf(),
                    suite@ == mode.spec_suite_id(),
                    nsk == mode.spec_nsk(),
                    mask == spec_bitmask(mode),
                    spec_find_scalar(mode, dkp_prk@, 0) == spec_find_scalar(
                        mode,
                        dkp_prk@,
                        counter as nat,
                    ),
                decreases 256 - counter,
            {
                let info = i2osp(counter as u64, 1);
                let mut bytes = kdf.labeled_expand(
                    dkp_prk,
                    suite.as_slice(),
                    "candidate",
                    info.as_slice(),
                    nsk,
                );
                let lead: u8 = bytes[0] & mask;
                bytes.set(0, lead);
                assert(bytes@ == spec_candidate(mode, dkp_prk@, counter as nat));
                if valid_scalar(mode, bytes.as_slice()) {
                    return Some(bytes);
                }
                counter = counter + 1;
            }
            None
        },
    }
}

/// `DeriveKeyPair(ikm)`: the pair `(sk, pk)`.
pub fn derive_key_pair(mode: Mode, ikm: &[u8]) -> (r: Result<(Vec<u8>, Vec<u8>), HPKEError>)
    ensures
        spec_bytes_pair_result(r) == spec_derive_key_pair(mode, ikm@),
{
    if ikm.len() < mode.nsk() {
        return Err(HPKEError::InvalidInput);
    }
    let kdf = Kdf::new(mode.kdf());
    let suite = suite_id(mode);
    let empty: Vec<u8> = Vec::new();
    let dkp_prk = kdf.labeled_extract(empty.as_slice(), suite.as_slice(), "dkp_prk", ikm);
    match derive_private_key(mode, dkp_prk.as_slice()) {
        None => Err(HPKEError::CryptoFailure),
        Some(sk) => match public_key(mode, sk.as_slice()) {
            None => Err(HPKEError::CryptoFailure),
            Some(pk) => Ok((sk, pk)),
        },
    }
}

/// `Encap(pk_r)` with the ephemeral key pair derived from `ikm_e`.
pub fn encaps(mode: Mode, pk_r: &[u8], ikm_e: &[u8]) -> (r: Result<(Vec<u8>, Vec<u8>), HPKEError>)
    ensures
        spec_bytes_pair_result(r) == spec_encaps(mode, pk_r@, ikm_e@),
{
    let (sk_e, pk_e) = match derive_key_pair(mode, ikm_e) {
        Ok(pair) => pair,
        Err(e) => {
            return Err(e);
        },
    };
    match dh(mode, sk_e.as_slice(), pk_r) {
        None => Err(HPKEError::CryptoFailure),
        Some(z) => {
            let kem_context = concat(pk_e.as_slice(), pk_r);
            let shared_secret = extract_and_expand(mode, z.as_slice(), kem_context.as_slice());
            Ok((shared_secret, pk_e))
        },
    }
}

/// `Decap(enc, sk_r)`.
pub fn decaps(mode: Mode, enc: &[u8], sk_r: &[u8]) -> (r: Result<Vec<u8>, HPKEError>)
    ensures
        spec_bytes_result(r) == spec_decaps(mode, enc@, sk_r@),
{
    match dh(mode, sk_r, enc) {
        None => Err(HPKEError::CryptoFailure),
        Some(z) => match public_key(mode, sk_r) {
            None => Err(HPKEError::CryptoFailure),
            Some(pk_r) => {
                let kem_context = concat(enc, pk_r.as_slice());
                Ok(extract_and_expand(mode, z.as_slice(), kem_context.as_slice()))
            },
        },
    }
}

/// `AuthEncap(pk_r, sk_s)` with the ephemeral key pair derived from `ikm_e`.
pub fn auth_encaps(mode: Mode, pk_r: &[u8], sk_s: &[u8], ikm_e: &[u8]) -> (r: Result<
    (Vec<u8>, Vec<u8>),
    HPKEError,
>)
    ensures
        spec_bytes_pair_result(r) == spec_auth_encaps(mode, pk_r@, sk_s@, ikm_e@),
{
    let (sk_e, pk_e) = match derive_key_pair(mode, ikm_e) {
        Ok(pair) => pair,
        Err(e) => {
            return Err(e);
        },
    };
    let dh_e = match dh(mode, sk_e.as_slice(), pk_r) {
        Some(z) => z,
        None => {
            return Err(HPKEError::CryptoFailure);
        },
    };
    let dh_s = match dh(mode, sk_s, pk_r) {
        Some(z) => z,
        None => {
            return Err(HPKEError::CryptoFailure);
        },
    };
    match public_key(mode, sk_s) {
        None => Err(HPKEError::CryptoFailure),
        Some(pk_s) => {
            let both = concat(dh_e.as_slice(), dh_s.as_slice());
            let mut kem_context = concat(pk_e.as_slice(), pk_r);
            append(&mut kem_context, pk_s.as_slice());
            let shared_secret = extract_and_expand(mode, both.as_slice(), kem_context.as_slice());
            Ok((shared_secret, pk_e))
        },
    }
}

/// `AuthDecap(enc, sk_r, pk_s)`.
pub fn auth_decaps(mode: Mode, enc: &[u8], sk_r: &[u8], pk_s: &[u8]) -> (r: Result<
    Vec<u8>,
    HPKEError,
>)
    ensures
        spec_bytes_result(r) == spec_auth_decaps(mode, enc@, sk_r@, pk_s@),
{
    let dh_e = match dh(mode, sk_r, enc) {
        Some(z) => z,
        None => {
            return Err(HPKEError::CryptoFailure);
        },
    };
    let dh_s = match dh(mode, sk_r, pk_s) {
        Some(z) => z,
        None => {
            return Err(HPKEError::CryptoFailure);
        },
    };
    match public_key(mode, sk_r) {
        None => Err(HPKEError::CryptoFailure),
        Some(pk_r) => {
            let both = concat(dh_e.as_slice(), dh_s.as_slice());
            let mut kem_context = concat(enc, pk_r.as_slice());
            append(&mut kem_context, pk_s);
            Ok(extract_and_expand(mode, both.as_slice(), kem_context.as_slice()))
        },
    }
}

} // verus!
