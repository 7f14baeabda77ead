//! Key derivation: the registered KDFs and the labeled extract and expand
//! steps through which every derivation of this crate goes.

use crate::hkdf;
use crate::hkdf::HashAlg;
use crate::util::{append, i2osp, spec_i2osp};
use crate::HPKEError;
use vstd::prelude::*;
use vstd::string::StringSliceAdditionalSpecFns;

verus! {

/// KDF modes, by their registered code points.
#[derive(Clone, Copy, Debug, PartialEq, Eq, Structural)]
pub enum Mode {
    /// HKDF-SHA-256, code point 0x0001
    HkdfSha256,
    /// HKDF-SHA-384, code point 0x0002
    HkdfSha384,
    /// HKDF-SHA-512, code point 0x0003
    HkdfSha512,
}

/// The version prefix of every labeled input: the seven bytes of `HPKE-v1`.
pub open spec fn spec_version_label() -> Seq<u8> {
    "HPKE-v1".spec_bytes()
}

/// What labeled extraction feeds to the KDF as keying material:
/// `"HPKE-v1" || suite_id || label || ikm`.
pub open spec fn spec_labeled_ikm(suite_id: Seq<u8>, label: Seq<u8>, ikm: Seq<u8>) -> Seq<u8> {
    spec_version_label() + suite_id + label + ikm
}

/// What labeled expansion feeds to the KDF as info:
/// `be16(len) || "HPKE-v1" || suite_id || label || info`.
pub open spec fn spec_labeled_info(
    suite_id: Seq<u8>,
    label: Seq<u8>,
    info: Seq<u8>,
    len: nat,
) -> Seq<u8> {
    spec_i2osp(len, 2) + spec_version_label() + suite_id + label + info
}

impl Mode {
    /// The registered code point.
    pub open spec fn spec_id(self) -> u16 {
        match self {
            Mode::HkdfSha256 => 0x0001,
            Mode::HkdfSha384 => 0x0002,
            Mode::HkdfSha512 => 0x0003,
        }
    }

    /// The hash under the HKDF.
    pub open spec fn spec_hash(self) -> HashAlg {
        match self {
            Mode::HkdfSha256 => HashAlg::Sha256,
            Mode::HkdfSha384 => HashAlg::Sha384,
            Mode::HkdfSha512 => HashAlg::Sha512,
        }
    }

    /// `Nh`: the length of an extracted key.
    pub open spec fn spec_nh(self) -> nat {
        self.spec_hash().spec_output_len()
    }

    /// The longest output of one expansion, `255 * Nh`.
    pub open spec fn spec_max_output(self) -> nat {
        255 * self.spec_nh()
    }

    /// `Extract(salt, ikm)`.
    pub open spec fn spec_extract(self, salt: Seq<u8>, ikm: Seq<u8>) -> Seq<u8> {
        hkdf::spec_extract(self.spec_hash(), salt, ikm)
    }

    /// `Expand(prk, info, len)`.
    pub open spec fn spec_expand(self, prk: Seq<u8>, info: Seq<u8>, len: nat) -> Seq<u8> {
        hkdf::spec_expand(self.spec_hash(), prk, info, len)
    }

    /// `LabeledExtract(salt, suite_id, label, ikm)`.
    pub open spec fn spec_labeled_extract(
        self,
        salt: Seq<u8>,
        suite_id: Seq<u8>,
        label: Seq<u8>,
        ikm: Seq<u8>,
    ) -> Seq<u8> {
        self.spec_extract(salt, spec_labeled_ikm(suite_id, label, ikm))
    }

    /// `LabeledExpand(prk, suite_id, label, info, len)`.
    pub open spec fn spec_labeled_expand(
        self,
        prk: Seq<u8>,
        suite_id: Seq<u8>,
        label: Seq<u8>,
        info: Seq<u8>,
        len: nat,
    ) -> Seq<u8> {
        self.spec_expand(prk, spec_labeled_info(suite_id, label, info, len), len)
    }

    /// The registered code point.
    pub fn id(self) -> (x: u16)
        ensures
            x == self.spec_id(),
    {
        match self {
            Mode::HkdfSha256 => 0x0001,
            Mode::HkdfSha384 => 0x0002,
            Mode::HkdfSha512 => 0x0003,
        }
    }

    /// The mode with code point `x`; an unregistered code point is an error.
    pub fn try_from(x: u16) -> (r: Result<Mode, HPKEError>)
        ensures
            match r {
                Ok(m) => m.spec_id() == x,
                Err(e) => e == HPKEError::UnknownCodepoint && !(1 <= x <= 3),
            },
    {
        match x {
            0x0001 => Ok(Mode::HkdfSha256),
            0x0002 => Ok(Mode::HkdfSha384),
            0x0003 => Ok(Mode::HkdfSha512),
            _ => Err(HPKEError::UnknownCodepoint),
        }
    }

    /// The hash under the HKDF.
    pub fn hash(self) -> (h: HashAlg)
        ensures
            h == self.spec_hash(),
    {
        match self {
            Mode::HkdfSha256 => HashAlg::Sha256,
            Mode::HkdfSha384 => HashAlg::Sha384,
            Mode::HkdfSha512 => HashAlg::Sha512,
        }
    }
}

/// A KDF provider: HKDF over the hash that its mode names.
#[derive(Clone, Copy, Debug)]
pub struct Kdf {
    mode: Mode,
}

impl View for Kdf {
    type V = Mode;

    closed spec fn view(&self) -> Mode {
        self.mode
    }
}

impl Kdf {
    /// The provider of `mode`.
    pub fn new(mode: Mode) -> (r: Self)
        ensures
            r@ == mode,
    {
        Self { mode }
    }

    /// The mode of this provider.
    pub fn get_mode(&self) -> (m: Mode)
        ensures
            m == self@,
    {
        self.mode
    }

    /// `Nh`: the length of an extracted key.
    pub fn get_nh(&self) -> (n: usize)
        ensures
            n == self@.spec_nh(),
    {
        self.mode.hash().output_len()
    }

    /// `Extract(salt, ikm)`.
    pub fn extract(&self, salt: &[u8], ikm: &[u8]) -> (prk: Vec<u8>)
        ensures
            prk@ == self@.spec_extract(salt@, ikm@),
            prk@.len() == self@.spec_nh(),
    {
        hkdf::extract(self.mode.hash(), salt, ikm)
    }

    /// `Expand(prk, info, len)`, for a `len` of at most `255 * Nh`.
    pub fn expand(&self, prk: &[u8], info: &[u8], len: usize) -> (okm: Vec<u8>)
        requires
            len <= self@.spec_max_output(),
        ensures
            okm@ == self@.spec_expand(prk@, info@, len as nat),
            okm@.len() == len,
    {
        hkdf::expand(self.mode.hash(), prk, info, len)
    }

    /// `LabeledExtract(salt, suite_id, label, ikm)`:
    /// `Extract(salt, "HPKE-v1" || suite_id || label || ikm)`.
    pub fn labeled_extract(&self, salt: &[u8], suite_id: &[u8], label: &str, ikm: &[u8]) -> (prk:
        Vec<u8>)
        ensures
            prk@ == self@.spec_labeled_extract(salt@, suite_id@, label.spec_bytes(), ikm@),
            prk@.len() == self@.spec_nh(),
    {
        let mut labeled_ikm: Vec<u8> = Vec::new();
        append(&mut labeled_ikm, "HPKE-v1".as_bytes());
        append(&mut labeled_ikm, suite_id);
        append(&mut labeled_ikm, label.as_bytes());
        append(&mut labeled_ikm, ikm);
        assert(labeled_ikm@ =~= spec_labeled_ikm(suite_id@, label.spec_bytes(), ikm@));
        self.extract(salt, labeled_ikm.as_slice())
    }

    /// `LabeledExpand(prk, suite_id, label, info, len)`:
    /// `Expand(prk, be16(len) || "HPKE-v1" || suite_id || label || info, len)`,
    /// for a `len` of at most `255 * Nh`.
    pub fn labeled_expand(
        &self,
        prk: &[u8],
        suite_id: &[u8],
        label: &str,
        info: &[u8],
        len: usize,
    ) -> (okm: Vec<u8>)
        requires
            len <= self@.spec_max_output(),
        ensures
            okm@ == self@.spec_labeled_expand(
                prk@,
                suite_id@,
                label.spec_bytes(),
                info@,
                len as nat,
            ),
            okm@.len() == len,
    {
        let mut labeled_info: Vec<u8> = i2osp(len as u64, 2);
        append(&mut labeled_info, "HPKE-v1".as_bytes());
        append(&mut labeled_info, suite_id);
        append(&mut labeled_info, label.as_bytes());
        append(&mut labeled_info, info);
        assert(labeled_info@ =~= spec_labeled_info(
            suite_id@,
            label.spec_bytes(),
            info@,
            len as nat,
        ));
        self.expand(prk, labeled_info.as_slice(), len)
    }
}

} // verus!
