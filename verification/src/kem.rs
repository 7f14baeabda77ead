//! Key encapsulation: the registered KEMs and their provider.

use crate::curves::random_bytes;
use crate::dh_kem;
use crate::kdf;
use crate::util::{spec_bytes_pair_result, spec_bytes_result, spec_i2osp};
use crate::HPKEError;
use vstd::prelude::*;
use vstd::string::StringSliceAdditionalSpecFns;

verus! {

/// KEM modes, by their registered code points.
#[derive(Clone, Copy, Debug, PartialEq, Eq, Structural)]
pub enum Mode {
    /// DHKEM(P-256, HKDF-SHA-256), code point 0x0010
    DhKemP256,
    /// DHKEM(P-384, HKDF-SHA-384), code point 0x0011
    DhKemP384,
    /// DHKEM(P-521, HKDF-SHA-512), code point 0x0012
    DhKemP521,
    /// DHKEM(X25519, HKDF-SHA-256), code point 0x0020
    DhKem25519,
    /// DHKEM(X448, HKDF-SHA-512), code point 0x0021
    DhKem448,
}

impl Mode {
    /// The registered code point.
    pub open spec fn spec_id(self) -> u16 {
        match self {
            Mode::DhKemP256 => 0x0010,
            Mode::DhKemP384 => 0x0011,
            Mode::DhKemP521 => 0x0012,
            Mode::DhKem25519 => 0x0020,
            Mode::DhKem448 => 0x0021,
        }
    }

    /// `Nsecret`: the length of a shared secret.
    pub open spec fn spec_nsecret(self) -> nat {
        match self {
            Mode::DhKemP256 => 32,
            Mode::DhKemP384 => 48,
            Mode::DhKemP521 => 64,
            Mode::DhKem25519 => 32,
            Mode::DhKem448 => 64,
        }
    }

    /// `Nsk`: the length of a private key.
    pub open spec fn spec_nsk(self) -> nat {
        match self {
            Mode::DhKemP256 => 32,
            Mode::DhKemP384 => 48,
            Mode::DhKemP521 => 66,
            Mode::DhKem25519 => 32,
            Mode::DhKem448 => 56,
        }
    }

    /// `Nenc`: the length of an encapsulation, which is a serialized public
    /// key.
    pub open spec fn spec_nenc(self) -> nat {
        match self {
            Mode::DhKemP256 => 65,
            Mode::DhKemP384 => 97,
            Mode::DhKemP521 => 133,
            Mode::DhKem25519 => 32,
            Mode::DhKem448 => 56,
        }
    }

    /// The KDF inside the KEM.
    pub open spec fn spec_kdf(self) -> kdf::Mode {
        match self {
            Mode::DhKemP256 => kdf::Mode::HkdfSha256,
            Mode::DhKemP384 => kdf::Mode::HkdfSha384,
            Mode::DhKemP521 => kdf::Mode::HkdfSha512,
            Mode::DhKem25519 => kdf::Mode::HkdfSha256,
            Mode::DhKem448 => kdf::Mode::HkdfSha512,
        }
    }

    /// The suite identifier of the KEM's own derivations:
    /// `"KEM" || be16(kem_id)`.
    pub open spec fn spec_suite_id(self) -> Seq<u8> {
        "KEM".spec_bytes() + spec_i2osp(self.spec_id() as nat, 2)
    }

    /// The registered code point.
    pub fn id(self) -> (x: u16)
        ensures
            x == self.spec_id(),
    {
        match self {
            Mode::DhKemP256 => 0x0010,
            Mode::DhKemP384 => 0x0011,
            Mode::DhKemP521 => 0x0012,
            Mode::DhKem25519 => 0x0020,
            Mode::DhKem448 => 0x0021,
        }
    }

    /// The mode with code point `x`; an unregistered code point is an error.
    pub fn try_from(x: u16) -> (r: Result<Mode, HPKEError>)
        ensures
            match r {
                Ok(m) => m.spec_id() == x,
                Err(e) => e == HPKEError::UnknownCodepoint && !(0x10 <= x <= 0x12) && !(0x20 <= x
                    <= 0x21),
            },
    {
        match x {
            0x0010 => Ok(Mode::DhKemP256),
            0x0011 => Ok(Mode::DhKemP384),
            0x0012 => Ok(Mode::DhKemP521),
            0x0020 => Ok(Mode::DhKem25519),
            0x0021 => Ok(Mode::DhKem448),
            _ => Err(HPKEError::UnknownCodepoint),
        }
    }

    /// `Nsecret`: the length of a shared secret.
    pub fn nsecret(self) -> (n: usize)
        ensures
            n == self.spec_nsecret(),
    {
        match self {
            Mode::DhKemP256 => 32,
            Mode::DhKemP384 => 48,
            Mode::DhKemP521 => 64,
            Mode::DhKem25519 => 32,
            Mode::DhKem448 => 64,
        }
    }

    /// `Nsk`: the length of a private key.
    pub fn nsk(self) -> (n: usize)
        ensures
            n == self.spec_nsk(),
    {
        match self {
            Mode::DhKemP256 => 32,
            Mode::DhKemP384 => 48,
            Mode::DhKemP521 => 66,
            Mode::DhKem25519 => 32,
            Mode::DhKem448 => 56,
        }
    }

    /// `Nenc`: the length of an encapsulation.
    pub fn nenc(self) -> (n: usize)
        ensures
            n == self.spec_nenc(),
    {
        match self {
            Mode::DhKemP256 => 65,
            Mode::DhKemP384 => 97,
            Mode::DhKemP521 => 133,
            Mode::DhKem25519 => 32,
            Mode::DhKem448 => 56,
        }
    }

    /// The KDF inside the KEM.
    pub fn kdf(self) -> (k: kdf::Mode)
        ensures
            k == self.spec_kdf(),
    {
        match self {
            Mode::DhKemP256 => kdf::Mode::HkdfSha256,
            Mode::DhKemP384 => kdf::Mode::HkdfSha384,
            Mode::DhKemP521 => kdf::Mode::HkdfSha512,
            Mode::DhKem25519 => kdf::Mode::HkdfSha256,
            Mode::DhKem448 => kdf::Mode::HkdfSha512,
        }
    }
}

/// A KEM provider: the Diffie-Hellman KEM over the group that its mode names.
#[derive(Clone, Copy, Debug)]
pub struct Kem {
    mode: Mode,
}

impl View for Kem {
    type V = Mode;

    closed spec fn view(&self) -> Mode {
        self.mode
    }
}

impl Kem {
    /// The provider of `mode`.
    pub fn new(mode: Mode) -> (r: Self)
        ensures
            r@ == mode,
    {
        Self { mode }
    }

    /// The mode of this provider.
    pub fn get_mode(&self) -> (m: Mode)
        ensures
            m == self@,
    {
        self.mode
    }

    /// A fresh key pair `(sk, pk)`: the pair derived from `Nsk` bytes of
    /// the system's random source. Whatever those bytes were, the pair is the
    /// one that `derive_key_pair` gives for them; the only error is
    /// `CryptoFailure`.
    pub fn key_gen(&self) -> (r: Result<(Vec<u8>, Vec<u8>), HPKEError>)
        ensures
            match r {
                Ok(p) => exists|ikm: Seq<u8>|
                    ikm.len() == self@.spec_nsk() && #[trigger] dh_kem::spec_derive_key_pair(
                        self@,
                        ikm,
                    ) == Ok::<(Seq<u8>, Seq<u8>), HPKEError>((p.0@, p.1@)),
                Err(e) => e == HPKEError::CryptoFailure,
            },
    {
        match random_bytes(self.mode.nsk()) {
            Some(ikm) => self.derive_key_pair(ikm.as_slice()),
            None => Err(HPKEError::CryptoFailure),
        }
    }

    /// The key pair `(sk, pk)` derived from the input keying material `ikm`,
    /// which must hold at least `Nsk` bytes.
    pub fn derive_key_pair(&self, ikm: &[u8]) -> (r: Result<(Vec<u8>, Vec<u8>), HPKEError>)
        ensures
            spec_bytes_pair_result(r) == dh_kem::spec_derive_key_pair(self@, ikm@),
    {
        dh_kem::derive_key_pair(self.mode, ikm)
    }

    /// Encapsulation to the receiver's public key with an ephemeral key pair
    /// derived from `Nsk` bytes of the system's random source: gives
    /// `(shared_secret, enc)`. Whatever those bytes were, the result is the
    /// one that `encaps_with` gives for them; the only error is
    /// `CryptoFailure`.
    pub fn encaps(&self, pk_r: &[u8]) -> (r: Result<(Vec<u8>, Vec<u8>), HPKEError>)
        ensures
            match r {
                Ok(p) => exists|ikm: Seq<u8>|
                    ikm.len() == self@.spec_nsk() && #[trigger] dh_kem::spec_encaps(
                        self@,
                        pk_r@,
                        ikm,
                    ) == Ok::<(Seq<u8>, Seq<u8>), HPKEError>((p.0@, p.1@)),
                Err(e) => e == HPKEError::CryptoFailure,
            },
    {
        match random_bytes(self.mode.nsk()) {
            Some(ikm) => self.encaps_with(pk_r, ikm.as_slice()),
            None => Err(HPKEError::CryptoFailure),
        }
    }

    /// Encapsulation to the receiver's public key with the ephemeral key pair
    /// derived from `ikm_e`: gives `(shared_secret, enc)`.
    pub fn encaps_with(&self, pk_r: &[u8], ikm_e: &[u8]) -> (r: Result<
        (Vec<u8>, Vec<u8>),
        HPKEError,
    >)
        ensures
            spec_bytes_pair_result(r) == dh_kem::spec_encaps(self@, pk_r@, ikm_e@),
    {
        dh_kem::encaps(self.mode, pk_r, ikm_e)
    }

    /// Decapsulation of `enc` with the receiver's private key: gives the
    /// shared secret.
    pub fn decaps(&self, enc: &[u8], sk_r: &[u8]) -> (r: Result<Vec<u8>, HPKEError>)
        ensures
            spec_bytes_result(r) == dh_kem::spec_decaps(self@, enc@, sk_r@),
    {
        dh_kem::decaps(self.mode, enc, sk_r)
    }

    /// Encapsulation that also authenticates the sender by its private key,
    /// with an ephemeral key pair derived from `Nsk` bytes of the system's
    /// random source. Whatever those bytes were, the result is the one that
    /// `auth_encaps_with` gives for them; the only error is `CryptoFailure`.
    pub fn auth_encaps(&self, pk_r: &[u8], sk_s: &[u8]) -> (r: Result<
        (Vec<u8>, Vec<u8>),
        HPKEError,
    >)
        ensures
            match r {
                Ok(p) => exists|ikm: Seq<u8>|
                    ikm.len() == self@.spec_nsk() && #[trigger] dh_kem::spec_auth_encaps(
                        self@,
                        pk_r@,
                        sk_s@,
                        ikm,
                    ) == Ok::<(Seq<u8>, Seq<u8>), HPKEError>((p.0@, p.1@)),
                Err(e) => e == HPKEError::CryptoFailure,
            },
    {
        match random_bytes(self.mode.nsk()) {
            Some(ikm) => self.auth_encaps_with(pk_r, sk_s, ikm.as_slice()),
            None => Err(HPKEError::CryptoFailure),
        }
    }

    /// Encapsulation that also authenticates the sender by its private key,
    /// with the ephemeral key pair derived from `ikm_e`.
    pub fn auth_encaps_with(&self, pk_r: &[u8], sk_s: &[u8], ikm_e: &[u8]) -> (r: Result<
        (Vec<u8>, Vec<u8>),
        HPKEError,
    >)
        ensures
            spec_bytes_pair_result(r) == dh_kem::spec_auth_encaps(self@, pk_r@, sk_s@, ikm_e@),
    {
        dh_kem::auth_encaps(self.mode, pk_r, sk_s, ikm_e)
    }

    /// Decapsulation of `enc` that also checks the sender by its public key.
    pub fn auth_decaps(&self, enc: &[u8], sk_r: &[u8], pk_s: &[u8]) -> (r: Result<
        Vec<u8>,
        HPKEError,
    >)
        ensures
            spec_bytes_result(r) == dh_kem::spec_auth_decaps(self@, enc@, sk_r@, pk_s@),
    {
        dh_kem::auth_decaps(self.mode, enc, sk_r, pk_s)
    }
}

} // verus!
