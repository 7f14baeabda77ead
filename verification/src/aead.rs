//! Authenticated encryption: the registered AEADs and their provider.

use crate::aead_impl::{
    aes128gcm_open, aes128gcm_seal, aes256gcm_open, aes256gcm_seal, chacha20poly1305_open,
    chacha20poly1305_seal, spec_aes128gcm_open, spec_aes128gcm_seal, spec_aes256gcm_open,
    spec_aes256gcm_seal, spec_chacha20poly1305_open, spec_chacha20poly1305_seal,
};
use crate::util::spec_bytes_result;
use vstd::prelude::*;

verus! {

/// AEAD modes, by their registered code points.
#[derive(Clone, Copy, Debug, PartialEq, Eq, Structural)]
pub enum Mode {
    /// AES GCM 128, code point 0x0001
    AesGcm128,
    /// AES GCM 256, code point 0x0002
    AesGcm256,
    /// ChaCha20 Poly1305, code point 0x0003
    ChaCha20Poly1305,
    /// Export only, code point 0xFFFF: no encryption or decryption
    Export,
}

/// AEAD Errors
#[derive(Clone, Copy, Debug, PartialEq, Eq, Structural)]
pub enum Error {
    /// Error opening a ciphertext
    OpenError,
    /// Invalid configuration
    InvalidConfig,
    /// Invalid Nonce
    InvalidNonce,
    /// Unknown AEAD mode
    UnknownMode,
    /// The cipher refused to encrypt the input
    CryptoFailure,
}

impl Mode {
    /// The registered code point.
    pub open spec fn spec_id(self) -> u16 {
        match self {
            Mode::AesGcm128 => 0x0001,
            Mode::AesGcm256 => 0x0002,
            Mode::ChaCha20Poly1305 => 0x0003,
            Mode::Export => 0xFFFF,
        }
    }

    /// `Nk`: the length of a key.
    pub open spec fn spec_nk(self) -> nat {
        match self {
            Mode::AesGcm128 => 16,
            Mode::AesGcm256 => 32,
            Mode::ChaCha20Poly1305 => 32,
            Mode::Export => 0,
        }
    }

    /// `Nn`: the length of a nonce.
    pub open spec fn spec_nn(self) -> nat {
        match self {
            Mode::AesGcm128 => 12,
            Mode::AesGcm256 => 12,
            Mode::ChaCha20Poly1305 => 12,
            Mode::Export => 0,
        }
    }

    /// What the cipher itself makes of a key and nonce of the right lengths.
    pub open spec fn spec_cipher_seal(
        self,
        key: Seq<u8>,
        nonce: Seq<u8>,
        aad: Seq<u8>,
        pt: Seq<u8>,
    ) -> Option<Seq<u8>> {
        match self {
            Mode::AesGcm128 => spec_aes128gcm_seal(key, nonce, aad, pt),
            Mode::AesGcm256 => spec_aes256gcm_seal(key, nonce, aad, pt),
            Mode::ChaCha20Poly1305 => spec_chacha20poly1305_seal(key, nonce, aad, pt),
            Mode::Export => None,
        }
    }

    /// What the cipher itself makes of a key and nonce of the right lengths.
    pub open spec fn spec_cipher_open(
        self,
        key: Seq<u8>,
        nonce: Seq<u8>,
        aad: Seq<u8>,
        ct: Seq<u8>,
    ) -> Option<Seq<u8>> {
        match self {
            Mode::AesGcm128 => spec_aes128gcm_open(key, nonce, aad, ct),
            Mode::AesGcm256 => spec_aes256gcm_open(key, nonce, aad, ct),
            Mode::ChaCha20Poly1305 => spec_chacha20poly1305_open(key, nonce, aad, ct),
            Mode::Export => None,
        }
    }

    /// Which error, if any, the arguments meet before the cipher runs: the
    /// export-only mode and a key of the wrong length are `InvalidConfig`, a
    /// nonce of the wrong length is `InvalidNonce`.
    pub open spec fn spec_refusal(self, key: Seq<u8>, nonce: Seq<u8>) -> Option<Error> {
        if self == Mode::Export {
            Some(Error::InvalidConfig)
        } else if key.len() != self.spec_nk() {
            Some(Error::InvalidConfig)
        } else if nonce.len() != self.spec_nn() {
            Some(Error::InvalidNonce)
        } else {
            None
        }
    }

    /// Sealing: the ciphertext with the tag appended, or the error.
    pub open spec fn spec_seal(
        self,
        key: Seq<u8>,
        nonce: Seq<u8>,
        aad: Seq<u8>,
        pt: Seq<u8>,
    ) -> Result<Seq<u8>, Error> {
        match self.spec_refusal(key, nonce) {
            Some(e) => Err(e),
            None => match self.spec_cipher_seal(key, nonce, aad, pt) {
                Some(ct) => Ok(ct),
                None => Err(Error::CryptoFailure),
            },
        }
    }

    /// Opening: the plaintext, or the error; `OpenError` where the cipher
    /// does not authenticate the ciphertext.
    pub open spec fn spec_open(
        self,
        key: Seq<u8>,
        nonce: Seq<u8>,
        aad: Seq<u8>,
        ct: Seq<u8>,
    ) -> Result<Seq<u8>, Error> {
        match self.spec_refusal(key, nonce) {
            Some(e) => Err(e),
            None => match self.spec_cipher_open(key, nonce, aad, ct) {
                Some(pt) => Ok(pt),
                None => Err(Error::OpenError),
            },
        }
    }

    /// The registered code point.
    pub fn id(self) -> (x: u16)
        ensures
            x == self.spec_id(),
    {
        match self {
            Mode::AesGcm128 => 0x0001,
            Mode::AesGcm256 => 0x0002,
            Mode::ChaCha20Poly1305 => 0x0003,
            Mode::Export => 0xFFFF,
        }
    }

    /// The mode with code point `x`; an unregistered code point is an error.
    pub fn try_from(x: u16) -> (r: Result<Mode, Error>)
        ensures
            match r {
                Ok(m) => m.spec_id() == x,
                Err(e) => e == Error::UnknownMode && !(1 <= x <= 3) && x != 0xFFFF,
            },
    {
        match x {
            0x0001 => Ok(Mode::AesGcm128),
            0x0002 => Ok(Mode::AesGcm256),
            0x0003 => Ok(Mode::ChaCha20Poly1305),
            0xFFFF => Ok(Mode::Export),
            _ => Err(Error::UnknownMode),
        }
    }
}

/// An AEAD provider: the cipher that its mode names.
#[derive(Clone, Copy, Debug)]
pub struct Aead {
    mode: Mode,
}

impl View for Aead {
    type V = Mode;

    closed spec fn view(&self) -> Mode {
        self.mode
    }
}

impl Aead {
    /// The provider of `mode`.
    pub fn new(mode: Mode) -> (r: Self)
        ensures
            r@ == mode,
    {
        Self { mode }
    }

    /// The mode of this provider.
    pub fn get_mode(&self) -> (m: Mode)
        ensures
            m == self@,
    {
        self.mode
    }

    /// `Nk`: the length of a key.
    pub fn get_nk(&self) -> (n: usize)
        ensures
            n == self@.spec_nk(),
    {
        match self.mode {
            Mode::AesGcm128 => 16,
            Mode::AesGcm256 => 32,
            Mode::ChaCha20Poly1305 => 32,
            Mode::Export => 0,
        }
    }

    /// `Nn`: the length of a nonce.
    pub fn get_nn(&self) -> (n: usize)
        ensures
            n == self@.spec_nn(),
    {
        match self.mode {
            Mode::AesGcm128 => 12,
            Mode::AesGcm256 => 12,
            Mode::ChaCha20Poly1305 => 12,
            Mode::Export => 0,
        }
    }

    /// Encrypts `plain_txt` and authenticates it together with `aad`.
    pub fn seal(&self, key: &[u8], nonce: &[u8], aad: &[u8], plain_txt: &[u8]) -> (r: Result<
        Vec<u8>,
        Error,
    >)
        ensures
            spec_bytes_result(r) == self@.spec_seal(key@, nonce@, aad@, plain_txt@),
    {
        if self.mode == Mode::Export || key.len() != self.get_nk() {
            return Err(Error::InvalidConfig);
        }
        if nonce.len() != self.get_nn() {
            return Err(Error::InvalidNonce);
        }
        let sealed = match self.mode {
            Mode::AesGcm128 => aes128gcm_seal(key, nonce, aad, plain_txt),
            Mode::AesGcm256 => aes256gcm_seal(key, nonce, aad, plain_txt),
            Mode::ChaCha20Poly1305 => chacha20poly1305_seal(key, nonce, aad, plain_txt),
            Mode::Export => None,
        };
        match sealed {
            Some(ct) => Ok(ct),
            None => Err(Error::CryptoFailure),
        }
    }

    /// Authenticates `cipher_txt` together with `aad` and decrypts it.
    pub fn open(&self, key: &[u8], nonce: &[u8], aad: &[u8], cipher_txt: &[u8]) -> (r: Result<
        Vec<u8>,
        Error,
    >)
        ensures
            spec_bytes_result(r) == self@.spec_open(key@, nonce@, aad@, cipher_txt@),
    {
        if self.mode == Mode::Export || key.len() != self.get_nk() {
            return Err(Error::InvalidConfig);
        }
        if nonce.len() != self.get_nn() {
            return Err(Error::InvalidNonce);
        }
        let opened = match self.mode {
            Mode::AesGcm128 => aes128gcm_open(key, nonce, aad, cipher_txt),
            Mode::AesGcm256 => aes256gcm_open(key, nonce, aad, cipher_txt),
            Mode::ChaCha20Poly1305 => chacha20poly1305_open(key, nonce, aad, cipher_txt),
            Mode::Export => None,
        };
        match opened {
            Some(pt) => Ok(pt),
            None => Err(Error::OpenError),
        }
    }
}

} // verus!
