//! Hybrid Public Key Encryption: key schedule, encryption context and
//! single-shot interface over a KEM, a KDF and an AEAD.

use crate::suite::{next_sequence_number, spec_or_empty, ContextModel, Suite};
use crate::util::{
    append, i2osp, slice_or_empty, spec_bytes_pair_result, spec_bytes_result, xor_bytes,
};
use vstd::prelude::*;

pub mod aead;
pub mod agreement;
mod aead_impl;
mod curves;
pub mod dh_kem;
pub mod hkdf;
pub mod kdf;
pub mod kem;
pub mod suite;
pub mod util;

verus! {

/// What an operation of this crate can fail with.
#[derive(Debug, Clone, Copy, PartialEq, Eq, Structural)]
pub enum HPKEError {
    /// The AEAD did not authenticate the ciphertext; no plaintext is given.
    OpenError,
    /// The configuration does not allow the operation.
    InvalidConfig,
    /// A required argument is missing or the arguments contradict each other.
    InvalidInput,
    /// An identifier read from outside is not a registered code point.
    UnknownCodepoint,
    /// The context has used up its sequence numbers.
    MessageLimitReached,
    /// A primitive failed in a way that is none of the above.
    CryptoFailure,
}

/// Whether `r` is the error `e`.
pub open spec fn spec_is_err<T>(r: Result<T, HPKEError>, e: HPKEError) -> bool {
    match r {
        Ok(_) => false,
        Err(x) => x == e,
    }
}

/// The error of this crate that stands for an error of the AEAD.
pub open spec fn spec_from_aead_error(e: aead::Error) -> HPKEError {
    match e {
        aead::Error::OpenError => HPKEError::OpenError,
        aead::Error::InvalidNonce => HPKEError::InvalidConfig,
        aead::Error::InvalidConfig => HPKEError::InvalidInput,
        aead::Error::UnknownMode => HPKEError::UnknownCodepoint,
        aead::Error::CryptoFailure => HPKEError::CryptoFailure,
    }
}

impl From<aead::Error> for HPKEError {
    fn from(e: aead::Error) -> (r: Self) {
        match e {
            aead::Error::OpenError => HPKEError::OpenError,
            aead::Error::InvalidNonce => HPKEError::InvalidConfig,
            aead::Error::InvalidConfig => HPKEError::InvalidInput,
            aead::Error::UnknownMode => HPKEError::UnknownCodepoint,
            aead::Error::CryptoFailure => HPKEError::CryptoFailure,
        }
    }
}

impl vstd::std_specs::convert::FromSpecImpl<aead::Error> for HPKEError {
    open spec fn obeys_from_spec() -> bool {
        true
    }

    open spec fn from_spec(e: aead::Error) -> Self {
        spec_from_aead_error(e)
    }
}

/// An HPKE public key is a byte vector.
#[derive(Debug, PartialEq, Clone, Default)]
pub struct HPKEPublicKey {
    value: Vec<u8>,
}

/// An HPKE private key is a byte vector.
#[derive(Debug, Default)]
pub struct HPKEPrivateKey {
    value: Vec<u8>,
}

/// An HPKE key pair has an HPKE private and public key.
#[derive(Debug, Default)]
pub struct HPKEKeyPair {
    private_key: HPKEPrivateKey,
    public_key: HPKEPublicKey,
}

impl View for HPKEPublicKey {
    type V = Seq<u8>;

    closed spec fn view(&self) -> Seq<u8> {
        self.value@
    }
}

impl View for HPKEPrivateKey {
    type V = Seq<u8>;

    closed spec fn view(&self) -> Seq<u8> {
        self.value@
    }
}

impl View for HPKEKeyPair {
    type V = (Seq<u8>, Seq<u8>);

    /// The private key's bytes, then the public key's.
    closed spec fn view(&self) -> (Seq<u8>, Seq<u8>) {
        (self.private_key@, self.public_key@)
    }
}

/// HPKE supports four modes.
#[derive(PartialEq, Eq, Structural, Copy, Clone, Debug)]
pub enum Mode {
    /// No pre-shared key, no sender authentication: 0x00
    Base,
    /// With a pre-shared key: 0x01
    Psk,
    /// With sender authentication: 0x02
    Auth,
    /// With both: 0x03
    AuthPsk,
}

impl Mode {
    /// The mode's identifier.
    pub open spec fn spec_id(self) -> u8 {
        match self {
            Mode::Base => 0x00,
            Mode::Psk => 0x01,
            Mode::Auth => 0x02,
            Mode::AuthPsk => 0x03,
        }
    }

    /// Whether a pre-shared key takes part.
    pub open spec fn spec_uses_psk(self) -> bool {
        self == Mode::Psk || self == Mode::AuthPsk
    }

    /// Whether the sender is authenticated.
    pub open spec fn spec_uses_auth(self) -> bool {
        self == Mode::Auth || self == Mode::AuthPsk
    }

    /// The mode's identifier.
    pub fn id(self) -> (x: u8)
        ensures
            x == self.spec_id(),
    {
        match self {
            Mode::Base => 0x00,
            Mode::Psk => 0x01,
            Mode::Auth => 0x02,
            Mode::AuthPsk => 0x03,
        }
    }

    /// Whether a pre-shared key takes part.
    pub fn uses_psk(self) -> (b: bool)
        ensures
            b == self.spec_uses_psk(),
    {
        match self {
            Mode::Psk | Mode::AuthPsk => true,
            _ => false,
        }
    }

    /// Whether the sender is authenticated.
    pub fn uses_auth(self) -> (b: bool)
        ensures
            b == self.spec_uses_auth(),
    {
        match self {
            Mode::Auth | Mode::AuthPsk => true,
            _ => false,
        }
    }

    /// The mode with identifier `x`; an unregistered identifier is an error.
    pub fn try_from(x: u16) -> (r: Result<Mode, HPKEError>)
        ensures
            match r {
                Ok(m) => m.spec_id() == x,
                Err(e) => e == HPKEError::UnknownCodepoint && x > 3,
            },
    {
        match x {
            0x00 => Ok(Mode::Base),
            0x01 => Ok(Mode::Psk),
            0x02 => Ok(Mode::Auth),
            0x03 => Ok(Mode::AuthPsk),
            _ => Err(HPKEError::UnknownCodepoint),
        }
    }
}

/// The HPKE context: the key, the base nonce and the exporter secret that
/// the key schedule derived, and the number of messages sealed or opened.
#[derive(Debug)]
pub struct Context<'a> {
    key: Vec<u8>,
    nonce: Vec<u8>,
    exporter_secret: Vec<u8>,
    sequence_number: u64,
    hpke: &'a Hpke,
}

/// What a setup on the sender's side returns, with the values taken as
/// sequences and as the context's state.
pub open spec fn spec_sender_result(r: Result<(Vec<u8>, Context), HPKEError>) -> Result<
    (Seq<u8>, ContextModel),
    HPKEError,
> {
    match r {
        Ok(p) => Ok((p.0@, p.1@)),
        Err(e) => Err(e),
    }
}

/// What a setup on the receiver's side returns, with the context taken as
/// its state.
pub open spec fn spec_context_result(r: Result<Context, HPKEError>) -> Result<
    ContextModel,
    HPKEError,
> {
    match r {
        Ok(c) => Ok(c@),
        Err(e) => Err(e),
    }
}

/// The bytes of an optional key.
pub open spec fn spec_private_key_bytes(k: Option<&HPKEPrivateKey>) -> Option<Seq<u8>> {
    match k {
        Some(key) => Some(key@),
        None => None,
    }
}

/// The bytes of an optional key.
pub open spec fn spec_public_key_bytes(k: Option<&HPKEPublicKey>) -> Option<Seq<u8>> {
    match k {
        Some(key) => Some(key@),
        None => None,
    }
}

impl<'a> View for Context<'a> {
    type V = ContextModel;

    closed spec fn view(&self) -> ContextModel {
        ContextModel {
            suite: self.hpke@,
            key: self.key@,
            nonce: self.nonce@,
            exporter_secret: self.exporter_secret@,
            sequence_number: self.sequence_number,
        }
    }
}

impl<'a> Context<'a> {
    #[verifier::type_invariant]
    closed spec fn inv(&self) -> bool {
        self@.spec_wf()
    }

    /// Encrypts `plain_txt` under the nonce of the current sequence number
    /// and authenticates it together with `aad`.
    ///
    /// An export-only context refuses with `InvalidConfig`, an exhausted one
    /// with `MessageLimitReached`. On success the sequence number has grown
    /// by one; on an error the context is unchanged.
    pub fn seal(&mut self, aad: &[u8], plain_txt: &[u8]) -> (r: Result<Vec<u8>, HPKEError>)
        ensures
            match old(self)@.spec_seal(aad@, plain_txt@) {
                Ok(sealed) => spec_bytes_result(r) == Ok::<Seq<u8>, HPKEError>(sealed.0)
                    && final(self)@ == sealed.1,
                Err(e) => spec_bytes_result(r) == Err::<Seq<u8>, HPKEError>(e) && final(self)@
                    == old(self)@,
            },
            old(self)@.suite.aead_id == aead::Mode::Export ==> r == Err::<Vec<u8>, HPKEError>(
                HPKEError::InvalidConfig,
            ),
            r is Ok ==> final(self)@.sequence_number == old(self)@.sequence_number + 1,
            r is Err ==> final(self)@ == old(self)@,
    {
        proof {
            use_type_invariant(&*self);
            use_type_invariant(self.hpke);
        }
        if self.hpke.aead_id == aead::Mode::Export {
            return Err(HPKEError::InvalidConfig);
        }
        let next = match next_sequence_number(self.sequence_number, self.hpke.nn) {
            Ok(next) => next,
            Err(e) => {
                return Err(e);
            },
        };
        let nonce = self.compute_nonce();
        match self.hpke.aead.seal(self.key.as_slice(), nonce.as_slice(), aad, plain_txt) {
            Ok(ct) => {
                self.sequence_number = next;
                Ok(ct)
            },
            Err(e) => Err(HPKEError::from(e)),
        }
    }

    /// Authenticates `cipher_txt` together with `aad` under the nonce of the
    /// current sequence number and decrypts it.
    ///
    /// An export-only context refuses with `InvalidConfig`, an exhausted one
    /// with `MessageLimitReached`; a ciphertext that does not authenticate is
    /// `OpenError`. On success the sequence number has grown by one; on an
    /// error the context is unchanged.
    pub fn open(&mut self, aad: &[u8], cipher_txt: &[u8]) -> (r: Result<Vec<u8>, HPKEError>)
        ensures
            match old(self)@.spec_open(aad@, cipher_txt@) {
                Ok(opened) => spec_bytes_result(r) == Ok::<Seq<u8>, HPKEError>(opened.0)
                    && final(self)@ == opened.1,
                Err(e) => spec_bytes_result(r) == Err::<Seq<u8>, HPKEError>(e) && final(self)@
                    == old(self)@,
            },
            old(self)@.suite.aead_id == aead::Mode::Export ==> r == Err::<Vec<u8>, HPKEError>(
                HPKEError::InvalidConfig,
            ),
            r is Ok ==> final(self)@.sequence_number == old(self)@.sequence_number + 1,
            r is Err ==> final(self)@ == old(self)@,
    {
        proof {
            use_type_invariant(&*self);
            use_type_invariant(self.hpke);
        }
        if self.hpke.aead_id == aead::Mode::Export {
            return Err(HPKEError::InvalidConfig);
        }
        let next = match next_sequence_number(self.sequence_number, self.hpke.nn) {
            Ok(next) => next,
            Err(e) => {
                return Err(e);
            },
        };
        let nonce = self.compute_nonce();
        match self.hpke.aead.open(self.key.as_slice(), nonce.as_slice(), aad, cipher_txt) {
            Ok(pt) => {
                self.sequence_number = next;
                Ok(pt)
            },
            Err(e) => Err(HPKEError::from(e)),
        }
    }

    /// Derives a secret of `length` bytes, at most `255 * Nh`, for the
    /// caller's `exporter_context`. The context is not changed; an
    /// export-only or exhausted context exports as any other.
    pub fn export(&self, exporter_context: &[u8], length: usize) -> (r: Vec<u8>)
        requires
            length <= self@.suite.kdf_id.spec_max_output(),
        ensures
            r@ == self@.spec_export(exporter_context@, length as nat),
            r@.len() == length,
    {
        proof {
            use_type_invariant(self);
            use_type_invariant(self.hpke);
        }
        let suite_id = self.hpke.get_ciphersuite();
        self.hpke.kdf.labeled_expand(
            self.exporter_secret.as_slice(),
            suite_id.as_slice(),
            "sec",
            exporter_context,
            length,
        )
    }

    /// The nonce of the next message: the base nonce XOR the sequence number
    /// in `Nn` big-endian bytes.
    fn compute_nonce(&self) -> (r: Vec<u8>)
        ensures
            r@ == self@.spec_nonce(),
            r@.len() == self@.suite.aead_id.spec_nn(),
    {
        proof {
            use_type_invariant(self);
            use_type_invariant(self.hpke);
        }
        let seq = i2osp(self.sequence_number, self.hpke.nn);
        xor_bytes(self.nonce.as_slice(), seq.as_slice())
    }

    /// The key of the context.
    pub fn get_key_ref(&self) -> (r: &[u8])
        ensures
            r@ == self@.key,
    {
        self.key.as_slice()
    }

    /// The base nonce of the context.
    pub fn get_nonce_ref(&self) -> (r: &[u8])
        ensures
            r@ == self@.nonce,
    {
        self.nonce.as_slice()
    }

    /// The exporter secret of the context.
    pub fn get_exporter_secret_ref(&self) -> (r: &[u8])
        ensures
            r@ == self@.exporter_secret,
    {
        self.exporter_secret.as_slice()
    }

    /// The number of messages sealed or opened so far.
    pub fn get_sequence_number(&self) -> (r: u64)
        ensures
            r == self@.sequence_number,
    {
        self.sequence_number
    }
}

/// The HPKE configuration struct.
/// This holds the configuration for HPKE but no state.
/// To use HPKE first instantiate the configuration with
/// `let hpke = Hpke::new(mode, kem_mode, kdf_mode, aead_mode)`.
/// Now one can use the `hpke` configuration.
#[derive(Debug)]
pub struct Hpke {
    mode: Mode,
    kem_id: kem::Mode,
    kdf_id: kdf::Mode,
    aead_id: aead::Mode,
    kem: kem::Kem,
    kdf: kdf::Kdf,
    aead: aead::Aead,
    nk: usize,
    nn: usize,
    nh: usize,
}

impl View for Hpke {
    type V = Suite;

    closed spec fn view(&self) -> Suite {
        Suite { mode: self.mode, kem_id: self.kem_id, kdf_id: self.kdf_id, aead_id: self.aead_id }
    }
}

impl Hpke {
    #[verifier::type_invariant]
    closed spec fn inv(&self) -> bool {
        &&& self.kem@ == self.kem_id
        &&& self.kdf@ == self.kdf_id
        &&& self.aead@ == self.aead_id
        &&& self.nk == self.aead_id.spec_nk()
        &&& self.nn == self.aead_id.spec_nn()
        &&& self.nh == self.kdf_id.spec_nh()
    }

    /// Set up the configuration for HPKE.
    pub fn new(mode: Mode, kem_id: kem::Mode, kdf_id: kdf::Mode, aead_id: aead::Mode) -> (r: Self)
        ensures
            r@ == (Suite { mode, kem_id, kdf_id, aead_id }),
    {
        let kem = kem::Kem::new(kem_id);
        let kdf = kdf::Kdf::new(kdf_id);
        let aead = aead::Aead::new(aead_id);
        Self {
            mode,
            kem_id,
            kdf_id,
            aead_id,
            nk: aead.get_nk(),
            nn: aead.get_nn(),
            nh: kdf.get_nh(),
            kem,
            kdf,
            aead,
        }
    }

    /// The descriptor of this configuration, in 7 bytes:
    /// `mode || be16(kem_id) || be16(kdf_id) || be16(aead_id)`.
    pub fn to_bytes(&self) -> (r: Vec<u8>)
        ensures
            r@ == self@.spec_encode(),
            r@.len() == 7,
    {
        let mut r = i2osp(self.mode.id() as u64, 1);
        let kem_id = i2osp(self.kem_id.id() as u64, 2);
        append(&mut r, kem_id.as_slice());
        let kdf_id = i2osp(self.kdf_id.id() as u64, 2);
        append(&mut r, kdf_id.as_slice());
        let aead_id = i2osp(self.aead_id.id() as u64, 2);
        append(&mut r, aead_id.as_slice());
        r
    }

    /// The configuration that a descriptor of 7 bytes names. Another length
    /// is `InvalidInput`; an identifier that is no registered code point is
    /// `UnknownCodepoint`, and then no configuration has this descriptor.
    pub fn from_bytes(bytes: &[u8]) -> (r: Result<Self, HPKEError>)
        ensures
            match r {
                Ok(hpke) => hpke@.spec_encode() == bytes@,
                Err(e) => if bytes@.len() != 7 {
                    e == HPKEError::InvalidInput
                } else {
                    e == HPKEError::UnknownCodepoint && forall|s: Suite|
                        #[trigger] s.spec_encode() != bytes@
                },
            },
    {
        if bytes.len() != 7 {
            return Err(HPKEError::InvalidInput);
        }
        let mode = match Mode::try_from(bytes[0] as u16) {
            Ok(m) => m,
            Err(e) => {
                assert forall|s: Suite| #[trigger] s.spec_encode() != bytes@ by {
                    suite::lemma_encode_bytes(s);
                }
                return Err(e);
            },
        };
        let kem_id = match kem::Mode::try_from((bytes[1] as u16) * 256 + (bytes[2] as u16)) {
            Ok(m) => m,
            Err(e) => {
                assert forall|s: Suite| #[trigger] s.spec_encode() != bytes@ by {
                    suite::lemma_encode_bytes(s);
                }
                return Err(e);
            },
        };
        let kdf_id = match kdf::Mode::try_from((bytes[3] as u16) * 256 + (bytes[4] as u16)) {
            Ok(m) => m,
            Err(e) => {
                assert forall|s: Suite| #[trigger] s.spec_encode() != bytes@ by {
                    suite::lemma_encode_bytes(s);
                }
                return Err(e);
            },
        };
        let aead_id = match aead::Mode::try_from((bytes[5] as u16) * 256 + (bytes[6] as u16)) {
            Ok(m) => m,
            Err(e) => {
                assert forall|s: Suite| #[trigger] s.spec_encode() != bytes@ by {
                    suite::lemma_encode_bytes(s);
                }
                return Err(HPKEError::from(e));
            },
        };
        let hpke = Hpke::new(mode, kem_id, kdf_id, aead_id);
        proof {
            suite::lemma_encode_bytes(hpke@);
            assert(hpke@.spec_encode() =~= bytes@);
        }
        Ok(hpke)
    }

    /// Whether the arguments of a setup are complete and consistent.
    fn setup_inputs_ok(&self, psk: &[u8], psk_id: &[u8], has_auth_key: bool) -> (b: bool)
        ensures
            b == (self@.spec_psk_inputs_ok(psk@, psk_id@) && (self@.mode.spec_uses_auth()
                ==> has_auth_key)),
    {
        if self.mode.uses_auth() && !has_auth_key {
            return false;
        }
        self.verify_psk_inputs(psk, psk_id)
    }

    /// Set up an HPKE sender with an ephemeral key pair derived from `Nsk`
    /// bytes of the system's random source.
    ///
    /// For the base and PSK modes this encapsulates the public key `pk_r`
    /// of the receiver.
    /// For the Auth and AuthPSK modes this encapsulates and authenticates
    /// the public key `pk_r` of the receiver with the senders secret key `sk_s`.
    ///
    /// The encapsulated secret is returned together with the context.
    /// A secret key missing in an authenticated mode, and a pre-shared key
    /// and identifier that do not fit the mode, are `InvalidInput`; with
    /// arguments in order the only error is `CryptoFailure`. Whatever the
    /// random bytes were, a result is the one that `setup_sender_with` gives
    /// for them.
    pub fn setup_sender<'b>(
        &'b self,
        pk_r: &HPKEPublicKey,
        info: &[u8],
        psk: Option<&[u8]>,
        psk_id: Option<&[u8]>,
        sk_s: Option<&HPKEPrivateKey>,
    ) -> (r: Result<(Vec<u8>, Context<'b>), HPKEError>)
        ensures
            !self@.spec_setup_inputs_ok(
                spec_or_empty(psk),
                spec_or_empty(psk_id),
                spec_private_key_bytes(sk_s),
            ) ==> spec_is_err(r, HPKEError::InvalidInput),
            self@.spec_setup_inputs_ok(
                spec_or_empty(psk),
                spec_or_empty(psk_id),
                spec_private_key_bytes(sk_s),
            ) ==> match r {
                Ok(p) => exists|ikm: Seq<u8>|
                    ikm.len() == self@.kem_id.spec_nsk() && #[trigger] self@.spec_setup_sender(
                        pk_r@,
                        info@,
                        spec_or_empty(psk),
                        spec_or_empty(psk_id),
                        spec_private_key_bytes(sk_s),
                        ikm,
                    ) == Ok::<(Seq<u8>, ContextModel), HPKEError>((p.0@, p.1@)),
                Err(e) => e == HPKEError::CryptoFailure,
            },
    {
        proof {
            use_type_invariant(self);
        }
        if !self.setup_inputs_ok(slice_or_empty(psk), slice_or_empty(psk_id), sk_s.is_some()) {
            return Err(HPKEError::InvalidInput);
        }
        match curves::random_bytes(self.kem_id.nsk()) {
            Some(ikm) => self.setup_sender_with(pk_r, info, psk, psk_id, sk_s, ikm.as_slice()),
            None => Err(HPKEError::CryptoFailure),
        }
    }

    /// Set up an HPKE sender with the ephemeral key pair derived from
    /// `ikm_e`.
    ///
    /// A secret key missing in an authenticated mode, and a pre-shared key
    /// and identifier that do not fit the mode, are `InvalidInput`, whatever
    /// the other arguments are.
    pub fn setup_sender_with<'b>(
        &'b self,
        pk_r: &HPKEPublicKey,
        info: &[u8],
        psk: Option<&[u8]>,
        psk_id: Option<&[u8]>,
        sk_s: Option<&HPKEPrivateKey>,
        ikm_e: &[u8],
    ) -> (r: Result<(Vec<u8>, Context<'b>), HPKEError>)
        ensures
            spec_sender_result(r) == self@.spec_setup_sender(
                pk_r@,
                info@,
                spec_or_empty(psk),
                spec_or_empty(psk_id),
                spec_private_key_bytes(sk_s),
                ikm_e@,
            ),
            !self@.spec_psk_inputs_ok(spec_or_empty(psk), spec_or_empty(psk_id)) ==> spec_is_err(r, HPKEError::InvalidInput),
            self@.mode.spec_uses_auth() && sk_s is None ==> spec_is_err(r, HPKEError::InvalidInput),
    {
        proof {
            use_type_invariant(self);
        }
        let psk = slice_or_empty(psk);
        let psk_id = slice_or_empty(psk_id);
        if !self.setup_inputs_ok(psk, psk_id, sk_s.is_some()) {
            return Err(HPKEError::InvalidInput);
        }
        let encapsulated = match sk_s {
            Some(sk) if self.mode.uses_auth() => self.kem.auth_encaps_with(
                pk_r.as_slice(),
                sk.as_slice(),
                ikm_e,
            ),
            _ => self.kem.encaps_with(pk_r.as_slice(), ikm_e),
        };
        match encapsulated {
            Err(e) => Err(e),
            Ok((shared_secret, enc)) => match self.key_schedule(
                shared_secret.as_slice(),
                info,
                psk,
                psk_id,
            ) {
                Err(e) => Err(e),
                Ok(context) => Ok((enc, context)),
            },
        }
    }

    /// Set up an HPKE receiver.
    ///
    /// For the base and PSK modes this decapsulates `enc` with the secret key
    /// `sk_r` of the receiver.
    /// For the Auth and AuthPSK modes this decapsulates and authenticates `enc`
    /// with the secret key `sk_r` of the receiver and the senders public key `pk_s`.
    ///
    /// The context based on the decapsulated values and, if present, the PSK is
    /// returned.
    /// A public key missing in an authenticated mode, and a pre-shared key
    /// and identifier that do not fit the mode, are `InvalidInput`, whatever
    /// the other arguments are.
    pub fn setup_receiver<'b>(
        &'b self,
        enc: &[u8],
        sk_r: &HPKEPrivateKey,
        info: &[u8],
        psk: Option<&[u8]>,
        psk_id: Option<&[u8]>,
        pk_s: Option<&HPKEPublicKey>,
    ) -> (r: Result<Context<'b>, HPKEError>)
        ensures
            spec_context_result(r) == self@.spec_setup_receiver(
                enc@,
                sk_r@,
                info@,
                spec_or_empty(psk),
                spec_or_empty(psk_id),
                spec_public_key_bytes(pk_s),
            ),
            !self@.spec_psk_inputs_ok(spec_or_empty(psk), spec_or_empty(psk_id)) ==> spec_is_err(r, HPKEError::InvalidInput),
            self@.mode.spec_uses_auth() && pk_s is None ==> spec_is_err(r, HPKEError::InvalidInput),
    {
        proof {
            use_type_invariant(self);
        }
        let psk = slice_or_empty(psk);
        let psk_id = slice_or_empty(psk_id);
        if !self.setup_inputs_ok(psk, psk_id, pk_s.is_some()) {
            return Err(HPKEError::InvalidInput);
        }
        let decapsulated = match pk_s {
            Some(pk) if self.mode.uses_auth() => self.kem.auth_decaps(
                enc,
                sk_r.as_slice(),
                pk.as_slice(),
            ),
            _ => self.kem.decaps(enc, sk_r.as_slice()),
        };
        match decapsulated {
            Err(e) => Err(e),
            Ok(shared_secret) => self.key_schedule(shared_secret.as_slice(), info, psk, psk_id),
        }
    }

    /// Single shot API to encrypt the bytes in `plain_text` to the public key
    /// `pk_r`, with an ephemeral key pair derived from `Nsk` bytes of the
    /// system's random source.
    ///
    /// Returns the encapsulated secret and the ciphertext, or an error:
    /// `InvalidInput` for arguments that are incomplete or do not fit the
    /// mode, whatever the rest is. Whatever the random bytes were, the
    /// result is the one that `seal_with` gives for them, unless the random
    /// source itself fails, which is `CryptoFailure`.
    pub fn seal(
        &self,
        pk_r: &HPKEPublicKey,
        info: &[u8],
        aad: &[u8],
        plain_txt: &[u8],
        psk: Option<&[u8]>,
        psk_id: Option<&[u8]>,
        sk_s: Option<&HPKEPrivateKey>,
    ) -> (r: Result<(Vec<u8>, Vec<u8>), HPKEError>)
        ensures
            !self@.spec_setup_inputs_ok(
                spec_or_empty(psk),
                spec_or_empty(psk_id),
                spec_private_key_bytes(sk_s),
            ) ==> spec_is_err(r, HPKEError::InvalidInput),
            self@.spec_setup_inputs_ok(
                spec_or_empty(psk),
                spec_or_empty(psk_id),
                spec_private_key_bytes(sk_s),
            ) ==> spec_is_err(r, HPKEError::CryptoFailure) || exists|ikm: Seq<u8>|
                ikm.len() == self@.kem_id.spec_nsk() && #[trigger] self@.spec_seal(
                    pk_r@,
                    info@,
                    aad@,
                    plain_txt@,
                    spec_or_empty(psk),
                    spec_or_empty(psk_id),
                    spec_private_key_bytes(sk_s),
                    ikm,
                ) == spec_bytes_pair_result(r),
    {
        proof {
            use_type_invariant(self);
        }
        if !self.setup_inputs_ok(slice_or_empty(psk), slice_or_empty(psk_id), sk_s.is_some()) {
            return Err(HPKEError::InvalidInput);
        }
        match curves::random_bytes(self.kem_id.nsk()) {
            Some(ikm) => self.seal_with(pk_r, info, aad, plain_txt, psk, psk_id, sk_s, ikm.as_slice()),
            None => Err(HPKEError::CryptoFailure),
        }
    }

    /// Single shot API to encrypt the bytes in `plain_text` to the public key
    /// `pk_r`, with the ephemeral key pair derived from `ikm_e`.
    ///
    /// Returns the encapsulated secret and the ciphertext, or an error.
    pub fn seal_with(
        &self,
        pk_r: &HPKEPublicKey,
        info: &[u8],
        aad: &[u8],
        plain_txt: &[u8],
        psk: Option<&[u8]>,
        psk_id: Option<&[u8]>,
        sk_s: Option<&HPKEPrivateKey>,
        ikm_e: &[u8],
    ) -> (r: Result<(Vec<u8>, Vec<u8>), HPKEError>)
        ensures
            spec_bytes_pair_result(r) == self@.spec_seal(
                pk_r@,
                info@,
                aad@,
                plain_txt@,
                spec_or_empty(psk),
                spec_or_empty(psk_id),
                spec_private_key_bytes(sk_s),
                ikm_e@,
            ),
    {
        let (enc, mut context) = match self.setup_sender_with(pk_r, info, psk, psk_id, sk_s, ikm_e) {
            Ok(setup) => setup,
            Err(e) => {
                return Err(e);
            },
        };
        match context.seal(aad, plain_txt) {
            Ok(ct) => Ok((enc, ct)),
            Err(e) => Err(e),
        }
    }

    /// Single shot API to decrypt the bytes in `ct` with the private key `sk_r`.
    ///
    /// Returns the decrypted plain text, or an error.
    pub fn open(
        &self,
        enc: &[u8],
        sk_r: &HPKEPrivateKey,
        info: &[u8],
        aad: &[u8],
        ct: &[u8],
        psk: Option<&[u8]>,
        psk_id: Option<&[u8]>,
        pk_s: Option<&HPKEPublicKey>,
    ) -> (r: Result<Vec<u8>, HPKEError>)
        ensures
            spec_bytes_result(r) == self@.spec_open(
                enc@,
                sk_r@,
                info@,
                aad@,
                ct@,
                spec_or_empty(psk),
                spec_or_empty(psk_id),
                spec_public_key_bytes(pk_s),
            ),
    {
        let mut context = match self.setup_receiver(enc, sk_r, info, psk, psk_id, pk_s) {
            Ok(context) => context,
            Err(e) => {
                return Err(e);
            },
        };
        context.open(aad, ct)
    }

    /// Single shot API to derive an exporter secret for receiver with public key
    /// `pk_r`, with an ephemeral key pair derived from `Nsk` bytes of the
    /// system's random source.
    ///
    /// Returns the encapsulated secret and the exporter secret for the given
    /// exporter context and length, which is at most `255 * Nh`. Whatever the
    /// random bytes were, a result is the one that `send_export_with` gives
    /// for them.
    pub fn send_export(
        &self,
        pk_r: &HPKEPublicKey,
        info: &[u8],
        psk: Option<&[u8]>,
        psk_id: Option<&[u8]>,
        sk_s: Option<&HPKEPrivateKey>,
        exporter_context: &[u8],
        length: usize,
    ) -> (r: Result<(Vec<u8>, Vec<u8>), HPKEError>)
        requires
            length <= self@.kdf_id.spec_max_output(),
        ensures
            !self@.spec_setup_inputs_ok(
                spec_or_empty(psk),
                spec_or_empty(psk_id),
                spec_private_key_bytes(sk_s),
            ) ==> spec_is_err(r, HPKEError::InvalidInput),
            self@.spec_setup_inputs_ok(
                spec_or_empty(psk),
                spec_or_empty(psk_id),
                spec_private_key_bytes(sk_s),
            ) ==> match r {
                Ok(p) => exists|ikm: Seq<u8>|
                    ikm.len() == self@.kem_id.spec_nsk() && #[trigger] self@.spec_send_export(
                        pk_r@,
                        info@,
                        spec_or_empty(psk),
                        spec_or_empty(psk_id),
                        spec_private_key_bytes(sk_s),
                        exporter_context@,
                        length as nat,
                        ikm,
                    ) == Ok::<(Seq<u8>, Seq<u8>), HPKEError>((p.0@, p.1@)),
                Err(e) => e == HPKEError::CryptoFailure,
            },
    {
        proof {
            use_type_invariant(self);
        }
        if !self.setup_inputs_ok(slice_or_empty(psk), slice_or_empty(psk_id), sk_s.is_some()) {
            return Err(HPKEError::InvalidInput);
        }
        match curves::random_bytes(self.kem_id.nsk()) {
            Some(ikm) => self.send_export_with(
                pk_r,
                info,
                psk,
                psk_id,
                sk_s,
                exporter_context,
                length,
                ikm.as_slice(),
            ),
            None => Err(HPKEError::CryptoFailure),
        }
    }

    /// Single shot API to derive an exporter secret for receiver with public key
    /// `pk_r`, with the ephemeral key pair derived from `ikm_e`.
    ///
    /// Returns the encapsulated secret and the exporter secret for the given
    /// exporter context and length, which is at most `255 * Nh`.
    pub fn send_export_with(
        &self,
        pk_r: &HPKEPublicKey,
        info: &[u8],
        psk: Option<&[u8]>,
        psk_id: Option<&[u8]>,
        sk_s: Option<&HPKEPrivateKey>,
        exporter_context: &[u8],
        length: usize,
        ikm_e: &[u8],
    ) -> (r: Result<(Vec<u8>, Vec<u8>), HPKEError>)
        requires
            length <= self@.kdf_id.spec_max_output(),
        ensures
            spec_bytes_pair_result(r) == self@.spec_send_export(
                pk_r@,
                info@,
                spec_or_empty(psk),
                spec_or_empty(psk_id),
                spec_private_key_bytes(sk_s),
                exporter_context@,
                length as nat,
                ikm_e@,
            ),
    {
        match self.setup_sender_with(pk_r, info, psk, psk_id, sk_s, ikm_e) {
            Ok((enc, context)) => {
                let exported = context.export(exporter_context, length);
                Ok((enc, exported))
            },
            Err(e) => Err(e),
        }
    }

    /// Single shot API to derive an exporter secret for receiver with private key
    /// `sk_r`.
    ///
    /// Returns the exporter secret for the given exporter context and length,
    /// which is at most `255 * Nh`.
    pub fn receiver_export(
        &self,
        enc: &[u8],
        sk_r: &HPKEPrivateKey,
        info: &[u8],
        psk: Option<&[u8]>,
        psk_id: Option<&[u8]>,
        pk_s: Option<&HPKEPublicKey>,
        exporter_context: &[u8],
        length: usize,
    ) -> (r: Result<Vec<u8>, HPKEError>)
        requires
            length <= self@.kdf_id.spec_max_output(),
        ensures
            spec_bytes_result(r) == self@.spec_receiver_export(
                enc@,
                sk_r@,
                info@,
                spec_or_empty(psk),
                spec_or_empty(psk_id),
                spec_public_key_bytes(pk_s),
                exporter_context@,
                length as nat,
            ),
    {
        match self.setup_receiver(enc, sk_r, info, psk, psk_id, pk_s) {
            Ok(context) => Ok(context.export(exporter_context, length)),
            Err(e) => Err(e),
        }
    }

    /// Whether a pre-shared key and its identifier fit the mode: both empty
    /// in the modes without a pre-shared key, both non-empty in the modes
    /// with one.
    fn verify_psk_inputs(&self, psk: &[u8], psk_id: &[u8]) -> (b: bool)
        ensures
            b == self@.spec_psk_inputs_ok(psk@, psk_id@),
    {
        let got_psk = psk.len() > 0;
        let got_psk_id = psk_id.len() > 0;
        if got_psk != got_psk_id {
            return false;
        }
        got_psk == self.mode.uses_psk()
    }

    /// `"HPKE" || be16(kem_id) || be16(kdf_id) || be16(aead_id)`.
    fn get_ciphersuite(&self) -> (r: Vec<u8>)
        ensures
            r@ == self@.spec_suite_id(),
    {
        let mut r: Vec<u8> = Vec::new();
        append(&mut r, "HPKE".as_bytes());
        let kem_id = i2osp(self.kem_id.id() as u64, 2);
        append(&mut r, kem_id.as_slice());
        let kdf_id = i2osp(self.kdf_id.id() as u64, 2);
        append(&mut r, kdf_id.as_slice());
        let aead_id = i2osp(self.aead_id.id() as u64, 2);
        append(&mut r, aead_id.as_slice());
        r
    }

    /// `mode || psk_id_hash || info_hash`.
    fn get_key_schedule_context(&self, info: &[u8], psk_id: &[u8], suite_id: &[u8]) -> (r: Vec<u8>)
        requires
            suite_id@ == self@.spec_suite_id(),
        ensures
            r@ == self@.spec_key_schedule_context(info@, psk_id@),
    {
        proof {
            use_type_invariant(self);
        }
        let empty: Vec<u8> = Vec::new();
        let psk_id_hash = self.kdf.labeled_extract(empty.as_slice(), suite_id, "psk_id_hash", psk_id);
        let info_hash = self.kdf.labeled_extract(empty.as_slice(), suite_id, "info_hash", info);
        let mut r = i2osp(self.mode.id() as u64, 1);
        append(&mut r, psk_id_hash.as_slice());
        append(&mut r, info_hash.as_slice());
        r
    }

    /// The secret of the key schedule.
    fn get_secret(&self, psk: &[u8], zz: &[u8], suite_id: &[u8]) -> (r: Vec<u8>)
        requires
            suite_id@ == self@.spec_suite_id(),
        ensures
            r@ == self@.spec_secret(zz@, psk@),
    {
        proof {
            use_type_invariant(self);
        }
        self.kdf.labeled_extract(zz, suite_id, "secret", psk)
    }

    /// Generate the HPKE context from the shared secret `zz`, the `info` and
    /// the pre-shared key with its identifier (both empty where there is
    /// none).
    ///
    /// A pre-shared key and identifier that do not fit the mode are
    /// `InvalidInput`; there is no other error.
    pub fn key_schedule<'b>(&'b self, zz: &[u8], info: &[u8], psk: &[u8], psk_id: &[u8]) -> (r:
        Result<Context<'b>, HPKEError>)
        ensures
            spec_context_result(r) == self@.spec_key_schedule(zz@, info@, psk@, psk_id@),
            r is Ok <==> self@.spec_psk_inputs_ok(psk@, psk_id@),
            r matches Err(e) ==> e == HPKEError::InvalidInput,
            r matches Ok(c) ==> c@.spec_wf() && c@.sequence_number == 0 && c@.suite == self@,
    {
        proof {
            use_type_invariant(self);
        }
        if !self.verify_psk_inputs(psk, psk_id) {
            return Err(HPKEError::InvalidInput);
        }
        let suite_id = self.get_ciphersuite();
        let key_schedule_context = self.get_key_schedule_context(info, psk_id, suite_id.as_slice());
        let secret = self.get_secret(psk, zz, suite_id.as_slice());
        let key = self.kdf.labeled_expand(
            secret.as_slice(),
            suite_id.as_slice(),
            "key",
            key_schedule_context.as_slice(),
            self.nk,
        );
        let nonce = self.kdf.labeled_expand(
            secret.as_slice(),
            suite_id.as_slice(),
            "base_nonce",
            key_schedule_context.as_slice(),
            self.nn,
        );
        let exporter_secret = self.kdf.labeled_expand(
            secret.as_slice(),
            suite_id.as_slice(),
            "exp",
            key_schedule_context.as_slice(),
            self.nh,
        );
        Ok(Context { key, nonce, exporter_secret, sequence_number: 0, hpke: self })
    }

    /// Randomized algorithm to generate a key pair `(skX, pkX)` for the KEM.
    /// This is `derive_key_pair` on `Nsk` bytes of the system's random
    /// source; the only error is `CryptoFailure`.
    pub fn generate_key_pair(&self) -> (r: Result<HPKEKeyPair, HPKEError>)
        ensures
            match r {
                Ok(pair) => exists|ikm: Seq<u8>|
                    ikm.len() == self@.kem_id.spec_nsk() && #[trigger] dh_kem::spec_derive_key_pair(
                        self@.kem_id,
                        ikm,
                    ) == Ok::<(Seq<u8>, Seq<u8>), HPKEError>(pair@),
                Err(e) => e == HPKEError::CryptoFailure,
            },
    {
        proof {
            use_type_invariant(self);
        }
        match self.kem.key_gen() {
            Ok((sk, pk)) => Ok(HPKEKeyPair::new(sk, pk)),
            Err(e) => Err(e),
        }
    }

    /// Derive a key pair for the used KEM with the given input key material.
    /// Keying material of fewer than `Nsk` bytes is `InvalidInput`.
    pub fn derive_key_pair(&self, ikm: &[u8]) -> (r: Result<HPKEKeyPair, HPKEError>)
        ensures
            match dh_kem::spec_derive_key_pair(self@.kem_id, ikm@) {
                Ok(pair) => r matches Ok(k) && k@ == pair,
                Err(e) => r matches Err(x) && x == e,
            },
            ikm@.len() < self@.kem_id.spec_nsk() ==> spec_is_err(r, HPKEError::InvalidInput),
    {
        proof {
            use_type_invariant(self);
        }
        match self.kem.derive_key_pair(ikm) {
            Ok((sk, pk)) => Ok(HPKEKeyPair::new(sk, pk)),
            Err(e) => Err(e),
        }
    }
}

impl HPKEKeyPair {
    /// Create a new HPKE key pair.
    /// Consumes the private and public key bytes.
    pub fn new(sk: Vec<u8>, pk: Vec<u8>) -> (r: Self)
        ensures
            r@ == (sk@, pk@),
    {
        Self { private_key: HPKEPrivateKey::new(sk), public_key: HPKEPublicKey::new(pk) }
    }

    /// Get a reference to the HPKE private key of this key pair.
    pub fn get_private_key_ref(&self) -> (r: &HPKEPrivateKey)
        ensures
            r@ == self@.0,
    {
        &self.private_key
    }

    /// Get a reference to the HPKE public key of this key pair.
    pub fn get_public_key_ref(&self) -> (r: &HPKEPublicKey)
        ensures
            r@ == self@.1,
    {
        &self.public_key
    }

    /// Split the key pair into the two keys
    pub fn to_keys(self) -> (r: (HPKEPrivateKey, HPKEPublicKey))
        ensures
            r.0@ == self@.0,
            r.1@ == self@.1,
    {
        (self.private_key, self.public_key)
    }
}

impl HPKEPrivateKey {
    /// Create a new HPKE private key.
    /// Consumes the private key bytes.
    pub fn new(b: Vec<u8>) -> (r: Self)
        ensures
            r@ == b@,
    {
        Self { value: b }
    }

    /// Get the raw key as byte slice.
    pub fn as_slice(&self) -> (r: &[u8])
        ensures
            r@ == self@,
    {
        self.value.as_slice()
    }
}

impl HPKEPublicKey {
    /// Create a new HPKE public key.
    /// Consumes the public key bytes.
    pub fn new(b: Vec<u8>) -> (r: Self)
        ensures
            r@ == b@,
    {
        Self { value: b }
    }

    /// Get the raw key as byte slice.
    pub fn as_slice(&self) -> (r: &[u8])
        ensures
            r@ == self@,
    {
        self.value.as_slice()
    }
}

} // verus!
