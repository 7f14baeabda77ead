//! The mathematical model of a ciphersuite and of an encryption context:
//! what the key schedule derives, what each operation of a context returns
//! and how it moves the sequence number.

use crate::aead;
use crate::dh_kem;
use crate::kdf;
use crate::kem;
use crate::util::{spec_i2osp, spec_pow256, spec_xor};
use crate::{spec_from_aead_error, HPKEError, Mode};
use vstd::prelude::*;
use vstd::string::StringSliceAdditionalSpecFns;

verus! {

/// A ciphersuite with its mode: what an engine is configured with.
pub struct Suite {
    pub mode: Mode,
    pub kem_id: kem::Mode,
    pub kdf_id: kdf::Mode,
    pub aead_id: aead::Mode,
}

/// The state of an encryption context.
pub struct ContextModel {
    pub suite: Suite,
    pub key: Seq<u8>,
    pub nonce: Seq<u8>,
    pub exporter_secret: Seq<u8>,
    pub sequence_number: u64,
}

/// The bytes of an optional argument; none stands for the empty string.
pub open spec fn spec_or_empty(o: Option<&[u8]>) -> Seq<u8> {
    match o {
        Some(s) => s@,
        None => Seq::empty(),
    }
}

/// The sequence number at which a context with nonces of `nn` bytes stops
/// encrypting and decrypting: the largest number that `nn` bytes hold,
/// `256^nn - 1`, or the largest that the 64-bit counter holds if that is
/// less.
pub open spec fn spec_message_limit(nn: nat) -> nat {
    if spec_pow256(nn) - 1 < u64::MAX {
        (spec_pow256(nn) - 1) as nat
    } else {
        u64::MAX as nat
    }
}

impl Suite {
    /// The suite identifier of every labeled derivation of the engine:
    /// `"HPKE" || be16(kem_id) || be16(kdf_id) || be16(aead_id)`.
    pub open spec fn spec_suite_id(self) -> Seq<u8> {
        "HPKE".spec_bytes() + spec_i2osp(self.kem_id.spec_id() as nat, 2) + spec_i2osp(
            self.kdf_id.spec_id() as nat,
            2,
        ) + spec_i2osp(self.aead_id.spec_id() as nat, 2)
    }

    /// The descriptor of the configuration, in 7 bytes:
    /// `mode || be16(kem_id) || be16(kdf_id) || be16(aead_id)`.
    pub open spec fn spec_encode(self) -> Seq<u8> {
        spec_i2osp(self.mode.spec_id() as nat, 1) + spec_i2osp(self.kem_id.spec_id() as nat, 2)
            + spec_i2osp(self.kdf_id.spec_id() as nat, 2) + spec_i2osp(
            self.aead_id.spec_id() as nat,
            2,
        )
    }

    /// Whether a pre-shared key and its identifier fit the mode: both empty
    /// in the modes without a pre-shared key, both non-empty in the modes
    /// with one.
    pub open spec fn spec_psk_inputs_ok(self, psk: Seq<u8>, psk_id: Seq<u8>) -> bool {
        &&& (psk.len() > 0) == (psk_id.len() > 0)
        &&& (psk.len() > 0) == self.mode.spec_uses_psk()
    }

    /// `mode || psk_id_hash || info_hash`.
    pub open spec fn spec_key_schedule_context(self, info: Seq<u8>, psk_id: Seq<u8>) -> Seq<u8> {
        let psk_id_hash = self.kdf_id.spec_labeled_extract(
            Seq::empty(),
            self.spec_suite_id(),
            "psk_id_hash".spec_bytes(),
            psk_id,
        );
        let info_hash = self.kdf_id.spec_labeled_extract(
            Seq::empty(),
            self.spec_suite_id(),
            "info_hash".spec_bytes(),
            info,
        );
        spec_i2osp(self.mode.spec_id() as nat, 1) + psk_id_hash + info_hash
    }

    /// The secret of the key schedule: extracted from the pre-shared key
    /// under the label `secret`, with the shared secret as salt.
    pub open spec fn spec_secret(self, shared_secret: Seq<u8>, psk: Seq<u8>) -> Seq<u8> {
        self.kdf_id.spec_labeled_extract(
            shared_secret,
            self.spec_suite_id(),
            "secret".spec_bytes(),
            psk,
        )
    }

    /// The key schedule: the context at sequence number 0 whose key, base
    /// nonce and exporter secret are expanded from the secret under the
    /// labels `key`, `base_nonce` and `exp`; `InvalidInput` where the
    /// pre-shared key and its identifier do not fit the mode.
    pub open spec fn spec_key_schedule(
        self,
        shared_secret: Seq<u8>,
        info: Seq<u8>,
        psk: Seq<u8>,
        psk_id: Seq<u8>,
    ) -> Result<ContextModel, HPKEError> {
        if !self.spec_psk_inputs_ok(psk, psk_id) {
            Err(HPKEError::InvalidInput)
        } else {
            let context = self.spec_key_schedule_context(info, psk_id);
            let secret = self.spec_secret(shared_secret, psk);
            Ok(
                ContextModel {
                    suite: self,
                    key: self.kdf_id.spec_labeled_expand(
                        secret,
                        self.spec_suite_id(),
                        "key".spec_bytes(),
                        context,
                        self.aead_id.spec_nk(),
                    ),
                    nonce: self.kdf_id.spec_labeled_expand(
                        secret,
                        self.spec_suite_id(),
                        "base_nonce".spec_bytes(),
                        context,
                        self.aead_id.spec_nn(),
                    ),
                    exporter_secret: self.kdf_id.spec_labeled_expand(
                        secret,
                        self.spec_suite_id(),
                        "exp".spec_bytes(),
                        context,
                        self.kdf_id.spec_nh(),
                    ),
                    sequence_number: 0,
                },
            )
        }
    }

    /// Whether the arguments of a setup are complete and consistent: the
    /// other side's key is there in the authenticated modes, and the
    /// pre-shared key and its identifier fit the mode.
    pub open spec fn spec_setup_inputs_ok(
        self,
        psk: Seq<u8>,
        psk_id: Seq<u8>,
        auth_key: Option<Seq<u8>>,
    ) -> bool {
        &&& self.mode.spec_uses_auth() ==> auth_key is Some
        &&& self.spec_psk_inputs_ok(psk, psk_id)
    }

    /// What the KEM gives the sender: `(shared_secret, enc)`, authenticated
    /// with the sender's private key in the authenticated modes.
    pub open spec fn spec_sender_secret(
        self,
        pk_r: Seq<u8>,
        sk_s: Option<Seq<u8>>,
        ikm_e: Seq<u8>,
    ) -> Result<(Seq<u8>, Seq<u8>), HPKEError> {
        if self.mode.spec_uses_auth() {
            dh_kem::spec_auth_encaps(self.kem_id, pk_r, sk_s.unwrap(), ikm_e)
        } else {
            dh_kem::spec_encaps(self.kem_id, pk_r, ikm_e)
        }
    }

    /// What the KEM gives the receiver: the shared secret, checked against
    /// the sender's public key in the authenticated modes.
    pub open spec fn spec_receiver_secret(
        self,
        enc: Seq<u8>,
        sk_r: Seq<u8>,
        pk_s: Option<Seq<u8>>,
    ) -> Result<Seq<u8>, HPKEError> {
        if self.mode.spec_uses_auth() {
            dh_kem::spec_auth_decaps(self.kem_id, enc, sk_r, pk_s.unwrap())
        } else {
            dh_kem::spec_decaps(self.kem_id, enc, sk_r)
        }
    }

    /// The sender's setup with the ephemeral key pair derived from `ikm_e`:
    /// the encapsulation and the context. Incomplete or inconsistent
    /// arguments are `InvalidInput`, whatever the keys are; then come the
    /// errors of the KEM.
    pub open spec fn spec_setup_sender(
        self,
        pk_r: Seq<u8>,
        info: Seq<u8>,
        psk: Seq<u8>,
        psk_id: Seq<u8>,
        sk_s: Option<Seq<u8>>,
        ikm_e: Seq<u8>,
    ) -> Result<(Seq<u8>, ContextModel), HPKEError> {
        if !self.spec_setup_inputs_ok(psk, psk_id, sk_s) {
            Err(HPKEError::InvalidInput)
        } else {
            match self.spec_sender_secret(pk_r, sk_s, ikm_e) {
                Err(e) => Err(e),
                Ok(pair) => match self.spec_key_schedule(pair.0, info, psk, psk_id) {
                    Err(e) => Err(e),
                    Ok(context) => Ok((pair.1, context)),
                },
            }
        }
    }

    /// The receiver's setup: the context. Incomplete or inconsistent
    /// arguments are `InvalidInput`, whatever the keys are; then come the
    /// errors of the KEM.
    pub open spec fn spec_setup_receiver(
        self,
        enc: Seq<u8>,
        sk_r: Seq<u8>,
        info: Seq<u8>,
        psk: Seq<u8>,
        psk_id: Seq<u8>,
        pk_s: Option<Seq<u8>>,
    ) -> Result<ContextModel, HPKEError> {
        if !self.spec_setup_inputs_ok(psk, psk_id, pk_s) {
            Err(HPKEError::InvalidInput)
        } else {
            match self.spec_receiver_secret(enc, sk_r, pk_s) {
                Err(e) => Err(e),
                Ok(shared_secret) => self.spec_key_schedule(shared_secret, info, psk, psk_id),
            }
        }
    }

    /// Single-shot encryption: the sender's setup, then one `seal`; gives
    /// the encapsulation and the ciphertext.
    pub open spec fn spec_seal(
        self,
        pk_r: Seq<u8>,
        info: Seq<u8>,
        aad: Seq<u8>,
        pt: Seq<u8>,
        psk: Seq<u8>,
        psk_id: Seq<u8>,
        sk_s: Option<Seq<u8>>,
        ikm_e: Seq<u8>,
    ) -> Result<(Seq<u8>, Seq<u8>), HPKEError> {
        match self.spec_setup_sender(pk_r, info, psk, psk_id, sk_s, ikm_e) {
            Err(e) => Err(e),
            Ok(setup) => match setup.1.spec_seal(aad, pt) {
                Err(e) => Err(e),
                Ok(sealed) => Ok((setup.0, sealed.0)),
            },
        }
    }

    /// Single-shot decryption: the receiver's setup, then one `open`.
    pub open spec fn spec_open(
        self,
        enc: Seq<u8>,
        sk_r: Seq<u8>,
        info: Seq<u8>,
        aad: Seq<u8>,
        ct: Seq<u8>,
        psk: Seq<u8>,
        psk_id: Seq<u8>,
        pk_s: Option<Seq<u8>>,
    ) -> Result<Seq<u8>, HPKEError> {
        match self.spec_setup_receiver(enc, sk_r, info, psk, psk_id, pk_s) {
            Err(e) => Err(e),
            Ok(context) => match context.spec_open(aad, ct) {
                Err(e) => Err(e),
                Ok(opened) => Ok(opened.0),
            },
        }
    }

    /// Single-shot export on the sender's side: the encapsulation and the
    /// exported secret.
    pub open spec fn spec_send_export(
        self,
        pk_r: Seq<u8>,
        info: Seq<u8>,
        psk: Seq<u8>,
        psk_id: Seq<u8>,
        sk_s: Option<Seq<u8>>,
        exporter_context: Seq<u8>,
        length: nat,
        ikm_e: Seq<u8>,
    ) -> Result<(Seq<u8>, Seq<u8>), HPKEError> {
        match self.spec_setup_sender(pk_r, info, psk, psk_id, sk_s, ikm_e) {
            Err(e) => Err(e),
            Ok(setup) => Ok((setup.0, setup.1.spec_export(exporter_context, length))),
        }
    }

    /// Single-shot export on the receiver's side: the exported secret.
    pub open spec fn spec_receiver_export(
        self,
        enc: Seq<u8>,
        sk_r: Seq<u8>,
        info: Seq<u8>,
        psk: Seq<u8>,
        psk_id: Seq<u8>,
        pk_s: Option<Seq<u8>>,
        exporter_context: Seq<u8>,
        length: nat,
    ) -> Result<Seq<u8>, HPKEError> {
        match self.spec_setup_receiver(enc, sk_r, info, psk, psk_id, pk_s) {
            Err(e) => Err(e),
            Ok(context) => Ok(context.spec_export(exporter_context, length)),
        }
    }
}

impl ContextModel {
    /// The lengths that the key schedule gives: `Nk`, `Nn` and `Nh`.
    pub open spec fn spec_wf(self) -> bool {
        &&& self.key.len() == self.suite.aead_id.spec_nk()
        &&& self.nonce.len() == self.suite.aead_id.spec_nn()
        &&& self.exporter_secret.len() == self.suite.kdf_id.spec_nh()
    }

    /// The nonce of the next message: the base nonce XOR the sequence
    /// number, encoded big-endian in `Nn` bytes.
    pub open spec fn spec_nonce(self) -> Seq<u8> {
        spec_xor(
            self.nonce,
            spec_i2osp(self.sequence_number as nat, self.suite.aead_id.spec_nn()),
        )
    }

    /// Whether the context has used up its sequence numbers.
    pub open spec fn spec_exhausted(self) -> bool {
        self.sequence_number >= spec_message_limit(self.suite.aead_id.spec_nn())
    }

    /// The context after one more message.
    pub open spec fn spec_next(self) -> ContextModel {
        ContextModel { sequence_number: (self.sequence_number + 1) as u64, ..self }
    }

    /// Which error, if any, `seal` and `open` meet before the cipher runs:
    /// `InvalidConfig` in an export-only context, else `MessageLimitReached`
    /// in an exhausted one.
    pub open spec fn spec_refusal(self) -> Option<HPKEError> {
        if self.suite.aead_id == aead::Mode::Export {
            Some(HPKEError::InvalidConfig)
        } else if self.spec_exhausted() {
            Some(HPKEError::MessageLimitReached)
        } else {
            None
        }
    }

    /// `seal`: the ciphertext and the context after it, or the error.
    pub open spec fn spec_seal(self, aad: Seq<u8>, pt: Seq<u8>) -> Result<
        (Seq<u8>, ContextModel),
        HPKEError,
    > {
        match self.spec_refusal() {
            Some(e) => Err(e),
            None => match self.suite.aead_id.spec_seal(self.key, self.spec_nonce(), aad, pt) {
                Ok(ct) => Ok((ct, self.spec_next())),
                Err(e) => Err(spec_from_aead_error(e)),
            },
        }
    }

    /// `open`: the plaintext and the context after it, or the error.
    pub open spec fn spec_open(self, aad: Seq<u8>, ct: Seq<u8>) -> Result<
        (Seq<u8>, ContextModel),
        HPKEError,
    > {
        match self.spec_refusal() {
            Some(e) => Err(e),
            None => match self.suite.aead_id.spec_open(self.key, self.spec_nonce(), aad, ct) {
                Ok(pt) => Ok((pt, self.spec_next())),
                Err(e) => Err(spec_from_aead_error(e)),
            },
        }
    }

    /// `export`: `length` bytes expanded from the exporter secret under the
    /// label `sec`, with the caller's context as info.
    pub open spec fn spec_export(self, exporter_context: Seq<u8>, length: nat) -> Seq<u8> {
        self.suite.kdf_id.spec_labeled_expand(
            self.exporter_secret,
            self.suite.spec_suite_id(),
            "sec".spec_bytes(),
            exporter_context,
            length,
        )
    }
}

/// The seven bytes of a descriptor, one by one.
pub proof fn lemma_encode_bytes(suite: Suite)
    ensures
        suite.spec_encode().len() == 7,
        suite.spec_encode()[0] == suite.mode.spec_id(),
        suite.spec_encode()[1] == suite.kem_id.spec_id() / 256,
        suite.spec_encode()[2] == suite.kem_id.spec_id() % 256,
        suite.spec_encode()[3] == suite.kdf_id.spec_id() / 256,
        suite.spec_encode()[4] == suite.kdf_id.spec_id() % 256,
        suite.spec_encode()[5] == suite.aead_id.spec_id() / 256,
        suite.spec_encode()[6] == suite.aead_id.spec_id() % 256,
{
    reveal_with_fuel(spec_i2osp, 3);
}

/// Two configurations with one descriptor are the same: reading back what
/// was written gives the configuration that wrote it.
pub proof fn lemma_encode_injective(a: Suite, b: Suite)
    requires
        a.spec_encode() == b.spec_encode(),
    ensures
        a == b,
{
    lemma_encode_bytes(a);
    lemma_encode_bytes(b);
}

/// `256^n` grows with `n`.
pub proof fn lemma_pow256_monotonic(m: nat, n: nat)
    requires
        m <= n,
    ensures
        spec_pow256(m) <= spec_pow256(n),
        spec_pow256(m) >= 1,
    decreases n,
{
    if m < n {
        lemma_pow256_monotonic(m, (n - 1) as nat);
    } else if n > 0 {
        lemma_pow256_monotonic((m - 1) as nat, (n - 1) as nat);
    }
}

/// The sequence number at which a context with nonces of `nn` bytes stops.
pub fn message_limit(nn: usize) -> (r: u64)
    ensures
        r == spec_message_limit(nn as nat),
{
    if nn >= 8 {
        proof {
            reveal_with_fuel(spec_pow256, 9);
            assert(spec_pow256(8) == 0x1_0000_0000_0000_0000);
            lemma_pow256_monotonic(8, nn as nat);
        }
        u64::MAX
    } else {
        let mut p: u64 = 1;
        let mut i: usize = 0;
        while i < nn
            invariant
                i <= nn,
                nn < 8,
                p == spec_pow256(i as nat),
            decreases nn - i,
        {
            proof {
                reveal_with_fuel(spec_pow256, 9);
                lemma_pow256_monotonic(i as nat, 6);
                assert(spec_pow256(6) == 0x1_0000_0000_0000);
            }
            p = p * 256;
            i = i + 1;
        }
        proof {
            lemma_pow256_monotonic(0, nn as nat);
        }
        p - 1
    }
}

/// The transition of a context on one more message: from a sequence number
/// below the limit to the next one, and `MessageLimitReached` from the limit
/// itself, where a context of nonce length `nn` is exhausted.
pub fn next_sequence_number(seq: u64, nn: usize) -> (r: Result<u64, HPKEError>)
    ensures
        match r {
            Ok(next) => seq < spec_message_limit(nn as nat) && next == seq + 1,
            Err(e) => e == HPKEError::MessageLimitReached && seq >= spec_message_limit(
                nn as nat,
            ),
        },
{
    if seq >= message_limit(nn) {
        Err(HPKEError::MessageLimitReached)
    } else {
        Ok(seq + 1)
    }
}

} // verus!
