//! What the two sides of an exchange have in common: the receiver's setup
//! gives the sender's context, so the receiver opens what the sender seals
//! and both export the same secrets; and a context never uses a nonce twice.
//!
//! The primitives are outside this crate, and nothing here is proved of
//! them. Where a statement rests on them, it says so as a condition: that
//! the two sides of a Diffie-Hellman exchange compute one value, and that
//! the cipher opens what it sealed.

use crate::aead;
use crate::dh_kem::{spec_dh, spec_public_key};
use crate::kem;
use crate::suite::{lemma_pow256_monotonic, spec_message_limit, ContextModel, Suite};
use crate::util::{lemma_i2osp_injective, lemma_i2osp_len, lemma_xor_injective, spec_i2osp, spec_pow256};
use crate::{spec_is_err, HPKEError};
use vstd::prelude::*;

verus! {

/// Two parties with the private keys `sk_a` and `sk_b` compute one
/// Diffie-Hellman value, each from its own private key and the other's
/// public key (where both have a public key).
pub open spec fn spec_dh_agrees(mode: kem::Mode, sk_a: Seq<u8>, sk_b: Seq<u8>) -> bool {
    match (spec_public_key(mode, sk_a), spec_public_key(mode, sk_b)) {
        (Some(pk_a), Some(pk_b)) => spec_dh(mode, sk_a, pk_b) == spec_dh(mode, sk_b, pk_a),
        _ => true,
    }
}

/// The Diffie-Hellman function of the KEM is sound: any two parties agree.
pub open spec fn spec_kem_sound(mode: kem::Mode) -> bool {
    forall|sk_a: Seq<u8>, sk_b: Seq<u8>| #[trigger] spec_dh_agrees(mode, sk_a, sk_b)
}

/// The cipher opens what it sealed, under the same key, nonce and
/// associated data.
pub open spec fn spec_aead_inverts(
    mode: aead::Mode,
    key: Seq<u8>,
    nonce: Seq<u8>,
    aad: Seq<u8>,
    pt: Seq<u8>,
) -> bool {
    match mode.spec_cipher_seal(key, nonce, aad, pt) {
        Some(ct) => mode.spec_cipher_open(key, nonce, aad, ct) == Some(pt),
        None => true,
    }
}

/// The cipher is sound: it opens whatever it sealed.
pub open spec fn spec_aead_sound(mode: aead::Mode) -> bool {
    forall|key: Seq<u8>, nonce: Seq<u8>, aad: Seq<u8>, pt: Seq<u8>| #[trigger]
        spec_aead_inverts(mode, key, nonce, aad, pt)
}

/// The keys of the two sides belong together: the sender encapsulates to
/// the public key of the receiver's private key and, in the authenticated
/// modes, the receiver checks against the public key of the sender's
/// private key.
pub open spec fn spec_keys_match(
    suite: Suite,
    sk_r: Seq<u8>,
    pk_r: Seq<u8>,
    sk_s: Option<Seq<u8>>,
    pk_s: Option<Seq<u8>>,
) -> bool {
    &&& spec_public_key(suite.kem_id, sk_r) == Some(pk_r)
    &&& suite.mode.spec_uses_auth() ==> {
        &&& sk_s is Some
        &&& pk_s is Some
        &&& spec_public_key(suite.kem_id, sk_s.unwrap()) == pk_s
    }
}

/// Over a sound KEM, the matching setup of the receiver gives the context
/// that the sender's setup gave: the same key, base nonce and exporter
/// secret, at the same sequence number.
pub proof fn lemma_setup_agrees(
    suite: Suite,
    sk_r: Seq<u8>,
    pk_r: Seq<u8>,
    info: Seq<u8>,
    psk: Seq<u8>,
    psk_id: Seq<u8>,
    sk_s: Option<Seq<u8>>,
    pk_s: Option<Seq<u8>>,
    ikm_e: Seq<u8>,
)
    requires
        spec_kem_sound(suite.kem_id),
        spec_keys_match(suite, sk_r, pk_r, sk_s, pk_s),
        suite.spec_setup_sender(pk_r, info, psk, psk_id, sk_s, ikm_e) is Ok,
    ensures
        suite.spec_setup_receiver(
            suite.spec_setup_sender(pk_r, info, psk, psk_id, sk_s, ikm_e).unwrap().0,
            sk_r,
            info,
            psk,
            psk_id,
            pk_s,
        ) == Ok::<ContextModel, HPKEError>(
            suite.spec_setup_sender(pk_r, info, psk, psk_id, sk_s, ikm_e).unwrap().1,
        ),
{
    let pair = crate::dh_kem::spec_derive_key_pair(suite.kem_id, ikm_e).unwrap();
    assert(spec_dh_agrees(suite.kem_id, pair.0, sk_r));
    if suite.mode.spec_uses_auth() {
        assert(spec_dh_agrees(suite.kem_id, sk_s.unwrap(), sk_r));
    }
}

/// Over a sound cipher, a context opens what a context in the same state
/// sealed, and the two are in the same state again afterwards. So a
/// receiver that starts from the sender's state and opens each ciphertext
/// in the order of sealing gets every plaintext.
pub proof fn lemma_context_round_trip(context: ContextModel, aad: Seq<u8>, pt: Seq<u8>)
    requires
        spec_aead_sound(context.suite.aead_id),
        context.spec_seal(aad, pt) is Ok,
    ensures
        context.spec_open(aad, context.spec_seal(aad, pt).unwrap().0) == Ok::<
            (Seq<u8>, ContextModel),
            HPKEError,
        >((pt, context.spec_seal(aad, pt).unwrap().1)),
{
    assert(spec_aead_inverts(context.suite.aead_id, context.key, context.spec_nonce(), aad, pt));
}

/// Over sound primitives, single-shot `open` with the matching
/// keys and the same `info`, `aad`, pre-shared key and identifier gives back
/// the plaintext of single-shot `seal`.
pub proof fn lemma_round_trip(
    suite: Suite,
    sk_r: Seq<u8>,
    pk_r: Seq<u8>,
    info: Seq<u8>,
    aad: Seq<u8>,
    pt: Seq<u8>,
    psk: Seq<u8>,
    psk_id: Seq<u8>,
    sk_s: Option<Seq<u8>>,
    pk_s: Option<Seq<u8>>,
    ikm_e: Seq<u8>,
)
    requires
        spec_kem_sound(suite.kem_id),
        spec_aead_sound(suite.aead_id),
        spec_keys_match(suite, sk_r, pk_r, sk_s, pk_s),
        suite.spec_seal(pk_r, info, aad, pt, psk, psk_id, sk_s, ikm_e) is Ok,
    ensures
        suite.spec_open(
            suite.spec_seal(pk_r, info, aad, pt, psk, psk_id, sk_s, ikm_e).unwrap().0,
            sk_r,
            info,
            aad,
            suite.spec_seal(pk_r, info, aad, pt, psk, psk_id, sk_s, ikm_e).unwrap().1,
            psk,
            psk_id,
            pk_s,
        ) == Ok::<Seq<u8>, HPKEError>(pt),
{
    lemma_setup_agrees(suite, sk_r, pk_r, info, psk, psk_id, sk_s, pk_s, ikm_e);
    let setup = suite.spec_setup_sender(pk_r, info, psk, psk_id, sk_s, ikm_e).unwrap();
    lemma_context_round_trip(setup.1, aad, pt);
}

/// Over a sound KEM, `receiver_export` with the
/// matching keys and the same `info`, pre-shared key, identifier, exporter
/// context and length gives the bytes of `send_export`.
pub proof fn lemma_export_agrees(
    suite: Suite,
    sk_r: Seq<u8>,
    pk_r: Seq<u8>,
    info: Seq<u8>,
    psk: Seq<u8>,
    psk_id: Seq<u8>,
    sk_s: Option<Seq<u8>>,
    pk_s: Option<Seq<u8>>,
    exporter_context: Seq<u8>,
    length: nat,
    ikm_e: Seq<u8>,
)
    requires
        spec_kem_sound(suite.kem_id),
        spec_keys_match(suite, sk_r, pk_r, sk_s, pk_s),
        suite.spec_send_export(pk_r, info, psk, psk_id, sk_s, exporter_context, length, ikm_e)
            is Ok,
    ensures
        suite.spec_receiver_export(
            suite.spec_send_export(
                pk_r,
                info,
                psk,
                psk_id,
                sk_s,
                exporter_context,
                length,
                ikm_e,
            ).unwrap().0,
            sk_r,
            info,
            psk,
            psk_id,
            pk_s,
            exporter_context,
            length,
        ) == Ok::<Seq<u8>, HPKEError>(
            suite.spec_send_export(
                pk_r,
                info,
                psk,
                psk_id,
                sk_s,
                exporter_context,
                length,
                ikm_e,
            ).unwrap().1,
        ),
{
    lemma_setup_agrees(suite, sk_r, pk_r, info, psk, psk_id, sk_s, pk_s, ikm_e);
}

/// The sequence number at which a context stops is below the number of
/// values that its nonce holds.
pub proof fn lemma_message_limit_fits(nn: nat)
    ensures
        spec_message_limit(nn) < spec_pow256(nn),
{
    lemma_pow256_monotonic(0, nn);
}

/// Two states of a context at different sequence numbers, neither beyond
/// the limit, have different nonces.
pub proof fn lemma_nonces_distinct(a: ContextModel, b: ContextModel)
    requires
        a.spec_wf(),
        a.suite == b.suite,
        a.nonce == b.nonce,
        a.sequence_number <= spec_message_limit(a.suite.aead_id.spec_nn()),
        b.sequence_number <= spec_message_limit(a.suite.aead_id.spec_nn()),
        a.sequence_number != b.sequence_number,
    ensures
        a.spec_nonce() != b.spec_nonce(),
{
    let nn = a.suite.aead_id.spec_nn();
    let x = spec_i2osp(a.sequence_number as nat, nn);
    let y = spec_i2osp(b.sequence_number as nat, nn);
    lemma_i2osp_len(a.sequence_number as nat, nn);
    lemma_i2osp_len(b.sequence_number as nat, nn);
    lemma_message_limit_fits(nn);
    if a.spec_nonce() == b.spec_nonce() {
        lemma_xor_injective(a.nonce, x, y);
        lemma_i2osp_injective(a.sequence_number as nat, b.sequence_number as nat, nn);
    }
}

/// A successful `seal` moves the sequence number up by one, to a number
/// that is not beyond the limit, and changes nothing else; the nonce of the
/// state after it is not the nonce that it used. So the sequence number
/// only grows, and no two messages of a context are sealed under one nonce.
pub proof fn lemma_seal_advances(context: ContextModel, aad: Seq<u8>, pt: Seq<u8>)
    requires
        context.spec_wf(),
        context.spec_seal(aad, pt) is Ok,
    ensures
        context.spec_seal(aad, pt).unwrap().1.sequence_number == context.sequence_number + 1,
        context.spec_seal(aad, pt).unwrap().1.suite == context.suite,
        context.spec_seal(aad, pt).unwrap().1.key == context.key,
        context.spec_seal(aad, pt).unwrap().1.nonce == context.nonce,
        context.spec_seal(aad, pt).unwrap().1.exporter_secret == context.exporter_secret,
        context.sequence_number + 1 <= spec_message_limit(context.suite.aead_id.spec_nn()),
        context.spec_seal(aad, pt).unwrap().1.spec_nonce() != context.spec_nonce(),
{
    lemma_message_limit_fits(context.suite.aead_id.spec_nn());
    assert(context.spec_refusal() is None);
    assert(!context.spec_exhausted());
    assert(context.spec_seal(aad, pt).unwrap().1 == context.spec_next());
    lemma_nonces_distinct(context, context.spec_next());
}

/// A successful `open` moves the sequence number up by one, to a number
/// that is not beyond the limit, and changes nothing else; an `open` that
/// fails leaves the state as it was, since it returns no state.
pub proof fn lemma_open_advances(context: ContextModel, aad: Seq<u8>, ct: Seq<u8>)
    requires
        context.spec_wf(),
        context.spec_open(aad, ct) is Ok,
    ensures
        context.spec_open(aad, ct).unwrap().1.sequence_number == context.sequence_number + 1,
        context.spec_open(aad, ct).unwrap().1.suite == context.suite,
        context.spec_open(aad, ct).unwrap().1.key == context.key,
        context.spec_open(aad, ct).unwrap().1.nonce == context.nonce,
        context.spec_open(aad, ct).unwrap().1.exporter_secret == context.exporter_secret,
        context.sequence_number + 1 <= spec_message_limit(context.suite.aead_id.spec_nn()),
        context.spec_open(aad, ct).unwrap().1.spec_nonce() != context.spec_nonce(),
{
    lemma_message_limit_fits(context.suite.aead_id.spec_nn());
    assert(context.spec_refusal() is None);
    assert(!context.spec_exhausted());
    assert(context.spec_open(aad, ct).unwrap().1 == context.spec_next());
    lemma_nonces_distinct(context, context.spec_next());
}

/// A pre-shared key and identifier of which one is empty
/// and the other is not, a pre-shared key in a mode without one, and none
/// in a mode with one, make every setup and every single-shot operation
/// fail with `InvalidInput`, whatever the other arguments are.
pub proof fn lemma_psk_inputs_rejected(
    suite: Suite,
    key: Seq<u8>,
    enc: Seq<u8>,
    info: Seq<u8>,
    aad: Seq<u8>,
    text: Seq<u8>,
    psk: Seq<u8>,
    psk_id: Seq<u8>,
    auth_key: Option<Seq<u8>>,
    exporter_context: Seq<u8>,
    length: nat,
    ikm_e: Seq<u8>,
)
    requires
        (psk.len() == 0) != (psk_id.len() == 0) || (psk.len() > 0 && !suite.mode.spec_uses_psk())
            || (psk.len() == 0 && suite.mode.spec_uses_psk()),
    ensures
        suite.spec_key_schedule(key, info, psk, psk_id) == Err::<ContextModel, HPKEError>(
            HPKEError::InvalidInput,
        ),
        spec_is_err(
            suite.spec_setup_sender(key, info, psk, psk_id, auth_key, ikm_e),
            HPKEError::InvalidInput,
        ),
        suite.spec_setup_receiver(enc, key, info, psk, psk_id, auth_key) == Err::<
            ContextModel,
            HPKEError,
        >(HPKEError::InvalidInput),
        suite.spec_seal(key, info, aad, text, psk, psk_id, auth_key, ikm_e) == Err::<
            (Seq<u8>, Seq<u8>),
            HPKEError,
        >(HPKEError::InvalidInput),
        suite.spec_open(enc, key, info, aad, text, psk, psk_id, auth_key) == Err::<
            Seq<u8>,
            HPKEError,
        >(HPKEError::InvalidInput),
        suite.spec_send_export(key, info, psk, psk_id, auth_key, exporter_context, length, ikm_e)
            == Err::<(Seq<u8>, Seq<u8>), HPKEError>(HPKEError::InvalidInput),
        suite.spec_receiver_export(
            enc,
            key,
            info,
            psk,
            psk_id,
            auth_key,
            exporter_context,
            length,
        ) == Err::<Seq<u8>, HPKEError>(HPKEError::InvalidInput),
{
}

/// In the authenticated modes a sender without its
/// private key and a receiver without the sender's public key fail with
/// `InvalidInput`, in every setup and every single-shot operation, whatever
/// the other arguments are.
pub proof fn lemma_auth_key_required(
    suite: Suite,
    key: Seq<u8>,
    enc: Seq<u8>,
    info: Seq<u8>,
    aad: Seq<u8>,
    text: Seq<u8>,
    psk: Seq<u8>,
    psk_id: Seq<u8>,
    exporter_context: Seq<u8>,
    length: nat,
    ikm_e: Seq<u8>,
)
    requires
        suite.mode == crate::Mode::Auth || suite.mode == crate::Mode::AuthPsk,
    ensures
        spec_is_err(
            suite.spec_setup_sender(key, info, psk, psk_id, None, ikm_e),
            HPKEError::InvalidInput,
        ),
        suite.spec_setup_receiver(enc, key, info, psk, psk_id, None) == Err::<
            ContextModel,
            HPKEError,
        >(HPKEError::InvalidInput),
        suite.spec_seal(key, info, aad, text, psk, psk_id, None, ikm_e) == Err::<
            (Seq<u8>, Seq<u8>),
            HPKEError,
        >(HPKEError::InvalidInput),
        suite.spec_open(enc, key, info, aad, text, psk, psk_id, None) == Err::<
            Seq<u8>,
            HPKEError,
        >(HPKEError::InvalidInput),
        suite.spec_send_export(key, info, psk, psk_id, None, exporter_context, length, ikm_e)
            == Err::<(Seq<u8>, Seq<u8>), HPKEError>(HPKEError::InvalidInput),
        suite.spec_receiver_export(enc, key, info, psk, psk_id, None, exporter_context, length)
            == Err::<Seq<u8>, HPKEError>(HPKEError::InvalidInput),
{
}

/// A context of the export-only AEAD refuses `seal` and `open` with
/// `InvalidConfig`, whatever its state and the arguments are.
pub proof fn lemma_export_only_refuses(context: ContextModel, aad: Seq<u8>, text: Seq<u8>)
    requires
        context.suite.aead_id == aead::Mode::Export,
    ensures
        context.spec_seal(aad, text) == Err::<(Seq<u8>, ContextModel), HPKEError>(
            HPKEError::InvalidConfig,
        ),
        context.spec_open(aad, text) == Err::<(Seq<u8>, ContextModel), HPKEError>(
            HPKEError::InvalidConfig,
        ),
{
}

} // verus!
