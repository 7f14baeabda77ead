use hpke_rs::aead;
use hpke_rs::kdf;
use hpke_rs::kem;
use hpke_rs::{HPKEError, Hpke, Mode};

fn hex(s: &str) -> Vec<u8> {
    let digits: Vec<u8> = s
        .bytes()
        .map(|c| match c {
            b'0'..=b'9' => c - b'0',
            b'a'..=b'f' => c - b'a' + 10,
            _ => panic!("not a hex digit"),
        })
        .collect();
    digits.chunks(2).map(|p| p[0] * 16 + p[1]).collect()
}

fn suite() -> Hpke {
    Hpke::new(
        Mode::AuthPsk,
        kem::Mode::DhKem25519,
        kdf::Mode::HkdfSha256,
        aead::Mode::AesGcm256,
    )
}

const INFO: &str = "4f6465206f6e2061204772656369616e2055726e";
const IKM_E: &str = "7268600d403fce431561aef583ee1613527cff655c1343f29812e66706df3234";
const IKM_R: &str = "6db9df30aa07dd42ee5e8181afdb977e538f5e1fec8a06223f33f7013e525037";
const IKM_S: &str = "35706a0b09fb26fb45c39c2f5079c709c7cf98e43afa973f14d88ece7e29c2e3";
const PSK: &str = "0247fd33b913760fa1fa51e1892d9f307fbe65eb171e8132c2af18555a738b82";
const PSK_ID: &str = "456e6e796e20447572696e206172616e204d6f726961";
const PT: &str = "4265617574792069732074727574682c20747275746820626561757479";

#[test]
fn authpsk_x25519_aes256_lengths_and_encapsulation() {
    let hpke = suite();
    let receiver = hpke.derive_key_pair(&hex(IKM_R)).unwrap();
    let sender = hpke.derive_key_pair(&hex(IKM_S)).unwrap();
    let ephemeral = hpke.derive_key_pair(&hex(IKM_E)).unwrap();
    let (enc, context) = hpke
        .setup_sender_with(
            receiver.get_public_key_ref(),
            &hex(INFO),
            Some(&hex(PSK)),
            Some(&hex(PSK_ID)),
            Some(sender.get_private_key_ref()),
            &hex(IKM_E),
        )
        .unwrap();
    assert_eq!(enc, ephemeral.get_public_key_ref().as_slice());
    assert_eq!(context.get_key_ref().len(), 32);
    assert_eq!(context.get_nonce_ref().len(), 12);
    assert_eq!(context.get_exporter_secret_ref().len(), 32);
    assert_eq!(context.get_sequence_number(), 0);
}

#[test]
fn authpsk_x25519_aes256_three_messages() {
    let hpke = suite();
    let receiver = hpke.derive_key_pair(&hex(IKM_R)).unwrap();
    let sender = hpke.derive_key_pair(&hex(IKM_S)).unwrap();
    let (enc, mut sealer) = hpke
        .setup_sender_with(
            receiver.get_public_key_ref(),
            &hex(INFO),
            Some(&hex(PSK)),
            Some(&hex(PSK_ID)),
            Some(sender.get_private_key_ref()),
            &hex(IKM_E),
        )
        .unwrap();
    let mut opener = hpke
        .setup_receiver(
            &enc,
            receiver.get_private_key_ref(),
            &hex(INFO),
            Some(&hex(PSK)),
            Some(&hex(PSK_ID)),
            Some(sender.get_public_key_ref()),
        )
        .unwrap();
    assert_eq!(sealer.get_key_ref(), opener.get_key_ref());
    assert_eq!(sealer.get_nonce_ref(), opener.get_nonce_ref());
    assert_eq!(
        sealer.get_exporter_secret_ref(),
        opener.get_exporter_secret_ref()
    );
    let mut seen: Vec<Vec<u8>> = Vec::new();
    for i in 0..3 {
        let aad = format!("Count-{}", i).into_bytes();
        let ct = sealer.seal(&aad, &hex(PT)).unwrap();
        assert_eq!(ct.len(), hex(PT).len() + 16);
        assert!(!seen.contains(&ct));
        assert_eq!(opener.open(&aad, &ct).unwrap(), hex(PT));
        seen.push(ct);
    }
}

#[test]
fn authpsk_x25519_aes256_is_deterministic_in_the_ephemeral_key() {
    let hpke = suite();
    let receiver = hpke.derive_key_pair(&hex(IKM_R)).unwrap();
    let sender = hpke.derive_key_pair(&hex(IKM_S)).unwrap();
    let seal = |ikm: &[u8]| {
        hpke.seal_with(
            receiver.get_public_key_ref(),
            &hex(INFO),
            b"Count-0",
            &hex(PT),
            Some(&hex(PSK)),
            Some(&hex(PSK_ID)),
            Some(sender.get_private_key_ref()),
            ikm,
        )
        .unwrap()
    };
    assert_eq!(seal(&hex(IKM_E)), seal(&hex(IKM_E)));
    assert_ne!(seal(&hex(IKM_E)), seal(&hex(IKM_R)));
}

#[test]
fn authpsk_x25519_aes256_needs_the_same_psk() {
    let hpke = suite();
    let receiver = hpke.derive_key_pair(&hex(IKM_R)).unwrap();
    let sender = hpke.derive_key_pair(&hex(IKM_S)).unwrap();
    let (enc, ct) = hpke
        .seal_with(
            receiver.get_public_key_ref(),
            &hex(INFO),
            b"Count-0",
            &hex(PT),
            Some(&hex(PSK)),
            Some(&hex(PSK_ID)),
            Some(sender.get_private_key_ref()),
            &hex(IKM_E),
        )
        .unwrap();
    let opened = hpke.open(
        &enc,
        receiver.get_private_key_ref(),
        &hex(INFO),
        b"Count-0",
        &ct,
        Some(&hex(PSK_ID)),
        Some(&hex(PSK_ID)),
        Some(sender.get_public_key_ref()),
    );
    assert_eq!(opened, Err(HPKEError::OpenError));
}
