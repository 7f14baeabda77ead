use hpke_rs::aead;
use hpke_rs::kdf;
use hpke_rs::kem;
use hpke_rs::{HPKEPrivateKey, HPKEPublicKey, Hpke, Mode};

fn hex(s: &str) -> Vec<u8> {
    let digits: Vec<u8> = s
        .bytes()
        .map(|c| match c {
            b'0'..=b'9' => c - b'0',
            b'a'..=b'f' => c - b'a' + 10,
            _ => panic!("not a hex digit"),
        })
        .collect();
    digits.chunks(2).map(|p| p[0] * 16 + p[1]).collect()
}

fn suite() -> Hpke {
    Hpke::new(
        Mode::Psk,
        kem::Mode::DhKem25519,
        kdf::Mode::HkdfSha256,
        aead::Mode::ChaCha20Poly1305,
    )
}

const INFO: &str = "4f6465206f6e2061204772656369616e2055726e";
const IKM_E: &str = "35706a0b09fb26fb45c39c2f5079c709c7cf98e43afa973f14d88ece7e29c2e3";
const PK_E: &str = "2261299c3f40a9afc133b969a97f05e95be2c514e54f3de26cbe5644ac735b04";
const SK_E: &str = "0c35fdf49df7aa01cd330049332c40411ebba36e0c718ebc3edf5845795f6321";
const IKM_R: &str = "26b923eade72941c8a85b09986cdfa3f1296852261adedc52d58d2930269812b";
const PK_R: &str = "13640af826b722fc04feaa4de2f28fbd5ecc03623b317834e7ff4120dbe73062";
const SK_R: &str = "77d114e0212be51cb1d76fa99dd41cfd4d0166b08caa09074430a6c59ef17879";
const PSK: &str = "0247fd33b913760fa1fa51e1892d9f307fbe65eb171e8132c2af18555a738b82";
const PSK_ID: &str = "456e6e796e20447572696e206172616e204d6f726961";
const SHARED_SECRET: &str = "4be079c5e77779d0215b3f689595d59e3e9b0455d55662d1f3666ec606e50ea7";
const KEY: &str = "600d2fdb0313a7e5c86a9ce9221cd95bed069862421744cfb4ab9d7203a9c019";
const BASE_NONCE: &str = "112e0465562045b7368653e7";
const EXPORTER_SECRET: &str = "73b506dc8b6b4269027f80b0362def5cbb57ee50eed0c2873dac9181f453c5ac";
const PT: &str = "4265617574792069732074727574682c20747275746820626561757479";
const CT_0: &str =
    "4a177f9c0d6f15cfdf533fb65bf84aecdc6ab16b8b85b4cf65a370e07fc1d78d28fb073214525276f4a89608ff";

#[test]
fn psk_x25519_derives_the_key_pairs() {
    let hpke = suite();
    let (sk_e, pk_e) = hpke.derive_key_pair(&hex(IKM_E)).unwrap().to_keys();
    assert_eq!(sk_e.as_slice(), &hex(SK_E)[..]);
    assert_eq!(pk_e.as_slice(), &hex(PK_E)[..]);
    let (sk_r, pk_r) = hpke.derive_key_pair(&hex(IKM_R)).unwrap().to_keys();
    assert_eq!(sk_r.as_slice(), &hex(SK_R)[..]);
    assert_eq!(pk_r.as_slice(), &hex(PK_R)[..]);
}

#[test]
fn psk_x25519_kem_gives_the_shared_secret() {
    let kem = kem::Kem::new(kem::Mode::DhKem25519);
    let (shared_secret, enc) = kem.encaps_with(&hex(PK_R), &hex(IKM_E)).unwrap();
    assert_eq!(shared_secret, hex(SHARED_SECRET));
    assert_eq!(enc, hex(PK_E));
    assert_eq!(kem.decaps(&enc, &hex(SK_R)).unwrap(), hex(SHARED_SECRET));
}

#[test]
fn psk_x25519_chacha_key_schedule() {
    let hpke = suite();
    let pk_r = HPKEPublicKey::new(hex(PK_R));
    let (enc, context) = hpke
        .setup_sender_with(
            &pk_r,
            &hex(INFO),
            Some(&hex(PSK)),
            Some(&hex(PSK_ID)),
            None,
            &hex(IKM_E),
        )
        .unwrap();
    assert_eq!(enc, hex(PK_E));
    assert_eq!(context.get_key_ref(), &hex(KEY)[..]);
    assert_eq!(context.get_nonce_ref(), &hex(BASE_NONCE)[..]);
    assert_eq!(context.get_exporter_secret_ref(), &hex(EXPORTER_SECRET)[..]);
}

#[test]
fn psk_x25519_chacha_key_schedule_from_the_shared_secret() {
    let hpke = suite();
    let context = hpke
        .key_schedule(&hex(SHARED_SECRET), &hex(INFO), &hex(PSK), &hex(PSK_ID))
        .unwrap();
    assert_eq!(context.get_key_ref(), &hex(KEY)[..]);
    assert_eq!(context.get_nonce_ref(), &hex(BASE_NONCE)[..]);
    assert_eq!(context.get_exporter_secret_ref(), &hex(EXPORTER_SECRET)[..]);
    assert_eq!(context.get_sequence_number(), 0);
}

#[test]
fn psk_x25519_chacha_ciphertexts() {
    let hpke = suite();
    let pk_r = HPKEPublicKey::new(hex(PK_R));
    let sk_r = HPKEPrivateKey::new(hex(SK_R));
    let (enc, mut sender) = hpke
        .setup_sender_with(
            &pk_r,
            &hex(INFO),
            Some(&hex(PSK)),
            Some(&hex(PSK_ID)),
            None,
            &hex(IKM_E),
        )
        .unwrap();
    let mut receiver = hpke
        .setup_receiver(
            &enc,
            &sk_r,
            &hex(INFO),
            Some(&hex(PSK)),
            Some(&hex(PSK_ID)),
            None,
        )
        .unwrap();
    let first = sender.seal(b"Count-0", &hex(PT)).unwrap();
    assert_eq!(first, hex(CT_0));
    assert_eq!(receiver.open(b"Count-0", &first).unwrap(), hex(PT));
    let second = sender.seal(b"Count-1", &hex(PT)).unwrap();
    let third = sender.seal(b"Count-2", &hex(PT)).unwrap();
    assert_ne!(first, second);
    assert_ne!(second, third);
    assert_eq!(receiver.open(b"Count-1", &second).unwrap(), hex(PT));
    assert_eq!(receiver.open(b"Count-2", &third).unwrap(), hex(PT));
    assert_eq!(sender.get_sequence_number(), 3);
    assert_eq!(receiver.get_sequence_number(), 3);
}

#[test]
fn psk_x25519_chacha_single_shot() {
    let hpke = suite();
    let pk_r = HPKEPublicKey::new(hex(PK_R));
    let sk_r = HPKEPrivateKey::new(hex(SK_R));
    let (enc, ct) = hpke
        .seal_with(
            &pk_r,
            &hex(INFO),
            b"Count-0",
            &hex(PT),
            Some(&hex(PSK)),
            Some(&hex(PSK_ID)),
            None,
            &hex(IKM_E),
        )
        .unwrap();
    assert_eq!(enc, hex(PK_E));
    assert_eq!(ct, hex(CT_0));
    let pt = hpke
        .open(
            &enc,
            &sk_r,
            &hex(INFO),
            b"Count-0",
            &ct,
            Some(&hex(PSK)),
            Some(&hex(PSK_ID)),
            None,
        )
        .unwrap();
    assert_eq!(pt, hex(PT));
}
