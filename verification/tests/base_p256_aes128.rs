use hpke_rs::aead;
use hpke_rs::kdf;
use hpke_rs::kem;
use hpke_rs::{HPKEPrivateKey, HPKEPublicKey, Hpke, Mode};

fn hex(s: &str) -> Vec<u8> {
    let digits: Vec<u8> = s
        .bytes()
        .map(|c| match c {
            b'0'..=b'9' => c - b'0',
            b'a'..=b'f' => c - b'a' + 10,
            _ => panic!("not a hex digit"),
        })
        .collect();
    digits.chunks(2).map(|p| p[0] * 16 + p[1]).collect()
}

fn suite() -> Hpke {
    Hpke::new(
        Mode::Base,
        kem::Mode::DhKemP256,
        kdf::Mode::HkdfSha256,
        aead::Mode::AesGcm128,
    )
}

const INFO: &str = "4f6465206f6e2061204772656369616e2055726e";
const IKM_E: &str = "4270e54ffd08d79d5928020af4686d8f6b7d35dbe470265f1f5aa22816ce860e";
const PK_E: &str = "04a92719c6195d5085104f469a8b9814d5838ff72b60501e2c4466e5e67b325ac98536d7b61a1af4b78e5b7f951c0900be863c403ce65c9bfcb9382657222d18c4";
const SK_E: &str = "4995788ef4b9d6132b249ce59a77281493eb39af373d236a1fe415cb0c2d7beb";
const IKM_R: &str = "668b37171f1072f3cf12ea8a236a45df23fc13b82af3609ad1e354f6ef817550";
const PK_R: &str = "04fe8c19ce0905191ebc298a9245792531f26f0cece2460639e8bc39cb7f706a826a779b4cf969b8a0e539c7f62fb3d30ad6aa8f80e30f1d128aafd68a2ce72ea0";
const SK_R: &str = "f3ce7fdae57e1a310d87f1ebbde6f328be0a99cdbcadf4d6589cf29de4b8ffd2";
const SHARED_SECRET: &str = "c0d26aeab536609a572b07695d933b589dcf363ff9d93c93adea537aeabb8cb8";
const KEY: &str = "868c066ef58aae6dc589b6cfdd18f97e";
const BASE_NONCE: &str = "4e0bc5018beba4bf004cca59";
const EXPORTER_SECRET: &str = "14ad94af484a7ad3ef40e9f3be99ecc6fa9036df9d4920548424df127ee0d99f";
const PT: &str = "4265617574792069732074727574682c20747275746820626561757479";
const CT_0: &str =
    "5ad590bb8baa577f8619db35a36311226a896e7342a6d836d8b7bcd2f20b6c7f9076ac232e3ab2523f39513434";

#[test]
fn base_p256_derives_the_key_pairs() {
    let hpke = suite();
    let (sk_e, pk_e) = hpke.derive_key_pair(&hex(IKM_E)).unwrap().to_keys();
    assert_eq!(sk_e.as_slice(), &hex(SK_E)[..]);
    assert_eq!(pk_e.as_slice(), &hex(PK_E)[..]);
    let (sk_r, pk_r) = hpke.derive_key_pair(&hex(IKM_R)).unwrap().to_keys();
    assert_eq!(sk_r.as_slice(), &hex(SK_R)[..]);
    assert_eq!(pk_r.as_slice(), &hex(PK_R)[..]);
}

#[test]
fn base_p256_kem_gives_the_shared_secret() {
    let kem = kem::Kem::new(kem::Mode::DhKemP256);
    let (shared_secret, enc) = kem.encaps_with(&hex(PK_R), &hex(IKM_E)).unwrap();
    assert_eq!(shared_secret, hex(SHARED_SECRET));
    assert_eq!(enc, hex(PK_E));
    assert_eq!(kem.decaps(&enc, &hex(SK_R)).unwrap(), hex(SHARED_SECRET));
}

#[test]
fn base_p256_aes128_key_schedule() {
    let hpke = suite();
    let pk_r = HPKEPublicKey::new(hex(PK_R));
    let (enc, context) = hpke
        .setup_sender_with(&pk_r, &hex(INFO), None, None, None, &hex(IKM_E))
        .unwrap();
    assert_eq!(enc, hex(PK_E));
    assert_eq!(context.get_key_ref(), &hex(KEY)[..]);
    assert_eq!(context.get_nonce_ref(), &hex(BASE_NONCE)[..]);
    assert_eq!(context.get_exporter_secret_ref(), &hex(EXPORTER_SECRET)[..]);
}

#[test]
fn base_p256_aes128_first_ciphertext() {
    let hpke = suite();
    let pk_r = HPKEPublicKey::new(hex(PK_R));
    let sk_r = HPKEPrivateKey::new(hex(SK_R));
    let (enc, mut sender) = hpke
        .setup_sender_with(&pk_r, &hex(INFO), None, None, None, &hex(IKM_E))
        .unwrap();
    let mut receiver = hpke
        .setup_receiver(&enc, &sk_r, &hex(INFO), None, None, None)
        .unwrap();
    let ct = sender.seal(b"Count-0", &hex(PT)).unwrap();
    assert_eq!(ct, hex(CT_0));
    assert_eq!(receiver.open(b"Count-0", &ct).unwrap(), hex(PT));
}
