use hpke_rs::aead;
use hpke_rs::dh_kem;
use hpke_rs::hkdf;
use hpke_rs::hkdf::HashAlg;
use hpke_rs::kdf;
use hpke_rs::kem;
use hpke_rs::suite::{message_limit, next_sequence_number};
use hpke_rs::util;
use hpke_rs::util::{append, i2osp, is_all_zero, less_than, slice_or_empty, xor_bytes, zeros};
use hpke_rs::{HPKEError, Hpke, Mode};

fn hex(s: &str) -> Vec<u8> {
    let digits: Vec<u8> = s
        .bytes()
        .map(|c| match c {
            b'0'..=b'9' => c - b'0',
            b'a'..=b'f' => c - b'a' + 10,
            _ => panic!("not a hex digit"),
        })
        .collect();
    digits.chunks(2).map(|p| p[0] * 16 + p[1]).collect()
}

const NIST: [kem::Mode; 3] = [
    kem::Mode::DhKemP256,
    kem::Mode::DhKemP384,
    kem::Mode::DhKemP521,
];

#[test]
fn big_endian_encoding() {
    assert_eq!(i2osp(0, 0), Vec::<u8>::new());
    assert_eq!(i2osp(0x20, 2), vec![0x00, 0x20]);
    assert_eq!(i2osp(0xffff, 2), vec![0xff, 0xff]);
    assert_eq!(i2osp(0x0102, 1), vec![0x02]);
    assert_eq!(i2osp(255, 1), vec![255]);
    assert_eq!(
        i2osp(0x0102030405060708, 12),
        vec![0, 0, 0, 0, 1, 2, 3, 4, 5, 6, 7, 8]
    );
    assert_eq!(i2osp(u64::MAX, 8), vec![0xff; 8]);
}

#[test]
fn bytewise_helpers() {
    assert_eq!(xor_bytes(&[0x0f, 0xf0, 0xaa], &[0xff, 0xff, 0xaa]), vec![0xf0, 0x0f, 0x00]);
    assert_eq!(xor_bytes(&[], &[]), Vec::<u8>::new());
    assert_eq!(util::concat(&[1, 2], &[3]), vec![1, 2, 3]);
    assert_eq!(util::concat(&[], &[]), Vec::<u8>::new());
    let mut v = vec![9u8];
    append(&mut v, &[8, 7]);
    assert_eq!(v, vec![9, 8, 7]);
    assert_eq!(zeros(3), vec![0, 0, 0]);
    assert!(is_all_zero(&[]));
    assert!(is_all_zero(&[0, 0]));
    assert!(!is_all_zero(&[0, 1, 0]));
    assert_eq!(slice_or_empty(Some(&[1u8, 2][..])), &[1u8, 2][..]);
    assert_eq!(slice_or_empty(None), &[] as &[u8]);
}

#[test]
fn big_endian_order() {
    assert!(less_than(&[0, 1], &[1, 0]));
    assert!(!less_than(&[1, 0], &[0, 1]));
    assert!(!less_than(&[1, 2], &[1, 2]));
    assert!(less_than(&[1, 2], &[1, 3]));
    assert!(less_than(&[0, 255], &[1, 0]));
    assert!(!less_than(&[], &[]));
}

#[test]
fn the_nonce_is_the_base_nonce_xor_the_sequence_number() {
    let base = hex("56d890e5accaaf011cff4b7d");
    assert_eq!(xor_bytes(&base, &i2osp(0, 12)), base);
    assert_eq!(xor_bytes(&base, &i2osp(1, 12)), hex("56d890e5accaaf011cff4b7c"));
    assert_eq!(xor_bytes(&base, &i2osp(2, 12)), hex("56d890e5accaaf011cff4b7f"));
    assert_eq!(
        xor_bytes(&base, &i2osp(0x0100000000, 12)),
        hex("56d890e5accaaf001cff4b7d")
    );
}

#[test]
fn message_limits() {
    assert_eq!(message_limit(0), 0);
    assert_eq!(message_limit(1), 255);
    assert_eq!(message_limit(2), 65535);
    assert_eq!(message_limit(7), (1u64 << 56) - 1);
    assert_eq!(message_limit(8), u64::MAX);
    assert_eq!(message_limit(12), u64::MAX);
}

#[test]
fn sequence_numbers_end_at_the_limit() {
    assert_eq!(next_sequence_number(0, 12), Ok(1));
    assert_eq!(next_sequence_number(41, 12), Ok(42));
    assert_eq!(next_sequence_number(u64::MAX - 1, 12), Ok(u64::MAX));
    assert_eq!(
        next_sequence_number(u64::MAX, 12),
        Err(HPKEError::MessageLimitReached)
    );
    assert_eq!(next_sequence_number(253, 1), Ok(254));
    assert_eq!(next_sequence_number(254, 1), Ok(255));
    assert_eq!(
        next_sequence_number(255, 1),
        Err(HPKEError::MessageLimitReached)
    );
    assert_eq!(
        next_sequence_number(256, 1),
        Err(HPKEError::MessageLimitReached)
    );
    assert_eq!(
        next_sequence_number(0, 0),
        Err(HPKEError::MessageLimitReached)
    );
}

#[test]
fn code_points_of_the_modes() {
    assert_eq!(Mode::Base.id(), 0);
    assert_eq!(Mode::Psk.id(), 1);
    assert_eq!(Mode::Auth.id(), 2);
    assert_eq!(Mode::AuthPsk.id(), 3);
    for mode in [Mode::Base, Mode::Psk, Mode::Auth, Mode::AuthPsk] {
        assert_eq!(Mode::try_from(mode.id() as u16), Ok(mode));
    }
    assert_eq!(Mode::try_from(4), Err(HPKEError::UnknownCodepoint));
    assert_eq!(Mode::try_from(0x100), Err(HPKEError::UnknownCodepoint));
    assert!(!Mode::Base.uses_psk() && !Mode::Base.uses_auth());
    assert!(Mode::Psk.uses_psk() && !Mode::Psk.uses_auth());
    assert!(!Mode::Auth.uses_psk() && Mode::Auth.uses_auth());
    assert!(Mode::AuthPsk.uses_psk() && Mode::AuthPsk.uses_auth());
}

#[test]
fn code_points_of_the_kems() {
    let expected = [
        (kem::Mode::DhKemP256, 0x0010u16, 32usize, 32usize, 65usize),
        (kem::Mode::DhKemP384, 0x0011, 48, 48, 97),
        (kem::Mode::DhKemP521, 0x0012, 64, 66, 133),
        (kem::Mode::DhKem25519, 0x0020, 32, 32, 32),
        (kem::Mode::DhKem448, 0x0021, 64, 56, 56),
    ];
    for (mode, id, nsecret, nsk, nenc) in expected {
        assert_eq!(mode.id(), id);
        assert_eq!(kem::Mode::try_from(id), Ok(mode));
        assert_eq!(mode.nsecret(), nsecret);
        assert_eq!(mode.nsk(), nsk);
        assert_eq!(mode.nenc(), nenc);
        assert_eq!(kem::Kem::new(mode).get_mode(), mode);
    }
    assert_eq!(kem::Mode::DhKemP256.kdf(), kdf::Mode::HkdfSha256);
    assert_eq!(kem::Mode::DhKemP384.kdf(), kdf::Mode::HkdfSha384);
    assert_eq!(kem::Mode::DhKemP521.kdf(), kdf::Mode::HkdfSha512);
    assert_eq!(kem::Mode::DhKem25519.kdf(), kdf::Mode::HkdfSha256);
    assert_eq!(kem::Mode::DhKem448.kdf(), kdf::Mode::HkdfSha512);
    for unknown in [0u16, 0x000f, 0x0013, 0x001f, 0x0022, 0x1000, 0xffff] {
        assert_eq!(kem::Mode::try_from(unknown), Err(HPKEError::UnknownCodepoint));
    }
}

#[test]
fn code_points_of_the_kdfs() {
    let expected = [
        (kdf::Mode::HkdfSha256, 1u16, 32usize),
        (kdf::Mode::HkdfSha384, 2, 48),
        (kdf::Mode::HkdfSha512, 3, 64),
    ];
    for (mode, id, nh) in expected {
        assert_eq!(mode.id(), id);
        assert_eq!(kdf::Mode::try_from(id), Ok(mode));
        assert_eq!(kdf::Kdf::new(mode).get_nh(), nh);
        assert_eq!(kdf::Kdf::new(mode).get_mode(), mode);
        assert_eq!(mode.hash().output_len(), nh);
    }
    for unknown in [0u16, 4, 0x0100, 0xffff] {
        assert_eq!(kdf::Mode::try_from(unknown), Err(HPKEError::UnknownCodepoint));
    }
}

#[test]
fn code_points_of_the_aeads() {
    let expected = [
        (aead::Mode::AesGcm128, 1u16, 16usize, 12usize),
        (aead::Mode::AesGcm256, 2, 32, 12),
        (aead::Mode::ChaCha20Poly1305, 3, 32, 12),
        (aead::Mode::Export, 0xffff, 0, 0),
    ];
    for (mode, id, nk, nn) in expected {
        assert_eq!(mode.id(), id);
        assert_eq!(aead::Mode::try_from(id), Ok(mode));
        assert_eq!(aead::Aead::new(mode).get_nk(), nk);
        assert_eq!(aead::Aead::new(mode).get_nn(), nn);
        assert_eq!(aead::Aead::new(mode).get_mode(), mode);
    }
    for unknown in [0u16, 4, 0x0100, 0xfffe] {
        assert_eq!(aead::Mode::try_from(unknown), Err(aead::Error::UnknownMode));
    }
}

#[test]
fn errors_of_the_aead_as_errors_of_the_engine() {
    assert_eq!(HPKEError::from(aead::Error::OpenError), HPKEError::OpenError);
    assert_eq!(HPKEError::from(aead::Error::InvalidNonce), HPKEError::InvalidConfig);
    assert_eq!(HPKEError::from(aead::Error::InvalidConfig), HPKEError::InvalidInput);
    assert_eq!(HPKEError::from(aead::Error::UnknownMode), HPKEError::UnknownCodepoint);
    assert_eq!(HPKEError::from(aead::Error::CryptoFailure), HPKEError::CryptoFailure);
}

#[test]
fn descriptor_of_a_configuration() {
    let hpke = Hpke::new(
        Mode::AuthPsk,
        kem::Mode::DhKem25519,
        kdf::Mode::HkdfSha512,
        aead::Mode::Export,
    );
    assert_eq!(hpke.to_bytes(), vec![0x03, 0x00, 0x20, 0x00, 0x03, 0xff, 0xff]);
    let base = Hpke::new(
        Mode::Base,
        kem::Mode::DhKemP521,
        kdf::Mode::HkdfSha256,
        aead::Mode::AesGcm256,
    );
    assert_eq!(base.to_bytes(), vec![0x00, 0x00, 0x12, 0x00, 0x01, 0x00, 0x02]);
    let read = Hpke::from_bytes(&base.to_bytes()).unwrap();
    assert_eq!(read.to_bytes(), base.to_bytes());
    let read = Hpke::from_bytes(&hpke.to_bytes()).unwrap();
    assert_eq!(read.to_bytes(), hpke.to_bytes());
}

#[test]
fn descriptor_with_an_unknown_code_point() {
    let good = [0x00u8, 0x00, 0x20, 0x00, 0x01, 0x00, 0x01];
    assert!(Hpke::from_bytes(&good).is_ok());
    for (at, byte) in [(0usize, 4u8), (1, 1), (2, 0x22), (3, 1), (4, 4), (5, 0xff), (6, 0)] {
        let mut bad = good;
        bad[at] = byte;
        assert_eq!(
            Hpke::from_bytes(&bad).err(),
            Some(HPKEError::UnknownCodepoint)
        );
    }
    assert_eq!(Hpke::from_bytes(&good[..6]).err(), Some(HPKEError::InvalidInput));
    assert_eq!(Hpke::from_bytes(&[]).err(), Some(HPKEError::InvalidInput));
    let mut long = good.to_vec();
    long.push(0);
    assert_eq!(Hpke::from_bytes(&long).err(), Some(HPKEError::InvalidInput));
}

#[test]
fn hmac_tags() {
    let key = vec![0x0bu8; 20];
    assert_eq!(
        hkdf::hmac(HashAlg::Sha256, &key, b"Hi There"),
        hex("b0344c61d8db38535ca8afceaf0bf12b881dc200c9833da726e9376c2e32cff7")
    );
    assert_eq!(
        hkdf::hmac(HashAlg::Sha384, &key, b"Hi There"),
        hex("afd03944d84895626b0825f4ab46907f15f9dadbe4101ec682aa034c7cebc59cfaea9ea9076ede7f4af152e8b2fa9cb6")
    );
    assert_eq!(
        hkdf::hmac(HashAlg::Sha512, &key, b"Hi There"),
        hex("87aa7cdea5ef619d4ff0b4241a1d6cb02379f4e2ce4ec2787ad0b30545e17cdedaa833b7d6b8a702038b274eaea3f4e4be9d914eeb61f1702e696c203a126854")
    );
}

#[test]
fn hkdf_extract_and_expand() {
    let ikm = vec![0x0bu8; 22];
    let prk = hkdf::extract(HashAlg::Sha256, &hex("000102030405060708090a0b0c"), &ikm);
    assert_eq!(
        prk,
        hex("077709362c2e32df0ddc3f0dc47bba6390b6c73bb50f9c3122ec844ad7c2b3e5")
    );
    let okm = hkdf::expand(HashAlg::Sha256, &prk, &hex("f0f1f2f3f4f5f6f7f8f9"), 42);
    assert_eq!(
        okm,
        hex("3cb25f25faacd57a90434f64d0362f2a2d2d0a90cf1a5a4c5db02d56ecc4c5bf34007208d5b887185865")
    );
}

#[test]
fn hkdf_without_salt_and_info() {
    let ikm = vec![0x0bu8; 22];
    let prk = hkdf::extract(HashAlg::Sha256, &[], &ikm);
    assert_eq!(
        prk,
        hex("19ef24a32c717b167f33a91d6f648bdf96596776afdb6377ac434c1c293ccb04")
    );
    assert_eq!(prk, hkdf::extract(HashAlg::Sha256, &[0u8; 32], &ikm));
    let okm = hkdf::expand(HashAlg::Sha256, &prk, &[], 42);
    assert_eq!(
        okm,
        hex("8da4e775a563c18f715f802a063c5a31b8a11f5c5ee1879ec3454e5f3c738d2d9d201395faa4b61a96c8")
    );
}

#[test]
fn hkdf_expand_lengths() {
    for hash in [HashAlg::Sha256, HashAlg::Sha384, HashAlg::Sha512] {
        let nh = hash.output_len();
        let prk = hkdf::extract(hash, b"salt", b"keying material");
        assert_eq!(prk.len(), nh);
        let longest = hkdf::expand(hash, &prk, b"info", 255 * nh);
        assert_eq!(longest.len(), 255 * nh);
        for len in [0, 1, nh - 1, nh, nh + 1, 2 * nh, 3 * nh + 5] {
            let okm = hkdf::expand(hash, &prk, b"info", len);
            assert_eq!(okm, &longest[..len]);
        }
        let first = hkdf::hmac(hash, &prk, &util::concat(b"info", &[1]));
        assert_eq!(&longest[..nh], &first[..]);
        let second = hkdf::hmac(hash, &prk, &util::concat(&util::concat(&first, b"info"), &[2]));
        assert_eq!(&longest[nh..2 * nh], &second[..]);
    }
}

#[test]
fn labeled_extract_and_expand() {
    let kdf = kdf::Kdf::new(kdf::Mode::HkdfSha256);
    let suite = hex("48504b4500200001ffff");
    let prk = kdf.labeled_extract(b"salt", &suite, "secret", b"ikm");
    let mut labeled = b"HPKE-v1".to_vec();
    labeled.extend_from_slice(&suite);
    labeled.extend_from_slice(b"secret");
    labeled.extend_from_slice(b"ikm");
    assert_eq!(prk, kdf.extract(b"salt", &labeled));
    assert_eq!(prk, hkdf::extract(HashAlg::Sha256, b"salt", &labeled));
    let okm = kdf.labeled_expand(&prk, &suite, "key", b"info", 300);
    let mut labeled = vec![0x01, 0x2c];
    labeled.extend_from_slice(b"HPKE-v1");
    labeled.extend_from_slice(&suite);
    labeled.extend_from_slice(b"key");
    labeled.extend_from_slice(b"info");
    assert_eq!(okm, kdf.expand(&prk, &labeled, 300));
    assert_eq!(okm, hkdf::expand(HashAlg::Sha256, &prk, &labeled, 300));
    assert_eq!(kdf.labeled_expand(&prk, &suite, "key", b"info", 0), Vec::<u8>::new());
}

#[test]
fn suite_identifier_of_a_kem() {
    assert_eq!(dh_kem::suite_id(kem::Mode::DhKem25519), hex("4b454d0020"));
    assert_eq!(dh_kem::suite_id(kem::Mode::DhKemP256), hex("4b454d0010"));
    assert_eq!(dh_kem::suite_id(kem::Mode::DhKem448), b"KEM\x00\x21".to_vec());
}

#[test]
fn x25519_function() {
    let z = dh_kem::dh(
        kem::Mode::DhKem25519,
        &hex("a546e36bf0527c9d3b16154b82465edd62144c0ac1fc5a18506a2244ba449ac4"),
        &hex("e6db6867583030db3594c1a424b15f7c726624ec26b3353b10a903a6d0ab1c4c"),
    );
    assert_eq!(
        z,
        Some(hex("c3da55379de9c6908e94ea4df28d084f32eccf03491c71f754b4075577a28552"))
    );
    let public = dh_kem::public_key(
        kem::Mode::DhKem25519,
        &hex("77076d0a7318a57d3c16c17251b26645df4c2f87ebc0992ab177fba51db92c2a"),
    );
    assert_eq!(
        public,
        Some(hex("8520f0098930a754748b7ddcb43ef75a0dbf3a0d26381af4eba4a98eaa9b4e6a"))
    );
    assert_eq!(dh_kem::base_point(kem::Mode::DhKem25519), {
        let mut nine = vec![0u8; 32];
        nine[0] = 9;
        nine
    });
}

#[test]
fn x448_function() {
    let z = dh_kem::dh(
        kem::Mode::DhKem448,
        &hex("3d262fddf9ec8e88495266fea19a34d28882acef045104d0d1aae121700a779c984c24f8cdd78fbff44943eba368f54b29259a4f1c600ad3"),
        &hex("06fce640fa3487bfda5f6cf2d5263f8aad88334cbd07437f020f08f9814dc031ddbdc38c19c6da2583fa5429db94ada18aa7a7fb4ef8a086"),
    );
    assert_eq!(
        z,
        Some(hex("ce3e4ff95a60dc6697da1db1d85e6afbdf79b50a2412d7546d5f239fe14fbaadeb445fc66a01b0779d98223961111e21766282f73dd96b6f"))
    );
    let public = dh_kem::public_key(
        kem::Mode::DhKem448,
        &hex("9a8f4925d1519f5775cf46b04b5800d4ee9ee8bae8bc5565d498c28dd9c9baf574a9419744897391006382a6f127ab1d9ac2d8c0a598726b"),
    );
    assert_eq!(
        public,
        Some(hex("9b08f7cc31b7e3e67d22d5aea121074a273bd2b83de09c63faa73d2c22c5d9bbc836647241d953d40c5b12da88120d53177f80e532c41fa0"))
    );
    assert_eq!(dh_kem::base_point(kem::Mode::DhKem448), {
        let mut five = vec![0u8; 56];
        five[0] = 5;
        five
    });
}

#[test]
fn diffie_hellman_refuses_low_order_points_and_wrong_lengths() {
    let sk = vec![7u8; 32];
    assert_eq!(dh_kem::dh(kem::Mode::DhKem25519, &sk, &[0u8; 32]), None);
    assert_eq!(dh_kem::dh(kem::Mode::DhKem25519, &sk, &[9u8; 31]), None);
    assert_eq!(dh_kem::dh(kem::Mode::DhKem25519, &sk[..31], &[9u8; 32]), None);
    assert_eq!(dh_kem::public_key(kem::Mode::DhKem25519, &sk[..31]), None);
    let sk = vec![7u8; 56];
    assert_eq!(dh_kem::dh(kem::Mode::DhKem448, &sk, &[0u8; 56]), None);
    assert_eq!(dh_kem::dh(kem::Mode::DhKem448, &sk, &[5u8; 55]), None);
    for mode in NIST {
        let sk = {
            let mut one = vec![0u8; mode.nsk()];
            one[mode.nsk() - 1] = 1;
            one
        };
        let pk = dh_kem::public_key(mode, &sk).unwrap();
        assert_eq!(pk.len(), mode.nenc());
        assert_eq!(pk[0], 4);
        assert!(dh_kem::dh(mode, &sk, &pk).is_some());
        assert_eq!(dh_kem::dh(mode, &sk, &pk[..mode.nenc() - 1]), None);
        assert_eq!(dh_kem::dh(mode, &sk[1..], &pk), None);
        assert_eq!(dh_kem::public_key(mode, &sk[1..]), None);
        let mut off_curve = pk.clone();
        off_curve[mode.nenc() - 1] ^= 1;
        assert_eq!(dh_kem::dh(mode, &sk, &off_curve), None);
    }
}

#[test]
fn diffie_hellman_agrees_on_both_sides() {
    for mode in [
        kem::Mode::DhKemP256,
        kem::Mode::DhKemP384,
        kem::Mode::DhKemP521,
        kem::Mode::DhKem25519,
        kem::Mode::DhKem448,
    ] {
        let (sk_a, pk_a) = dh_kem::derive_key_pair(mode, &[1u8; 66]).unwrap();
        let (sk_b, pk_b) = dh_kem::derive_key_pair(mode, &[2u8; 66]).unwrap();
        assert_eq!(sk_a.len(), mode.nsk());
        assert_eq!(pk_a.len(), mode.nenc());
        assert_ne!(sk_a, sk_b);
        let ab = dh_kem::dh(mode, &sk_a, &pk_b).unwrap();
        let ba = dh_kem::dh(mode, &sk_b, &pk_a).unwrap();
        assert_eq!(ab, ba);
        assert_ne!(ab, sk_a);
        assert_ne!(ab, pk_b);
        let secret = dh_kem::extract_and_expand(mode, &ab, &util::concat(&pk_a, &pk_b));
        assert_eq!(secret.len(), mode.nsecret());
    }
}

#[test]
fn private_keys_of_the_nist_curves_are_below_the_order() {
    for mode in NIST {
        let order = dh_kem::order(mode);
        assert_eq!(order.len(), mode.nsk());
        let mut below = order.clone();
        *below.last_mut().unwrap() -= 1;
        let mut above = order.clone();
        *above.last_mut().unwrap() += 1;
        let zero = vec![0u8; mode.nsk()];
        let mut one = zero.clone();
        *one.last_mut().unwrap() = 1;
        assert!(!dh_kem::valid_scalar(mode, &zero));
        assert!(dh_kem::valid_scalar(mode, &one));
        assert!(dh_kem::valid_scalar(mode, &below));
        assert!(!dh_kem::valid_scalar(mode, &order));
        assert!(!dh_kem::valid_scalar(mode, &above));
        assert!(!dh_kem::valid_scalar(mode, &vec![0xffu8; mode.nsk()]));
        assert_eq!(dh_kem::public_key(mode, &zero), None);
        assert!(dh_kem::public_key(mode, &one).is_some());
        assert!(dh_kem::public_key(mode, &below).is_some());
        assert_eq!(dh_kem::public_key(mode, &order), None);
        assert_eq!(dh_kem::public_key(mode, &above), None);
    }
    assert_eq!(dh_kem::order(kem::Mode::DhKem25519), Vec::<u8>::new());
}

#[test]
fn derived_private_keys_are_valid() {
    for mode in NIST {
        for seed in 0..20u8 {
            let prk = vec![seed; 32];
            let sk = dh_kem::derive_private_key(mode, &prk).unwrap();
            assert_eq!(sk.len(), mode.nsk());
            assert!(dh_kem::valid_scalar(mode, &sk));
            assert!(dh_kem::public_key(mode, &sk).is_some());
            if mode == kem::Mode::DhKemP521 {
                assert!(sk[0] <= 1);
            }
        }
    }
}

#[test]
fn aes_128_gcm() {
    let cipher = aead::Aead::new(aead::Mode::AesGcm128);
    let key = [0u8; 16];
    let nonce = [0u8; 12];
    assert_eq!(
        cipher.seal(&key, &nonce, &[], &[]),
        Ok(hex("58e2fccefa7e3061367f1d57a4e7455a"))
    );
    let sealed = cipher.seal(&key, &nonce, &[], &[0u8; 16]).unwrap();
    assert_eq!(
        sealed,
        hex("0388dace60b6a392f328c2b971b2fe78ab6e47d42cec13bdf53a67b21257bddf")
    );
    assert_eq!(cipher.open(&key, &nonce, &[], &sealed), Ok(vec![0u8; 16]));
    assert_eq!(
        cipher.open(&key, &nonce, &[1], &sealed),
        Err(aead::Error::OpenError)
    );
}

#[test]
fn aes_256_gcm() {
    let cipher = aead::Aead::new(aead::Mode::AesGcm256);
    let key = [0u8; 32];
    let nonce = [0u8; 12];
    assert_eq!(
        cipher.seal(&key, &nonce, &[], &[]),
        Ok(hex("530f8afbc74536b9a963b4f1c4cb738b"))
    );
    let sealed = cipher.seal(&key, &nonce, &[], &[0u8; 16]).unwrap();
    assert_eq!(
        sealed,
        hex("cea7403d4d606b6e074ec5d3baf39d18d0d1c8a799996bf0265b98b5d48ab919")
    );
    assert_eq!(cipher.open(&key, &nonce, &[], &sealed), Ok(vec![0u8; 16]));
    assert_eq!(
        cipher.open(&key, &nonce, &[1], &sealed),
        Err(aead::Error::OpenError)
    );
}

#[test]
fn chacha20_poly1305() {
    let cipher = aead::Aead::new(aead::Mode::ChaCha20Poly1305);
    let key = hex("808182838485868788898a8b8c8d8e8f909192939495969798999a9b9c9d9e9f");
    let nonce = hex("070000004041424344454647");
    let aad = hex("50515253c0c1c2c3c4c5c6c7");
    let pt = b"Ladies and Gentlemen of the class of '99: If I could offer you only one tip for the future, sunscreen would be it.";
    let sealed = cipher.seal(&key, &nonce, &aad, pt).unwrap();
    assert_eq!(
        sealed,
        hex("d31a8d34648e60db7b86afbc53ef7ec2a4aded51296e08fea9e2b5a736ee62d63dbea45e8ca9671282fafb69da92728b1a71de0a9e060b2905d6a5b67ecd3b3692ddbd7f2d778b8c9803aee328091b58fab324e4fad675945585808b4831d7bc3ff4def08e4b7a9de576d26586cec64b61161ae10b594f09e26a7e902ecbd0600691")
    );
    assert_eq!(cipher.open(&key, &nonce, &aad, &sealed), Ok(pt.to_vec()));
    assert_eq!(
        cipher.open(&key, &nonce, &[], &sealed),
        Err(aead::Error::OpenError)
    );
}

#[test]
fn aead_refuses_wrong_lengths_and_the_export_only_mode() {
    for (mode, nk) in [
        (aead::Mode::AesGcm128, 16usize),
        (aead::Mode::AesGcm256, 32),
        (aead::Mode::ChaCha20Poly1305, 32),
    ] {
        let cipher = aead::Aead::new(mode);
        let key = vec![1u8; nk];
        let nonce = [2u8; 12];
        assert_eq!(
            cipher.seal(&key[1..], &nonce, b"aad", b"text"),
            Err(aead::Error::InvalidConfig)
        );
        assert_eq!(
            cipher.open(&key[1..], &nonce, b"aad", b"text"),
            Err(aead::Error::InvalidConfig)
        );
        assert_eq!(
            cipher.seal(&key, &nonce[1..], b"aad", b"text"),
            Err(aead::Error::InvalidNonce)
        );
        assert_eq!(
            cipher.open(&key, &nonce[1..], b"aad", b"text"),
            Err(aead::Error::InvalidNonce)
        );
        assert_eq!(
            cipher.seal(&key[1..], &nonce[1..], b"aad", b"text"),
            Err(aead::Error::InvalidConfig)
        );
        let sealed = cipher.seal(&key, &nonce, b"aad", b"text").unwrap();
        assert_eq!(sealed.len(), 4 + 16);
        assert_ne!(&sealed[..4], b"text");
        assert_eq!(cipher.open(&key, &nonce, b"aad", &sealed), Ok(b"text".to_vec()));
        assert_eq!(
            cipher.open(&key, &nonce, b"aad", &sealed[..15]),
            Err(aead::Error::OpenError)
        );
        assert_eq!(
            cipher.open(&key, &nonce, b"aad", &[]),
            Err(aead::Error::OpenError)
        );
    }
    let none = aead::Aead::new(aead::Mode::Export);
    assert_eq!(none.seal(&[], &[], b"aad", b"text"), Err(aead::Error::InvalidConfig));
    assert_eq!(none.open(&[], &[], b"aad", b"text"), Err(aead::Error::InvalidConfig));
}
