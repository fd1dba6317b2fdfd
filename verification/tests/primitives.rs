use dice_l0::digest::{hash, hash_len, HashAlg};
use dice_l0::encode::{encode_device_id_csr, verify_cert};
use dice_l0::errors::L0Error;
use dice_l0::ingredients::DeviceIdCsrIngredients;
use dice_l0::keys::{derive_key_pair, sign, verify};

fn from_hex(s: &str) -> Vec<u8> {
    let bytes = s.as_bytes();
    let mut out = Vec::new();
    let digit = |c: u8| -> u8 {
        match c {
            b'0'..=b'9' => c - b'0',
            b'a'..=b'f' => c - b'a' + 10,
            _ => panic!("not a hex digit"),
        }
    };
    let mut i = 0;
    while i < bytes.len() {
        out.push(digit(bytes[i]) * 16 + digit(bytes[i + 1]));
        i += 2;
    }
    out
}

#[test]
fn hash_lengths() {
    assert_eq!(hash_len(HashAlg::Sha256), 32);
    assert_eq!(hash_len(HashAlg::Sha384), 48);
    assert_eq!(hash_len(HashAlg::Sha512), 64);
    assert_eq!(hash(HashAlg::Sha256, &Vec::new()).len(), 32);
    assert_eq!(hash(HashAlg::Sha384, &Vec::new()).len(), 48);
    assert_eq!(hash(HashAlg::Sha512, &Vec::new()).len(), 64);
}

#[test]
fn hash_known_vectors() {
    let abc = b"abc".to_vec();
    assert_eq!(
        hash(HashAlg::Sha256, &abc),
        from_hex("ba7816bf8f01cfea414140de5dae2223b00361a396177a9cb410ff61f20015ad"),
    );
    assert_eq!(
        hash(HashAlg::Sha384, &abc),
        from_hex(
            "cb00753f45a35e8bb5a03d699ac65007272c32ab0eded1631a8b605a43ff5bed\
             8086072ba1e7cc2358baeca134c825a7",
        ),
    );
    assert_eq!(
        hash(HashAlg::Sha512, &abc),
        from_hex(
            "ddaf35a193617abacc417349ae20413112e6fa4e89a97ea20a9eeee64b55d39a\
             2192992a274fc1a836ba3c23a3feebbd454d4423643ce80e2a9ac94fa54ca49f",
        ),
    );
    assert_eq!(
        hash(HashAlg::Sha256, &Vec::new()),
        from_hex("e3b0c44298fc1c149afbf4c8996fb92427ae41e4649b934ca495991b7852b855"),
    );
}

#[test]
fn key_pair_is_deterministic_and_seed_length_checked() {
    let seed = vec![1u8; 32];
    let kp1 = derive_key_pair(&seed).unwrap();
    let kp2 = derive_key_pair(&seed).unwrap();
    assert_eq!(kp1.public_key, kp2.public_key);
    assert_eq!(kp1.private_key, seed);
    assert_eq!(kp1.public_key.len(), 32);
    // The public key is derived, not echoed.
    assert_ne!(kp1.public_key, seed);

    let other = derive_key_pair(&vec![2u8; 32]).unwrap();
    assert_ne!(other.public_key, kp1.public_key);

    assert_eq!(derive_key_pair(&vec![1u8; 31]).unwrap_err(), L0Error::InvalidSeedLength);
    assert_eq!(derive_key_pair(&vec![1u8; 33]).unwrap_err(), L0Error::InvalidSeedLength);
}

#[test]
fn sign_and_verify_round_trip() {
    let seed = vec![7u8; 32];
    let kp = derive_key_pair(&seed).unwrap();
    let msg = b"to be signed".to_vec();
    let sig1 = sign(&kp.private_key, &msg).unwrap();
    let sig2 = sign(&kp.private_key, &msg).unwrap();
    assert_eq!(sig1, sig2);
    assert_eq!(sig1.len(), 64);
    assert!(verify(&kp.public_key, &msg, &sig1));
    assert!(!verify(&kp.public_key, &b"another message".to_vec(), &sig1));
    let other = derive_key_pair(&vec![8u8; 32]).unwrap();
    assert!(!verify(&other.public_key, &msg, &sig1));

    assert_eq!(sign(&vec![7u8; 31], &msg).unwrap_err(), L0Error::SigningError);
}

#[test]
fn encoder_exact_bytes() {
    let seed = vec![4u8; 32];
    let kp = derive_key_pair(&seed).unwrap();
    let ing = DeviceIdCsrIngredients {
        version: 2,
        subject_common: b"CN".to_vec(),
        subject_org: b"O".to_vec(),
        subject_country: Vec::new(),
        key_usage: 0x0102_0304,
        public_key: kp.public_key.clone(),
    };
    let cert = encode_device_id_csr(&ing, &kp.private_key).unwrap();

    // The to-be-signed body, written out field by field.
    let mut expected = Vec::new();
    expected.extend_from_slice(&[0, 0, 0, 2]); // version
    expected.extend_from_slice(&[1, 2, 3, 4]); // key usage
    expected.extend_from_slice(&[2, b'C', b'N']);
    expected.extend_from_slice(&[1, b'O']);
    expected.extend_from_slice(&[0]);
    expected.push(32);
    expected.extend_from_slice(&kp.public_key);

    assert_eq!(cert.len(), expected.len() + 64);
    assert_eq!(&cert[..expected.len()], &expected[..]);
    assert!(verify_cert(&cert, &kp.public_key));
}

#[test]
fn encoder_rejects_oversized_field_and_bad_key() {
    let ing = DeviceIdCsrIngredients {
        version: 1,
        subject_common: vec![b'a'; 256],
        subject_org: Vec::new(),
        subject_country: Vec::new(),
        key_usage: 0,
        public_key: vec![0u8; 32],
    };
    assert_eq!(
        encode_device_id_csr(&ing, &vec![0u8; 32]).unwrap_err(),
        L0Error::EncodingError,
    );

    let ok_ing = DeviceIdCsrIngredients {
        version: 1,
        subject_common: Vec::new(),
        subject_org: Vec::new(),
        subject_country: Vec::new(),
        key_usage: 0,
        public_key: vec![0u8; 32],
    };
    assert_eq!(
        encode_device_id_csr(&ok_ing, &vec![0u8; 31]).unwrap_err(),
        L0Error::SigningError,
    );
}

#[test]
fn verify_cert_rejects_short_input() {
    assert!(!verify_cert(&vec![0u8; 63], &vec![0u8; 32]));
}
