//! Loading a key and signing with it.

use einvoice_bridge::domain::der::{
    check_bundle, check_content, check_part, encode_password, split_items,
};
use einvoice_bridge::domain::signer::choose_bags;
use einvoice_bridge::domain::{DomainError, Signer};
use rsa::pkcs1v15::{Signature, VerifyingKey};
use rsa::pkcs8::EncodePrivateKey;
use rsa::signature::Verifier;
use rsa::traits::PrivateKeyParts;
use rsa::{BigUint, RsaPrivateKey};
use sha2::Sha256;

fn ephemeral_key() -> RsaPrivateKey {
    let mut rng = rand::thread_rng();
    // 1024 bits keeps tests fast; for production we always use the bits that
    // ship in the LHDN-issued certificate.
    RsaPrivateKey::new(&mut rng, 1024).expect("generate key")
}

fn ephemeral_signer() -> Signer {
    Signer::from_parts(ephemeral_key(), b"placeholder-cert-der".to_vec())
}

#[test]
fn round_trip_signature_verifies() {
    let key = ephemeral_key();
    let verifying_key = VerifyingKey::<Sha256>::new(key.to_public_key());
    let signer = Signer::from_parts(key, b"placeholder-cert-der".to_vec());
    let msg = b"hello LHDN";
    let sig_bytes = signer.sign(msg);

    let sig = Signature::try_from(sig_bytes.as_slice()).expect("decode sig");
    verifying_key.verify(msg, &sig).expect("must verify");
}

#[test]
fn pkcs1v15_signatures_are_deterministic() {
    // PKCS#1 v1.5 is deterministic: same input must produce the same bytes,
    // byte for byte.
    let signer = ephemeral_signer();
    assert_eq!(signer.sign(b"x"), signer.sign(b"x"));
}

#[test]
fn signature_changes_when_message_changes() {
    let signer = ephemeral_signer();
    assert_ne!(signer.sign(b"a"), signer.sign(b"b"));
}

#[test]
fn certificate_der_is_exposed() {
    let signer = ephemeral_signer();
    assert_eq!(signer.certificate_der(), b"placeholder-cert-der");
}

#[test]
fn from_p12_rejects_garbage() {
    let result = Signer::from_p12(b"this is not a pkcs12 file", "anything");
    assert!(result.is_err(), "garbage input must error, not panic");
}

fn sign_error(result: Result<Signer, DomainError>) -> String {
    match result {
        Ok(_) => panic!("must not load"),
        Err(error) => error.message(),
    }
}

#[test]
fn garbage_is_a_parse_error() {
    let message = sign_error(Signer::from_p12(b"this is not a pkcs12 file", "anything"));
    assert!(message.starts_with("signing failed: parse pkcs12: "), "got {message}");
}

#[test]
fn a_bundle_gives_its_key_and_certificate() {
    let key = ephemeral_key();
    let der = key.to_pkcs8_der().expect("encode key");
    let bundle = p12::PFX::new(b"leaf-cert", der.as_bytes(), None, "secret", "test")
        .expect("make bundle")
        .to_der();

    let signer = match Signer::from_p12(&bundle, "secret") {
        Ok(signer) => signer,
        Err(error) => panic!("must load: {}", error.message()),
    };
    assert_eq!(signer.certificate_der(), b"leaf-cert");
    let expected = Signer::from_parts(key, vec![]).sign(b"message");
    assert_eq!(signer.sign(b"message"), expected);
    assert_eq!(signer.try_sign(b"message"), Some(expected));
}

#[test]
fn the_leaf_certificate_of_a_bundle_is_taken() {
    let key = ephemeral_key();
    let der = key.to_pkcs8_der().expect("encode key");
    let bundle = p12::PFX::new(b"leaf-cert", der.as_bytes(), Some(b"ca-cert"), "secret", "test")
        .expect("make bundle")
        .to_der();
    let signer = match Signer::from_p12(&bundle, "secret") {
        Ok(signer) => signer,
        Err(error) => panic!("must load: {}", error.message()),
    };
    assert_eq!(signer.certificate_der(), b"leaf-cert");
}

#[test]
fn a_wrong_password_is_a_decryption_error() {
    let der = ephemeral_key().to_pkcs8_der().expect("encode key");
    let bundle = p12::PFX::new(b"leaf-cert", der.as_bytes(), None, "secret", "test")
        .expect("make bundle")
        .to_der();
    let message = sign_error(Signer::from_p12(&bundle, "wrong"));
    assert!(message.starts_with("signing failed: decrypt pkcs12 keys: "), "got {message}");
}

#[test]
fn a_key_that_is_not_rsa_is_refused() {
    let bundle = p12::PFX::new(b"leaf-cert", b"not a key", None, "secret", "test")
        .expect("make bundle")
        .to_der();
    let message = sign_error(Signer::from_p12(&bundle, "secret"));
    assert!(message.starts_with("signing failed: parse private key: "), "got {message}");
}

#[test]
fn missing_bags_are_named() {
    let error = choose_bags(vec![], vec![vec![1]]).unwrap_err();
    assert_eq!(error.message(), "signing failed: no private key in pkcs12");
    let error = choose_bags(vec![vec![1]], vec![]).unwrap_err();
    assert_eq!(error.message(), "signing failed: no certificate in pkcs12");
    let (key, cert) = choose_bags(vec![vec![1], vec![2]], vec![vec![3], vec![4]]).unwrap();
    assert_eq!((key, cert), (vec![1], vec![3]));
}

#[test]
fn a_short_key_cannot_sign() {
    let mut rng = rand::thread_rng();
    let key = RsaPrivateKey::new(&mut rng, 256).expect("generate key");
    let signer = Signer::from_parts(key, vec![]);
    assert_eq!(signer.try_sign(b"message"), None);
}

#[test]
fn signatures_verify_under_the_key_alone() {
    let signer = ephemeral_signer();
    let signature = signer.sign(b"a");
    assert!(signer.verify(b"a", &signature));
    assert!(!signer.verify(b"b", &signature));
    assert!(!signer.verify(b"a", &signature[1..]));
    assert!(!signer.verify(b"a", b"a"));
    assert!(!ephemeral_signer().verify(b"a", &signature));
}

#[test]
fn a_lopsided_key_cannot_sign() {
    let prime = ephemeral_key().primes()[0].clone();
    let e = BigUint::from(65537u32);
    let mut rng = rand::thread_rng();
    let longer = RsaPrivateKey::new(&mut rng, 1056).expect("generate key").primes()[0].clone();
    for (p, q) in [(&prime, &longer), (&longer, &prime)] {
        let key = RsaPrivateKey::from_p_q(p.clone(), q.clone(), e.clone()).expect("make key");
        let signer = Signer::from_parts(key, vec![]);
        let signature = signer.try_sign(b"message").expect("sign");
        assert!(signer.verify(b"message", &signature));
    }
    let key = RsaPrivateKey::from_p_q(BigUint::from(3u32), prime, e).expect("make key");
    let signer = Signer::from_parts(key, vec![]);
    assert_eq!(signer.try_sign(b"message"), None);
}

/// The identifier of encrypted data, or of plain data, with its tag and length.
fn content_type(last: u8) -> Vec<u8> {
    vec![0x06, 0x09, 0x2a, 0x86, 0x48, 0x86, 0xf7, 0x0d, 0x01, 0x07, last]
}

fn element(tag: u8, parts: &[Vec<u8>]) -> Vec<u8> {
    let contents = parts.concat();
    let mut bytes = vec![tag];
    if contents.len() < 128 {
        bytes.push(contents.len() as u8);
    } else {
        bytes.extend([0x82, (contents.len() / 256) as u8, (contents.len() % 256) as u8]);
    }
    bytes.extend(contents);
    bytes
}

/// An identifier below 1.2.840.113549.1, with its tag and length.
fn oid(tail: &[u8]) -> Vec<u8> {
    let root = vec![0x2a, 0x86, 0x48, 0x86, 0xf7, 0x0d, 0x01];
    element(0x06, &[root, tail.to_vec()])
}

/// A length that no buffer holds.
fn endless() -> Vec<u8> {
    let mut bytes = vec![0x04, 0x88];
    bytes.extend([0xff; 8]);
    bytes
}

/// A bundle with a key, a certificate and one more part, and its checksum.
fn bundle_with(part: Option<Vec<u8>>) -> p12::PFX {
    let der = ephemeral_key().to_pkcs8_der().expect("encode key");
    let mut pfx = p12::PFX::new(b"leaf-cert", der.as_bytes(), None, "secret", "test")
        .expect("make bundle");
    if let p12::ContentInfo::Data(data) = &pfx.auth_safe {
        let mut parts = split_items(data);
        parts.extend(part);
        pfx.auth_safe = p12::ContentInfo::Data(element(0x30, &parts));
    }
    pfx
}

fn plain_part(bags: &[Vec<u8>]) -> Vec<u8> {
    p12::ContentInfo::Data(element(0x30, bags)).to_der()
}

/// An encrypted part of the given version and content.
fn encrypted_part(version: u8, last: u8) -> Vec<u8> {
    let info = element(0x30, &[content_type(last), element(0x30, &[])]);
    let data = element(0x30, &[vec![0x02, 0x01, version], info]);
    element(0x30, &[content_type(6), element(0xa0, &[data])])
}

#[test]
fn encrypted_parts_of_an_unknown_kind_are_refused() {
    for (version, last, readable) in [(0, 1, true), (1, 1, false), (0, 3, false)] {
        let part = encrypted_part(version, last);
        assert_eq!(check_part(&part), readable);
        let bundle = element(0x30, &[vec![0x02, 0x01, 0x03], part]);
        assert_eq!(check_bundle(&bundle), readable);
        let message = sign_error(Signer::from_p12(&bundle, "secret"));
        if readable {
            // The algorithm is missing.
            assert!(message.starts_with("signing failed: parse pkcs12: "), "got {message}");
        } else {
            assert_eq!(message, "signing failed: parse pkcs12: unreadable part");
        }
    }
}

#[test]
fn an_unknown_kind_of_encryption_inside_a_bundle_is_refused() {
    let der = ephemeral_key().to_pkcs8_der().expect("encode key");
    let mut bundle = p12::PFX::new(b"leaf-cert", der.as_bytes(), None, "secret", "test")
        .expect("make bundle")
        .to_der();
    let encrypted = content_type(6);
    let at = bundle.windows(11).position(|bytes| bytes == encrypted).expect("encrypted part");
    let version = at + bundle[at..].windows(3).position(|bytes| bytes == [2, 1, 0]).unwrap() + 2;
    bundle[version] = 1;
    let message = sign_error(Signer::from_p12(&bundle, "secret"));
    assert_eq!(message, "signing failed: decrypt pkcs12 keys: unreadable part");
}

#[test]
fn the_rounds_of_a_checksum_do_not_matter() {
    let mut pfx = bundle_with(None);
    if let Some(mac) = &mut pfx.mac_data {
        mac.iterations = u32::MAX;
    }
    let signer = Signer::from_p12(&pfx.to_der(), "secret").expect("loads");
    assert_eq!(signer.certificate_der(), b"leaf-cert");
}

#[test]
fn what_is_kept_as_it_came_is_not_looked_into() {
    let number = element(0x02, &[vec![0x7f; 200]]);
    let wide_tag = element(0x3f, &[]);
    let mut deep = vec![0x05, 0x00];
    for _ in 0..120 {
        deep = element(0x30, &[deep]);
    }
    let values = [
        element(0x30, &[number]),
        element(0x30, &[endless()]),
        [&wide_tag[..1], &[0x81, 0x01, 0x00]].concat(),
        vec![0x04, 0x85, 0x00, 0x00, 0x00, 0x00, 0x80].into_iter().chain([0; 128]).collect(),
        deep,
    ];
    for value in values {
        let attribute = element(0x30, &[oid(&[9, 99]), element(0x31, &[value.clone()])]);
        let bag = element(
            0x30,
            &[
                oid(&[12, 10, 1, 1]),
                element(0xa0, &[value.clone()]),
                element(0x31, &[attribute]),
            ],
        );
        let bundle = bundle_with(Some(plain_part(&[bag]))).to_der();
        match Signer::from_p12(&bundle, "secret") {
            Ok(signer) => assert_eq!(signer.certificate_der(), b"leaf-cert"),
            Err(error) => panic!("must load with {value:?}: {}", error.message()),
        }
    }
}

#[test]
fn lengths_past_the_end_are_refused() {
    let in_bag = element(0x30, &[oid(&[12, 10, 1, 1]), element(0xa0, &[endless()])]);
    let attribute = element(0x30, &[oid(&[9, 99]), element(0x31, &[endless()])]);
    let in_attribute = element(
        0x30,
        &[oid(&[12, 10, 1, 1]), element(0xa0, &[vec![5, 0]]), element(0x31, &[attribute])],
    );
    let algorithm = element(0x30, &[oid(&[12, 1, 99]), endless()]);
    let key = element(0x30, &[algorithm.clone(), vec![0x04, 0x00]]);
    let in_algorithm = element(0x30, &[oid(&[12, 10, 1, 2]), element(0xa0, &[key])]);
    for bag in [in_bag, in_attribute, in_algorithm] {
        assert!(!check_content(&element(0x30, &[bag.clone()])));
        let bundle = bundle_with(Some(plain_part(&[bag]))).to_der();
        let message = sign_error(Signer::from_p12(&bundle, "secret"));
        assert_eq!(message, "signing failed: decrypt pkcs12 keys: unreadable part");
    }
    // A part of another kind.
    let other = element(0x30, &[content_type(3), element(0xa0, &[endless()])]);
    assert!(!check_part(&other));
    let bundle = element(0x30, &[vec![0x02, 0x01, 0x03], other]);
    let message = sign_error(Signer::from_p12(&bundle, "secret"));
    assert_eq!(message, "signing failed: parse pkcs12: unreadable part");
    // The algorithm of the checksum.
    let plain = p12::ContentInfo::Data(vec![]).to_der();
    let digest = element(0x30, &[algorithm, vec![0x04, 0x00]]);
    let mac = element(0x30, &[digest, vec![0x04, 0x00], vec![0x02, 0x01, 0x01]]);
    assert!(!check_bundle(&element(0x30, &[vec![0x02, 0x01, 0x03], plain, mac])));
}

#[test]
fn key_derivation_has_a_limit() {
    let algorithm = |last: u8, rounds: usize| {
        let params = element(0x30, &[vec![0x04, 0x00], element(0x02, &[vec![0x7f; rounds]])]);
        element(0x30, &[oid(&[12, 1, last]), params])
    };
    let part = |last: u8, rounds: usize| {
        let info = element(0x30, &[content_type(1), algorithm(last, rounds), vec![0x80, 0x00]]);
        let data = element(0x30, &[vec![0x02, 0x01, 0x00], info]);
        element(0x30, &[content_type(6), element(0xa0, &[data])])
    };
    let content = |last: u8, rounds: usize| {
        let key = element(0x30, &[algorithm(last, rounds), vec![0x04, 0x00]]);
        element(0x30, &[element(0x30, &[oid(&[12, 10, 1, 2]), element(0xa0, &[key])])])
    };
    for last in [3, 6] {
        assert!(check_part(&part(last, 5)));
        assert!(!check_part(&part(last, 6)));
        assert!(check_content(&content(last, 5)));
        assert!(!check_content(&content(last, 6)));
    }
    // Other algorithms are not carried out.
    assert!(check_part(&part(4, 9)));
    assert!(check_content(&content(4, 9)));
}

#[test]
fn what_is_no_bundle_is_left_to_the_parser() {
    for bytes in [&[][..], &[0x30], &[0x30, 0x80, 0, 0], &[0x30, 0x00], &[0x04, 0x01, 0xff]] {
        assert!(check_bundle(bytes));
        assert!(check_part(bytes));
        assert!(check_content(bytes));
        let message = sign_error(Signer::from_p12(bytes, "secret"));
        assert!(message.starts_with("signing failed: parse pkcs12: "), "got {message}");
        assert!(!message.contains("unreadable"), "got {message}");
    }
}

#[test]
fn a_sequence_is_taken_apart() {
    let bytes = [0x30, 0x05, 0x04, 0x01, 0xff, 0x05, 0x00];
    assert_eq!(split_items(&bytes), vec![vec![0x04, 0x01, 0xff], vec![0x05, 0x00]]);
    assert!(split_items(&[0x30, 0x00]).is_empty());
    assert!(split_items(&[]).is_empty());
}

#[test]
fn passwords_are_utf16_with_a_zero_at_the_end() {
    assert_eq!(encode_password(""), vec![0, 0]);
    assert_eq!(
        encode_password("a€😀"),
        vec![0x00, 0x61, 0x20, 0xac, 0xd8, 0x3d, 0xde, 0x00, 0x00, 0x00]
    );
    let der = ephemeral_key().to_pkcs8_der().expect("encode key");
    let bundle = p12::PFX::new(b"leaf-cert", der.as_bytes(), None, "a€😀", "test")
        .expect("make bundle")
        .to_der();
    assert!(Signer::from_p12(&bundle, "a€😀").is_ok());
}
