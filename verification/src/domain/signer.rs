//! P12 loading and RSA-SHA256 (PKCS#1 v1.5) signing.
//!
//! Holds the parsed private key and the leaf certificate's DER bytes. The cert
//! bytes are exposed because LHDN's signed-properties block embeds both the
//! certificate and a digest of it.

use rsa::pkcs1v15::{Signature, SigningKey, VerifyingKey};
use rsa::pkcs8::DecodePrivateKey;
use rsa::signature::{SignatureEncoding, Signer as RsaSigner, Verifier};
use rsa::traits::PrivateKeyParts;
use rsa::RsaPrivateKey;
use sha2::Sha256;
use vstd::prelude::*;
use super::der::{
    check_bundle, check_content, check_part, encode_password, is_readable_bundle,
    is_readable_content, is_readable_part, item_bytes, items, password_bytes, split_items,
};
use super::{DomainError, DomainErrorView};

verus! {

/// `rsa::RsaPrivateKey`: a private key, which is only handed on.
#[verifier::external_type_specification]
#[verifier::external_body]
pub struct ExRsaPrivateKey(rsa::RsaPrivateKey);

/// `p12::PFX`: a parsed PKCS#12 bundle, which is only handed on.
#[verifier::external_type_specification]
#[verifier::external_body]
pub struct ExPfx(p12::PFX);

/// `p12::ContentInfo`: a part of a bundle, which is only handed on.
#[verifier::external_type_specification]
#[verifier::external_body]
pub struct ExContentInfo(p12::ContentInfo);

/// What `p12::PFX::parse` makes of the bytes: the bundle, or the message of the
/// error.
pub uninterp spec fn p12_parsed(bytes: Seq<u8>) -> Result<p12::PFX, Seq<char>>;

/// What stands in `p12::PFX`'s field `auth_safe`.
pub uninterp spec fn p12_outer_part(pfx: p12::PFX) -> p12::ContentInfo;

/// What `p12::ContentInfo::from_der` makes of the bytes.
pub uninterp spec fn p12_part(bytes: Seq<u8>) -> Option<p12::ContentInfo>;

/// What `p12::ContentInfo::data` gives with a password in bytes.
pub uninterp spec fn p12_part_data(part: p12::ContentInfo, password: Seq<u8>) -> Option<Seq<u8>>;

/// What `p12::PFX::key_bags` gives: the private keys in the bundle, in DER, or
/// the message of the error.
pub uninterp spec fn p12_keys(pfx: p12::PFX, password: Seq<char>) -> Result<
    Seq<Seq<u8>>,
    Seq<char>,
>;

/// What `p12::PFX::cert_bags` gives: the certificates in the bundle, in DER, or
/// the message of the error.
pub uninterp spec fn p12_certs(pfx: p12::PFX, password: Seq<char>) -> Result<
    Seq<Seq<u8>>,
    Seq<char>,
>;

/// What `rsa::RsaPrivateKey::from_pkcs8_der` makes of the bytes: the key, or the
/// message of the error.
pub uninterp spec fn rsa_key(der: Seq<u8>) -> Result<RsaPrivateKey, Seq<char>>;

/// The length in bits of one of the key's primes, which
/// `rsa::traits::PrivateKeyParts::primes` lists; nothing where there are fewer.
pub uninterp spec fn rsa_prime_bits(key: RsaPrivateKey, index: int) -> Option<usize>;

/// The RSASSA-PKCS1-v1_5 signature of the message's SHA-256 digest; nothing
/// where the key cannot make one, being too short or not valid.
pub uninterp spec fn rsa_signature(key: RsaPrivateKey, message: Seq<u8>) -> Option<Seq<u8>>;

/// Whether the bytes are an RSASSA-PKCS1-v1_5 signature of the message's SHA-256
/// digest, under the public half of the key.
pub uninterp spec fn rsa_verifies(
    key: RsaPrivateKey,
    message: Seq<u8>,
    signature: Seq<u8>,
) -> bool;

/// By how many bits the second prime of a key may be longer than the first. With
/// 40, signing takes about a day; every further bit doubles that.
pub const PRIME_IMBALANCE: usize = 40;

/// Whether the second prime of the key is so little longer than the first that a
/// signature can be made: in every key that is generated it is about as long.
pub open spec fn is_balanced(key: RsaPrivateKey) -> bool {
    match (rsa_prime_bits(key, 0), rsa_prime_bits(key, 1)) {
        (Some(first), Some(second)) => second <= first + PRIME_IMBALANCE,
        _ => false,
    }
}

/// The signature that a signer makes: none with a key that is not balanced.
pub open spec fn signature_of(key: RsaPrivateKey, message: Seq<u8>) -> Option<Seq<u8>> {
    if is_balanced(key) {
        rsa_signature(key, message)
    } else {
        None
    }
}

/// A parsed bundle or an error, in texts.
pub open spec fn pfx_outcome(outcome: Result<p12::PFX, String>) -> Result<p12::PFX, Seq<char>> {
    match outcome {
        Ok(pfx) => Ok(pfx),
        Err(why) => Err(why@),
    }
}

/// A parsed key or an error, in texts.
pub open spec fn key_outcome(outcome: Result<RsaPrivateKey, String>) -> Result<
    RsaPrivateKey,
    Seq<char>,
> {
    match outcome {
        Ok(key) => Ok(key),
        Err(why) => Err(why@),
    }
}

/// Bags or an error, in bytes and texts.
pub open spec fn bags_outcome(outcome: Result<Vec<Vec<u8>>, String>) -> Result<
    Seq<Seq<u8>>,
    Seq<char>,
> {
    match outcome {
        Ok(bags) => Ok(item_bytes(bags@)),
        Err(why) => Err(why@),
    }
}

/// The bytes, where there are some.
pub open spec fn optional_bytes(bytes: Option<Vec<u8>>) -> Option<Seq<u8>> {
    match bytes {
        Some(bytes) => Some(bytes@),
        None => None,
    }
}

/// Whether the part was read from bytes that can be read as a part, or as the
/// outer part of a bundle.
pub open spec fn is_read_part(part: p12::ContentInfo) -> bool {
    ||| exists|bytes: Seq<u8>| is_readable_part(bytes) && #[trigger] p12_part(bytes) == Some(part)
    ||| exists|bytes: Seq<u8>|
        is_readable_bundle(bytes) && (#[trigger] p12_parsed(bytes) matches Ok(pfx)
            && p12_outer_part(pfx) == part)
}

/// Whether what an inner part holds can be read once it is decrypted.
pub open spec fn is_openable_part(bytes: Seq<u8>, password: Seq<u8>) -> bool {
    &&& is_readable_part(bytes)
    &&& match p12_part(bytes) {
        None => true,
        Some(part) => match p12_part_data(part, password) {
            None => true,
            Some(data) => is_readable_content(data),
        },
    }
}

/// Whether what each of the inner parts holds can be read once it is decrypted.
pub open spec fn are_openable_parts(parts: Seq<Seq<u8>>, password: Seq<u8>) -> bool {
    forall|i: int| 0 <= i < parts.len() ==> is_openable_part(#[trigger] parts[i], password)
}

/// Whether what the parts of a bundle hold can be read with this password.
pub open spec fn is_openable(pfx: p12::PFX, password: Seq<char>) -> bool {
    match p12_part_data(p12_outer_part(pfx), password_bytes(password)) {
        None => true,
        Some(data) => are_openable_parts(items(data), password_bytes(password)),
    }
}

/// `p12::PFX::parse`: the same bytes give the same bundle or the same error,
/// which is given by its message. Which bytes are a bundle is not stated. Where a
/// value is kept as it came and its length runs past the end it can panic, and
/// with debug assertions on it panics on an encrypted part of an unknown version
/// or content: such bytes are left out.
#[verifier::external_body]
fn parse_pfx(bytes: &[u8]) -> (outcome: Result<p12::PFX, String>)
    requires
        is_readable_bundle(bytes@),
    ensures
        pfx_outcome(outcome) == p12_parsed(bytes@),
{
    p12::PFX::parse(bytes).map_err(|e| e.to_string())
}

/// `p12::PFX`'s field `auth_safe`: the part that encloses all others.
#[verifier::external_body]
fn outer_part(pfx: &p12::PFX) -> (part: p12::ContentInfo)
    ensures
        part == p12_outer_part(*pfx),
{
    pfx.auth_safe.clone()
}

/// `p12::ContentInfo::from_der`: the same bytes give the same part, or nothing
/// where they are refused. As to panics, it is like `p12::PFX::parse`.
#[verifier::external_body]
fn parse_part(bytes: &[u8]) -> (part: Option<p12::ContentInfo>)
    requires
        is_readable_part(bytes@),
    ensures
        part == p12_part(bytes@),
{
    p12::ContentInfo::from_der(bytes).ok()
}

/// `p12::ContentInfo::data`: what the part holds, decrypted where it is
/// encrypted, or nothing where that fails. It derives keys in as many rounds as
/// the part asks for: parts that ask for too many are left out.
#[verifier::external_body]
fn part_data(part: &p12::ContentInfo, password: &[u8]) -> (data: Option<Vec<u8>>)
    requires
        is_read_part(*part),
    ensures
        optional_bytes(data) == p12_part_data(*part, password@),
{
    part.data(password)
}

/// `p12::PFX::key_bags`: the same bundle and password give the same keys or the
/// same error, which is given by its message. As to panics on what the parts
/// hold, it is like `p12::PFX::parse`; it derives keys in as many rounds as the
/// parts ask for.
#[verifier::external_body]
fn key_bags(pfx: &p12::PFX, password: &str) -> (outcome: Result<Vec<Vec<u8>>, String>)
    requires
        is_read_part(p12_outer_part(*pfx)),
        is_openable(*pfx, password@),
    ensures
        bags_outcome(outcome) == p12_keys(*pfx, password@),
{
    pfx.key_bags(password).map_err(|e| e.to_string())
}

/// `p12::PFX::cert_bags`: the same bundle and password give the same
/// certificates or the same error, which is given by its message. As to panics
/// and rounds, it is like `p12::PFX::key_bags`.
#[verifier::external_body]
fn cert_bags(pfx: &p12::PFX, password: &str) -> (outcome: Result<Vec<Vec<u8>>, String>)
    requires
        is_read_part(p12_outer_part(*pfx)),
        is_openable(*pfx, password@),
    ensures
        bags_outcome(outcome) == p12_certs(*pfx, password@),
{
    pfx.cert_bags(password).map_err(|e| e.to_string())
}

/// `rsa::RsaPrivateKey::from_pkcs8_der`: the same bytes give the same key or the
/// same error, which is given by its message. Which bytes are a key is not
/// stated.
#[verifier::external_body]
fn key_from_der(der: &[u8]) -> (outcome: Result<RsaPrivateKey, String>)
    ensures
        key_outcome(outcome) == rsa_key(der@),
{
    RsaPrivateKey::from_pkcs8_der(der).map_err(|e| e.to_string())
}

/// `rsa::traits::PrivateKeyParts::primes`, and the length of one of them: the
/// same key gives the same lengths.
#[verifier::external_body]
fn prime_bits(key: &RsaPrivateKey, index: usize) -> (bits: Option<usize>)
    ensures
        bits == rsa_prime_bits(*key, index as int),
{
    key.primes().get(index).map(|prime| prime.bits())
}

/// `rsa::pkcs1v15::SigningKey::<Sha256>`'s `try_sign`, which uses no randomness:
/// the same key and message give the same signature, or nothing where it fails.
/// A signature is raised to the public exponent again before it is given, so it
/// verifies. The bytes of the signature are not stated. The time it takes grows
/// with the quotient of the second prime and the first: keys in which that is
/// large are left out.
#[verifier::external_body]
fn sign_pkcs1v15(key: &RsaPrivateKey, message: &[u8]) -> (signature: Option<Vec<u8>>)
    requires
        is_balanced(*key),
    ensures
        optional_bytes(signature) == rsa_signature(*key, message@),
        signature matches Some(bytes) ==> rsa_verifies(*key, message@, bytes@),
{
    SigningKey::<Sha256>::new(key.clone()).try_sign(message).ok().map(|s| s.to_vec())
}

/// `rsa::pkcs1v15::VerifyingKey::<Sha256>`'s `verify`, with the public half of
/// the key: the same arguments give the same answer. Which bytes verify is not
/// stated here.
#[verifier::external_body]
fn verify_pkcs1v15(key: &RsaPrivateKey, message: &[u8], signature: &[u8]) -> (valid: bool)
    ensures
        valid == rsa_verifies(*key, message@, signature@),
{
    let verifying_key = VerifyingKey::<Sha256>::new(key.to_public_key());
    match Signature::try_from(signature) {
        Ok(signature) => verifying_key.verify(message, &signature).is_ok(),
        Err(_) => false,
    }
}

fn check_balanced(key: &RsaPrivateKey) -> (balanced: bool)
    ensures
        balanced == is_balanced(*key),
{
    match (prime_bits(key, 0), prime_bits(key, 1)) {
        (Some(first), Some(second)) => second <= first || second - first <= PRIME_IMBALANCE,
        _ => false,
    }
}

/// The key and the certificate to use of those in a bundle: the first of each, or
/// why there is none.
pub open spec fn chosen_bags(keys: Seq<Seq<u8>>, certs: Seq<Seq<u8>>) -> Result<
    (Seq<u8>, Seq<u8>),
    DomainErrorView,
> {
    if keys.len() == 0 {
        Err(DomainErrorView::Sign("no private key in pkcs12"@))
    } else if certs.len() == 0 {
        Err(DomainErrorView::Sign("no certificate in pkcs12"@))
    } else {
        Ok((keys.first(), certs.first()))
    }
}

/// Picks the key and the certificate to use of those in a bundle.
pub fn choose_bags(keys: Vec<Vec<u8>>, certs: Vec<Vec<u8>>) -> (chosen: Result<
    (Vec<u8>, Vec<u8>),
    DomainError,
>)
    ensures
        match chosen {
            Ok(pair) => chosen_bags(item_bytes(keys@), item_bytes(certs@)) == Ok::<
                (Seq<u8>, Seq<u8>),
                DomainErrorView,
            >((pair.0@, pair.1@)),
            Err(error) => chosen_bags(item_bytes(keys@), item_bytes(certs@)) == Err::<
                (Seq<u8>, Seq<u8>),
                DomainErrorView,
            >(error@),
        },
{
    let mut keys = keys;
    let mut certs = certs;
    if keys.len() == 0 {
        return Err(DomainError::Sign("no private key in pkcs12".to_owned()));
    }
    if certs.len() == 0 {
        return Err(DomainError::Sign("no certificate in pkcs12".to_owned()));
    }
    Ok((keys.remove(0), certs.remove(0)))
}

/// Checks that what the parts of a bundle hold can be read with this password.
fn check_openable(pfx: &p12::PFX, password: &str) -> (openable: bool)
    requires
        is_read_part(p12_outer_part(*pfx)),
    ensures
        openable == is_openable(*pfx, password@),
{
    let secret = encode_password(password);
    let data = match part_data(&outer_part(pfx), &secret) {
        Some(data) => data,
        None => {
            return true;
        },
    };
    let inner = split_items(&data);
    let mut i: usize = 0;
    while i < inner.len()
        invariant
            i <= inner@.len(),
            item_bytes(inner@) == items(data@),
            secret@ == password_bytes(password@),
            p12_part_data(p12_outer_part(*pfx), secret@) == Some(data@),
            forall|k: int| 0 <= k < i ==> is_openable_part(#[trigger] items(data@)[k], secret@),
        decreases inner@.len() - i,
    {
        let bytes = &inner[i];
        assert(item_bytes(inner@)[i as int] == bytes@);
        assert(i < items(data@).len());
        if !check_part(bytes) {
            return false;
        }
        if let Some(part) = parse_part(bytes) {
            assert(p12_part(bytes@) == Some(part));
            if let Some(content) = part_data(&part, &secret) {
                if !check_content(&content) {
                    return false;
                }
            }
        }
        i = i + 1;
    }
    true
}

/// What loading a bundle gives: the key and the certificate, or the first thing
/// that went wrong. What `p12` cannot read without a panic, or would not come to
/// an end with, is an error before it gets there.
pub open spec fn p12_outcome(bytes: Seq<u8>, password: Seq<char>) -> Result<
    (RsaPrivateKey, Seq<u8>),
    DomainErrorView,
> {
    if !is_readable_bundle(bytes) {
        Err(DomainErrorView::Sign("parse pkcs12: unreadable part"@))
    } else {
        match p12_parsed(bytes) {
            Err(why) => Err(DomainErrorView::Sign("parse pkcs12: "@ + why)),
            Ok(pfx) => if !is_openable(pfx, password) {
                Err(DomainErrorView::Sign("decrypt pkcs12 keys: unreadable part"@))
            } else {
                match (p12_keys(pfx, password), p12_certs(pfx, password)) {
                    (Err(why), _) => Err(DomainErrorView::Sign("decrypt pkcs12 keys: "@ + why)),
                    (Ok(_), Err(why)) => Err(
                        DomainErrorView::Sign("decrypt pkcs12 certs: "@ + why),
                    ),
                    (Ok(keys), Ok(certs)) => match chosen_bags(keys, certs) {
                        Err(error) => Err(error),
                        Ok(pair) => match rsa_key(pair.0) {
                            Err(why) => Err(DomainErrorView::Sign("parse private key: "@ + why)),
                            Ok(key) => Ok((key, pair.1)),
                        },
                    },
                }
            },
        }
    }
}

/// Signs with the key of the LHDN certificate.
pub struct Signer {
    private_key: RsaPrivateKey,
    cert_der: Vec<u8>,
}

impl Signer {
    /// The private key.
    pub closed spec fn key(&self) -> RsaPrivateKey {
        self.private_key
    }

    /// The certificate's DER bytes.
    pub closed spec fn certificate(&self) -> Seq<u8> {
        self.cert_der@
    }

    /// Load a PKCS#12 (`.p12` / `.pfx`) bundle, decrypt with `password`, and
    /// extract the first private key and the first certificate, which is the leaf
    /// in a bundle that holds intermediates after it. Bytes that are not a bundle
    /// are an error, and so are parts that are encrypted in a way that is not
    /// known, ask for more rounds than can be carried out, or are cut short.
    pub fn from_p12(pkcs12_bytes: &[u8], password: &str) -> (signer: Result<Self, DomainError>)
        ensures
            match signer {
                Ok(s) => p12_outcome(pkcs12_bytes@, password@) == Ok::<
                    (RsaPrivateKey, Seq<u8>),
                    DomainErrorView,
                >((s.key(), s.certificate())),
                Err(error) => p12_outcome(pkcs12_bytes@, password@) == Err::<
                    (RsaPrivateKey, Seq<u8>),
                    DomainErrorView,
                >(error@),
            },
    {
        if !check_bundle(pkcs12_bytes) {
            return Err(DomainError::Sign("parse pkcs12: unreadable part".to_owned()));
        }
        let pfx = match parse_pfx(pkcs12_bytes) {
            Ok(pfx) => pfx,
            Err(why) => {
                return Err(DomainError::Sign("parse pkcs12: ".to_owned().concat(&why)));
            },
        };
        assert(p12_parsed(pkcs12_bytes@) == Ok::<p12::PFX, Seq<char>>(pfx));
        if !check_openable(&pfx, password) {
            return Err(DomainError::Sign("decrypt pkcs12 keys: unreadable part".to_owned()));
        }
        let keys = match key_bags(&pfx, password) {
            Ok(keys) => keys,
            Err(why) => {
                return Err(DomainError::Sign("decrypt pkcs12 keys: ".to_owned().concat(&why)));
            },
        };
        let certs = match cert_bags(&pfx, password) {
            Ok(certs) => certs,
            Err(why) => {
                return Err(DomainError::Sign("decrypt pkcs12 certs: ".to_owned().concat(&why)));
            },
        };
        let (key_der, cert_der) = match choose_bags(keys, certs) {
            Ok(pair) => pair,
            Err(error) => {
                return Err(error);
            },
        };
        match key_from_der(&key_der) {
            Ok(private_key) => Ok(Signer { private_key, cert_der }),
            Err(why) => Err(DomainError::Sign("parse private key: ".to_owned().concat(&why))),
        }
    }

    /// Construct from already-parsed parts.
    pub fn from_parts(private_key: RsaPrivateKey, cert_der: Vec<u8>) -> (signer: Self)
        ensures
            signer.key() == private_key,
            signer.certificate() == cert_der@,
    {
        Signer { private_key, cert_der }
    }

    /// Sign `message` with RSA-SHA256 (PKCS#1 v1.5), where the key allows it: it
    /// takes a valid key of at least 496 bits, whose primes are of about the same
    /// length. Hashing happens internally; pass the raw bytes you want signed.
    /// The signature verifies under the key's public half, and is the same
    /// whenever the message is.
    pub fn try_sign(&self, message: &[u8]) -> (signature: Option<Vec<u8>>)
        ensures
            optional_bytes(signature) == signature_of(self.key(), message@),
            is_balanced(self.key()) ==> optional_bytes(signature) == rsa_signature(
                self.key(),
                message@,
            ),
            signature matches Some(bytes) ==> rsa_verifies(self.key(), message@, bytes@),
    {
        if check_balanced(&self.private_key) {
            sign_pkcs1v15(&self.private_key, message)
        } else {
            None
        }
    }

    /// Sign `message` with RSA-SHA256 (PKCS#1 v1.5), with a key that can.
    pub fn sign(&self, message: &[u8]) -> (signature: Vec<u8>)
        requires
            signature_of(self.key(), message@) is Some,
        ensures
            signature_of(self.key(), message@) == Some(signature@),
            rsa_signature(self.key(), message@) == Some(signature@),
            rsa_verifies(self.key(), message@, signature@),
    {
        self.try_sign(message).unwrap()
    }

    /// Whether `signature` is one of `message` under the key's public half.
    pub fn verify(&self, message: &[u8], signature: &[u8]) -> (valid: bool)
        ensures
            valid == rsa_verifies(self.key(), message@, signature@),
    {
        verify_pkcs1v15(&self.private_key, message, signature)
    }

    /// DER-encoded leaf certificate. Needed for the UBL `X509Certificate`
    /// element and for the `CertDigest`.
    pub fn certificate_der(&self) -> (der: &[u8])
        ensures
            der@ == self.certificate(),
    {
        self.cert_der.as_slice()
    }
}

/// Every key whose second prime is at most 40 bits longer than its first signs, of
/// whatever size it is, and every message, of whatever length: the signature is
/// the one that the key and the message have.
pub proof fn law_balanced_keys_sign_every_message(
    key: RsaPrivateKey,
    message: Seq<u8>,
    first: usize,
    second: usize,
)
    requires
        rsa_prime_bits(key, 0) == Some(first),
        rsa_prime_bits(key, 1) == Some(second),
        second <= first + 40,
    ensures
        signature_of(key, message) == rsa_signature(key, message),
{
}

/// A key whose second prime is more than 40 bits longer than its first, or that has
/// not two primes, makes no signature.
pub proof fn law_other_keys_do_not_sign(key: RsaPrivateKey, message: Seq<u8>)
    ensures
        (rsa_prime_bits(key, 0) is Some && rsa_prime_bits(key, 1) is Some && rsa_prime_bits(
            key,
            1,
        )->0 > rsa_prime_bits(key, 0)->0 + 40) ==> signature_of(key, message) is None,
        rsa_prime_bits(key, 0) is None || rsa_prime_bits(key, 1) is None ==> signature_of(
            key,
            message,
        ) is None,
{
}

/// A signer makes no signature but the one that the key and the message have.
pub proof fn law_signatures_are_those_of_the_key(key: RsaPrivateKey, message: Seq<u8>)
    ensures
        signature_of(key, message) matches Some(signature) ==> rsa_signature(key, message) == Some(
            signature,
        ),
{
}

/// Of the keys and certificates in a bundle the first of each is taken, whatever
/// follows; a bundle without a key, or without a certificate, is refused as that.
pub proof fn law_the_first_of_each_is_taken(keys: Seq<Seq<u8>>, certs: Seq<Seq<u8>>)
    ensures
        keys.len() > 0 && certs.len() > 0 ==> (chosen_bags(keys, certs) matches Ok(pair) && pair.0
            == keys[0] && pair.1 == certs[0]),
        keys.len() == 0 ==> (chosen_bags(keys, certs) matches Err(error) && error
            == DomainErrorView::Sign("no private key in pkcs12"@)),
        keys.len() > 0 && certs.len() == 0 ==> (chosen_bags(keys, certs) matches Err(error) && error
            == DomainErrorView::Sign("no certificate in pkcs12"@)),
{
}

/// A bundle that can be read and opened gives its first key and its first
/// certificate, where it holds both and the key is one of RSA.
pub proof fn law_bundles_give_their_first_key_and_certificate(
    bytes: Seq<u8>,
    password: Seq<char>,
    pfx: p12::PFX,
    keys: Seq<Seq<u8>>,
    certs: Seq<Seq<u8>>,
    key: RsaPrivateKey,
)
    requires
        is_readable_bundle(bytes),
        p12_parsed(bytes) == Ok::<p12::PFX, Seq<char>>(pfx),
        is_openable(pfx, password),
        p12_keys(pfx, password) == Ok::<Seq<Seq<u8>>, Seq<char>>(keys),
        p12_certs(pfx, password) == Ok::<Seq<Seq<u8>>, Seq<char>>(certs),
        keys.len() > 0,
        certs.len() > 0,
        rsa_key(keys[0]) == Ok::<RsaPrivateKey, Seq<char>>(key),
    ensures
        p12_outcome(bytes, password) matches Ok(pair) && pair.0 == key && pair.1 == certs[0],
{
}

/// What goes wrong with a bundle is told by the step at which it does.
pub proof fn law_bundle_errors_name_the_step(
    bytes: Seq<u8>,
    password: Seq<char>,
    pfx: p12::PFX,
    why: Seq<char>,
)
    ensures
        !is_readable_bundle(bytes) ==> p12_outcome(bytes, password) == Err::<
            (RsaPrivateKey, Seq<u8>),
            DomainErrorView,
        >(DomainErrorView::Sign("parse pkcs12: unreadable part"@)),
        is_readable_bundle(bytes) && p12_parsed(bytes) == Ok::<p12::PFX, Seq<char>>(pfx)
            && !is_openable(pfx, password) ==> p12_outcome(bytes, password) == Err::<
            (RsaPrivateKey, Seq<u8>),
            DomainErrorView,
        >(DomainErrorView::Sign("decrypt pkcs12 keys: unreadable part"@)),
        is_readable_bundle(bytes) && p12_parsed(bytes) == Err::<p12::PFX, Seq<char>>(why)
            ==> p12_outcome(bytes, password) == Err::<(RsaPrivateKey, Seq<u8>), DomainErrorView>(
            DomainErrorView::Sign("parse pkcs12: "@ + why),
        ),
        is_readable_bundle(bytes) && p12_parsed(bytes) == Ok::<p12::PFX, Seq<char>>(pfx)
            && is_openable(pfx, password) ==> {
            &&& p12_keys(pfx, password) == Err::<Seq<Seq<u8>>, Seq<char>>(why) ==> p12_outcome(
                bytes,
                password,
            ) == Err::<(RsaPrivateKey, Seq<u8>), DomainErrorView>(
                DomainErrorView::Sign("decrypt pkcs12 keys: "@ + why),
            )
            &&& p12_keys(pfx, password) is Ok && p12_certs(pfx, password) == Err::<
                Seq<Seq<u8>>,
                Seq<char>,
            >(why) ==> p12_outcome(bytes, password) == Err::<
                (RsaPrivateKey, Seq<u8>),
                DomainErrorView,
            >(DomainErrorView::Sign("decrypt pkcs12 certs: "@ + why))
            &&& p12_keys(pfx, password) is Ok && p12_certs(pfx, password) is Ok && p12_keys(
                pfx,
                password,
            )->Ok_0.len() > 0 && p12_certs(pfx, password)->Ok_0.len() > 0 && rsa_key(
                p12_keys(pfx, password)->Ok_0[0],
            ) == Err::<RsaPrivateKey, Seq<char>>(why) ==> p12_outcome(bytes, password) == Err::<
                (RsaPrivateKey, Seq<u8>),
                DomainErrorView,
            >(DomainErrorView::Sign("parse private key: "@ + why))
        },
{
}

/// Signing uses no chance: one key gives equal messages equal signatures, so that
/// two signatures that differ are of different messages.
pub proof fn law_signing_is_deterministic(
    key: RsaPrivateKey,
    a: Seq<u8>,
    b: Seq<u8>,
    signature_a: Seq<u8>,
    signature_b: Seq<u8>,
)
    requires
        signature_of(key, a) == Some(signature_a),
        signature_of(key, b) == Some(signature_b),
    ensures
        a == b ==> signature_a == signature_b,
        signature_a != signature_b ==> a != b,
{
}

} // verus!
