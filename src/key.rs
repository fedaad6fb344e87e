use ring::signature::KeyPair;
use vstd::prelude::*;

verus! {

#[verifier::external_type_specification]
#[verifier::external_body]
pub struct ExUnspecified(ring::error::Unspecified);

#[verifier::external_type_specification]
#[verifier::external_body]
pub struct ExKeyRejected(ring::error::KeyRejected);

/// Whether ring accepts `der` as an Ed25519 PKCS#8 v2 key pair.
pub uninterp spec fn ed25519_pkcs8_accepted(der: Seq<u8>) -> bool;

/// The Ed25519 signature of `message` under the key pair encoded in `der`.
pub uninterp spec fn ed25519_signature_of(der: Seq<u8>, message: Seq<u8>) -> Seq<u8>;

/// Whether `signature` checks out for `message` under the public half of the
/// key pair encoded in `der`.
pub uninterp spec fn ed25519_verifies(der: Seq<u8>, message: Seq<u8>, signature: Seq<u8>) -> bool;

/// Relies on `ring::signature::Ed25519KeyPair::generate_pkcs8`, seeded by
/// `ring::rand::SystemRandom`: the document it returns is a PKCS#8 v2 key
/// pair that `Ed25519KeyPair::from_pkcs8` takes.
#[verifier::external_body]
fn generate_ed25519_pkcs8() -> (r: Result<Vec<u8>, ring::error::Unspecified>)
    ensures
        r matches Ok(der) ==> ed25519_pkcs8_accepted(der@),
{
    let rng = ring::rand::SystemRandom::new();
    ring::signature::Ed25519KeyPair::generate_pkcs8(&rng).map(|doc| doc.as_ref().to_vec())
}

/// Relies on `ring::signature::Ed25519KeyPair::from_pkcs8` to decode the key
/// pair and on `Ed25519KeyPair::sign` to sign: Ed25519 signing is
/// deterministic, gives 64 bytes, and what it gives verifies under the
/// key pair's public key.
#[verifier::external_body]
fn ed25519_sign(der: &[u8], message: &[u8]) -> (r: Result<Vec<u8>, ring::error::KeyRejected>)
    ensures
        r is Ok <==> ed25519_pkcs8_accepted(der@),
        r matches Ok(sig) ==> {
            &&& sig@ == ed25519_signature_of(der@, message@)
            &&& sig@.len() == 64
            &&& ed25519_verifies(der@, message@, sig@)
        },
{
    ring::signature::Ed25519KeyPair::from_pkcs8(der).map(|pair| pair.sign(message).as_ref().to_vec())
}

/// Relies on `ring::signature::Ed25519KeyPair::from_pkcs8` to decode the key
/// pair, and on `UnparsedPublicKey::verify` with `ED25519` over its public key.
/// A key that does not decode has signed nothing, and the verifier reads a
/// signature as exactly 32 + 32 bytes, so one of another length is refused.
#[verifier::external_body]
fn ed25519_check(der: &[u8], message: &[u8], signature: &[u8]) -> (r: bool)
    ensures
        r == ed25519_verifies(der@, message@, signature@),
        !ed25519_pkcs8_accepted(der@) ==> !r,
        signature@.len() != 64 ==> !r,
{
    match ring::signature::Ed25519KeyPair::from_pkcs8(der) {
        Ok(pair) => ring::signature::UnparsedPublicKey::new(
            &ring::signature::ED25519,
            pair.public_key().as_ref(),
        ).verify(message, signature).is_ok(),
        Err(_) => false,
    }
}

/// Relies on `ring::signature::Ed25519KeyPair::from_pkcs8`: whether it
/// accepts `der`.
#[verifier::external_body]
fn ed25519_pkcs8_decodes(der: &[u8]) -> (r: bool)
    ensures
        r == ed25519_pkcs8_accepted(der@),
{
    ring::signature::Ed25519KeyPair::from_pkcs8(der).is_ok()
}

/// What can go wrong when making, loading or using a signing key.
#[derive(Debug, PartialEq, Eq, Structural)]
pub enum KeyError {
    /// The cryptographic library failed, as when generating a key.
    RingUnspecifiedError,
    /// The key material is not a key pair the signing algorithm accepts.
    RingKeyRejected,
    /// Reading or writing the key material failed.
    IoError,
    /// The stored key material is malformed.
    InvalidDerFile,
}

/// Something that signs messages and recognises its own signatures.
pub trait SigningKey {
    /// Whether the key material is usable for signing.
    spec fn can_sign(&self) -> bool;

    /// The signature the key makes for `message`.
    spec fn signature_for(&self, message: Seq<u8>) -> Seq<u8>;

    /// Whether the key recognises `signature` as its own for `message`.
    spec fn recognises(&self, message: Seq<u8>, signature: Seq<u8>) -> bool;

    /// Signs `message`. Fails exactly when the key material is unusable; a
    /// signature it hands out is one it recognises.
    fn sign(&self, message: &[u8]) -> (r: Result<Vec<u8>, KeyError>)
        ensures
            r is Ok <==> self.can_sign(),
            r matches Ok(sig) ==> sig@ == self.signature_for(message@) && self.recognises(
                message@,
                sig@,
            ),
            r matches Err(e) ==> e == KeyError::RingKeyRejected,
    ;

    /// Whether `signature` is this key's signature of `message`.
    fn has_signed(&self, message: &[u8], signature: &[u8]) -> (r: bool)
        ensures
            r == self.recognises(message@, signature@),
            !self.can_sign() ==> !r,
    ;
}

/// An Ed25519 signing key, held as its PKCS#8 encoding.
pub struct Key {
    der_bytes: Vec<u8>,
}

impl View for Key {
    type V = Seq<u8>;

    closed spec fn view(&self) -> Seq<u8> {
        self.der_bytes@
    }
}

impl Key {
    /// A key always holds an encoding the signing algorithm accepts.
    #[verifier::type_invariant]
    pub open spec fn inv(&self) -> bool {
        ed25519_pkcs8_accepted(self@)
    }

    /// Returns a freshly generated key.
    pub fn new() -> (r: Result<Key, KeyError>)
        ensures
            r matches Ok(k) ==> k.can_sign(),
            r matches Err(e) ==> e == KeyError::RingUnspecifiedError,
    {
        match generate_ed25519_pkcs8() {
            Ok(der_bytes) => Ok(Key { der_bytes }),
            Err(_) => Err(KeyError::RingUnspecifiedError),
        }
    }

    /// Returns the key whose PKCS#8 encoding is `der_bytes`, as read back
    /// from storage; fails with `InvalidDerFile` where the bytes are not a
    /// key pair the signing algorithm accepts.
    pub fn from_der(der_bytes: Vec<u8>) -> (r: Result<Key, KeyError>)
        ensures
            r is Ok <==> ed25519_pkcs8_accepted(der_bytes@),
            r matches Ok(k) ==> k@ == der_bytes@ && k.can_sign(),
            r matches Err(e) ==> e == KeyError::InvalidDerFile,
    {
        if ed25519_pkcs8_decodes(der_bytes.as_slice()) {
            Ok(Key { der_bytes })
        } else {
            Err(KeyError::InvalidDerFile)
        }
    }

    /// The key's PKCS#8 encoding, as written to storage.
    pub fn der_bytes(&self) -> (r: &[u8])
        ensures
            r@ == self@,
    {
        self.der_bytes.as_slice()
    }
}

impl SigningKey for Key {
    open spec fn can_sign(&self) -> bool {
        ed25519_pkcs8_accepted(self@)
    }

    open spec fn signature_for(&self, message: Seq<u8>) -> Seq<u8> {
        ed25519_signature_of(self@, message)
    }

    open spec fn recognises(&self, message: Seq<u8>, signature: Seq<u8>) -> bool {
        signature.len() == 64 && ed25519_verifies(self@, message, signature)
    }

    fn sign(&self, message: &[u8]) -> (r: Result<Vec<u8>, KeyError>) {
        proof {
            use_type_invariant(self);
        }
        match ed25519_sign(self.der_bytes.as_slice(), message) {
            Ok(sig) => Ok(sig),
            Err(_) => Err(KeyError::RingKeyRejected),
        }
    }

    fn has_signed(&self, message: &[u8], signature: &[u8]) -> (r: bool) {
        ed25519_check(self.der_bytes.as_slice(), message, signature)
    }
}

} // verus!
