//! What OpenSSL computes for the engine: digests, base64 and RSA signatures.
//!
//! Each operation is a function of its arguments alone, so each has a name
//! that contracts can speak of; none of the values is spelled out here.

use vstd::prelude::*;
use vstd::string::*;
use vstd::utf8::encode_utf8;

verus! {

/// The SHA-256 digest of a byte sequence.
pub uninterp spec fn sha256_digest(data: Seq<u8>) -> Seq<u8>;

/// The base64 text of a byte sequence, in one block without line breaks.
pub uninterp spec fn base64_text(data: Seq<u8>) -> Seq<char>;

/// The bytes that a base64 text stands for, or `None` where it is not base64.
pub uninterp spec fn base64_bytes(text: Seq<char>) -> Option<Seq<u8>>;

/// The RSA PKCS#1 v1.5 signature over the SHA-256 digest of `message`, made
/// with the private key written in `private_key_pem`; `None` where the key
/// cannot be read or cannot sign.
pub uninterp spec fn rsa_sha256_signature(private_key_pem: Seq<char>, message: Seq<u8>) -> Option<
    Seq<u8>,
>;

/// Whether `signature` is a valid RSA PKCS#1 v1.5 signature of the SHA-256
/// digest of `message` under the public key written in `public_key_pem`;
/// `None` where the key cannot be read or the check cannot be made.
pub uninterp spec fn rsa_sha256_verdict(
    public_key_pem: Seq<char>,
    message: Seq<u8>,
    signature: Seq<u8>,
) -> Option<bool>;

/// The PEM text of the public half of the key written in `private_key_pem`,
/// or `None` where that key cannot be read.
pub uninterp spec fn public_pem_text(private_key_pem: Seq<char>) -> Option<Seq<char>>;

/// The longest input that OpenSSL takes for a key or for a base64 text:
/// their lengths are handed to it as signed 32-bit integers.
pub const MAX_BLOCK_INPUT: usize = 0x7fff_ffff;

/// The longest input that OpenSSL encodes as base64: the length of the
/// encoded text, a third longer, must fit a signed 32-bit integer too.
pub const MAX_ENCODE_INPUT: usize = 0x4000_0000;

/// OpenSSL's error queue as it stood when an operation failed.
#[verifier::external_type_specification]
#[verifier::external_body]
pub struct ExErrorStack(openssl::error::ErrorStack);

/// The text that `ErrorStack`'s `Display` impl writes. Nothing is claimed
/// of it.
#[verifier::external_body]
pub(crate) fn error_stack_text(e: &openssl::error::ErrorStack) -> (s: String) {
    e.to_string()
}

/// Calls `openssl::sha::sha256`. The result is the digest of the input and
/// has 32 bytes.
#[verifier::external_body]
pub(crate) fn sha256(data: &[u8]) -> (r: Vec<u8>)
    ensures
        r@ == sha256_digest(data@),
        r@.len() == 32,
{
    openssl::sha::sha256(data).to_vec()
}

/// Calls `openssl::base64::encode_block`, which refuses inputs whose
/// encoded length does not fit a signed 32-bit integer. The result is the
/// base64 text of the input.
#[verifier::external_body]
pub(crate) fn base64_encode(data: &[u8]) -> (r: String)
    requires
        data@.len() <= MAX_ENCODE_INPUT,
    ensures
        r@ == base64_text(data@),
{
    openssl::base64::encode_block(data)
}

/// Calls `openssl::base64::decode_block`, which refuses inputs longer than
/// a signed 32-bit length. It succeeds exactly on base64 texts, with the
/// bytes they stand for.
#[verifier::external_body]
pub(crate) fn base64_decode(text: &str) -> (r: Result<Vec<u8>, openssl::error::ErrorStack>)
    requires
        text.spec_bytes().len() <= MAX_BLOCK_INPUT,
    ensures
        match r {
            Ok(bytes) => base64_bytes(text@) == Some(bytes@),
            Err(_) => base64_bytes(text@).is_none(),
        },
{
    openssl::base64::decode_block(text)
}

/// Reads the key with `PKey::private_key_from_pem_passphrase` (empty
/// passphrase, so that OpenSSL never asks for one; it refuses a PEM longer
/// than a signed 32-bit length) and signs with a `Signer` set to SHA-256 and
/// PKCS#1 padding. The outcome is the named signature; any failure of
/// OpenSSL comes back as its error.
#[verifier::external_body]
pub(crate) fn rsa_sha256_sign(private_key_pem: &str, message: &[u8]) -> (r: Result<
    Vec<u8>,
    openssl::error::ErrorStack,
>)
    requires
        private_key_pem.spec_bytes().len() <= MAX_BLOCK_INPUT,
    ensures
        match r {
            Ok(sig) => rsa_sha256_signature(private_key_pem@, message@) == Some(sig@),
            Err(_) => rsa_sha256_signature(private_key_pem@, message@).is_none(),
        },
{
    let pem = private_key_pem.as_bytes();
    let key = openssl::pkey::PKey::private_key_from_pem_passphrase(pem, b"")?;
    let mut signer = openssl::sign::Signer::new(openssl::hash::MessageDigest::sha256(), &key)?;
    signer.set_rsa_padding(openssl::rsa::Padding::PKCS1)?;
    signer.update(message)?;
    signer.sign_to_vec()
}

/// Reads the key with `PKey::public_key_from_pem_passphrase` (empty
/// passphrase; it refuses a PEM longer than a signed 32-bit length) and
/// checks the signature with a `Verifier` set to SHA-256 and PKCS#1 padding.
/// The outcome is the named verdict; any failure of OpenSSL comes back as
/// its error.
#[verifier::external_body]
pub(crate) fn rsa_sha256_verify(public_key_pem: &str, message: &[u8], signature: &[u8]) -> (r:
    Result<bool, openssl::error::ErrorStack>)
    requires
        public_key_pem.spec_bytes().len() <= MAX_BLOCK_INPUT,
    ensures
        match r {
            Ok(valid) => rsa_sha256_verdict(public_key_pem@, message@, signature@) == Some(valid),
            Err(_) => rsa_sha256_verdict(public_key_pem@, message@, signature@).is_none(),
        },
{
    let pem = public_key_pem.as_bytes();
    let key = openssl::pkey::PKey::public_key_from_pem_passphrase(pem, b"")?;
    let mut verifier = openssl::sign::Verifier::new(openssl::hash::MessageDigest::sha256(), &key)?;
    verifier.set_rsa_padding(openssl::rsa::Padding::PKCS1)?;
    verifier.update(message)?;
    verifier.verify(signature)
}

/// Reads the key with `PKey::private_key_from_pem_passphrase` (empty
/// passphrase; it refuses a PEM longer than a signed 32-bit length) and
/// writes its public half with `public_key_to_pem`. The outcome is the named
/// PEM text.
#[verifier::external_body]
pub(crate) fn derive_public_pem(private_key_pem: &str) -> (r: Result<
    String,
    openssl::error::ErrorStack,
>)
    requires
        private_key_pem.spec_bytes().len() <= MAX_BLOCK_INPUT,
    ensures
        match r {
            Ok(pem) => public_pem_text(private_key_pem@) == Some(pem@),
            Err(_) => public_pem_text(private_key_pem@).is_none(),
        },
{
    let pem = private_key_pem.as_bytes();
    let key = openssl::pkey::PKey::private_key_from_pem_passphrase(pem, b"")?;
    let public = key.public_key_to_pem()?;
    Ok(String::from_utf8_lossy(&public).into_owned())
}

/// Whether a text is short enough for OpenSSL to read.
pub open spec fn fits_openssl(text: Seq<char>) -> bool {
    encode_utf8(text).len() <= MAX_BLOCK_INPUT
}

/// The signature of `message` under a private key, or `None` where the
/// key is too long, cannot be read or cannot sign.
pub open spec fn signature_bytes(private_key_pem: Seq<char>, message: Seq<u8>) -> Option<Seq<u8>> {
    if fits_openssl(private_key_pem) {
        rsa_sha256_signature(private_key_pem, message)
    } else {
        None
    }
}

/// Whether a signature is valid under a public key, or `None` where the
/// key is too long or cannot be read.
pub open spec fn signature_verdict(
    public_key_pem: Seq<char>,
    message: Seq<u8>,
    signature: Seq<u8>,
) -> Option<bool> {
    if fits_openssl(public_key_pem) {
        rsa_sha256_verdict(public_key_pem, message, signature)
    } else {
        None
    }
}

/// The PEM text of the public half of a private key, or `None` where the
/// key is too long or cannot be read.
pub open spec fn public_half(private_key_pem: Seq<char>) -> Option<Seq<char>> {
    if fits_openssl(private_key_pem) {
        public_pem_text(private_key_pem)
    } else {
        None
    }
}

/// The base64 text of a byte sequence, or `None` where it is too long to
/// encode.
pub open spec fn encoded(data: Seq<u8>) -> Option<Seq<char>> {
    if data.len() <= MAX_ENCODE_INPUT {
        Some(base64_text(data))
    } else {
        None
    }
}

/// The bytes that a base64 text stands for, or `None` where it is too long
/// or not base64.
pub open spec fn decoded(text: Seq<char>) -> Option<Seq<u8>> {
    if fits_openssl(text) {
        base64_bytes(text)
    } else {
        None
    }
}

/// Signs `message` with RSA PKCS#1 v1.5 over SHA-256. Where the key cannot
/// sign, the error says in words why.
pub fn sign(private_key_pem: &str, message: &[u8]) -> (r: Result<Vec<u8>, String>)
    ensures
        match r {
            Ok(sig) => signature_bytes(private_key_pem@, message@) == Some(sig@),
            Err(_) => signature_bytes(private_key_pem@, message@).is_none(),
        },
{
    if private_key_pem.as_bytes().len() > MAX_BLOCK_INPUT {
        return Err("Key too long".to_owned());
    }
    match rsa_sha256_sign(private_key_pem, message) {
        Ok(sig) => Ok(sig),
        Err(e) => Err(error_stack_text(&e)),
    }
}

/// Checks a signature made with RSA PKCS#1 v1.5 over SHA-256.
pub fn check(public_key_pem: &str, message: &[u8], signature: &[u8]) -> (r: Option<bool>)
    ensures
        r == signature_verdict(public_key_pem@, message@, signature@),
{
    if public_key_pem.as_bytes().len() > MAX_BLOCK_INPUT {
        return None;
    }
    match rsa_sha256_verify(public_key_pem, message, signature) {
        Ok(valid) => Some(valid),
        Err(_) => None,
    }
}

/// Writes the public half of a private key in PEM.
pub fn public_pem_of(private_key_pem: &str) -> (r: Option<String>)
    ensures
        match r {
            Some(pem) => public_half(private_key_pem@) == Some(pem@),
            None => public_half(private_key_pem@).is_none(),
        },
{
    if private_key_pem.as_bytes().len() > MAX_BLOCK_INPUT {
        return None;
    }
    match derive_public_pem(private_key_pem) {
        Ok(pem) => Some(pem),
        Err(_) => None,
    }
}

/// Writes bytes in base64.
pub fn encode(data: &[u8]) -> (r: Option<String>)
    ensures
        match r {
            Some(text) => encoded(data@) == Some(text@),
            None => encoded(data@).is_none(),
        },
{
    if data.len() > MAX_ENCODE_INPUT {
        return None;
    }
    Some(base64_encode(data))
}

/// Reads bytes from base64.
pub fn decode(text: &str) -> (r: Option<Vec<u8>>)
    ensures
        match r {
            Some(bytes) => decoded(text@) == Some(bytes@),
            None => decoded(text@).is_none(),
        },
{
    if text.as_bytes().len() > MAX_BLOCK_INPUT {
        return None;
    }
    match base64_decode(text) {
        Ok(bytes) => Some(bytes),
        Err(_) => None,
    }
}

} // verus!
