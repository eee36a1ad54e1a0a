//! The cryptographic and parsing primitives that the library takes from other
//! crates. Nothing in this file is proved: each function states what the
//! library assumes of the code it calls.

use vstd::prelude::*;

verus! {

/// Error of `ring` for a private key that it does not accept.
#[verifier::external_type_specification]
#[verifier::external_body]
pub struct ExKeyRejected(ring::error::KeyRejected);

/// Error of `ring` that gives no cause.
#[verifier::external_type_specification]
#[verifier::external_body]
pub struct ExUnspecified(ring::error::Unspecified);

/// Error of `pem` for text that is not one PEM block.
#[verifier::external_type_specification]
#[verifier::external_body]
pub struct ExPemError(pem::PemError);

/// Error of `url` for text that is not a URL.
#[verifier::external_type_specification]
#[verifier::external_body]
pub struct ExUrlParseError(url::ParseError);

/// The SHA-256 digest of `data`, as `ring::digest::digest` computes it.
pub uninterp spec fn sha256(data: Seq<u8>) -> Seq<u8>;

/// The base64 text of `data` in the standard alphabet with padding, as the
/// `STANDARD` engine of `base64` encodes it.
pub uninterp spec fn base64_standard(data: Seq<u8>) -> Seq<char>;

/// The binary contents of the PEM block `text`, as `pem::parse` extracts them;
/// `None` where `pem::parse` refuses the text.
pub uninterp spec fn pem_contents(text: Seq<char>) -> Option<Seq<u8>>;

/// Whether `ring::rsa::KeyPair::from_der` accepts `der` as an RSA private key.
pub uninterp spec fn rsa_private_key_accepted(der: Seq<u8>) -> bool;

/// The RSA PKCS#1 v1.5 signature with SHA-256 of `message` under the private
/// key `der`, as `ring::rsa::KeyPair::sign` computes it; `None` where it fails.
pub uninterp spec fn rsa_pkcs1_sha256_signature(der: Seq<u8>, message: Seq<u8>) -> Option<
    Seq<u8>,
>;

/// Host, path and query of the URL `text`, as `url::Url::parse` and the
/// accessors `host_str`, `path` and `query` give them; `None` where the text
/// does not parse.
pub uninterp spec fn url_parts(text: Seq<char>) -> Option<
    (Option<Seq<char>>, Seq<char>, Option<Seq<char>>),
>;

/// The upper-case form of `text`, as `str::to_uppercase` of the standard
/// library gives it.
pub uninterp spec fn uppercase(text: Seq<char>) -> Seq<char>;

/// Largest input, in bytes, that SHA-256 is defined for: the bit length must
/// fit in 64 bits.
pub open spec fn sha256_input_limit() -> int {
    0x2000_0000_0000_0000
}

/// Calls `ring::digest::digest` with `SHA256`. The contract names the digest
/// and states its length, 32 bytes. `ring` panics on an input whose bit
/// length does not fit in 64 bits, which `requires` leaves out.
#[verifier::external_body]
pub(crate) fn sha256_digest(data: &[u8]) -> (result: Vec<u8>)
    requires
        data@.len() < sha256_input_limit(),
    ensures
        result@ == sha256(data@),
        result@.len() == 32,
{
    ring::digest::digest(&ring::digest::SHA256, data).as_ref().to_vec()
}

/// Calls `Engine::encode` of `base64` on the `STANDARD` engine. The contract
/// names the text. `base64` panics where the encoded length overflows
/// `usize`, which `requires` leaves out.
#[verifier::external_body]
pub(crate) fn base64_encode(data: &[u8]) -> (result: String)
    requires
        (data@.len() / 3 + 1) * 4 <= usize::MAX,
    ensures
        result@ == base64_standard(data@),
{
    base64::Engine::encode(&base64::engine::general_purpose::STANDARD, data)
}

/// Calls `pem::parse` and hands out the block's contents. The contract names
/// them: contents where the text parses, an error where it does not.
#[verifier::external_body]
pub(crate) fn pem_parse(text: &str) -> (result: Result<Vec<u8>, pem::PemError>)
    ensures
        match result {
            Ok(der) => pem_contents(text@) == Some(der@),
            Err(_) => pem_contents(text@) is None,
        },
{
    match pem::parse(text) {
        Ok(block) => Ok(block.into_contents()),
        Err(error) => Err(error),
    }
}

/// Calls `ring::rsa::KeyPair::from_der` on `der` and then `sign` with
/// `RSA_PKCS1_SHA256` on `message`, into a buffer of the modulus' length. The
/// outer error is `from_der`'s, the inner one `sign`'s. The contract names
/// both outcomes, and bounds a signature by 512 bytes: `ring` accepts no
/// private key whose modulus has more than 4096 bits. The signature is a
/// function of key and message alone: this padding takes nothing from the
/// random source.
#[verifier::external_body]
pub(crate) fn rsa_sign_pkcs1_sha256(der: &[u8], message: &[u8]) -> (result: Result<
    Result<Vec<u8>, ring::error::Unspecified>,
    ring::error::KeyRejected,
>)
    requires
        message@.len() < sha256_input_limit(),
    ensures
        result is Ok == rsa_private_key_accepted(der@),
        match result {
            Ok(Ok(signature)) => rsa_pkcs1_sha256_signature(der@, message@) == Some(signature@)
                && signature@.len() <= 512,
            Ok(Err(_)) => rsa_pkcs1_sha256_signature(der@, message@) is None,
            Err(_) => true,
        },
{
    let key = ring::rsa::KeyPair::from_der(der)?;
    let mut signature = vec![0u8; key.public().modulus_len()];
    let random = ring::rand::SystemRandom::new();
    match key.sign(&ring::signature::RSA_PKCS1_SHA256, &random, message, &mut signature) {
        Ok(()) => Ok(Ok(signature)),
        Err(error) => Ok(Err(error)),
    }
}

/// Calls `str::to_uppercase`. The contract names the result.
#[verifier::external_body]
pub(crate) fn to_uppercase(text: &str) -> (result: String)
    ensures
        result@ == uppercase(text@),
{
    text.to_uppercase()
}

/// The parts of a URL that the header builder reads.
pub struct ParsedUrl {
    /// The host, where the URL has one.
    pub host: Option<String>,
    /// The path, which for a URL with a host begins with `/`.
    pub path: String,
    /// The query string, without its `?`, where the URL has one.
    pub query: Option<String>,
}

impl ParsedUrl {
    /// The three parts as plain values.
    pub open spec fn parts(&self) -> (Option<Seq<char>>, Seq<char>, Option<Seq<char>>) {
        (
            match self.host {
                Some(host) => Some(host@),
                None => None,
            },
            self.path@,
            match self.query {
                Some(query) => Some(query@),
                None => None,
            },
        )
    }
}

/// Calls `url::Url::parse` and reads `host_str`, `path` and `query` of the
/// result. The contract names the three parts.
#[verifier::external_body]
pub(crate) fn url_parse(text: &str) -> (result: Result<ParsedUrl, url::ParseError>)
    ensures
        match result {
            Ok(parsed) => url_parts(text@) == Some(parsed.parts()),
            Err(_) => url_parts(text@) is None,
        },
{
    let parsed = url::Url::parse(text)?;
    Ok(ParsedUrl {
        host: parsed.host_str().map(str::to_string),
        path: parsed.path().to_string(),
        query: parsed.query().map(str::to_string),
    })
}

} // verus!
