//! The signature engine: content digest, canonical signing string, RSA-SHA256
//! signature and the value of the `Signature` header.

use vstd::prelude::*;
use vstd::string::*;
use crate::errors::ConnectorError;
use crate::primitives::{
    base64_encode, base64_standard, pem_contents, pem_parse, rsa_pkcs1_sha256_signature,
    rsa_private_key_accepted, rsa_sign_pkcs1_sha256, sha256, sha256_digest, sha256_input_limit,
};

verus! {

/// The HTTP methods that a request can be sent with.
#[derive(Clone, Copy, Debug, PartialEq, Eq, Structural)]
pub enum Method {
    Get,
    Post,
    Put,
    Delete,
    Patch,
}

impl Method {
    /// The method's name in lower case, as the request target line spells it.
    pub open spec fn spec_lowercase_name(self) -> Seq<char> {
        match self {
            Method::Get => "get"@,
            Method::Post => "post"@,
            Method::Put => "put"@,
            Method::Delete => "delete"@,
            Method::Patch => "patch"@,
        }
    }

    /// Whether a request with this method carries a body: `POST`, `PUT` and
    /// `PATCH` do, `GET` and `DELETE` do not.
    pub open spec fn spec_carries_body(self) -> bool {
        self == Method::Post || self == Method::Put || self == Method::Patch
    }

    /// Returns the method's name in lower case.
    pub fn lowercase_name(self) -> (result: &'static str)
        ensures
            result@ == self.spec_lowercase_name(),
    {
        match self {
            Method::Get => "get",
            Method::Post => "post",
            Method::Put => "put",
            Method::Delete => "delete",
            Method::Patch => "patch",
        }
    }

    /// Tells whether a request with this method carries a body.
    pub fn carries_body(self) -> (result: bool)
        ensures
            result == self.spec_carries_body(),
    {
        match self {
            Method::Post | Method::Put | Method::Patch => true,
            Method::Get | Method::Delete => false,
        }
    }
}

/// Header names signed for a request without a body, in signing order.
pub const REQUEST_WITHOUT_CONTENT_HEADERS: &'static str =
    "(request-target) x-originating-host x-originating-date";

/// Header names signed for a request with a body, in signing order.
pub const REQUEST_WITH_CONTENT_HEADERS: &'static str =
    "(request-target) x-originating-host x-originating-date content-type digest";

/// Prefix of a digest value, which names the hash function.
pub const DIGEST_PREFIX: &'static str = "sha-256=";

/// What one signature is computed over. A value is used for one call and not
/// kept.
pub struct SignatureParams<'a> {
    /// Value of the `Content-Type` header.
    pub content_type: &'a str,
    /// Host that the request is sent to.
    pub host: &'a str,
    /// Path of the request; with the query string where the request has no
    /// body.
    pub path: &'a str,
    /// Value of the `Digest` header, for a request with a body.
    pub payload_digest: Option<&'a str>,
    /// Value of the originating-date header.
    pub date: &'a str,
    /// Method of the request.
    pub http_method: Method,
}

/// The first three lines of every canonical string: request target,
/// originating host, originating date.
pub open spec fn canonical_head(
    method: Method,
    path: Seq<char>,
    host: Seq<char>,
    date: Seq<char>,
) -> Seq<char> {
    "(request-target) "@ + method.spec_lowercase_name() + " "@ + path + "\nx-originating-host: "@
        + host + "\nx-originating-date: "@ + date
}

/// The two lines that a request with a body adds: content type and digest.
pub open spec fn canonical_content(content_type: Seq<char>, digest: Seq<char>) -> Seq<char> {
    "\ncontent-type: "@ + content_type + "\ndigest: "@ + digest
}

/// The list of header names that the signature advertises for `method`: five
/// names where the request carries a body, three where it does not.
pub open spec fn signed_header_list(method: Method) -> Seq<char> {
    if method.spec_carries_body() {
        REQUEST_WITH_CONTENT_HEADERS@
    } else {
        REQUEST_WITHOUT_CONTENT_HEADERS@
    }
}

/// The value of the `Signature` header for a key identifier, a method and a
/// signature in base64.
pub open spec fn signature_header_value(
    key_id: Seq<char>,
    method: Method,
    signature_base64: Seq<char>,
) -> Seq<char> {
    "keyId=\""@ + key_id + "\",algorithm=\"rsa-sha256\",headers=\""@ + signed_header_list(method)
        + "\",signature=\""@ + signature_base64 + "\""@
}

/// The value of the `Digest` header for a hash in base64.
pub open spec fn digest_header_value(hash_base64: Seq<char>) -> Seq<char> {
    DIGEST_PREFIX@ + hash_base64
}

/// The value of the `Digest` header for a body: `sha-256=` and the SHA-256
/// hash of the body's bytes in base64.
pub open spec fn digest_of(payload: Seq<u8>) -> Seq<char> {
    digest_header_value(base64_standard(sha256(payload)))
}

/// The canonical signing string: three lines for a request without a body,
/// five for one with a body, joined by newlines, with no newline at the end.
/// A request with a body for which no digest is known shows an empty digest.
pub open spec fn canonical_text(
    method: Method,
    path: Seq<char>,
    host: Seq<char>,
    date: Seq<char>,
    content_type: Seq<char>,
    digest: Option<Seq<char>>,
) -> Seq<char> {
    let head = canonical_head(method, path, host, date);
    if method.spec_carries_body() {
        head + canonical_content(
            content_type,
            match digest {
                Some(digest) => digest,
                None => Seq::empty(),
            },
        )
    } else {
        head
    }
}

impl<'a> SignatureParams<'a> {
    /// The payload digest as plain text.
    pub open spec fn spec_digest(&self) -> Option<Seq<char>> {
        match self.payload_digest {
            Some(digest) => Some(digest@),
            None => None,
        }
    }

    /// The canonical signing string of these parameters.
    pub open spec fn canonical_string(&self) -> Seq<char> {
        canonical_text(
            self.http_method,
            self.path@,
            self.host@,
            self.date@,
            self.content_type@,
            self.spec_digest(),
        )
    }
}

/// What signing `canonical` for `method` with the PEM private key `key_pem`
/// gives, over the outcomes of PEM parsing, key decoding, signing and base64
/// encoding: `InvalidKeyMaterial` where the PEM text or the key in it is
/// refused, `RequestEncodingFailed` where the canonical string is too long to
/// be hashed or signing fails, else the header value.
pub open spec fn signature_outcome(
    key_id: Seq<char>,
    key_pem: Seq<char>,
    method: Method,
    canonical: Seq<char>,
) -> Result<Seq<char>, ConnectorError> {
    match pem_contents(key_pem) {
        None => Err(ConnectorError::InvalidKeyMaterial),
        Some(der) => if vstd::utf8::encode_utf8(canonical).len() >= sha256_input_limit() {
            Err(ConnectorError::RequestEncodingFailed)
        } else if !rsa_private_key_accepted(der) {
            Err(ConnectorError::InvalidKeyMaterial)
        } else {
            match rsa_pkcs1_sha256_signature(der, vstd::utf8::encode_utf8(canonical)) {
                None => Err(ConnectorError::RequestEncodingFailed),
                Some(signature) => Ok(
                    signature_header_value(key_id, method, base64_standard(signature)),
                ),
            }
        },
    }
}

/// Whether `result` is the outcome `expected`, text compared by its view.
pub open spec fn text_result_is(
    result: Result<String, ConnectorError>,
    expected: Result<Seq<char>, ConnectorError>,
) -> bool {
    match (result, expected) {
        (Ok(text), Ok(wanted)) => text@ == wanted,
        (Err(error), Err(wanted)) => error == wanted,
        _ => false,
    }
}

/// Returns the header-name list advertised for `method`.
pub fn header_list(method: Method) -> (result: &'static str)
    ensures
        result@ == signed_header_list(method),
{
    if method.carries_body() {
        REQUEST_WITH_CONTENT_HEADERS
    } else {
        REQUEST_WITHOUT_CONTENT_HEADERS
    }
}

/// Builds the canonical signing string of `params`.
pub fn build_canonical_string(params: &SignatureParams<'_>) -> (result: String)
    ensures
        result@ == params.canonical_string(),
{
    let mut text = String::from_str("(request-target) ");
    text.append(params.http_method.lowercase_name());
    text.append(" ");
    text.append(params.path);
    text.append("\nx-originating-host: ");
    text.append(params.host);
    text.append("\nx-originating-date: ");
    text.append(params.date);
    if params.http_method.carries_body() {
        let digest: &str = match params.payload_digest {
            Some(digest) => digest,
            None => "",
        };
        proof {
            reveal_strlit("");
            assert(""@ =~= Seq::<char>::empty());
        }
        let ghost head = text@;
        text.append("\ncontent-type: ");
        text.append(params.content_type);
        text.append("\ndigest: ");
        text.append(digest);
        assert(text@ =~= head + canonical_content(params.content_type@, digest@));
    }
    text
}

/// Formats the value of the `Digest` header from a hash in base64.
pub fn format_digest(hash_base64: &str) -> (result: String)
    ensures
        result@ == digest_header_value(hash_base64@),
{
    let mut text = String::from_str(DIGEST_PREFIX);
    text.append(hash_base64);
    text
}

/// Formats the value of the `Signature` header from the key identifier, the
/// method and the signature in base64.
pub fn format_signature_header(key_id: &str, method: Method, signature_base64: &str) -> (result:
    String)
    ensures
        result@ == signature_header_value(key_id@, method, signature_base64@),
{
    let mut text = String::from_str("keyId=\"");
    text.append(key_id);
    text.append("\",algorithm=\"rsa-sha256\",headers=\"");
    text.append(header_list(method));
    text.append("\",signature=\"");
    text.append(signature_base64);
    text.append("\"");
    text
}

/// Computes the value of the `Digest` header for `payload`: the SHA-256 hash
/// of exactly these bytes, in base64, behind `sha-256=`.
pub fn generate_digest(payload: &[u8]) -> (result: String)
    requires
        payload@.len() < sha256_input_limit(),
    ensures
        result@ == digest_of(payload@),
{
    let hash = sha256_digest(payload);
    let encoded = base64_encode(hash.as_slice());
    format_digest(encoded.as_str())
}

/// Signs `params` with the PEM private key `key_pem` and returns the value of
/// the `Signature` header under the key identifier `key_id`.
pub fn generate_signature(key_id: &str, key_pem: &str, params: SignatureParams<'_>) -> (result:
    Result<String, ConnectorError>)
    ensures
        text_result_is(
            result,
            signature_outcome(key_id@, key_pem@, params.http_method, params.canonical_string()),
        ),
{
    let canonical = build_canonical_string(&params);
    let der = match pem_parse(key_pem) {
        Ok(der) => der,
        Err(_) => {
            return Err(ConnectorError::InvalidKeyMaterial);
        },
    };
    let message = canonical.as_str().as_bytes();
    if message.len() as u64 >= 0x2000_0000_0000_0000u64 {
        return Err(ConnectorError::RequestEncodingFailed);
    }
    let signature = match rsa_sign_pkcs1_sha256(der.as_slice(), message) {
        Err(_) => {
            return Err(ConnectorError::InvalidKeyMaterial);
        },
        Ok(Err(_)) => {
            return Err(ConnectorError::RequestEncodingFailed);
        },
        Ok(Ok(signature)) => signature,
    };
    let encoded = base64_encode(signature.as_slice());
    Ok(format_signature_header(key_id, params.http_method, encoded.as_str()))
}

/// The number of line breaks in a text.
pub open spec fn line_breaks(text: Seq<char>) -> nat
    decreases text.len(),
{
    if text.len() == 0 {
        0
    } else {
        line_breaks(text.drop_last()) + if text.last() == '\n' {
            1nat
        } else {
            0nat
        }
    }
}

/// The line breaks of two texts written one after the other are those of
/// both.
pub proof fn lemma_line_breaks_concat(front: Seq<char>, back: Seq<char>)
    ensures
        line_breaks(front + back) == line_breaks(front) + line_breaks(back),
    decreases back.len(),
{
    if back.len() == 0 {
        assert(front + back =~= front);
    } else {
        let whole = front + back;
        assert(whole.drop_last() =~= front + back.drop_last());
        assert(whole.last() == back.last());
        lemma_line_breaks_concat(front, back.drop_last());
    }
}

/// A text in which no character is a line break has no line breaks.
pub proof fn lemma_no_line_breaks(text: Seq<char>)
    requires
        forall|i: int| 0 <= i < text.len() ==> text[i] != '\n',
    ensures
        line_breaks(text) == 0,
    decreases text.len(),
{
    if text.len() > 0 {
        lemma_no_line_breaks(text.drop_last());
    }
}

/// A text that begins with a line break and has no other has one.
proof fn lemma_leading_line_break(text: Seq<char>)
    requires
        text.len() > 0,
        text[0] == '\n',
        forall|i: int| 1 <= i < text.len() ==> text[i] != '\n',
    ensures
        line_breaks(text) == 1,
{
    let first = text.take(1);
    let rest = text.skip(1);
    assert(text =~= first + rest);
    lemma_line_breaks_concat(first, rest);
    lemma_no_line_breaks(rest);
    assert(first.drop_last() =~= Seq::<char>::empty());
    assert(line_breaks(first.drop_last()) == 0);
    assert(first.last() == '\n');
}

/// The name of a method has no line break.
proof fn lemma_method_name_has_no_line_break(method: Method)
    ensures
        line_breaks(method.spec_lowercase_name()) == 0,
{
    reveal_strlit("get");
    reveal_strlit("post");
    reveal_strlit("put");
    reveal_strlit("delete");
    reveal_strlit("patch");
    lemma_no_line_breaks(method.spec_lowercase_name());
}

/// The first three lines of a canonical string are three lines: with parts
/// that hold no line break, the head has two line breaks.
proof fn lemma_head_line_breaks(method: Method, path: Seq<char>, host: Seq<char>, date: Seq<char>)
    requires
        line_breaks(path) == 0,
        line_breaks(host) == 0,
        line_breaks(date) == 0,
    ensures
        line_breaks(canonical_head(method, path, host, date)) == 2,
{
    reveal_strlit("(request-target) ");
    reveal_strlit(" ");
    reveal_strlit("\nx-originating-host: ");
    reveal_strlit("\nx-originating-date: ");
    let a = "(request-target) "@;
    let b = method.spec_lowercase_name();
    let c = " "@;
    let e = "\nx-originating-host: "@;
    let g = "\nx-originating-date: "@;
    lemma_no_line_breaks(a);
    lemma_method_name_has_no_line_break(method);
    lemma_no_line_breaks(c);
    lemma_leading_line_break(e);
    lemma_leading_line_break(g);
    lemma_line_breaks_concat(a, b);
    lemma_line_breaks_concat(a + b, c);
    lemma_line_breaks_concat(a + b + c, path);
    lemma_line_breaks_concat(a + b + c + path, e);
    lemma_line_breaks_concat(a + b + c + path + e, host);
    lemma_line_breaks_concat(a + b + c + path + e + host, g);
    lemma_line_breaks_concat(a + b + c + path + e + host + g, date);
}

/// A canonical string has exactly three lines for a request without a body
/// and exactly five for one with a body, and does not end in a line break:
/// with parts that hold no line break, it has two line breaks or four, and
/// its last character is none.
pub proof fn lemma_canonical_line_count(
    method: Method,
    path: Seq<char>,
    host: Seq<char>,
    date: Seq<char>,
    content_type: Seq<char>,
    digest: Option<Seq<char>>,
)
    requires
        line_breaks(path) == 0,
        line_breaks(host) == 0,
        line_breaks(date) == 0,
        line_breaks(content_type) == 0,
        digest matches Some(text) ==> line_breaks(text) == 0,
    ensures
        line_breaks(canonical_text(method, path, host, date, content_type, digest)) == if method.spec_carries_body() {
            4nat
        } else {
            2nat
        },
        canonical_text(method, path, host, date, content_type, digest).len() > 0,
        canonical_text(method, path, host, date, content_type, digest).last() != '\n',
{
    lemma_head_line_breaks(method, path, host, date);
    let head = canonical_head(method, path, host, date);
    let whole = canonical_text(method, path, host, date, content_type, digest);
    reveal_strlit("\nx-originating-date: ");
    reveal_strlit("\ncontent-type: ");
    reveal_strlit("\ndigest: ");
    if method.spec_carries_body() {
        let shown = match digest {
            Some(text) => text,
            None => Seq::<char>::empty(),
        };
        let k = "\ncontent-type: "@;
        let l = "\ndigest: "@;
        lemma_leading_line_break(k);
        lemma_leading_line_break(l);
        lemma_line_breaks_concat(k, content_type);
        lemma_line_breaks_concat(k + content_type, l);
        lemma_line_breaks_concat(k + content_type + l, shown);
        lemma_line_breaks_concat(head, canonical_content(content_type, shown));
        let front = head + k + content_type + l;
        assert(whole =~= front + shown);
        assert(front.last() == ' ');
        lemma_ends_without_line_break(front, shown);
    } else {
        let front = "(request-target) "@ + method.spec_lowercase_name() + " "@ + path
            + "\nx-originating-host: "@ + host + "\nx-originating-date: "@;
        assert(whole =~= front + date);
        assert(front.last() == ' ');
        lemma_ends_without_line_break(front, date);
    }
}

/// A text that does not end in a line break, followed by one without line
/// breaks, does not end in a line break.
proof fn lemma_ends_without_line_break(front: Seq<char>, back: Seq<char>)
    requires
        front.len() > 0,
        front.last() != '\n',
        line_breaks(back) == 0,
    ensures
        (front + back).len() > 0,
        (front + back).last() != '\n',
{
    if back.len() == 0 {
        assert(front + back =~= front);
    } else {
        assert((front + back).last() == back.last());
    }
}

/// The canonical string is a function of the parameters' contents: two sets
/// of parameters that hold the same method and the same texts give the same
/// canonical string, character for character and byte for byte.
pub proof fn lemma_canonical_string_is_determined(
    first: SignatureParams<'_>,
    second: SignatureParams<'_>,
)
    requires
        first.http_method == second.http_method,
        first.path@ == second.path@,
        first.host@ == second.host@,
        first.date@ == second.date@,
        first.content_type@ == second.content_type@,
        first.spec_digest() == second.spec_digest(),
    ensures
        first.canonical_string() == second.canonical_string(),
        vstd::utf8::encode_utf8(first.canonical_string()) == vstd::utf8::encode_utf8(
            second.canonical_string(),
        ),
{
}

/// The header names that a signature advertises are those of the lines that
/// were signed: five names and the two content lines for a request with a
/// body, three names and the head alone for one without.
pub proof fn lemma_advertised_headers_match_signed_lines(
    method: Method,
    path: Seq<char>,
    host: Seq<char>,
    date: Seq<char>,
    content_type: Seq<char>,
    digest: Seq<char>,
)
    ensures
        method.spec_carries_body() ==> signed_header_list(method) == REQUEST_WITH_CONTENT_HEADERS@
            && canonical_text(method, path, host, date, content_type, Some(digest))
            == canonical_head(method, path, host, date) + canonical_content(content_type, digest),
        !method.spec_carries_body() ==> signed_header_list(method)
            == REQUEST_WITHOUT_CONTENT_HEADERS@ && canonical_text(
            method,
            path,
            host,
            date,
            content_type,
            Some(digest),
        ) == canonical_head(method, path, host, date),
{
}

/// Signing is a function of its inputs: the same key, the same method and
/// the same canonical string give the same outcome, the same signature
/// included.
pub proof fn lemma_signature_is_determined(
    key_id: Seq<char>,
    key_pem: Seq<char>,
    first: SignatureParams<'_>,
    second: SignatureParams<'_>,
)
    requires
        first.http_method == second.http_method,
        first.canonical_string() == second.canonical_string(),
    ensures
        signature_outcome(key_id, key_pem, first.http_method, first.canonical_string())
            == signature_outcome(key_id, key_pem, second.http_method, second.canonical_string()),
{
}

} // verus!
