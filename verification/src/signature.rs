//! Signing and checking of request paths with a shared secret.
//!
//! A signature is the HMAC-SHA1 of the UTF-8 bytes of a message, written in
//! base64 with the URL-safe alphabet. The MAC and the base64 spelling come
//! from outside crates; this module states what it relies on and proves the
//! rest from that.

use crate::text::{chars_of, push_str, starts_with, string_of};
use vstd::prelude::*;

verus! {

/// Why a signature was turned down.
#[derive(Clone, Copy, Debug, PartialEq, Eq, Structural)]
pub enum SignatureError {
    /// The signature is no base64, or is not the MAC of the message.
    BadSignature,
    /// The MAC could not be set up with the secret.
    CouldNotUseKey,
}

impl SignatureError {
    /// A sentence that describes the error.
    pub fn message(&self) -> (s: String)
        ensures
            s@ == signature_error_text(*self),
    {
        match self {
            SignatureError::BadSignature => {
                "Bad signature received; it did not pass the check.".to_owned()
            },
            SignatureError::CouldNotUseKey => "The secret key could not be used.".to_owned(),
        }
    }
}

/// The sentence that describes a signature error.
pub open spec fn signature_error_text(e: SignatureError) -> Seq<char> {
    match e {
        SignatureError::BadSignature => "Bad signature received; it did not pass the check."@,
        SignatureError::CouldNotUseKey => "The secret key could not be used."@,
    }
}

/// The HMAC-SHA1 tag of `message` under `key`, as the `hmac` and `sha1`
/// crates compute it.
pub uninterp spec fn hmac_sha1_tag(key: Seq<u8>, message: Seq<u8>) -> Seq<u8>;

/// The padded base64 spelling of `data` in the URL-safe alphabet, as the
/// `base64` crate writes it.
pub uninterp spec fn base64_url_text(data: Seq<u8>) -> Seq<char>;

/// The bytes that the `base64` crate reads out of `text` in the URL-safe
/// alphabet, or `None` where it rejects the text.
pub uninterp spec fn base64_url_bytes(text: Seq<char>) -> Option<Seq<u8>>;

/// `Mac::new_from_slice`, `Mac::update` and `Mac::finalize` of `Hmac<Sha1>`.
///
/// Trusted: the tag is a function of key and message and has the 20 bytes of
/// a SHA-1 output. HMAC takes a key of any length, so the set-up never fails
/// and a tag is always returned.
#[verifier::external_body]
fn hmac_sha1(key: &[u8], message: &[u8]) -> (tag: Option<Vec<u8>>)
    ensures
        match tag {
            Some(t) => t@ == hmac_sha1_tag(key@, message@) && t@.len() == 20,
            None => false,
        },
{
    let mut mac = <hmac::Hmac<sha1::Sha1> as hmac::Mac>::new_from_slice(key).ok()?;
    hmac::Mac::update(&mut mac, message);
    Some(hmac::Mac::finalize(mac).into_bytes().to_vec())
}

/// `Mac::new_from_slice`, `Mac::update` and `Mac::verify_slice` of
/// `Hmac<Sha1>`: the comparison of a tag with the MAC in constant time.
///
/// Trusted: the set-up never fails, and the check passes exactly when `tag`
/// is, byte for byte and in its full length, the tag of the message.
#[verifier::external_body]
fn hmac_sha1_matches(key: &[u8], message: &[u8], tag: &[u8]) -> (r: Option<bool>)
    ensures
        r == Some(tag@ == hmac_sha1_tag(key@, message@)),
{
    let mut mac = <hmac::Hmac<sha1::Sha1> as hmac::Mac>::new_from_slice(key).ok()?;
    hmac::Mac::update(&mut mac, message);
    Some(hmac::Mac::verify_slice(mac, tag).is_ok())
}

/// Whether a character is one that padded base64 in the URL-safe alphabet
/// is written with: a letter, a digit, `-`, `_`, or the `=` of the padding.
pub open spec fn is_base64_url_char(c: char) -> bool {
    ||| 'A' <= c <= 'Z'
    ||| 'a' <= c <= 'z'
    ||| '0' <= c <= '9'
    ||| c == '-'
    ||| c == '_'
    ||| c == '='
}

/// `Engine::encode` of `base64::engine::general_purpose::URL_SAFE`.
///
/// Trusted: the text is a function of the bytes, and the same engine reads
/// the bytes back out of it. It has four characters for every three bytes
/// begun, all of them of the URL-safe alphabet or the padding, and it ends
/// in padding where the bytes do not come in threes. The crate fails on
/// lengths in the top quarter of `usize`, which the precondition leaves out.
#[verifier::external_body]
fn base64_url_encode(data: &[u8]) -> (text: String)
    requires
        data@.len() <= usize::MAX / 2,
    ensures
        text@ == base64_url_text(data@),
        base64_url_bytes(text@) == Some(data@),
        text@.len() == 4 * ((data@.len() + 2) / 3),
        forall|i: int| 0 <= i < text@.len() ==> is_base64_url_char(#[trigger] text@[i]),
        data@.len() % 3 != 0 ==> text@.len() > 0 && text@.last() == '=',
{
    base64::Engine::encode(&base64::engine::general_purpose::URL_SAFE, data)
}

/// `Engine::decode` of `base64::engine::general_purpose::URL_SAFE`.
///
/// Trusted: the outcome is a function of the text. The engine asks for
/// canonical padding and for no stray trailing bits, so a text that it
/// accepts is the one spelling that `encode` gives to the bytes read.
#[verifier::external_body]
fn base64_url_decode(text: &str) -> (data: Option<Vec<u8>>)
    ensures
        match data {
            Some(d) => base64_url_bytes(text@) == Some(d@) && base64_url_text(d@) == text@,
            None => base64_url_bytes(text@) is None,
        },
{
    base64::Engine::decode(&base64::engine::general_purpose::URL_SAFE, text.as_bytes()).ok()
}

/// The signature of `message` under `secret`.
pub open spec fn signature_of(secret: Seq<char>, message: Seq<char>) -> Seq<char> {
    base64_url_text(
        hmac_sha1_tag(vstd::utf8::encode_utf8(secret), vstd::utf8::encode_utf8(message)),
    )
}

/// The segment that a signature takes up at the head of a path.
pub open spec fn signature_segment(signature: Seq<char>) -> Seq<char> {
    seq!['/'] + signature + seq!['/']
}

/// The part of `path` that the signature speaks for: the path without its
/// leading signature segment, where it has one.
pub open spec fn signed_part(path: Seq<char>, signature: Seq<char>) -> Seq<char> {
    if signature_segment(signature).is_prefix_of(path) {
        path.skip(signature_segment(signature).len() as int)
    } else {
        path
    }
}

/// Whether `signature` is base64 for the MAC of the signed part of `path`.
pub open spec fn signature_accepted(secret: Seq<char>, path: Seq<char>, signature: Seq<char>) -> bool {
    base64_url_bytes(signature) == Some(
        hmac_sha1_tag(
            vstd::utf8::encode_utf8(secret),
            vstd::utf8::encode_utf8(signed_part(path, signature)),
        ),
    )
}

/// Checks `signature_to_check` against the path and query it arrived with.
///
/// The check passes exactly when the signature is accepted. A signature that
/// passes is the one that signing the signed part gives: any other is turned
/// down as `BadSignature`. `CouldNotUseKey` does not arise, since the MAC
/// takes any secret.
pub fn ensure_signature_is_valid_for_path_and_query(
    secret: &str,
    path_and_query_with_signature: &str,
    signature_to_check: &str,
) -> (r: Result<(), SignatureError>)
    ensures
        r is Ok <==> signature_accepted(
            secret@,
            path_and_query_with_signature@,
            signature_to_check@,
        ),
        r matches Err(e) ==> e == SignatureError::BadSignature,
        r is Ok ==> signature_to_check@ == signature_of(
            secret@,
            signed_part(path_and_query_with_signature@, signature_to_check@),
        ),
{
    let decoded = match base64_url_decode(signature_to_check) {
        Some(d) => d,
        None => {
            return Err(SignatureError::BadSignature);
        },
    };
    let path = chars_of(path_and_query_with_signature);
    let mut segment: Vec<char> = Vec::new();
    segment.push('/');
    push_str(&mut segment, signature_to_check);
    segment.push('/');
    assert(segment@ =~= signature_segment(signature_to_check@));
    let message = if starts_with(path.as_slice(), segment.as_slice()) {
        let rest = vstd::slice::slice_subrange(path.as_slice(), segment.len(), path.len());
        assert(rest@ =~= path@.skip(segment@.len() as int));
        string_of(rest)
    } else {
        string_of(path.as_slice())
    };
    assert(message@ == signed_part(path_and_query_with_signature@, signature_to_check@));
    match hmac_sha1_matches(secret.as_bytes(), message.as_str().as_bytes(), decoded.as_slice()) {
        None => Err(SignatureError::CouldNotUseKey),
        Some(true) => Ok(()),
        Some(false) => Err(SignatureError::BadSignature),
    }
}

/// Signs `message` with `secret`.
///
/// Signing always succeeds. The signature has 28 characters, the last of
/// them the padding, and none of them a `/` or a `+`: it fits in one segment
/// of a path. It passes the check against the message it was made for,
/// unless that message begins with the segment of its own signature (the
/// check would then take the segment off first).
pub fn make_url_safe_base64_hash(secret: &str, message: &str) -> (r: Result<String, SignatureError>)
    ensures
        r matches Ok(sig) && sig@ == signature_of(secret@, message@),
        r matches Ok(sig) && (!signature_segment(sig@).is_prefix_of(message@)
            ==> signature_accepted(secret@, message@, sig@)),
        r matches Ok(sig) && sig@.len() == 28 && sig@[27] == '=',
        r matches Ok(sig) && forall|i: int|
            0 <= i < 28 ==> is_base64_url_char(#[trigger] sig@[i]) && sig@[i] != '/' && sig@[i]
                != '+',
{
    match hmac_sha1(secret.as_bytes(), message.as_bytes()) {
        None => Err(SignatureError::CouldNotUseKey),
        Some(tag) => Ok(base64_url_encode(tag.as_slice())),
    }
}

} // verus!
