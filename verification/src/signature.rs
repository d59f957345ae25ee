//! The signature that proves where a webhook request comes from.
//!
//! The sender signs the URL of the webhook followed by the body of the request
//! with HMAC-SHA1 under the shared token, and sends the code in base64. The
//! code is computed here by the `hmac`, `sha1` and `base64` crates and compared
//! by `subtle` in time that does not depend on the contents.

use vstd::prelude::*;
use vstd::utf8::encode_utf8;

verus! {

/// Names the HMAC-SHA1 code of `message` under `key`: twenty bytes.
pub uninterp spec fn hmac_sha1(key: Seq<u8>, message: Seq<u8>) -> Seq<u8>;

/// Names the base64 text of `bytes`, in the standard alphabet with padding.
pub uninterp spec fn base64_standard(bytes: Seq<u8>) -> Seq<char>;

/// `Hmac::<Sha1>::new_from_slice`, `Mac::update` and `Mac::finalize`, with
/// `CtOutput::into_bytes`: the code of the message under the key. HMAC takes
/// a key of any length, so a code always comes back; `None` stands for the
/// constructor's error, which it never returns.
#[verifier::external_body]
fn authentication_code(key: &[u8], message: &[u8]) -> (code: Option<Vec<u8>>)
    ensures
        code is Some,
        code->0@ == hmac_sha1(key@, message@),
{
    match <hmac::Hmac<sha1::Sha1> as hmac::Mac>::new_from_slice(key) {
        Ok(mut mac) => {
            hmac::Mac::update(&mut mac, message);
            Some(hmac::Mac::finalize(mac).into_bytes().to_vec())
        },
        Err(_) => None,
    }
}

/// `Engine::encode` of `base64::engine::general_purpose::STANDARD`.
#[verifier::external_body]
fn encode_base64(bytes: &[u8]) -> (text: String)
    ensures
        text@ == base64_standard(bytes@),
{
    base64::Engine::encode(&base64::engine::general_purpose::STANDARD, bytes)
}

/// `subtle::ConstantTimeEq::ct_eq` on two slices of bytes, turned into a
/// `bool`: whether they have the same length and the same bytes.
#[verifier::external_body]
fn constant_time_eq(left: &[u8], right: &[u8]) -> (same: bool)
    ensures
        same == (left@ == right@),
{
    subtle::ConstantTimeEq::ct_eq(left, right).into()
}

/// The signature that a request to `webhook_url` with this body carries if
/// its sender holds `auth_token`.
pub open spec fn expected_signature(
    auth_token: Seq<char>,
    webhook_url: Seq<char>,
    body: Seq<u8>,
) -> Seq<char> {
    base64_standard(hmac_sha1(encode_utf8(auth_token), encode_utf8(webhook_url) + body))
}

/// Whether the signature that came with a request is the expected one. The
/// two are compared whole and in constant time.
pub fn signature_matches(expected: &str, signature: &str) -> (same: bool)
    ensures
        same == (expected@ == signature@),
{
    let same = constant_time_eq(expected.as_bytes(), signature.as_bytes());
    proof {
        vstd::utf8::encode_utf8_decode_utf8(expected@);
        vstd::utf8::encode_utf8_decode_utf8(signature@);
    }
    same
}

/// Computes the signature expected of a request. `None` only where the key
/// is refused, which HMAC never does.
pub fn sign(auth_token: &str, webhook_url: &str, body: &[u8]) -> (signature: Option<String>)
    ensures
        signature matches Some(text) && text@ == expected_signature(
            auth_token@,
            webhook_url@,
            body@,
        ),
{
    let mut message: Vec<u8> = Vec::new();
    append(&mut message, webhook_url.as_bytes());
    append(&mut message, body);
    match authentication_code(auth_token.as_bytes(), message.as_slice()) {
        Some(code) => Some(encode_base64(code.as_slice())),
        None => None,
    }
}

fn append(out: &mut Vec<u8>, bytes: &[u8])
    ensures
        final(out)@ == old(out)@ + bytes@,
{
    let mut i: usize = 0;
    while i < bytes.len()
        invariant
            i <= bytes@.len(),
            out@ == old(out)@ + bytes@.take(i as int),
        decreases bytes@.len() - i,
    {
        out.push(bytes[i]);
        i += 1;
        assert(out@ =~= old(out)@ + bytes@.take(i as int));
    }
    assert(bytes@.take(bytes@.len() as int) =~= bytes@);
}

} // verus!
