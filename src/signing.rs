use vstd::prelude::*;

use base64ct::{Base64Url, Encoding};
use hmac::{Hmac, Mac};
use sha1::Sha1;

verus! {

#[verifier::external_type_specification]
#[verifier::external_body]
pub struct ExInvalidLength(hmac::digest::InvalidLength);

/// The HMAC-SHA1 tag of `msg` under `key`.
pub uninterp spec fn hmac_sha1_of(key: Seq<u8>, msg: Seq<u8>) -> Seq<u8>;

/// Relies on hmac's `Hmac::<Sha1>::new_from_slice`, which takes a key of any
/// length (one longer than the block is hashed first) and never returns an error.
#[verifier::external_body]
pub(crate) fn check_hmac_key(key: &[u8]) -> (r: Result<(), hmac::digest::InvalidLength>)
    ensures
        r is Ok,
{
    Hmac::<Sha1>::new_from_slice(key).map(|_| ())
}

/// Relies on hmac's `Hmac::<Sha1>` (`new_from_slice`, `update`, `finalize`):
/// the tag of `msg` under `key`, 20 bytes long. The key is accepted whatever its length.
#[verifier::external_body]
pub(crate) fn hmac_sha1(key: &[u8], msg: &[u8]) -> (r: Result<Vec<u8>, hmac::digest::InvalidLength>)
    ensures
        r is Ok,
        r->Ok_0@ == hmac_sha1_of(key@, msg@),
        r->Ok_0@.len() == 20,
{
    let mut mac = Hmac::<Sha1>::new_from_slice(key)?;
    mac.update(msg);
    Ok(mac.finalize().into_bytes().to_vec())
}

/// The alphabet of URL-safe base64, by digit value.
pub open spec fn url_safe_alphabet() -> Seq<char> {
    "ABCDEFGHIJKLMNOPQRSTUVWXYZabcdefghijklmnopqrstuvwxyz0123456789-_"@
}

/// URL-safe base64 of `b`, padded with `=` to a multiple of four characters:
/// each group of three bytes gives four digits of six bits, most significant first.
pub open spec fn base64_url(b: Seq<u8>) -> Seq<char>
    decreases b.len(),
{
    let a = url_safe_alphabet();
    let b0 = b[0] as int;
    let b1 = if b.len() > 1 { b[1] as int } else { 0 };
    let b2 = if b.len() > 2 { b[2] as int } else { 0 };
    let quad = seq![a[b0 / 4], a[(b0 % 4) * 16 + b1 / 16], a[(b1 % 16) * 4 + b2 / 64], a[b2 % 64]];
    if b.len() == 0 {
        Seq::empty()
    } else if b.len() == 1 {
        quad.take(2) + seq!['=', '=']
    } else if b.len() == 2 {
        quad.take(3) + seq!['=']
    } else {
        quad + base64_url(b.subrange(3, b.len() as int))
    }
}

/// Relies on base64ct's `Base64Url::encode_string`: URL-safe alphabet, with
/// `=` padding. It panics when four times the length overflows `usize`.
#[verifier::external_body]
pub(crate) fn encode_base64_url(b: &[u8]) -> (r: String)
    requires
        b@.len() * 4 <= usize::MAX,
    ensures
        r@ == base64_url(b@),
{
    Base64Url::encode_string(b)
}

} // verus!
