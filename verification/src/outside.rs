//! The calls that leave this crate. Nothing in this file is proved: each
//! contract repeats what the called function's documentation and source say.

use image::ImageEncoder;
use rsa::pkcs8::DecodePrivateKey;
use vstd::prelude::*;
use vstd::utf8::*;

verus! {

/// Whether a byte is written as itself in a percent-encoded text: ASCII
/// letters, digits, `-`, `.`, `_` and `~`.
pub open spec fn is_unreserved(b: u8) -> bool {
    (48 <= b && b <= 57) || (65 <= b && b <= 90) || (97 <= b && b <= 122) || b == 45 || b == 46
        || b == 95 || b == 126
}

/// The upper-case hexadecimal digit of a value below sixteen.
pub open spec fn hex_upper(n: u8) -> char
    recommends
        n < 16,
{
    if n < 10 {
        ((48 + n) as u8) as char
    } else {
        ((55 + n) as u8) as char
    }
}

/// One byte, percent-encoded.
pub open spec fn percent_encoded_byte(b: u8) -> Seq<char> {
    if is_unreserved(b) {
        seq![b as char]
    } else {
        seq!['%', hex_upper(b / 16), hex_upper(b % 16)]
    }
}

/// A byte string, percent-encoded byte by byte.
pub open spec fn percent_encoded(bytes: Seq<u8>) -> Seq<char>
    decreases bytes.len(),
{
    if bytes.len() == 0 {
        Seq::empty()
    } else {
        percent_encoded_byte(bytes[0]) + percent_encoded(bytes.drop_first())
    }
}

/// `urlencoding::encode`: every byte of the text's UTF-8 encoding is
/// percent-encoded, except the unreserved ones, with upper-case hex digits.
#[verifier::external_body]
pub(crate) fn url_encode(text: &str) -> (r: String)
    ensures
        r@ == percent_encoded(encode_utf8(text@)),
{
    urlencoding::encode(text).into_owned()
}

/// `std::str::from_utf8`: succeeds exactly on valid UTF-8 and then yields the
/// text that the bytes encode.
#[verifier::external_body]
pub(crate) fn string_from_utf8(bytes: &[u8]) -> (r: Option<String>)
    ensures
        r is Some <==> valid_utf8(bytes@),
        r matches Some(s) ==> s@ == decode_utf8(bytes@),
{
    match std::str::from_utf8(bytes) {
        Ok(text) => Some(text.to_owned()),
        Err(_) => None,
    }
}

/// What the `mime` crate reads from a media type: its type and subtype, both
/// in lower case and without the suffix, and the suffix behind `+` if any.
/// Nothing where the text is no media type.
pub uninterp spec fn mime_parts(text: Seq<char>) -> Option<
    (Seq<char>, Seq<char>, Option<Seq<char>>),
>;

/// Parses a media type with `mime::Mime::from_str` and hands out what
/// `type_`, `subtype` and `suffix` return for it.
#[verifier::external_body]
pub(crate) fn parse_mime(text: &str) -> (r: Option<(String, String, Option<String>)>)
    ensures
        r is Some <==> mime_parts(text@) is Some,
        r matches Some(p) ==> mime_parts(text@) == Some(
            (
                p.0@,
                p.1@,
                match p.2 {
                    Some(s) => Some(s@),
                    None => None,
                },
            ),
        ),
{
    let m = text.parse::<mime::Mime>().ok()?;
    let suffix = match m.suffix() {
        Some(name) => Some(name.as_str().to_owned()),
        None => None,
    };
    Some((m.type_().as_str().to_owned(), m.subtype().as_str().to_owned(), suffix))
}

/// Whether `c` is a lower-case hexadecimal digit.
pub open spec fn is_lower_hex(c: char) -> bool {
    ('0' <= c && c <= '9') || ('a' <= c && c <= 'f')
}

/// `uuid::Uuid::new_v4` in its simple form: 32 lower-case hexadecimal digits.
/// Which ones is left open: they are random.
#[verifier::external_body]
pub(crate) fn random_uuid_hex() -> (r: String)
    ensures
        r@.len() == 32,
        forall|i: int| 0 <= i < 32 ==> is_lower_hex(#[trigger] r@[i]),
{
    uuid::Uuid::new_v4().simple().to_string()
}

/// The URL-safe base64 text of a byte string, without padding.
pub uninterp spec fn base64url_text(bytes: Seq<u8>) -> Seq<char>;

/// The longest input whose base64 text has a length that fits in `usize`.
pub open spec fn base64_input_limit() -> int {
    (usize::MAX / 4) * 3
}

/// `base64::Engine::encode` of the engine `URL_SAFE_NO_PAD`. It panics where
/// the encoded length overflows, so such inputs are left out.
#[verifier::external_body]
pub(crate) fn base64url_encode(bytes: &[u8]) -> (r: String)
    requires
        bytes@.len() <= base64_input_limit(),
    ensures
        r@ == base64url_text(bytes@),
{
    base64::Engine::encode(&base64::engine::general_purpose::URL_SAFE_NO_PAD, bytes)
}

/// The SHA-256 digest of a byte string.
pub uninterp spec fn sha256_digest(bytes: Seq<u8>) -> Seq<u8>;

/// `sha2::Sha256::digest`: the digest, which has 32 bytes.
#[verifier::external_body]
pub(crate) fn sha256(bytes: &[u8]) -> (r: Vec<u8>)
    ensures
        r@ == sha256_digest(bytes@),
        r@.len() == 32,
{
    <sha2::Sha256 as sha2::Digest>::digest(bytes).to_vec()
}

/// The RSASSA-PKCS1-v1_5 signature, for SHA-256, that the private key in a
/// PKCS#8 PEM text puts under a digest. Nothing where the text holds no valid
/// RSA key or the key cannot sign the digest.
pub uninterp spec fn rsa_sha256_signature(pem: Seq<char>, digest: Seq<u8>) -> Option<Seq<u8>>;

/// Reads the key with `RsaPrivateKey::from_pkcs8_pem`, checks it with
/// `validate` and signs the digest with `sign` under `Pkcs1v15Sign` for
/// SHA-256. The signature is a function of key and digest: no randomness
/// enters it.
#[verifier::external_body]
pub(crate) fn rsa_sign_sha256(pem: &str, digest: &[u8]) -> (r: Option<Vec<u8>>)
    ensures
        r is Some <==> rsa_sha256_signature(pem@, digest@) is Some,
        r matches Some(s) ==> rsa_sha256_signature(pem@, digest@) == Some(s@),
{
    let key = rsa::RsaPrivateKey::from_pkcs8_pem(pem).ok()?;
    key.validate().ok()?;
    key.sign(rsa::Pkcs1v15Sign::new::<sha2::Sha256>(), digest).ok()
}

/// What a JSON document holds under a key of its top-level object: the text
/// where the member is a string, and the number where it is a non-negative
/// integer that fits in 64 bits. Nothing at all where the bytes are no JSON
/// document, the document is no object or the key is absent.
pub uninterp spec fn json_member(document: Seq<u8>, key: Seq<char>) -> Option<
    (Option<Seq<char>>, Option<u64>),
>;

/// Parses with `serde_json::from_slice`, looks the member up with
/// `Value::get` and reads it with `Value::as_str` and `Value::as_u64`.
#[verifier::external_body]
pub(crate) fn json_field(document: &[u8], key: &str) -> (r: Option<(Option<String>, Option<u64>)>)
    ensures
        r is Some <==> json_member(document@, key@) is Some,
        r matches Some(m) ==> json_member(document@, key@) == Some(
            (
                match m.0 {
                    Some(text) => Some(text@),
                    None => None,
                },
                m.1,
            ),
        ),
{
    let value = serde_json::from_slice::<serde_json::Value>(document).ok()?;
    let member = value.get(key)?;
    let text = match member.as_str() {
        Some(text) => Some(text.to_owned()),
        None => None,
    };
    Some((text, member.as_u64()))
}

/// A JSON text with the white space outside its strings removed.
pub uninterp spec fn minified_json(text: Seq<char>) -> Seq<char>;

/// `minify::json::minify`.
#[verifier::external_body]
pub(crate) fn minify_json(text: &str) -> (r: String)
    ensures
        r@ == minified_json(text@),
{
    minify::json::minify(text)
}

/// The PNG file, one 8-bit grey channel, of the QR code of a text. Nothing
/// where the text is too long for a QR code or the picture cannot be written.
pub uninterp spec fn qr_code_png(text: Seq<char>) -> Option<Seq<u8>>;

/// Encodes with `qrcode::QrCode::new`, renders with `render::<Luma<u8>>` and
/// writes the image with `image::codecs::png::PngEncoder`.
#[verifier::external_body]
pub(crate) fn qr_png(text: &str) -> (r: Option<Vec<u8>>)
    ensures
        r is Some <==> qr_code_png(text@) is Some,
        r matches Some(png) ==> qr_code_png(text@) == Some(png@),
{
    let code = qrcode::QrCode::new(text.as_bytes()).ok()?;
    let picture = code.render::<image::Luma<u8>>().build();
    let mut png: Vec<u8> = Vec::new();
    let (width, height) = (picture.width(), picture.height());
    image::codecs::png::PngEncoder::new(&mut png)
        .write_image(&picture, width, height, image::ExtendedColorType::L8).ok()?;
    Some(png)
}

/// The latest time, in seconds since the Unix epoch, that `chrono` can hold:
/// the last second of the year 262142.
pub open spec fn latest_clock_time() -> int {
    8_210_266_876_799
}

/// `chrono::Utc::now().timestamp()`: the wall clock in seconds since the Unix
/// epoch. Which time it shows is left open; it is a time from the epoch on,
/// and one that `chrono` can hold.
#[verifier::external_body]
pub(crate) fn unix_now() -> (r: i64)
    ensures
        0 <= r <= latest_clock_time(),
{
    chrono::Utc::now().timestamp()
}

} // verus!
