//! Calls into the cryptography, compression and encoding crates.
//!
//! Each function here makes one outside call and states what the call
//! returns. Results that take pages to write down (a digest, a cipher, a
//! text encoding) are given a name below, and the callers' contracts speak
//! of that name.
use vstd::prelude::*;
use vstd::utf8::{decode_utf8, valid_utf8};

use aes::cipher::{BlockDecryptMut, KeyIvInit, StreamCipher};
use base64::Engine;
use hmac::Mac;
use std::io::Read;

verus! {

/// HKDF-SHA256 with an empty salt: `len` bytes expanded from `ikm` under `info`.
pub uninterp spec fn hkdf_sha256(ikm: Seq<u8>, info: Seq<u8>, len: nat) -> Seq<u8>;

/// The 32-byte HMAC-SHA256 of `data` under `key`.
pub uninterp spec fn hmac_sha256(key: Seq<u8>, data: Seq<u8>) -> Seq<u8>;

/// AES-256-CBC decryption of `ct` under `key` and `iv`, with PKCS#7 padding
/// removed; `None` where the length or the padding is not valid.
pub uninterp spec fn aes256_cbc_pkcs7_decrypt(key: Seq<u8>, iv: Seq<u8>, ct: Seq<u8>) -> Option<Seq<u8>>;

/// The AES-256-CTR keystream (128-bit big-endian counter, all-zero IV) of
/// `key`, `len` bytes long.
pub uninterp spec fn aes256_ctr_keystream(key: Seq<u8>, len: nat) -> Seq<u8>;

/// What a gzip decoder reads out of `data`, or `None` where it fails.
pub uninterp spec fn gunzip(data: Seq<u8>) -> Option<Seq<u8>>;

/// Standard base64 (with padding) of `data`.
pub uninterp spec fn base64_standard(data: Seq<u8>) -> Seq<char>;

/// The bytes that standard base64 text `s` decodes to, or `None`.
pub uninterp spec fn base64_standard_decoded(s: Seq<char>) -> Option<Seq<u8>>;

/// The hyphenated lower-case text of the UUID whose 16 bytes are `bytes`.
pub uninterp spec fn uuid_hyphenated(bytes: Seq<u8>) -> Seq<char>;

/// The 16 bytes of the UUID written in `s`, or `None` where `s` is no UUID.
pub uninterp spec fn uuid_parsed(s: Seq<char>) -> Option<Seq<u8>>;

/// `s` in `application/x-www-form-urlencoded` form.
pub uninterp spec fn form_urlencoded(s: Seq<char>) -> Seq<char>;

/// `s` with every byte but the unreserved ones percent-encoded.
pub uninterp spec fn percent_encoded(s: Seq<char>) -> Seq<char>;

/// The text that `bytes` encode in UTF-8, or `None` where they are not UTF-8.
pub open spec fn utf8_decoded(bytes: Seq<u8>) -> Option<Seq<char>> {
    if valid_utf8(bytes) {
        Some(decode_utf8(bytes))
    } else {
        None
    }
}

/// The X25519 shared secret of a 32-byte private scalar and a 32-byte public point.
pub uninterp spec fn x25519(private_key: Seq<u8>, public_key: Seq<u8>) -> Seq<u8>;

/// The X25519 public point of a 32-byte private scalar.
pub uninterp spec fn x25519_base(private_key: Seq<u8>) -> Seq<u8>;

/// Byte-wise exclusive or of `data` with `stream`, as long as `data`.
pub open spec fn xor_bytes(data: Seq<u8>, stream: Seq<u8>) -> Seq<u8> {
    Seq::new(data.len(), |i: int| data[i] ^ stream[i])
}

/// Relies on `hkdf::Hkdf::<Sha256>::new(None, ikm).expand(info, okm)`, which
/// fills `okm` and fails only for more than 255 blocks of output.
#[verifier::external_body]
pub(crate) fn hkdf_expand(ikm: &[u8], info: &[u8], len: usize) -> (r: Vec<u8>)
    requires
        len <= 255 * 32,
    ensures
        r@ == hkdf_sha256(ikm@, info@, len as nat),
        r@.len() == len,
{
    let mut okm = vec![0u8; len];
    let hk = hkdf::Hkdf::<sha2::Sha256>::new(None, ikm);
    hk.expand(info, &mut okm).expect("at most 255 blocks");
    okm
}

/// Relies on `hmac::Hmac::<Sha256>`: `new_from_slice` takes a key of any
/// length, and `finalize` gives the 32-byte tag.
#[verifier::external_body]
pub(crate) fn hmac_sha256_tag(key: &[u8], data: &[u8]) -> (r: Vec<u8>)
    ensures
        r@ == hmac_sha256(key@, data@),
        r@.len() == 32,
{
    let mut mac = hmac::Hmac::<sha2::Sha256>::new_from_slice(key).expect("any key length");
    mac.update(data);
    mac.finalize().into_bytes().to_vec()
}

/// Relies on `hmac::Mac::verify_slice`, which accepts exactly the tag that
/// `finalize` would give, compared in constant time.
#[verifier::external_body]
pub(crate) fn hmac_sha256_verify(key: &[u8], data: &[u8], tag: &[u8]) -> (r: bool)
    ensures
        r == (tag@ == hmac_sha256(key@, data@)),
{
    let mut mac = hmac::Hmac::<sha2::Sha256>::new_from_slice(key).expect("any key length");
    mac.update(data);
    mac.verify_slice(tag).is_ok()
}

/// Relies on `cbc::Decryptor::<aes::Aes256>` and `decrypt_padded_mut::<Pkcs7>`.
#[verifier::external_body]
pub(crate) fn aes256_cbc_decrypt(key: &[u8], iv: &[u8], ct: &[u8]) -> (r: Option<Vec<u8>>)
    requires
        key@.len() == 32,
        iv@.len() == 16,
    ensures
        r matches Some(v) ==> aes256_cbc_pkcs7_decrypt(key@, iv@, ct@) == Some(v@),
        r is None ==> aes256_cbc_pkcs7_decrypt(key@, iv@, ct@) is None,
{
    let mut buf = ct.to_vec();
    let dec = cbc::Decryptor::<aes::Aes256>::new_from_slices(key, iv).expect("sizes checked");
    let out = dec.decrypt_padded_mut::<aes::cipher::block_padding::Pkcs7>(&mut buf).ok()?;
    Some(out.to_vec())
}

/// Relies on `ctr::Ctr128BE::<aes::Aes256>` with an all-zero IV:
/// `apply_keystream` xors the data with the keystream.
#[verifier::external_body]
pub(crate) fn aes256_ctr_apply(key: &[u8], data: &[u8]) -> (r: Vec<u8>)
    requires
        key@.len() == 32,
    ensures
        r@ == xor_bytes(data@, aes256_ctr_keystream(key@, data@.len())),
{
    let mut out = data.to_vec();
    let iv = [0u8; 16];
    let mut cipher = ctr::Ctr128BE::<aes::Aes256>::new_from_slices(key, &iv).expect("sizes checked");
    cipher.apply_keystream(&mut out);
    out
}

/// Relies on `flate2::read::GzDecoder` read to its end.
#[verifier::external_body]
pub(crate) fn gzip_decompress(data: &[u8]) -> (r: Option<Vec<u8>>)
    ensures
        r matches Some(v) ==> gunzip(data@) == Some(v@),
        r is None ==> gunzip(data@) is None,
{
    let mut out = Vec::new();
    flate2::read::GzDecoder::new(data).read_to_end(&mut out).ok()?;
    Some(out)
}

/// Relies on `base64::engine::general_purpose::STANDARD.encode`.
#[verifier::external_body]
pub(crate) fn base64_encode(data: &[u8]) -> (r: String)
    ensures
        r@ == base64_standard(data@),
{
    base64::engine::general_purpose::STANDARD.encode(data)
}

/// Relies on `base64::engine::general_purpose::STANDARD.decode`.
#[verifier::external_body]
pub(crate) fn base64_decode(s: &str) -> (r: Option<Vec<u8>>)
    ensures
        r matches Some(v) ==> base64_standard_decoded(s@) == Some(v@),
        r is None ==> base64_standard_decoded(s@) is None,
{
    base64::engine::general_purpose::STANDARD.decode(s).ok()
}

/// Relies on `uuid::Uuid::from_slice`, which takes any 16 bytes, and its
/// `Display`, the hyphenated form.
#[verifier::external_body]
pub(crate) fn uuid_text(bytes: &[u8]) -> (r: String)
    requires
        bytes@.len() == 16,
    ensures
        r@ == uuid_hyphenated(bytes@),
{
    uuid::Uuid::from_slice(bytes).expect("16 bytes").to_string()
}

/// Relies on `uuid::Uuid::parse_str`.
#[verifier::external_body]
pub(crate) fn uuid_parse(s: &str) -> (r: Option<[u8; 16]>)
    ensures
        r matches Some(b) ==> uuid_parsed(s@) == Some(b@),
        r is None ==> uuid_parsed(s@) is None,
{
    uuid::Uuid::parse_str(s).ok().map(|u| *u.as_bytes())
}

/// Relies on `url::form_urlencoded::byte_serialize`, the encoding that
/// `Url::query_pairs_mut().append_pair` writes.
#[verifier::external_body]
pub(crate) fn form_urlencode(s: &str) -> (r: String)
    ensures
        r@ == form_urlencoded(s@),
{
    url::form_urlencoded::byte_serialize(s.as_bytes()).collect::<String>()
}

/// Relies on `urlencoding::encode`.
#[verifier::external_body]
pub(crate) fn percent_encode(s: &str) -> (r: String)
    ensures
        r@ == percent_encoded(s@),
{
    urlencoding::encode(s).into_owned()
}

/// Relies on `String::from_utf8`: it fails exactly on bytes that are not
/// UTF-8, and otherwise holds the text they encode.
#[verifier::external_body]
pub(crate) fn utf8_decode(bytes: &[u8]) -> (r: Option<String>)
    ensures
        r is Some == valid_utf8(bytes@),
        r matches Some(s) ==> s@ == decode_utf8(bytes@),
{
    String::from_utf8(bytes.to_vec()).ok()
}

/// Relies on `String::push`.
#[verifier::external_body]
pub(crate) fn push_char(s: &mut String, c: char)
    ensures
        final(s)@ == old(s)@.push(c),
{
    s.push(c)
}

/// Relies on `x25519_dalek::StaticSecret::diffie_hellman`.
#[verifier::external_body]
pub(crate) fn x25519_agree(private_key: &[u8], public_key: &[u8]) -> (r: Vec<u8>)
    requires
        private_key@.len() == 32,
        public_key@.len() == 32,
    ensures
        r@ == x25519(private_key@, public_key@),
        r@.len() == 32,
{
    let private_key: [u8; 32] = private_key.try_into().expect("32 bytes");
    let public_key: [u8; 32] = public_key.try_into().expect("32 bytes");
    let secret = x25519_dalek::StaticSecret::from(private_key);
    secret.diffie_hellman(&x25519_dalek::PublicKey::from(public_key)).to_bytes().to_vec()
}

/// Relies on `x25519_dalek::PublicKey::from(&StaticSecret)`.
#[verifier::external_body]
pub(crate) fn x25519_public(private_key: &[u8]) -> (r: Vec<u8>)
    requires
        private_key@.len() == 32,
    ensures
        r@ == x25519_base(private_key@),
        r@.len() == 32,
{
    let private_key: [u8; 32] = private_key.try_into().expect("32 bytes");
    let secret = x25519_dalek::StaticSecret::from(private_key);
    x25519_dalek::PublicKey::from(&secret).to_bytes().to_vec()
}

} // verus!
