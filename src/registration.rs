//! Registration of a linked device: the encrypted device name that the
//! primary device decrypts, pre-key ids, and the checks on provisioned keys.
use vstd::prelude::*;
use vstd::string::StringSliceAdditionalSpecFns;

use crate::error::SignalError;
use crate::primitives::{
    aes256_ctr_apply, aes256_ctr_keystream, base64_encode, base64_standard, hmac_sha256,
    hmac_sha256_tag, utf8_decode, x25519, x25519_agree, x25519_base, x25519_public, xor_bytes,
};
use crate::text::string_of;
use crate::wire::{concat_bytes, copy_range, varint_bytes, write_bytes_field};

verus! {

/// The largest pre-key id.
pub const PRE_KEY_MEDIUM_MAX_VALUE: u32 = 0xFFFFFF;

/// The type byte of a serialized Curve25519 public key.
pub const DJB_KEY_TYPE: u8 = 5;

/// The label of the device-name authentication key.
pub const AUTH_LABEL: &'static str = "auth";

/// The label of the device-name cipher key.
pub const CIPHER_LABEL: &'static str = "cipher";

/// The id of the pre-key `index` places after the store's next id `offset`,
/// kept within 1 ..= 0xFFFFFE.
pub open spec fn pre_key_id_spec(offset: u32, index: u32) -> int {
    (offset as int + index as int) % (PRE_KEY_MEDIUM_MAX_VALUE as int - 1) + 1
}

/// The id of the pre-key `index` places after `offset`.
pub fn pre_key_id(offset: u32, index: u32) -> (r: u32)
    ensures
        r as int == pre_key_id_spec(offset, index),
        1 <= r < PRE_KEY_MEDIUM_MAX_VALUE,
{
    (((offset as u64 + index as u64) % (PRE_KEY_MEDIUM_MAX_VALUE as u64 - 1)) + 1) as u32
}

/// The profile key, which must be 32 bytes.
pub fn profile_key_bytes(profile_key: &[u8]) -> (r: Result<Vec<u8>, SignalError>)
    ensures
        profile_key@.len() == 32 ==> (r matches Ok(k) && k@ == profile_key@),
        profile_key@.len() != 32 ==> (r matches Err(SignalError::ProtocolError(m))
            && m@ == "Invalid profile key length"@),
{
    if profile_key.len() == 32 {
        Ok(copy_range(profile_key, 0, 32))
    } else {
        Err(SignalError::ProtocolError(string_of("Invalid profile key length")))
    }
}

/// The 32-byte point of a serialized public key: a type byte 5 and 32 bytes.
pub open spec fn key_point(serialized: Seq<u8>) -> Option<Seq<u8>> {
    if serialized.len() == 33 && serialized[0] == DJB_KEY_TYPE {
        Some(serialized.subrange(1, 33))
    } else {
        None
    }
}

/// Reads the point of a serialized public key.
pub fn public_key_point(serialized: &[u8]) -> (r: Option<Vec<u8>>)
    ensures
        match key_point(serialized@) {
            Some(p) => r matches Some(v) && v@ == p,
            None => r is None,
        },
{
    if serialized.len() == 33 && serialized[0] == DJB_KEY_TYPE {
        Some(copy_range(serialized, 1, 33))
    } else {
        None
    }
}

/// The serialized form of a public key point.
pub open spec fn serialized_key(point: Seq<u8>) -> Seq<u8> {
    seq![DJB_KEY_TYPE] + point
}

/// An encrypted device name.
#[derive(Debug, Clone)]
pub struct DeviceName {
    pub ephemeral_public: Vec<u8>,
    pub synthetic_iv: Vec<u8>,
    pub ciphertext: Vec<u8>,
}

/// The authentication key of a shared secret.
pub open spec fn auth_key_of(secret: Seq<u8>) -> Seq<u8> {
    hmac_sha256(secret, AUTH_LABEL.spec_bytes())
}

/// The synthetic IV of a plaintext: the first 16 bytes of its HMAC under
/// the authentication key.
pub open spec fn synthetic_iv_of(secret: Seq<u8>, plaintext: Seq<u8>) -> Seq<u8> {
    hmac_sha256(auth_key_of(secret), plaintext).subrange(0, 16)
}

/// The stream-cipher key: the HMAC of the synthetic IV under the HMAC of the
/// cipher label.
pub open spec fn cipher_key_of(secret: Seq<u8>, synthetic_iv: Seq<u8>) -> Seq<u8> {
    hmac_sha256(hmac_sha256(secret, CIPHER_LABEL.spec_bytes()), synthetic_iv)
}

/// AES-256-CTR with an all-zero IV under the cipher key.
pub open spec fn device_name_stream(secret: Seq<u8>, synthetic_iv: Seq<u8>, data: Seq<u8>) -> Seq<u8> {
    xor_bytes(data, aes256_ctr_keystream(cipher_key_of(secret, synthetic_iv), data.len()))
}

/// The device name that an ephemeral private key and the primary's identity
/// key point give for a plaintext: the ephemeral public key, the synthetic
/// IV and the ciphertext.
pub open spec fn device_name_model(ephemeral_private: Seq<u8>, identity_point: Seq<u8>, plaintext: Seq<u8>) -> (
    Seq<u8>,
    Seq<u8>,
    Seq<u8>,
) {
    let secret = x25519(ephemeral_private, identity_point);
    let iv = synthetic_iv_of(secret, plaintext);
    (serialized_key(x25519_base(ephemeral_private)), iv, device_name_stream(secret, iv, plaintext))
}

/// Encrypts the device name for the primary device, whose serialized ACI
/// identity key is `identity_public`, with the fresh ephemeral private key
/// `ephemeral_private`.
pub fn encrypt_device_name(ephemeral_private: &[u8], device_name: &str, identity_public: &[u8]) -> (r:
    Result<DeviceName, SignalError>)
    requires
        ephemeral_private@.len() == 32,
    ensures
        match key_point(identity_public@) {
            Some(p) => r matches Ok(dn) && (dn.ephemeral_public@, dn.synthetic_iv@, dn.ciphertext@)
                == device_name_model(ephemeral_private@, p, device_name.spec_bytes()),
            None => r matches Err(SignalError::CryptoError(m)) && m@
                == "Key agreement failed: invalid public key"@,
        },
{
    let point = match public_key_point(identity_public) {
        Some(p) => p,
        None => return Err(
            SignalError::CryptoError(string_of("Key agreement failed: invalid public key")),
        ),
    };
    let plaintext = device_name.as_bytes();
    let master_secret = x25519_agree(ephemeral_private, point.as_slice());
    let key1 = hmac_sha256_tag(master_secret.as_slice(), AUTH_LABEL.as_bytes());
    let full_iv = hmac_sha256_tag(key1.as_slice(), plaintext);
    let synthetic_iv = copy_range(full_iv.as_slice(), 0, 16);
    let key2 = hmac_sha256_tag(master_secret.as_slice(), CIPHER_LABEL.as_bytes());
    let cipher_key = hmac_sha256_tag(key2.as_slice(), synthetic_iv.as_slice());
    let ciphertext = aes256_ctr_apply(cipher_key.as_slice(), plaintext);
    let public = x25519_public(ephemeral_private);
    let prefix: [u8; 1] = [DJB_KEY_TYPE];
    let ephemeral_public = concat_bytes(prefix.as_slice(), public.as_slice());
    proof {
        assert(prefix@ =~= seq![DJB_KEY_TYPE]);
    }
    Ok(DeviceName { ephemeral_public, synthetic_iv, ciphertext })
}

/// What decrypting a device name with an identity private key gives: the
/// plaintext where the synthetic IV matches it and it is UTF-8 text.
pub open spec fn device_name_plaintext(
    identity_private: Seq<u8>,
    ephemeral_public: Seq<u8>,
    synthetic_iv: Seq<u8>,
    ciphertext: Seq<u8>,
) -> Option<Seq<u8>> {
    match key_point(ephemeral_public) {
        Some(p) => {
            let secret = x25519(identity_private, p);
            let plain = device_name_stream(secret, synthetic_iv, ciphertext);
            if synthetic_iv.len() == 16 && synthetic_iv_of(secret, plain) == synthetic_iv {
                Some(plain)
            } else {
                None
            }
        },
        None => None,
    }
}

/// Decrypts a device name with the identity private key of the device it
/// was encrypted for.
pub fn decrypt_device_name(dn: &DeviceName, identity_private: &[u8]) -> (r: Result<String, SignalError>)
    requires
        identity_private@.len() == 32,
    ensures
        match device_name_plaintext(
            identity_private@,
            dn.ephemeral_public@,
            dn.synthetic_iv@,
            dn.ciphertext@,
        ) {
            Some(p) => match crate::primitives::utf8_decoded(p) {
                Some(text) => r matches Ok(s) && s@ == text,
                None => r matches Err(SignalError::CryptoError(_)),
            },
            None => r matches Err(SignalError::CryptoError(_)),
        },
{
    let point = match public_key_point(dn.ephemeral_public.as_slice()) {
        Some(p) => p,
        None => return Err(SignalError::CryptoError(string_of("Invalid ephemeral public key"))),
    };
    if dn.synthetic_iv.len() != 16 {
        return Err(SignalError::CryptoError(string_of("Invalid synthetic IV")));
    }
    let master_secret = x25519_agree(identity_private, point.as_slice());
    let key2 = hmac_sha256_tag(master_secret.as_slice(), CIPHER_LABEL.as_bytes());
    let cipher_key = hmac_sha256_tag(key2.as_slice(), dn.synthetic_iv.as_slice());
    let plaintext = aes256_ctr_apply(cipher_key.as_slice(), dn.ciphertext.as_slice());
    let key1 = hmac_sha256_tag(master_secret.as_slice(), AUTH_LABEL.as_bytes());
    let check = hmac_sha256_tag(key1.as_slice(), plaintext.as_slice());
    let ghost secret = x25519(identity_private@, point@);
    proof {
        assert(master_secret@ == secret);
        assert(plaintext@ == device_name_stream(secret, dn.synthetic_iv@, dn.ciphertext@));
        assert(check@ == hmac_sha256(auth_key_of(secret), plaintext@));
    }
    let mut i: usize = 0;
    while i < 16
        invariant
            i <= 16,
            dn.synthetic_iv@.len() == 16,
            check@.len() == 32,
            check@ == hmac_sha256(auth_key_of(secret), plaintext@),
            key_point(dn.ephemeral_public@) == Some(point@),
            secret == x25519(identity_private@, point@),
            plaintext@ == device_name_stream(secret, dn.synthetic_iv@, dn.ciphertext@),
            forall|j: int| 0 <= j < i ==> check@[j] == dn.synthetic_iv@[j],
        decreases 16 - i,
    {
        if check[i] != dn.synthetic_iv[i] {
            proof {
                assert(check@.subrange(0, 16)[i as int] != dn.synthetic_iv@[i as int]);
                assert(check@.subrange(0, 16) != dn.synthetic_iv@);
                assert(synthetic_iv_of(secret, plaintext@) != dn.synthetic_iv@);
            }
            return Err(SignalError::CryptoError(string_of("Device name verification failed")));
        }
        i = i + 1;
    }
    proof {
        assert(check@.subrange(0, 16) =~= dn.synthetic_iv@);
    }
    match utf8_decode(plaintext.as_slice()) {
        Some(s) => Ok(s),
        None => Err(SignalError::CryptoError(string_of("Device name is not UTF-8"))),
    }
}

/// A device name encrypted for an identity key decrypts, with the matching
/// identity private key, to exactly the name: where both sides agree on the
/// shared secret (the Diffie-Hellman property of the two key pairs), the
/// synthetic IV checks and the keystream cancels.
pub proof fn lemma_device_name_round_trip(
    ephemeral_private: Seq<u8>,
    identity_private: Seq<u8>,
    identity_point: Seq<u8>,
    name: Seq<char>,
)
    requires
        x25519_base(ephemeral_private).len() == 32,
        hmac_sha256(
            auth_key_of(x25519(ephemeral_private, identity_point)),
            vstd::utf8::encode_utf8(name),
        ).len() == 32,
        x25519(identity_private, x25519_base(ephemeral_private)) == x25519(
            ephemeral_private,
            identity_point,
        ),
    ensures
        ({
            let (e, iv, ct) = device_name_model(ephemeral_private, identity_point, vstd::utf8::encode_utf8(name));
            device_name_plaintext(identity_private, e, iv, ct) == Some(vstd::utf8::encode_utf8(name))
                && crate::primitives::utf8_decoded(vstd::utf8::encode_utf8(name)) == Some(name)
        }),
{
    let plain = vstd::utf8::encode_utf8(name);
    let (e, iv, ct) = device_name_model(ephemeral_private, identity_point, plain);
    let secret = x25519(ephemeral_private, identity_point);
    assert(key_point(e) == Some(x25519_base(ephemeral_private))) by {
        assert(e.subrange(1, 33) =~= x25519_base(ephemeral_private));
    }
    let ks = aes256_ctr_keystream(cipher_key_of(secret, iv), plain.len());
    assert(ct.len() == plain.len());
    let back = device_name_stream(secret, iv, ct);
    assert forall|i: int| 0 <= i < plain.len() implies back[i] == plain[i] by {
        let a = plain[i];
        let b = ks[i];
        assert((a ^ b) ^ b == a) by (bit_vector);
    }
    assert(back =~= plain);
    vstd::utf8::encode_utf8_valid_utf8(name);
    vstd::utf8::encode_utf8_decode_utf8(name);
}

/// The device-name protobuf message: ephemeral public key (field 1),
/// synthetic IV (field 2) and ciphertext (field 3), each length-delimited.
pub open spec fn device_name_bytes(e: Seq<u8>, iv: Seq<u8>, ct: Seq<u8>) -> Seq<u8> {
    seq![0x0au8] + varint_bytes(e.len() as u64) + e + seq![0x12u8] + varint_bytes(iv.len() as u64) + iv
        + seq![0x1au8] + varint_bytes(ct.len() as u64) + ct
}

/// Encodes a device name as its protobuf message.
pub fn encode_device_name(dn: &DeviceName) -> (r: Vec<u8>)
    ensures
        r@ == device_name_bytes(dn.ephemeral_public@, dn.synthetic_iv@, dn.ciphertext@),
{
    let mut out: Vec<u8> = Vec::new();
    write_bytes_field(&mut out, 0x0a, dn.ephemeral_public.as_slice());
    write_bytes_field(&mut out, 0x12, dn.synthetic_iv.as_slice());
    write_bytes_field(&mut out, 0x1a, dn.ciphertext.as_slice());
    assert(out@ =~= device_name_bytes(dn.ephemeral_public@, dn.synthetic_iv@, dn.ciphertext@));
    out
}

/// The device name as the link request carries it: base64 of its message.
pub fn encrypted_device_name_text(dn: &DeviceName) -> (r: String)
    ensures
        r@ == base64_standard(device_name_bytes(dn.ephemeral_public@, dn.synthetic_iv@, dn.ciphertext@)),
{
    let bytes = encode_device_name(dn);
    base64_encode(bytes.as_slice())
}

} // verus!
