//! Keys of a transfer archive, and its fail-closed decryption.
use vstd::prelude::*;
use vstd::string::StringSliceAdditionalSpecFns;

use crate::error::SignalError;
use crate::primitives::{
    aes256_cbc_decrypt, aes256_cbc_pkcs7_decrypt, hkdf_expand, hkdf_sha256, hmac_sha256,
    hmac_sha256_verify,
};
use crate::text::string_of;
use crate::wire::{concat_bytes, copy_range};

verus! {

pub const BACKUP_ID_LEN: usize = 16;

pub const AES_KEY_LEN: usize = 32;

pub const HMAC_KEY_LEN: usize = 32;

pub const IV_LEN: usize = 16;

pub const MAC_LEN: usize = 32;

/// Domain separation of the backup id.
pub const BACKUP_ID_LABEL: &'static str = "20241024_SIGNAL_BACKUP_ID:";

/// Domain separation of the message-backup key block.
pub const MESSAGE_BACKUP_LABEL: &'static str = "20241007_SIGNAL_BACKUP_ENCRYPT_MESSAGE_BACKUP:";

/// The HMAC key and AES key of one backup.
pub struct DerivedKeys {
    pub aes_key: Vec<u8>,
    pub hmac_key: Vec<u8>,
}

/// The 16-byte backup id of a backup key and an ACI.
pub open spec fn backup_id_of(backup_key: Seq<u8>, aci: Seq<u8>) -> Seq<u8> {
    hkdf_sha256(backup_key, BACKUP_ID_LABEL.spec_bytes() + aci, 16)
}

/// The 64-byte key block of a backup key and a backup id.
pub open spec fn key_block_of(backup_key: Seq<u8>, backup_id: Seq<u8>) -> Seq<u8> {
    hkdf_sha256(backup_key, MESSAGE_BACKUP_LABEL.spec_bytes() + backup_id, 64)
}

/// The HMAC key: the first half of the key block.
pub open spec fn hmac_key_of(backup_key: Seq<u8>, backup_id: Seq<u8>) -> Seq<u8> {
    key_block_of(backup_key, backup_id).subrange(0, 32)
}

/// The AES key: the second half of the key block.
pub open spec fn aes_key_of(backup_key: Seq<u8>, backup_id: Seq<u8>) -> Seq<u8> {
    key_block_of(backup_key, backup_id).subrange(32, 64)
}

/// How the decryption of an archive ends.
pub enum DecryptOutcome {
    /// Shorter than an IV and a tag.
    TooShort,
    /// The tag is not the HMAC of IV and ciphertext.
    MacMismatch,
    /// Authenticated, but the ciphertext does not decrypt to padded data.
    BadCiphertext,
    /// The plaintext.
    Plain(Seq<u8>),
}

/// The IV: the first 16 bytes.
pub open spec fn iv_part(data: Seq<u8>) -> Seq<u8> {
    data.subrange(0, 16)
}

/// The ciphertext: between the IV and the tag.
pub open spec fn ciphertext_part(data: Seq<u8>) -> Seq<u8> {
    data.subrange(16, data.len() - 32)
}

/// The tag: the last 32 bytes.
pub open spec fn tag_part(data: Seq<u8>) -> Seq<u8> {
    data.subrange(data.len() - 32, data.len() as int)
}

/// Decryption of `IV(16) ‖ ciphertext ‖ tag(32)`: the length is checked
/// first, then the tag against the HMAC of `IV ‖ ciphertext`, and only an
/// authenticated ciphertext is decrypted.
pub open spec fn decrypt_outcome(data: Seq<u8>, backup_key: Seq<u8>, aci: Seq<u8>) -> DecryptOutcome {
    let id = backup_id_of(backup_key, aci);
    if data.len() < 48 {
        DecryptOutcome::TooShort
    } else if tag_part(data) != hmac_sha256(
        hmac_key_of(backup_key, id),
        data.subrange(0, data.len() - 32),
    ) {
        DecryptOutcome::MacMismatch
    } else {
        match aes256_cbc_pkcs7_decrypt(aes_key_of(backup_key, id), iv_part(data), ciphertext_part(data)) {
            Some(p) => DecryptOutcome::Plain(p),
            None => DecryptOutcome::BadCiphertext,
        }
    }
}

/// Derives the backup id: HKDF-SHA256 of the backup key, with the backup-id
/// label followed by the ACI's 16 bytes as info.
pub fn derive_backup_id(backup_key: &[u8], aci: &[u8; 16]) -> (r: Vec<u8>)
    ensures
        r@ == backup_id_of(backup_key@, aci@),
        r@.len() == BACKUP_ID_LEN,
{
    let info = concat_bytes(BACKUP_ID_LABEL.as_bytes(), aci.as_slice());
    hkdf_expand(backup_key, info.as_slice(), BACKUP_ID_LEN)
}

/// Derives the HMAC key and the AES key from the backup key and backup id.
pub fn derive_message_backup_keys(backup_key: &[u8], backup_id: &[u8]) -> (r: DerivedKeys)
    ensures
        r.hmac_key@ == hmac_key_of(backup_key@, backup_id@),
        r.aes_key@ == aes_key_of(backup_key@, backup_id@),
        r.hmac_key@.len() == HMAC_KEY_LEN,
        r.aes_key@.len() == AES_KEY_LEN,
{
    let info = concat_bytes(MESSAGE_BACKUP_LABEL.as_bytes(), backup_id);
    let full_key = hkdf_expand(backup_key, info.as_slice(), HMAC_KEY_LEN + AES_KEY_LEN);
    let hmac_key = copy_range(full_key.as_slice(), 0, HMAC_KEY_LEN);
    let aes_key = copy_range(full_key.as_slice(), HMAC_KEY_LEN, HMAC_KEY_LEN + AES_KEY_LEN);
    DerivedKeys { aes_key, hmac_key }
}

/// Decrypts a transfer archive laid out as `IV(16) ‖ ciphertext ‖ tag(32)`.
/// Input under 48 bytes is refused before any key is derived; the tag is
/// checked before any decryption; every failure is a `CryptoError`.
pub fn decrypt_backup(encrypted_data: &[u8], ephemeral_backup_key: &[u8], aci: &[u8; 16]) -> (r:
    Result<Vec<u8>, SignalError>)
    ensures
        match decrypt_outcome(encrypted_data@, ephemeral_backup_key@, aci@) {
            DecryptOutcome::TooShort => r matches Err(SignalError::CryptoError(m))
                && m@ == "Encrypted data too short"@,
            DecryptOutcome::MacMismatch => r matches Err(SignalError::CryptoError(m))
                && m@ == "HMAC verification failed - backup may be corrupted or key is wrong"@,
            DecryptOutcome::BadCiphertext => r matches Err(SignalError::CryptoError(m))
                && m@ == "AES decryption failed"@,
            DecryptOutcome::Plain(p) => r matches Ok(v) && v@ == p,
        },
{
    if encrypted_data.len() < IV_LEN + MAC_LEN {
        return Err(SignalError::CryptoError(string_of("Encrypted data too short")));
    }
    let backup_id = derive_backup_id(ephemeral_backup_key, aci);
    let keys = derive_message_backup_keys(ephemeral_backup_key, backup_id.as_slice());
    let n = encrypted_data.len();
    let iv = copy_range(encrypted_data, 0, IV_LEN);
    let authenticated = copy_range(encrypted_data, 0, n - MAC_LEN);
    let ciphertext = copy_range(encrypted_data, IV_LEN, n - MAC_LEN);
    let mac = copy_range(encrypted_data, n - MAC_LEN, n);
    if !hmac_sha256_verify(keys.hmac_key.as_slice(), authenticated.as_slice(), mac.as_slice()) {
        return Err(
            SignalError::CryptoError(
                string_of("HMAC verification failed - backup may be corrupted or key is wrong"),
            ),
        );
    }
    match aes256_cbc_decrypt(keys.aes_key.as_slice(), iv.as_slice(), ciphertext.as_slice()) {
        Some(plain) => Ok(plain),
        None => Err(SignalError::CryptoError(string_of("AES decryption failed"))),
    }
}

/// Key derivation is a function of its inputs: equal backup keys and ACIs
/// give equal backup ids, HMAC keys and AES keys.
pub proof fn lemma_derivation_deterministic(k1: Seq<u8>, a1: Seq<u8>, k2: Seq<u8>, a2: Seq<u8>)
    requires
        k1 == k2,
        a1 == a2,
    ensures
        backup_id_of(k1, a1) == backup_id_of(k2, a2),
        hmac_key_of(k1, backup_id_of(k1, a1)) == hmac_key_of(k2, backup_id_of(k2, a2)),
        aes_key_of(k1, backup_id_of(k1, a1)) == aes_key_of(k2, backup_id_of(k2, a2)),
{
}

/// Decryption is fail-closed against a changed tag: where an archive
/// authenticates, flipping any bit of its tag makes the HMAC check fail, and
/// nothing is decrypted.
pub proof fn lemma_flipped_tag_rejected(data: Seq<u8>, backup_key: Seq<u8>, aci: Seq<u8>, i: int, bit: u8)
    requires
        data.len() >= 48,
        data.len() - 32 <= i < data.len(),
        bit != 0,
        !(decrypt_outcome(data, backup_key, aci) is MacMismatch),
    ensures
        decrypt_outcome(data.update(i, data[i] ^ bit), backup_key, aci) is MacMismatch,
{
    let flipped = data.update(i, data[i] ^ bit);
    let x = data[i];
    assert(x ^ bit != x) by (bit_vector)
        requires
            bit != 0u8,
    ;
    assert(flipped.subrange(0, flipped.len() - 32) =~= data.subrange(0, data.len() - 32));
    assert(tag_part(flipped)[i - (data.len() - 32)] != tag_part(data)[i - (data.len() - 32)]);
}

} // verus!
