use aes::cipher::{BlockEncryptMut, KeyIvInit};
use hkdf::Hkdf;
use hmac::Mac;
use sha2::Sha256;
use std::io::Write;

use signal_link::archive::read_transfer_archive;
use signal_link::backup_crypto::{
    decrypt_backup, derive_backup_id, derive_message_backup_keys, AES_KEY_LEN, BACKUP_ID_LEN,
    HMAC_KEY_LEN,
};
use signal_link::error::SignalError;
use signal_link::frames::{parse_backup, parse_frames};
use signal_link::wire::read_varint;

fn varint(mut v: u64) -> Vec<u8> {
    let mut out = Vec::new();
    loop {
        if v < 128 {
            out.push(v as u8);
            return out;
        }
        out.push((v % 128) as u8 | 0x80);
        v /= 128;
    }
}

fn len_field(tag: u8, body: &[u8]) -> Vec<u8> {
    let mut out = vec![tag];
    out.extend(varint(body.len() as u64));
    out.extend_from_slice(body);
    out
}

fn varint_field(tag: u8, v: u64) -> Vec<u8> {
    let mut out = vec![tag];
    out.extend(varint(v));
    out
}

fn frame(body: &[u8]) -> Vec<u8> {
    let mut out = varint(body.len() as u64);
    out.extend_from_slice(body);
    out
}

fn gzip(data: &[u8]) -> Vec<u8> {
    let mut enc = flate2::write::GzEncoder::new(Vec::new(), flate2::Compression::default());
    enc.write_all(data).unwrap();
    enc.finish().unwrap()
}

fn alice_recipient() -> Vec<u8> {
    let mut contact = len_field(0x0a, &[0x11u8; 16]);
    contact.extend(len_field(0x5a, b"Alice"));
    let mut recipient = varint_field(0x08, 7);
    recipient.extend(len_field(0x12, &contact));
    len_field(0x12, &recipient)
}

fn hi_chat_item() -> Vec<u8> {
    let text = len_field(0x0a, b"hi");
    let standard = len_field(0x12, &text);
    let mut item = varint_field(0x08, 7);
    item.extend(varint_field(0x10, 7));
    item.extend(varint_field(0x18, 1_700_000_000_000));
    item.extend(len_field(0x5a, &standard));
    len_field(0x22, &item)
}

fn encrypt_archive(plain: &[u8], key: &[u8], aci: &[u8; 16], iv: [u8; 16]) -> Vec<u8> {
    let id = derive_backup_id(key, aci);
    let keys = derive_message_backup_keys(key, &id);
    let ct = cbc::Encryptor::<aes::Aes256>::new_from_slices(&keys.aes_key, &iv)
        .unwrap()
        .encrypt_padded_vec_mut::<aes::cipher::block_padding::Pkcs7>(plain);
    let mut out = iv.to_vec();
    out.extend(ct);
    let mut mac = hmac::Hmac::<Sha256>::new_from_slice(&keys.hmac_key).unwrap();
    mac.update(&out);
    out.extend(mac.finalize().into_bytes());
    out
}

#[test]
fn test_derive_backup_id() {
    let key = [0u8; 32];
    let aci = [0u8; 16];
    let backup_id = derive_backup_id(&key, &aci);

    assert_eq!(backup_id.len(), BACKUP_ID_LEN);
}

#[test]
fn test_derive_message_backup_keys() {
    let key = [0u8; 32];
    let backup_id = [0u8; BACKUP_ID_LEN];
    let derived = derive_message_backup_keys(&key, &backup_id);

    assert_eq!(derived.aes_key.len(), AES_KEY_LEN);
    assert_eq!(derived.hmac_key.len(), HMAC_KEY_LEN);
}

#[test]
fn test_decrypt_backup_too_short() {
    let key = [0u8; 32];
    let aci = [0u8; 16];
    let short_data = [0u8; 16];

    let result = decrypt_backup(&short_data, &key, &aci);
    assert!(result.is_err());
}

#[test]
fn backup_id_of_zero_key_and_nil_aci_is_fixed() {
    let key = [0u8; 32];
    let aci = [0u8; 16];
    let mut expected = [0u8; 16];
    let mut info = b"20241024_SIGNAL_BACKUP_ID:".to_vec();
    info.extend_from_slice(&aci);
    Hkdf::<Sha256>::new(None, &key).expand(&info, &mut expected).unwrap();
    let first = derive_backup_id(&key, &aci);
    let second = derive_backup_id(&key, &aci);
    assert_eq!(first, expected.to_vec());
    assert_eq!(first, second);
}

#[test]
fn message_backup_keys_split_the_key_block() {
    let key = [3u8; 32];
    let id = [4u8; 16];
    let mut block = [0u8; 64];
    let mut info = b"20241007_SIGNAL_BACKUP_ENCRYPT_MESSAGE_BACKUP:".to_vec();
    info.extend_from_slice(&id);
    Hkdf::<Sha256>::new(None, &key).expand(&info, &mut block).unwrap();
    let keys = derive_message_backup_keys(&key, &id);
    assert_eq!(keys.hmac_key, block[..32].to_vec());
    assert_eq!(keys.aes_key, block[32..].to_vec());
}

#[test]
fn derivation_changes_with_any_input_byte() {
    let key = [0u8; 32];
    let aci = [0u8; 16];
    let id = derive_backup_id(&key, &aci);
    let keys = derive_message_backup_keys(&key, &id);

    let mut key2 = key;
    key2[31] ^= 1;
    let id2 = derive_backup_id(&key2, &aci);
    let keys2 = derive_message_backup_keys(&key2, &id2);
    assert_ne!(id, id2);
    assert_ne!(keys.hmac_key, keys2.hmac_key);
    assert_ne!(keys.aes_key, keys2.aes_key);

    let mut aci3 = aci;
    aci3[0] = 1;
    let id3 = derive_backup_id(&key, &aci3);
    let keys3 = derive_message_backup_keys(&key, &id3);
    assert_ne!(id, id3);
    assert_ne!(keys.hmac_key, keys3.hmac_key);
    assert_ne!(keys.aes_key, keys3.aes_key);
}

#[test]
fn decrypt_round_trip_and_bit_flips_fail_closed() {
    let key = [5u8; 32];
    let aci = [6u8; 16];
    let plain = b"transfer archive contents".to_vec();
    let data = encrypt_archive(&plain, &key, &aci, [9u8; 16]);
    assert_eq!(decrypt_backup(&data, &key, &aci).unwrap(), plain);

    for i in [0, 15, 16, data.len() - 33, data.len() - 32, data.len() - 1] {
        let mut bad = data.clone();
        bad[i] ^= 0x01;
        match decrypt_backup(&bad, &key, &aci) {
            Err(SignalError::CryptoError(m)) => assert!(m.starts_with("HMAC verification failed")),
            other => panic!("flip at {} gave {:?}", i, other),
        }
    }
}

#[test]
fn decrypt_rejects_47_bytes_and_wrong_key() {
    let key = [5u8; 32];
    let aci = [6u8; 16];
    match decrypt_backup(&[0u8; 47], &key, &aci) {
        Err(SignalError::CryptoError(m)) => assert_eq!(m, "Encrypted data too short"),
        other => panic!("{:?}", other),
    }
    let data = encrypt_archive(b"x", &key, &aci, [1u8; 16]);
    match decrypt_backup(&data, &[7u8; 32], &aci) {
        Err(SignalError::CryptoError(m)) => assert!(m.starts_with("HMAC verification failed")),
        other => panic!("{:?}", other),
    }
}

#[test]
fn authenticated_but_unpadded_ciphertext_fails_in_aes() {
    let key = [5u8; 32];
    let aci = [6u8; 16];
    let id = derive_backup_id(&key, &aci);
    let keys = derive_message_backup_keys(&key, &id);
    let mut data = vec![0u8; 16 + 15];
    let mut mac = hmac::Hmac::<Sha256>::new_from_slice(&keys.hmac_key).unwrap();
    mac.update(&data);
    data.extend(mac.finalize().into_bytes());
    match decrypt_backup(&data, &key, &aci) {
        Err(SignalError::CryptoError(m)) => assert_eq!(m, "AES decryption failed"),
        other => panic!("{:?}", other),
    }
}

#[test]
fn varints_decode() {
    for v in [0u64, 127, 128, 16384, (1u64 << 63) - 1] {
        let bytes = varint(v);
        let mut offset = 0usize;
        assert_eq!(read_varint(&bytes, &mut offset), Some(v));
        assert_eq!(offset, bytes.len());
    }
    assert_eq!(varint(128), vec![0x80, 0x01]);
}

#[test]
fn truncated_varint_gives_no_value() {
    let bytes = [0x80u8, 0x80];
    let mut offset = 0usize;
    assert_eq!(read_varint(&bytes, &mut offset), None);
    assert_eq!(offset, 2);
}

#[test]
fn overlong_varint_gives_no_value() {
    let bytes = [0xffu8; 12];
    let mut offset = 0usize;
    assert_eq!(read_varint(&bytes, &mut offset), None);
    assert_eq!(offset, 10);
}

#[test]
fn one_recipient_and_one_chat_item() {
    let mut body = alice_recipient();
    body.extend(hi_chat_item());
    let data = gzip(&frame(&body));
    let parsed = parse_backup(&data).unwrap();
    assert_eq!(parsed.frame_count, 1);
    assert_eq!(parsed.conversations.len(), 1);
    assert_eq!(parsed.messages.len(), 1);
    let conv = &parsed.conversations[0];
    assert_eq!(conv.id, "7");
    assert_eq!(conv.recipient_uuid.as_deref(), Some("11111111-1111-1111-1111-111111111111"));
    assert_eq!(conv.name.as_deref(), Some("Alice"));
    let msg = &parsed.messages[0];
    assert_eq!(msg.body.as_deref(), Some("hi"));
    assert_eq!(msg.id, "1700000000000");
    assert_eq!(msg.conversation_id, "7");
    assert_eq!(msg.sender_uuid, "7");
    assert_eq!(msg.timestamp, 1_700_000_000_000);
    assert!(!msg.is_outgoing);
}

#[test]
fn corrupted_second_frame_stops_the_scan() {
    let mut data = frame(&hi_chat_item());
    data.extend(varint(1000));
    data.extend_from_slice(&[0x22, 0x05, 0x08]);
    let parsed = parse_frames(&data);
    assert_eq!(parsed.frame_count, 1);
    assert_eq!(parsed.messages.len(), 1);
    assert_eq!(parsed.messages[0].body.as_deref(), Some("hi"));
    assert!(parsed.conversations.is_empty());
}

#[test]
fn unknown_fields_are_skipped() {
    let mut body = varint_field(0x78, 5);
    body.extend(len_field(0x7a, b"zzz"));
    body.extend([0x7d, 1, 2, 3, 4]);
    body.extend([0x79, 1, 2, 3, 4, 5, 6, 7, 8]);
    body.extend(hi_chat_item());
    let parsed = parse_frames(&frame(&body));
    assert_eq!(parsed.messages.len(), 1);
    assert_eq!(parsed.messages[0].body.as_deref(), Some("hi"));
}

#[test]
fn group_recipient_and_outgoing_item() {
    let group = len_field(0x0a, &[1, 2, 3]);
    let mut recipient = varint_field(0x08, 9);
    recipient.extend(len_field(0x1a, &group));
    let mut item = varint_field(0x08, 9);
    item.extend(len_field(0x4a, &[]));
    let mut body = len_field(0x12, &recipient);
    body.extend(len_field(0x22, &item));
    let parsed = parse_frames(&frame(&body));
    assert_eq!(parsed.conversations[0].group_id, Some(vec![1, 2, 3]));
    assert_eq!(parsed.conversations[0].name, None);
    assert!(parsed.messages[0].is_outgoing);
    assert_eq!(parsed.messages[0].body, None);
    assert_eq!(parsed.messages[0].id, "");
}

#[test]
fn recipient_without_id_is_dropped() {
    let contact = len_field(0x5a, b"Bob");
    let recipient = len_field(0x12, &contact);
    let parsed = parse_frames(&frame(&len_field(0x12, &recipient)));
    assert!(parsed.conversations.is_empty());
    assert_eq!(parsed.frame_count, 1);
}

#[test]
fn bad_gzip_is_a_protocol_error() {
    match parse_backup(&[1, 2, 3]) {
        Err(SignalError::ProtocolError(m)) => assert_eq!(m, "Gzip decompression failed"),
        other => panic!("{:?}", other.is_ok()),
    }
}

#[test]
fn transfer_archive_decrypts_and_parses() {
    let key = [2u8; 32];
    let aci = [0x11u8; 16];
    let mut body = alice_recipient();
    body.extend(hi_chat_item());
    let data = encrypt_archive(&gzip(&frame(&body)), &key, &aci, [3u8; 16]);
    let parsed = read_transfer_archive(&data, &key, &aci).unwrap();
    assert_eq!(parsed.messages[0].body.as_deref(), Some("hi"));
    assert!(matches!(read_transfer_archive(&data[..40], &key, &aci), Err(SignalError::CryptoError(_))));
}
