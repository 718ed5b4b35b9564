use signal_link::error::SignalError;
use signal_link::registration::{
    decrypt_device_name, encode_device_name, encrypt_device_name, encrypted_device_name_text,
    pre_key_id, profile_key_bytes, public_key_point, DeviceName,
};

fn serialized_public(private: [u8; 32]) -> Vec<u8> {
    let secret = x25519_dalek::StaticSecret::from(private);
    let mut out = vec![5u8];
    out.extend_from_slice(x25519_dalek::PublicKey::from(&secret).as_bytes());
    out
}

#[test]
fn device_name_round_trips() {
    let identity_private = [9u8; 32];
    let identity_public = serialized_public(identity_private);
    let dn = encrypt_device_name(&[7u8; 32], "My Laptop", &identity_public).unwrap();
    assert_eq!(dn.ephemeral_public, serialized_public([7u8; 32]));
    assert_eq!(dn.synthetic_iv.len(), 16);
    assert_ne!(dn.ciphertext, b"My Laptop".to_vec());
    assert_eq!(decrypt_device_name(&dn, &identity_private).unwrap(), "My Laptop");
}

#[test]
fn device_name_fails_for_another_key_or_tampering() {
    let identity_public = serialized_public([9u8; 32]);
    let dn = encrypt_device_name(&[7u8; 32], "My Laptop", &identity_public).unwrap();
    assert!(matches!(decrypt_device_name(&dn, &[8u8; 32]), Err(SignalError::CryptoError(_))));
    let mut bad = dn.clone();
    bad.ciphertext[0] ^= 1;
    assert!(matches!(decrypt_device_name(&bad, &[9u8; 32]), Err(SignalError::CryptoError(_))));
}

#[test]
fn malformed_identity_key_is_refused() {
    match encrypt_device_name(&[7u8; 32], "x", &[1u8; 33]) {
        Err(SignalError::CryptoError(m)) => assert_eq!(m, "Key agreement failed: invalid public key"),
        other => panic!("{:?}", other),
    }
    assert_eq!(public_key_point(&[5u8; 32]), None);
    assert_eq!(public_key_point(&serialized_public([1; 32])).unwrap().len(), 32);
}

#[test]
fn device_name_message_bytes() {
    let dn = DeviceName { ephemeral_public: vec![1, 2], synthetic_iv: vec![3], ciphertext: vec![] };
    assert_eq!(encode_device_name(&dn), vec![0x0a, 2, 1, 2, 0x12, 1, 3, 0x1a, 0]);
    assert_eq!(encrypted_device_name_text(&dn), "CgIBAhIBAxoA");
}

#[test]
fn pre_key_ids_wrap_into_range() {
    assert_eq!(pre_key_id(0, 0), 1);
    assert_eq!(pre_key_id(5, 2), 8);
    assert_eq!(pre_key_id(0xFFFFFE, 0), 1);
    assert_eq!(pre_key_id(u32::MAX, u32::MAX), ((2 * (u32::MAX as u64)) % 0xFFFFFE + 1) as u32);
}

#[test]
fn profile_key_must_be_32_bytes() {
    assert_eq!(profile_key_bytes(&[1u8; 32]).unwrap(), vec![1u8; 32]);
    match profile_key_bytes(&[1u8; 31]) {
        Err(SignalError::ProtocolError(m)) => assert_eq!(m, "Invalid profile key length"),
        other => panic!("{:?}", other),
    }
}
