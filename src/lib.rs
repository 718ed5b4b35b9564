//! Linking a new device to a messaging account: the provisioning handshake,
//! registration key material, the transfer archive's keys, fail-closed
//! decryption and frame format, and the decisions of the send/receive
//! session. Each function states what it returns, and Verus proves it.
//!
//! `primitives` holds every call into the cryptography and encoding crates;
//! the other modules are verified against what those calls are stated to do.
use vstd::prelude::*;

pub mod archive;
pub mod backup_crypto;
pub mod contacts;
pub mod error;
pub mod frames;
pub mod groups;
pub mod import;
pub mod linking;
pub mod messages;
pub mod primitives;
pub mod provisioning;
pub mod registration;
pub mod services;
pub mod settings;
pub mod text;
pub mod transport;
pub mod websocket;
pub mod wire;

verus! {

} // verus!
