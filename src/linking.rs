//! The linking flow's decisions: which events report its progress, and
//! what of the registration the history sync needs.
use vstd::prelude::*;

use crate::archive::archive_auth_username;
use crate::error::SignalError;
use crate::primitives::uuid_hyphenated;
use crate::provisioning::FullProvisionMessage;
use crate::text::{decimal, string_of};
use crate::transport::SignalEvent;

verus! {

/// A public and private identity key, serialized.
#[derive(Debug, Clone)]
pub struct IdentityKeyPair {
    pub public_key: Vec<u8>,
    pub private_key: Vec<u8>,
}

/// What registration gives the device: fixed once produced, and read by the
/// transport session and the history sync.
#[derive(Debug, Clone)]
pub struct RegistrationResult {
    pub phone_number: String,
    pub device_id: u32,
    pub registration_id: u32,
    pub pni_registration_id: u32,
    pub aci: [u8; 16],
    pub pni: [u8; 16],
    pub aci_identity_key_pair: IdentityKeyPair,
    pub pni_identity_key_pair: IdentityKeyPair,
    pub profile_key: Vec<u8>,
    pub password: String,
}

/// The Basic-auth credentials of the history sync: `"{aci}.{device_id}"`
/// and the registration password.
pub fn history_sync_credentials(reg: &RegistrationResult) -> (r: (String, String))
    ensures
        r.0@ == uuid_hyphenated(reg.aci@) + "."@ + decimal(reg.device_id as nat),
        r.1@ == reg.password@,
{
    (archive_auth_username(&reg.aci, reg.device_id), string_of(reg.password.as_str()))
}

/// Where the provisioned identity carries a backup key, history sync is
/// possible and is announced.
pub fn history_available_event(msg: &FullProvisionMessage) -> (r: Option<SignalEvent>)
    ensures
        msg.ephemeral_backup_key is Some ==> r == Some(SignalEvent::MessageHistoryAvailable),
        msg.ephemeral_backup_key is None ==> r is None,
{
    if msg.ephemeral_backup_key.is_some() {
        Some(SignalEvent::MessageHistoryAvailable)
    } else {
        None
    }
}

/// The one terminal event of a linking attempt: completed, or failed with
/// its cause.
pub fn linking_finished_event(result: &Result<(), SignalError>) -> (r: SignalEvent)
    ensures
        match result {
            Ok(()) => r == SignalEvent::LinkingCompleted,
            Err(e) => r matches SignalEvent::LinkingFailed(m) && m@ == e.message_spec(),
        },
{
    match result {
        Ok(()) => SignalEvent::LinkingCompleted,
        Err(e) => SignalEvent::LinkingFailed(e.message()),
    }
}

/// The progress events of a history sync of `count` messages: started,
/// downloaded (half way), imported.
pub fn history_sync_progress(count: u32) -> (r: (SignalEvent, SignalEvent, SignalEvent))
    ensures
        r == (
            SignalEvent::MessageHistorySyncProgress { current: 0, total: 0 },
            SignalEvent::MessageHistorySyncProgress { current: count / 2, total: count },
            SignalEvent::MessageHistorySyncProgress { current: count, total: count },
        ),
{
    (
        SignalEvent::MessageHistorySyncProgress { current: 0, total: 0 },
        SignalEvent::MessageHistorySyncProgress { current: count / 2, total: count },
        SignalEvent::MessageHistorySyncProgress { current: count, total: count },
    )
}

/// The terminal event of a history sync: the number of messages imported,
/// or the cause of failure.
pub fn history_sync_finished_event(result: &Result<u32, SignalError>) -> (r: SignalEvent)
    ensures
        match result {
            Ok(n) => r == SignalEvent::MessageHistorySyncCompleted { message_count: *n },
            Err(e) => r matches SignalEvent::MessageHistorySyncFailed(m) && m@ == e.message_spec(),
        },
{
    match result {
        Ok(n) => SignalEvent::MessageHistorySyncCompleted { message_count: *n },
        Err(e) => SignalEvent::MessageHistorySyncFailed(e.message()),
    }
}

/// A count of messages as events carry it: its low 32 bits.
pub fn message_count(n: usize) -> (r: u32)
    ensures
        r == n as u32,
{
    n as u32
}

} // verus!
