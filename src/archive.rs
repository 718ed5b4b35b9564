//! The transfer archive: where to ask for it, what the answer means, and
//! where to download it from.
use vstd::prelude::*;

use crate::error::SignalError;
use crate::frames::{backup_model, conversations_view, messages_view, parse_backup, BackupData};
use crate::backup_crypto::{decrypt_backup, decrypt_outcome, DecryptOutcome};
use crate::primitives::{gunzip, percent_encode, percent_encoded, uuid_hyphenated, uuid_text};
use crate::text::{concat, decimal, decimal_string, string_of};

verus! {

/// The chat service.
pub const SIGNAL_API_BASE: &'static str = "https://chat.signal.org";

/// The CDN of archives numbered 2.
pub const SIGNAL_CDN2_BASE: &'static str = "https://cdn2.signal.org";

/// The CDN of archives numbered 3.
pub const SIGNAL_CDN3_BASE: &'static str = "https://cdn3.signal.org";

/// How long the server is asked to wait for the archive, in seconds.
pub const TRANSFER_ARCHIVE_WAIT_SECS: u64 = 300;

/// The HTTP client's own timeout, above the server's wait so that the two
/// never race.
pub const HTTP_CLIENT_TIMEOUT_SECS: u64 = 330;

/// Where a transfer archive lies: its CDN number and its opaque key.
#[derive(Debug, Clone)]
pub struct TransferArchiveInfo {
    pub cdn: u32,
    pub key: String,
}

/// The service's answer: the archive's place, or an error.
#[derive(Debug, Clone)]
pub enum TransferArchiveResponse {
    Success(TransferArchiveInfo),
    Error { error: String },
}

/// The request path, with the wait in seconds.
pub open spec fn transfer_archive_url_text() -> Seq<char> {
    SIGNAL_API_BASE@ + "/v1/devices/transfer_archive?timeout="@ + decimal(TRANSFER_ARCHIVE_WAIT_SECS as nat)
}

/// The URL that asks for the transfer archive, waiting up to 300 seconds.
pub fn transfer_archive_url() -> (r: String)
    ensures
        r@ == transfer_archive_url_text(),
{
    let mut s = concat(SIGNAL_API_BASE, "/v1/devices/transfer_archive?timeout=");
    s.append(decimal_string(TRANSFER_ARCHIVE_WAIT_SECS).as_str());
    s
}

/// The Basic-auth user name of a device: `"{aci}.{device_id}"`.
pub fn archive_auth_username(aci: &[u8; 16], device_id: u32) -> (r: String)
    ensures
        r@ == uuid_hyphenated(aci@) + "."@ + decimal(device_id as nat),
{
    let mut s = uuid_text(aci.as_slice());
    s.append(".");
    s.append(decimal_string(device_id as u64).as_str());
    s
}

/// Whether an HTTP status is a success (2xx).
pub open spec fn is_success(status: u16) -> bool {
    200 <= status <= 299
}

/// What the status of the archive request means: 204 is "not ready yet",
/// which a caller may retry; any other status outside 2xx fails this
/// attempt; a success goes on to read the body. Both failures are
/// `NetworkError`s.
pub fn check_archive_status(status: u16, body: &str) -> (r: Result<(), SignalError>)
    ensures
        status == 204 ==> (r matches Err(SignalError::NetworkError(m)) && m@
            == "Transfer archive not ready yet (204), phone may still be uploading"@),
        status != 204 && !is_success(status) ==> (r matches Err(SignalError::NetworkError(m)) && m@
            == "Transfer archive request failed with status "@ + decimal(status as nat) + ": "@
            + body@),
        status != 204 && is_success(status) ==> r is Ok,
{
    if status == 204 {
        return Err(
            SignalError::NetworkError(
                string_of("Transfer archive not ready yet (204), phone may still be uploading"),
            ),
        );
    }
    if status < 200 || status > 299 {
        let mut m = concat("Transfer archive request failed with status ", decimal_string(status as u64).as_str());
        m.append(": ");
        m.append(body);
        return Err(SignalError::NetworkError(m));
    }
    Ok(())
}

/// Whether an archive request failed only because the archive is not ready.
pub fn is_not_ready(status: u16) -> (r: bool)
    ensures
        r == (status == 204),
{
    status == 204
}

/// The archive's place, from the service's response.
pub fn archive_info_from_response(resp: Option<TransferArchiveResponse>) -> (r: Result<
    TransferArchiveInfo,
    SignalError,
>)
    ensures
        match resp {
            Some(TransferArchiveResponse::Success(info)) => r == Ok::<
                TransferArchiveInfo,
                SignalError,
            >(info),
            Some(TransferArchiveResponse::Error { error }) => r matches Err(
                SignalError::ProtocolError(m),
            ) && m@ == "Transfer archive error: "@ + error@,
            None => r matches Err(SignalError::ProtocolError(m)) && m@
                == "Failed to parse transfer archive response"@,
        },
{
    match resp {
        Some(TransferArchiveResponse::Success(info)) => Ok(info),
        Some(TransferArchiveResponse::Error { error }) => Err(
            SignalError::ProtocolError(concat("Transfer archive error: ", error.as_str())),
        ),
        None => Err(SignalError::ProtocolError(string_of("Failed to parse transfer archive response"))),
    }
}

/// The host of a CDN number: 2 and 3 are known, any other is a
/// `ProtocolError`.
pub fn cdn_base(cdn: u32) -> (r: Result<&'static str, SignalError>)
    ensures
        cdn == 2 ==> (r matches Ok(b) && b@ == SIGNAL_CDN2_BASE@),
        cdn == 3 ==> (r matches Ok(b) && b@ == SIGNAL_CDN3_BASE@),
        cdn != 2 && cdn != 3 ==> (r matches Err(SignalError::ProtocolError(m)) && m@
            == "Unknown CDN number: "@ + decimal(cdn as nat)),
{
    if cdn == 2 {
        Ok(SIGNAL_CDN2_BASE)
    } else if cdn == 3 {
        Ok(SIGNAL_CDN3_BASE)
    } else {
        Err(SignalError::ProtocolError(concat("Unknown CDN number: ", decimal_string(cdn as u64).as_str())))
    }
}

/// The download URL of an archive: its CDN's host, `/attachments/`, and the
/// percent-encoded key.
pub fn backup_download_url(info: &TransferArchiveInfo) -> (r: Result<String, SignalError>)
    ensures
        info.cdn == 2 ==> (r matches Ok(u) && u@ == SIGNAL_CDN2_BASE@ + "/attachments/"@
            + percent_encoded(info.key@)),
        info.cdn == 3 ==> (r matches Ok(u) && u@ == SIGNAL_CDN3_BASE@ + "/attachments/"@
            + percent_encoded(info.key@)),
        info.cdn != 2 && info.cdn != 3 ==> (r matches Err(SignalError::ProtocolError(m)) && m@
            == "Unknown CDN number: "@ + decimal(info.cdn as nat)),
{
    let base = match cdn_base(info.cdn) {
        Ok(b) => b,
        Err(e) => return Err(e),
    };
    let mut url = concat(base, "/attachments/");
    url.append(percent_encode(info.key.as_str()).as_str());
    Ok(url)
}

/// Decrypts a downloaded archive and reads its frames: a decryption
/// failure is its `CryptoError`, a gzip failure a `ProtocolError`.
pub fn read_transfer_archive(encrypted: &[u8], ephemeral_backup_key: &[u8], aci: &[u8; 16]) -> (r: Result<
    BackupData,
    SignalError,
>)
    ensures
        match decrypt_outcome(encrypted@, ephemeral_backup_key@, aci@) {
            DecryptOutcome::Plain(p) => match gunzip(p) {
                Some(plain) => r matches Ok(b) && (
                    messages_view(b.messages@),
                    conversations_view(b.conversations@),
                    b.frame_count as nat,
                ) == backup_model(plain),
                None => r matches Err(SignalError::ProtocolError(_)),
            },
            _ => r matches Err(SignalError::CryptoError(_)),
        },
{
    match decrypt_backup(encrypted, ephemeral_backup_key, aci) {
        Ok(plain) => parse_backup(plain.as_slice()),
        Err(e) => Err(e),
    }
}

} // verus!
