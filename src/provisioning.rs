//! The provisioning handshake's decisions: the link URI shown to the user,
//! which request the server sent, the provisioned identity, and the
//! take-once cell of backup secrets.
use vstd::prelude::*;

use crate::error::SignalError;
use crate::frames::{opt_bytes, opt_chars};
use crate::primitives::{base64_encode, base64_standard, form_urlencode, form_urlencoded};
use crate::frames::{parse_text, text_scan};
use crate::text::{concat, string_of};
use crate::websocket::{ack_bytes, encode_ack, parse_ws_request, request_model, request_view, WsRequest, WsRequestFields};

verus! {

/// The backup-related keys of a provisioning message.
#[derive(Debug, Clone)]
pub struct CapturedProvisioningData {
    pub ephemeral_backup_key: Option<Vec<u8>>,
    pub master_key: Option<Vec<u8>>,
    pub media_root_backup_key: Option<Vec<u8>>,
}

impl CapturedProvisioningData {
    /// No keys captured.
    pub fn new() -> (r: Self)
        ensures
            r.ephemeral_backup_key is None,
            r.master_key is None,
            r.media_root_backup_key is None,
    {
        CapturedProvisioningData { ephemeral_backup_key: None, master_key: None, media_root_backup_key: None }
    }
}

/// A take-once cell of captured secrets: written once per provisioning
/// attempt, and emptied by the read that takes it, so that no later reader
/// sees the keys of an earlier attempt.
pub struct CapturedSecrets {
    slot: Option<CapturedProvisioningData>,
}

impl View for CapturedSecrets {
    type V = Option<CapturedProvisioningData>;

    closed spec fn view(&self) -> Option<CapturedProvisioningData> {
        self.slot
    }
}

impl CapturedSecrets {
    /// An empty cell.
    pub fn new() -> (r: Self)
        ensures
            r@ is None,
    {
        CapturedSecrets { slot: None }
    }
}

/// Puts `data` in the cell, in place of anything there.
pub fn store_captured_data(cell: &mut CapturedSecrets, data: CapturedProvisioningData)
    ensures
        final(cell)@ == Some(data),
{
    cell.slot = Some(data);
}

/// Takes what the cell holds and leaves it empty.
pub fn take_captured_data(cell: &mut CapturedSecrets) -> (r: Option<CapturedProvisioningData>)
    ensures
        r == old(cell)@,
        final(cell)@ is None,
{
    let r = cell.slot.take();
    r
}

/// Whether the cell holds an ephemeral backup key.
pub fn has_backup_key(cell: &CapturedSecrets) -> (r: bool)
    ensures
        r == (cell@ matches Some(d) && d.ephemeral_backup_key is Some),
{
    match &cell.slot {
        Some(d) => d.ephemeral_backup_key.is_some(),
        None => false,
    }
}

/// A copy of the ephemeral backup key that the cell holds, leaving it there.
pub fn get_ephemeral_backup_key(cell: &CapturedSecrets) -> (r: Option<Vec<u8>>)
    ensures
        opt_bytes(r) == match cell@ {
            Some(d) => opt_bytes(d.ephemeral_backup_key),
            None => None,
        },
{
    match &cell.slot {
        Some(d) => match &d.ephemeral_backup_key {
            Some(k) => Some(crate::wire::copy_range(k.as_slice(), 0, k.len())),
            None => None,
        },
        None => None,
    }
}

/// Everything a provisioning message gives a new device.
#[derive(Debug, Clone)]
pub struct FullProvisionMessage {
    pub phone_number: String,
    pub aci: Option<String>,
    pub pni: Option<String>,
    pub provisioning_code: String,
    pub aci_identity_key_public: Vec<u8>,
    pub aci_identity_key_private: Vec<u8>,
    pub pni_identity_key_public: Vec<u8>,
    pub pni_identity_key_private: Vec<u8>,
    pub profile_key: Vec<u8>,
    pub ephemeral_backup_key: Option<Vec<u8>>,
    pub master_key: Option<Vec<u8>>,
    pub media_root_backup_key: Option<Vec<u8>>,
}

/// The fields of a decrypted provisioning message, each possibly absent.
#[derive(Debug, Clone)]
pub struct ProvisionMessageFields {
    pub number: Option<String>,
    pub aci: Option<String>,
    pub pni: Option<String>,
    pub provisioning_code: Option<String>,
    pub aci_identity_key_public: Option<Vec<u8>>,
    pub aci_identity_key_private: Option<Vec<u8>>,
    pub pni_identity_key_public: Option<Vec<u8>>,
    pub pni_identity_key_private: Option<Vec<u8>>,
    pub profile_key: Option<Vec<u8>>,
    pub ephemeral_backup_key: Option<Vec<u8>>,
    pub master_key: Option<Vec<u8>>,
    pub media_root_backup_key: Option<Vec<u8>>,
}

/// The cause given for the first required field that is absent, in the
/// order phone number, provisioning code, ACI public, ACI private, PNI
/// public, PNI private, profile key.
pub open spec fn missing_field_cause(f: ProvisionMessageFields) -> Option<Seq<char>> {
    if f.number is None {
        Some("Missing phone number"@)
    } else if f.provisioning_code is None {
        Some("Missing provisioning code"@)
    } else if f.aci_identity_key_public is None {
        Some("Missing ACI public key"@)
    } else if f.aci_identity_key_private is None {
        Some("Missing ACI private key"@)
    } else if f.pni_identity_key_public is None {
        Some("Missing PNI public key"@)
    } else if f.pni_identity_key_private is None {
        Some("Missing PNI private key"@)
    } else if f.profile_key is None {
        Some("Missing profile key"@)
    } else {
        None
    }
}

fn missing(cause: &str) -> (r: SignalError)
    ensures
        r matches SignalError::ProtocolError(m) && m@ == cause@,
{
    SignalError::ProtocolError(string_of(cause))
}

/// The provisioned identity, where every required field is present; a
/// `ProtocolError` naming the first one absent otherwise. The optional
/// fields are carried over as they are.
pub fn full_provision_message(f: ProvisionMessageFields) -> (r: Result<FullProvisionMessage, SignalError>)
    ensures
        match missing_field_cause(f) {
            Some(cause) => r matches Err(SignalError::ProtocolError(m)) && m@ == cause,
            None => r matches Ok(msg) && msg.phone_number == f.number->0 && msg.aci == f.aci
                && msg.pni == f.pni && msg.provisioning_code == f.provisioning_code->0
                && msg.aci_identity_key_public == f.aci_identity_key_public->0
                && msg.aci_identity_key_private == f.aci_identity_key_private->0
                && msg.pni_identity_key_public == f.pni_identity_key_public->0
                && msg.pni_identity_key_private == f.pni_identity_key_private->0
                && msg.profile_key == f.profile_key->0
                && msg.ephemeral_backup_key == f.ephemeral_backup_key
                && msg.master_key == f.master_key
                && msg.media_root_backup_key == f.media_root_backup_key,
        },
{
    let phone_number = match f.number {
        Some(v) => v,
        None => return Err(missing("Missing phone number")),
    };
    let provisioning_code = match f.provisioning_code {
        Some(v) => v,
        None => return Err(missing("Missing provisioning code")),
    };
    let aci_identity_key_public = match f.aci_identity_key_public {
        Some(v) => v,
        None => return Err(missing("Missing ACI public key")),
    };
    let aci_identity_key_private = match f.aci_identity_key_private {
        Some(v) => v,
        None => return Err(missing("Missing ACI private key")),
    };
    let pni_identity_key_public = match f.pni_identity_key_public {
        Some(v) => v,
        None => return Err(missing("Missing PNI public key")),
    };
    let pni_identity_key_private = match f.pni_identity_key_private {
        Some(v) => v,
        None => return Err(missing("Missing PNI private key")),
    };
    let profile_key = match f.profile_key {
        Some(v) => v,
        None => return Err(missing("Missing profile key")),
    };
    Ok(FullProvisionMessage {
        phone_number,
        aci: f.aci,
        pni: f.pni,
        provisioning_code,
        aci_identity_key_public,
        aci_identity_key_private,
        pni_identity_key_public,
        pni_identity_key_private,
        profile_key,
        ephemeral_backup_key: f.ephemeral_backup_key,
        master_key: f.master_key,
        media_root_backup_key: f.media_root_backup_key,
    })
}

/// The secrets of a provisioned identity that go into the take-once cell.
pub fn captured_from(msg: &FullProvisionMessage) -> (r: CapturedProvisioningData)
    ensures
        opt_bytes(r.ephemeral_backup_key) == opt_bytes(msg.ephemeral_backup_key),
        opt_bytes(r.master_key) == opt_bytes(msg.master_key),
        opt_bytes(r.media_root_backup_key) == opt_bytes(msg.media_root_backup_key),
{
    CapturedProvisioningData {
        ephemeral_backup_key: copy_opt(&msg.ephemeral_backup_key),
        master_key: copy_opt(&msg.master_key),
        media_root_backup_key: copy_opt(&msg.media_root_backup_key),
    }
}

fn copy_opt(o: &Option<Vec<u8>>) -> (r: Option<Vec<u8>>)
    ensures
        opt_bytes(r) == opt_bytes(*o),
{
    match o {
        Some(v) => Some(crate::wire::copy_range(v.as_slice(), 0, v.len())),
        None => None,
    }
}

/// The capabilities a linking device announces.
pub const LINK_CAPABILITIES: &'static str = "backup4,backup5";

/// The link URI's scheme and host.
pub const LINK_URI_BASE: &'static str = "sgnl://linkdevice";

/// The link URI: `sgnl://linkdevice?uuid=..&pub_key=..&capabilities=..`,
/// each value form-urlencoded.
pub open spec fn provisioning_url_text(uuid: Seq<char>, pub_key_b64: Seq<char>) -> Seq<char> {
    LINK_URI_BASE@ + "?uuid="@ + form_urlencoded(uuid) + "&pub_key="@ + form_urlencoded(pub_key_b64)
        + "&capabilities="@ + form_urlencoded(LINK_CAPABILITIES@)
}

/// Builds the link URI from the address the server gave and the base64 of
/// the session's public key.
pub fn provisioning_url(uuid: &str, pub_key_b64: &str) -> (r: String)
    ensures
        r@ == provisioning_url_text(uuid@, pub_key_b64@),
{
    let mut s = concat(LINK_URI_BASE, "?uuid=");
    s.append(form_urlencode(uuid).as_str());
    s.append("&pub_key=");
    s.append(form_urlencode(pub_key_b64).as_str());
    s.append("&capabilities=");
    s.append(form_urlencode(LINK_CAPABILITIES).as_str());
    s
}

/// Builds the link URI from the address and the raw public key, which is
/// written in standard base64.
pub fn provisioning_url_for_key(uuid: &str, public_key: &[u8]) -> (r: String)
    ensures
        r@ == provisioning_url_text(uuid@, base64_standard(public_key@)),
{
    let b64 = base64_encode(public_key);
    provisioning_url(uuid, b64.as_str())
}

/// The two requests a provisioning server makes.
#[derive(Debug, Clone, Copy, PartialEq, Eq)]
pub enum ProvisioningRequestKind {
    /// `PUT /v1/address`: the address to put in the link URI.
    Address,
    /// `PUT /v1/message`: the encrypted provisioning envelope.
    Message,
}

/// Which request a verb and path name; an unknown one is a `ProtocolError`.
pub fn classify_request(verb: &str, path: &str) -> (r: Result<ProvisioningRequestKind, SignalError>)
    ensures
        verb@ == "PUT"@ && path@ == "/v1/address"@ ==> r == Ok::<
            ProvisioningRequestKind,
            SignalError,
        >(ProvisioningRequestKind::Address),
        verb@ == "PUT"@ && path@ == "/v1/message"@ ==> r == Ok::<
            ProvisioningRequestKind,
            SignalError,
        >(ProvisioningRequestKind::Message),
        !(verb@ == "PUT"@ && (path@ == "/v1/address"@ || path@ == "/v1/message"@)) ==> (r matches Err(
            SignalError::ProtocolError(m),
        ) && m@ == "Unknown request: "@ + verb@ + " "@ + path@),
{
    proof {
        reveal_strlit("/v1/address");
        reveal_strlit("/v1/message");
        assert("/v1/address"@[4] != "/v1/message"@[4]);
    }
    let put = string_of("PUT");
    let address = string_of("/v1/address");
    let message = string_of("/v1/message");
    let v = string_of(verb);
    let p = string_of(path);
    if v == put && p == address {
        Ok(ProvisioningRequestKind::Address)
    } else if v == put && p == message {
        Ok(ProvisioningRequestKind::Message)
    } else {
        let mut m = concat("Unknown request: ", verb);
        m.append(" ");
        m.append(path);
        Err(SignalError::ProtocolError(m))
    }
}

/// What a request of the provisioning server yields.
#[derive(Debug, Clone)]
pub enum ProvisioningResult {
    /// The link URI to show.
    Url(String),
    /// The encrypted provisioning envelope, for the session key to open.
    Envelope(Vec<u8>),
}

pub open spec fn or_empty(o: Option<Seq<char>>) -> Seq<char> {
    match o {
        Some(s) => s,
        None => Seq::empty(),
    }
}

pub open spec fn is_put_to(req: WsRequestFields, path: Seq<char>) -> bool {
    or_empty(req.verb) == "PUT"@ && or_empty(req.path) == path
}

/// What a request gives: for the address request, the link URI with the
/// address in its body (a protobuf whose field 1 is the address) and the
/// session's public key; for the message request, its body. Any other
/// request, a missing body or a missing address is a `ProtocolError`.
pub open spec fn request_outcome(req: WsRequestFields, public_key: Seq<u8>) -> Result<Result<Seq<char>, Seq<u8>>, Seq<char>> {
    if is_put_to(req, "/v1/address"@) {
        match req.body {
            None => Err("Missing body in address message"@),
            Some(b) => match text_scan(b, 0) {
                None => Err("Missing UUID in address"@),
                Some(u) => Ok(Ok(provisioning_url_text(u, base64_standard(public_key)))),
            },
        }
    } else if is_put_to(req, "/v1/message"@) {
        match req.body {
            None => Err("Missing body in message"@),
            Some(b) => Ok(Err(b)),
        }
    } else {
        Err("Unknown request: "@ + or_empty(req.verb) + " "@ + or_empty(req.path))
    }
}

fn str_or_empty(o: &Option<String>) -> (r: &str)
    ensures
        r@ == or_empty(opt_chars(*o)),
{
    proof {
        reveal_strlit("");
    }
    match o {
        Some(s) => s.as_str(),
        None => "",
    }
}

/// Handles one request of the provisioning server.
pub fn process_provisioning_request(request: &WsRequest, public_key: &[u8]) -> (r: Result<
    ProvisioningResult,
    SignalError,
>)
    ensures
        match request_outcome(request_view(*request), public_key@) {
            Ok(Ok(url)) => r matches Ok(ProvisioningResult::Url(u)) && u@ == url,
            Ok(Err(envelope)) => r matches Ok(ProvisioningResult::Envelope(b)) && b@ == envelope,
            Err(cause) => r matches Err(SignalError::ProtocolError(m)) && m@ == cause,
        },
{
    proof {
        reveal_strlit("");
    }
    let verb = str_or_empty(&request.verb);
    let path = str_or_empty(&request.path);
    match classify_request(verb, path) {
        Ok(ProvisioningRequestKind::Address) => {
            let body = match &request.body {
                Some(b) => b,
                None => return Err(missing("Missing body in address message")),
            };
            match parse_text(body.as_slice()) {
                Some(uuid) => Ok(ProvisioningResult::Url(provisioning_url_for_key(uuid.as_str(), public_key))),
                None => Err(missing("Missing UUID in address")),
            }
        },
        Ok(ProvisioningRequestKind::Message) => {
            match &request.body {
                Some(b) => Ok(ProvisioningResult::Envelope(crate::wire::copy_range(b.as_slice(), 0, b.len()))),
                None => Err(missing("Missing body in message")),
            }
        },
        Err(e) => Err(e),
    }
}

/// What arrives on the provisioning socket.
pub enum SocketEvent {
    Binary(Vec<u8>),
    Close,
    /// Any other kind of socket message.
    Other,
    /// The socket's stream ended.
    End,
}

/// What the session asks of the socket loop after an event.
#[derive(Debug)]
pub enum SessionStep {
    /// Nothing to send; read on.
    Continue,
    /// Send `ack` at once; then show `url` where there is one, or open
    /// `envelope` and stop reading where there is one.
    Acknowledge { ack: Vec<u8>, url: Option<String>, envelope: Option<Vec<u8>> },
}

/// The provisioning handshake: the link URI is shown once, and the session
/// is over when the provisioning envelope has come.
pub struct ProvisioningSession {
    pub url_shown: bool,
    pub finished: bool,
}

pub open spec fn incomplete_cause() -> Seq<char> {
    "Provisioning incomplete - no message received"@
}

impl ProvisioningSession {
    pub fn new() -> (r: Self)
        ensures
            !r.url_shown && !r.finished,
    {
        ProvisioningSession { url_shown: false, finished: false }
    }

    /// Decides what to do with a socket event. Every request is answered
    /// with an acknowledgement carrying its id before anything else happens;
    /// a close or the end of the stream before the envelope is a failure.
    pub fn on_socket_event(&mut self, event: SocketEvent, public_key: &[u8]) -> (r: Result<SessionStep, SignalError>)
        requires
            !old(self).finished,
        ensures
            match event {
                SocketEvent::Binary(frame) => match request_model(frame@) {
                    None => r matches Ok(SessionStep::Continue) && *final(self) == *old(self),
                    Some(req) => match request_outcome(req, public_key@) {
                        Err(cause) => r matches Err(SignalError::ProtocolError(m)) && m@ == cause,
                        Ok(Ok(url)) => r matches Ok(SessionStep::Acknowledge { ack, url: shown, envelope })
                            && ack@ == ack_bytes(req.id) && envelope is None
                            && (old(self).url_shown ==> shown is None)
                            && (!old(self).url_shown ==> (shown matches Some(u) && u@ == url))
                            && final(self).url_shown && !final(self).finished,
                        Ok(Err(env)) => r matches Ok(SessionStep::Acknowledge { ack, url: shown, envelope })
                            && ack@ == ack_bytes(req.id) && shown is None
                            && (envelope matches Some(e) && e@ == env)
                            && final(self).finished && final(self).url_shown == old(self).url_shown,
                    },
                },
                SocketEvent::Other => r matches Ok(SessionStep::Continue) && *final(self) == *old(self),
                _ => r matches Err(SignalError::ProtocolError(m)) && m@ == incomplete_cause(),
            },
    {
        match event {
            SocketEvent::Binary(frame) => {
                let request = match parse_ws_request(frame.as_slice()) {
                    Some(q) => q,
                    None => return Ok(SessionStep::Continue),
                };
                let result = match process_provisioning_request(&request, public_key) {
                    Ok(x) => x,
                    Err(e) => return Err(e),
                };
                let ack = encode_ack(request.id);
                match result {
                    ProvisioningResult::Url(u) => {
                        let url = if self.url_shown {
                            None
                        } else {
                            Some(u)
                        };
                        self.url_shown = true;
                        Ok(SessionStep::Acknowledge { ack, url, envelope: None })
                    },
                    ProvisioningResult::Envelope(b) => {
                        self.finished = true;
                        Ok(SessionStep::Acknowledge { ack, url: None, envelope: Some(b) })
                    },
                }
            },
            SocketEvent::Other => Ok(SessionStep::Continue),
            _ => Err(SignalError::ProtocolError(string_of("Provisioning incomplete - no message received"))),
        }
    }
}

} // verus!
