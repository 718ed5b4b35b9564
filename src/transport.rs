//! The transport session: one receive stream and one queue of outbound
//! send commands, serviced by a single loop. This module holds the loop's
//! decisions; the loop itself, with the network, runs around it.
use vstd::prelude::*;

use crate::error::SignalError;
use crate::frames::opt_chars;
use crate::primitives::{
    base64_decode, base64_encode, base64_standard, base64_standard_decoded, uuid_parse, uuid_parsed,
};
use crate::text::string_of;

verus! {

/// The state of the connection.
#[derive(Debug, Clone, Copy, PartialEq, Eq, Structural)]
pub enum ConnectionState {
    Disconnected,
    Connecting,
    Connected,
    Reconnecting,
}

/// What a received message holds.
#[derive(Debug, Clone)]
pub enum MessageContent {
    Text(String),
    Attachment { content_type: String, filename: Option<String>, size: u64, attachment_id: String },
    Sticker { pack_id: String, sticker_id: u32 },
    Reaction { emoji: String, target_message_id: String, remove: bool },
    Quote { quoted_message_id: String, text: String },
}

/// A received message, direct or echoed from another device of the account.
#[derive(Debug, Clone)]
pub struct IncomingMessage {
    pub id: String,
    pub sender: String,
    pub conversation_id: String,
    pub content: MessageContent,
    pub timestamp: i64,
    pub server_timestamp: i64,
}

/// The lifecycle and status events of linking, history sync and transport.
#[derive(Debug, Clone)]
pub enum SignalEvent {
    ConnectionStateChanged(ConnectionState),
    ProvisioningUrlReady(String),
    LinkingCompleted,
    LinkingFailed(String),
    MessageHistoryAvailable,
    MessageHistorySyncProgress { current: u32, total: u32 },
    MessageHistorySyncCompleted { message_count: u32 },
    MessageHistorySyncFailed(String),
    MessageReceived(IncomingMessage),
    MessageSent { message_id: String },
    DeliveryReceipt { message_id: String, recipient: String },
    ReadReceipt { message_id: String, recipient: String },
    TypingStarted { conversation_id: String },
    TypingStopped { conversation_id: String },
    ContactUpdated { contact_id: String },
    GroupUpdated { group_id: String },
    SyncCompleted,
    Error(String),
}

/// A message to send, with the channel on which its outcome is reported.
pub enum SendCommand<R> {
    DirectMessage { recipient: [u8; 16], text: String, reply: R },
    GroupMessage { group_key: Vec<u8>, text: String, reply: R },
}

/// The session's state and, while the loop runs, its queue of commands.
/// The queue exists exactly while the loop is running: a command given
/// while there is none is refused at once.
pub struct TransportSession<R> {
    state: ConnectionState,
    queue: Option<Vec<SendCommand<R>>>,
}

impl<R> View for TransportSession<R> {
    type V = (ConnectionState, Option<Seq<SendCommand<R>>>);

    closed spec fn view(&self) -> (ConnectionState, Option<Seq<SendCommand<R>>>) {
        (
            self.state,
            match self.queue {
                Some(q) => Some(q@),
                None => None,
            },
        )
    }
}

/// The cause given to a command refused for want of a running loop.
pub open spec fn not_connected_cause() -> Seq<char> {
    "Not connected - receive loop not running"@
}

impl<R> TransportSession<R> {
    /// A session that is not running.
    pub fn new() -> (r: Self)
        ensures
            r@ == (ConnectionState::Disconnected, None::<Seq<SendCommand<R>>>),
    {
        TransportSession { state: ConnectionState::Disconnected, queue: None }
    }

    pub fn connection_state(&self) -> (r: ConnectionState)
        ensures
            r == self@.0,
    {
        self.state
    }

    pub fn is_connected(&self) -> (r: bool)
        ensures
            r == (self@.0 == ConnectionState::Connected),
    {
        self.state == ConnectionState::Connected
    }

    /// Whether the loop is running, and so takes commands.
    pub fn is_running(&self) -> (r: bool)
        ensures
            r == self@.1 is Some,
    {
        self.queue.is_some()
    }

    /// The loop starts: an empty queue is published and the session is
    /// connecting.
    pub fn start_receiving(&mut self) -> (r: SignalEvent)
        ensures
            final(self)@ == (ConnectionState::Connecting, Some(Seq::<SendCommand<R>>::empty())),
            r == SignalEvent::ConnectionStateChanged(ConnectionState::Connecting),
    {
        self.state = ConnectionState::Connecting;
        self.queue = Some(Vec::new());
        SignalEvent::ConnectionStateChanged(ConnectionState::Connecting)
    }

    /// The receive stream is open.
    pub fn on_stream_open(&mut self) -> (r: SignalEvent)
        ensures
            final(self)@ == (ConnectionState::Connected, old(self)@.1),
            r == SignalEvent::ConnectionStateChanged(ConnectionState::Connected),
    {
        self.state = ConnectionState::Connected;
        SignalEvent::ConnectionStateChanged(ConnectionState::Connected)
    }

    /// Set from outside, by whatever retries the connection.
    pub fn set_reconnecting(&mut self)
        ensures
            final(self)@ == (ConnectionState::Reconnecting, old(self)@.1),
    {
        self.state = ConnectionState::Reconnecting;
    }

    /// Marks the connection as given up, reporting it; a running loop goes
    /// on until its stream ends.
    pub fn disconnect(&mut self) -> (r: SignalEvent)
        ensures
            final(self)@ == (ConnectionState::Disconnected, old(self)@.1),
            r == SignalEvent::ConnectionStateChanged(ConnectionState::Disconnected),
    {
        self.state = ConnectionState::Disconnected;
        SignalEvent::ConnectionStateChanged(ConnectionState::Disconnected)
    }

    /// Hands a command to the loop. While no loop runs this fails at once
    /// with a "not connected" `SendFailed`, and nothing is queued.
    pub fn send_via_channel(&mut self, cmd: SendCommand<R>) -> (r: Result<(), SignalError>)
        ensures
            match old(self)@.1 {
                None => (r matches Err(SignalError::SendFailed(m)) && m@ == not_connected_cause())
                    && final(self)@ == old(self)@,
                Some(q) => r is Ok && final(self)@ == (old(self)@.0, Some(q.push(cmd))),
            },
    {
        match &mut self.queue {
            Some(q) => {
                q.push(cmd);
                Ok(())
            },
            None => Err(SignalError::SendFailed(string_of("Not connected - receive loop not running"))),
        }
    }

    /// The next command for the loop to execute, oldest first.
    pub fn next_command(&mut self) -> (r: Option<SendCommand<R>>)
        ensures
            match old(self)@.1 {
                Some(q) => if q.len() > 0 {
                    r == Some(q[0]) && final(self)@ == (old(self)@.0, Some(q.drop_first()))
                } else {
                    r is None && final(self)@ == old(self)@
                },
                None => r is None && final(self)@ == old(self)@,
            },
    {
        match &mut self.queue {
            Some(q) => {
                if q.len() > 0 {
                    let c = q.remove(0);
                    proof {
                        assert(q@ =~= old(self)@.1->0.drop_first());
                    }
                    Some(c)
                } else {
                    None
                }
            },
            None => None,
        }
    }

    /// The receive stream is exhausted: the loop ends, the queue is
    /// withdrawn, and the commands still in it are handed back so that each
    /// is answered.
    pub fn on_stream_end(&mut self) -> (r: (SignalEvent, Vec<SendCommand<R>>))
        ensures
            final(self)@ == (ConnectionState::Disconnected, None::<Seq<SendCommand<R>>>),
            r.0 == SignalEvent::ConnectionStateChanged(ConnectionState::Disconnected),
            r.1@ == match old(self)@.1 {
                Some(q) => q,
                None => Seq::empty(),
            },
    {
        let pending = self.withdraw();
        (SignalEvent::ConnectionStateChanged(ConnectionState::Disconnected), pending)
    }

    /// The loop failed: as at the end of the stream, and the error is
    /// reported first.
    pub fn on_loop_error(&mut self, e: &SignalError) -> (r: (SignalEvent, SignalEvent, Vec<SendCommand<R>>))
        ensures
            final(self)@ == (ConnectionState::Disconnected, None::<Seq<SendCommand<R>>>),
            r.0 matches SignalEvent::Error(m) && m@ == e.message_spec(),
            r.1 == SignalEvent::ConnectionStateChanged(ConnectionState::Disconnected),
            r.2@ == match old(self)@.1 {
                Some(q) => q,
                None => Seq::empty(),
            },
    {
        let pending = self.withdraw();
        (
            SignalEvent::Error(e.message()),
            SignalEvent::ConnectionStateChanged(ConnectionState::Disconnected),
            pending,
        )
    }

    fn withdraw(&mut self) -> (r: Vec<SendCommand<R>>)
        ensures
            final(self)@ == (ConnectionState::Disconnected, None::<Seq<SendCommand<R>>>),
            r@ == match old(self)@.1 {
                Some(q) => q,
                None => Seq::empty(),
            },
    {
        self.state = ConnectionState::Disconnected;
        match self.queue.take() {
            Some(q) => q,
            None => Vec::new(),
        }
    }
}

/// What the receive stream delivers.
pub enum Inbound {
    /// The server's queue of stored messages is drained.
    QueueEmpty,
    /// The contact list changed and is to be fetched.
    Contacts,
    /// A content item, already classified (`None` where it is dropped).
    Content(Option<IncomingMessage>),
}

/// What the loop does with an inbound item.
pub enum InboundAction {
    Emit(SignalEvent),
    FetchContacts,
    Nothing,
}

/// Classifies an inbound item: an empty queue is a completed sync, the
/// contacts marker asks for a contact fetch, a message is reported, and a
/// dropped content item does nothing.
pub fn on_inbound(item: Inbound) -> (r: InboundAction)
    ensures
        match item {
            Inbound::QueueEmpty => r == InboundAction::Emit(SignalEvent::SyncCompleted),
            Inbound::Contacts => r == InboundAction::FetchContacts,
            Inbound::Content(Some(m)) => r == InboundAction::Emit(SignalEvent::MessageReceived(m)),
            Inbound::Content(None) => r == InboundAction::Nothing,
        },
{
    match item {
        Inbound::QueueEmpty => InboundAction::Emit(SignalEvent::SyncCompleted),
        Inbound::Contacts => InboundAction::FetchContacts,
        Inbound::Content(Some(m)) => InboundAction::Emit(SignalEvent::MessageReceived(m)),
        Inbound::Content(None) => InboundAction::Nothing,
    }
}

/// The event after the contact list was fetched and merged.
pub fn contacts_merged_event() -> (r: SignalEvent)
    ensures
        r matches SignalEvent::ContactUpdated { contact_id } && contact_id@ == "all"@,
{
    SignalEvent::ContactUpdated { contact_id: string_of("all") }
}

/// The parts of a data message that classification reads.
#[derive(Debug, Clone)]
pub struct DataMessageFields {
    pub body: Option<String>,
    pub attachment_count: usize,
    /// The master key of the message's group, where it has one.
    pub group_master_key: Option<Vec<u8>>,
}

/// The "sent" part of a sync message: a message this account sent from
/// another device.
#[derive(Debug, Clone)]
pub struct SentFields {
    pub destination_service_id: Option<String>,
    pub timestamp: Option<u64>,
    pub message: Option<DataMessageFields>,
}

/// The text of a message: its body, or empty.
pub open spec fn text_of(m: DataMessageFields) -> Seq<char> {
    match m.body {
        Some(b) => b@,
        None => Seq::empty(),
    }
}

/// A message with no text and no attachment is dropped.
pub open spec fn is_blank(m: DataMessageFields) -> bool {
    text_of(m).len() == 0 && m.attachment_count == 0
}

fn text_or_empty(body: &Option<String>) -> (r: String)
    ensures
        r@ == match body {
            Some(b) => b@,
            None => Seq::empty(),
        },
{
    match body {
        Some(b) => string_of(b.as_str()),
        None => String::new(),
    }
}

/// A direct data message from `sender`. Blank ones are dropped; a group
/// message belongs to the base64 of its group's master key, any other to
/// its sender. `id` names the new message.
pub fn process_data_message(msg: &DataMessageFields, sender: &str, timestamp: i64, id: String) -> (r:
    Option<IncomingMessage>)
    ensures
        is_blank(*msg) ==> r is None,
        !is_blank(*msg) ==> (r matches Some(m) && m.id == id && m.sender@ == sender@
            && m.conversation_id@ == match msg.group_master_key {
            Some(k) => base64_standard(k@),
            None => sender@,
        } && (m.content matches MessageContent::Text(t) && t@ == text_of(*msg))
            && m.timestamp == timestamp && m.server_timestamp == timestamp),
{
    let text = text_or_empty(&msg.body);
    if text.as_str().is_empty() && msg.attachment_count == 0 {
        return None;
    }
    let conversation_id = match &msg.group_master_key {
        Some(k) => base64_encode(k.as_slice()),
        None => string_of(sender),
    };
    Some(
        IncomingMessage {
            id,
            sender: string_of(sender),
            conversation_id,
            content: MessageContent::Text(text),
            timestamp,
            server_timestamp: timestamp,
        },
    )
}

/// The conversation of a message this account sent from another device:
/// its group's, or else its destination's; `None` where it has neither.
pub open spec fn sync_conversation(sent: SentFields, m: DataMessageFields) -> Option<Seq<char>> {
    match m.group_master_key {
        Some(k) => Some(base64_standard(k@)),
        None => opt_chars(sent.destination_service_id),
    }
}

/// A sync message's echo of a message that this account sent from another
/// device. It becomes a message from "self", in the conversation it was
/// sent to, at the time it was sent (the envelope's time where that is not
/// given). It is dropped where it has no sent message, where the message is
/// blank, or where its conversation is unknown.
pub fn process_sync_message(sent: &Option<SentFields>, timestamp: i64, id: String) -> (r: Option<IncomingMessage>)
    ensures
        match sent {
            Some(s) => match s.message {
                Some(m) => if is_blank(m) || sync_conversation(*s, m) is None {
                    r is None
                } else {
                    r matches Some(out) && out.id == id && out.sender@ == "self"@
                        && out.conversation_id@ == sync_conversation(*s, m)->0
                        && (out.content matches MessageContent::Text(t) && t@ == text_of(m))
                        && out.timestamp == match s.timestamp {
                        Some(t) => t as i64,
                        None => timestamp,
                    } && out.server_timestamp == timestamp
                },
                None => r is None,
            },
            None => r is None,
        },
{
    let s = match sent {
        Some(s) => s,
        None => return None,
    };
    let m = match &s.message {
        Some(m) => m,
        None => return None,
    };
    let text = text_or_empty(&m.body);
    if text.as_str().is_empty() && m.attachment_count == 0 {
        return None;
    }
    let conversation_id = match &m.group_master_key {
        Some(k) => base64_encode(k.as_slice()),
        None => match &s.destination_service_id {
            Some(d) => string_of(d.as_str()),
            None => return None,
        },
    };
    let msg_timestamp: i64 = match s.timestamp {
        Some(t) => t as i64,
        None => timestamp,
    };
    Some(
        IncomingMessage {
            id,
            sender: string_of("self"),
            conversation_id,
            content: MessageContent::Text(text),
            timestamp: msg_timestamp,
            server_timestamp: timestamp,
        },
    )
}

/// The command that sends `text` to the account whose ACI is written in
/// `recipient`; a `SendFailed` where it is no UUID.
pub fn direct_message_command<R>(recipient: &str, text: String, reply: R) -> (r: Result<SendCommand<R>, SignalError>)
    ensures
        match uuid_parsed(recipient@) {
            Some(b) => r matches Ok(SendCommand::DirectMessage { recipient: to, text: t, reply: rp })
                && to@ == b && t == text && rp == reply,
            None => r matches Err(SignalError::SendFailed(m)) && m@ == "Invalid recipient UUID"@,
        },
{
    match uuid_parse(recipient) {
        Some(to) => Ok(SendCommand::DirectMessage { recipient: to, text, reply }),
        None => Err(SignalError::SendFailed(string_of("Invalid recipient UUID"))),
    }
}

/// The command that sends `text` to the group whose id is the base64 of its
/// master key; a `SendFailed` where the id is not base64.
pub fn group_message_command<R>(group_id: &str, text: String, reply: R) -> (r: Result<SendCommand<R>, SignalError>)
    ensures
        match base64_standard_decoded(group_id@) {
            Some(k) => r matches Ok(SendCommand::GroupMessage { group_key, text: t, reply: rp })
                && group_key@ == k && t == text && rp == reply,
            None => r matches Err(SignalError::SendFailed(m)) && m@ == "Invalid group ID"@,
        },
{
    match base64_decode(group_id) {
        Some(group_key) => Ok(SendCommand::GroupMessage { group_key, text, reply }),
        None => Err(SignalError::SendFailed(string_of("Invalid group ID"))),
    }
}

} // verus!
