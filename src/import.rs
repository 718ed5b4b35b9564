//! Mapping a parsed backup onto the application's conversations and
//! messages. Records are keyed by id, so importing the same backup again
//! writes the same records over themselves.
use vstd::prelude::*;

use crate::frames::{
    conversations_view, messages_view, BackupConversation, BackupData, BackupMessage,
    ConversationRecord, MessageRecord,
};
use crate::primitives::{base64_encode, base64_standard};
use crate::text::string_of;

verus! {

/// The kind of a conversation.
#[derive(Debug, Clone, Copy, PartialEq, Eq, Structural)]
pub enum ConversationType {
    Private,
    Group,
    NoteToSelf,
}

impl ConversationType {
    pub open spec fn name_spec(&self) -> Seq<char> {
        match self {
            ConversationType::Private => "private"@,
            ConversationType::Group => "group"@,
            ConversationType::NoteToSelf => "note_to_self"@,
        }
    }

    /// The stored name of the kind.
    pub fn as_str(&self) -> (r: &'static str)
        ensures
            r@ == self.name_spec(),
    {
        match self {
            ConversationType::Private => "private",
            ConversationType::Group => "group",
            ConversationType::NoteToSelf => "note_to_self",
        }
    }

    /// The kind a stored name gives; any unknown name is a private
    /// conversation.
    pub fn from_str(s: &str) -> (r: Self)
        ensures
            s@ == "group"@ ==> r == ConversationType::Group,
            s@ == "note_to_self"@ ==> r == ConversationType::NoteToSelf,
            s@ != "group"@ && s@ != "note_to_self"@ ==> r == ConversationType::Private,
    {
        proof {
            reveal_strlit("group");
            reveal_strlit("note_to_self");
            assert("group"@.len() != "note_to_self"@.len());
        }
        let t = string_of(s);
        if t == string_of("group") {
            ConversationType::Group
        } else if t == string_of("note_to_self") {
            ConversationType::NoteToSelf
        } else {
            ConversationType::Private
        }
    }
}

/// Whether a message was received or sent.
#[derive(Debug, Clone, Copy, PartialEq, Eq, Structural)]
pub enum MessageDirection {
    Incoming,
    Outgoing,
}

/// Where a message is in its delivery.
#[derive(Debug, Clone, Copy, PartialEq, Eq, Structural)]
pub enum MessageStatus {
    Sending,
    Sent,
    Delivered,
    Read,
    Failed,
}

/// A conversation to store.
#[derive(Debug, Clone)]
pub struct ImportedConversation {
    pub id: String,
    pub conversation_type: ConversationType,
    pub name: String,
}

/// A text message to store; its times are all its sending time, in
/// milliseconds since the epoch.
#[derive(Debug, Clone)]
pub struct ImportedMessage {
    pub id: String,
    pub conversation_id: String,
    pub sender: String,
    pub direction: MessageDirection,
    pub status: MessageStatus,
    pub body: String,
    pub sent_at_millis: i64,
}

/// The sender recorded for this account's own messages.
pub const SELF_SENDER: &'static str = "self";

/// The key of a conversation: a group's is the base64 of its master key, a
/// contact's is its ACI, and one with neither keeps the backup's id.
pub open spec fn conversation_key(c: ConversationRecord) -> Seq<char> {
    match c.group_id {
        Some(g) => base64_standard(g),
        None => match c.recipient_uuid {
            Some(u) => u,
            None => c.id,
        },
    }
}

/// The name of a conversation: its own, else "Group" for a group, else its
/// ACI, else "Unknown".
pub open spec fn conversation_name(c: ConversationRecord) -> Seq<char> {
    match c.name {
        Some(n) => n,
        None => if c.group_id is Some {
            "Group"@
        } else {
            match c.recipient_uuid {
                Some(u) => u,
                None => "Unknown"@,
            }
        },
    }
}

pub open spec fn conversation_type_of(c: ConversationRecord) -> ConversationType {
    if c.group_id is Some {
        ConversationType::Group
    } else {
        ConversationType::Private
    }
}

/// A stored conversation's id, kind and name.
pub open spec fn imported_conversation_view(c: ImportedConversation) -> (Seq<char>, ConversationType, Seq<char>) {
    (c.id@, c.conversation_type, c.name@)
}

fn opt_string_copy(o: &Option<String>) -> (r: Option<String>)
    ensures
        crate::frames::opt_chars(r) == crate::frames::opt_chars(*o),
{
    match o {
        Some(s) => Some(string_of(s.as_str())),
        None => None,
    }
}

fn conversation_key_of(c: &BackupConversation) -> (r: String)
    ensures
        r@ == conversation_key(c@),
{
    match &c.group_id {
        Some(g) => base64_encode(g.as_slice()),
        None => match &c.recipient_uuid {
            Some(u) => string_of(u.as_str()),
            None => string_of(c.id.as_str()),
        },
    }
}

/// The stored form of a backup conversation.
pub fn convert_backup_conversation(backup: &BackupConversation) -> (r: ImportedConversation)
    ensures
        imported_conversation_view(r) == (
            conversation_key(backup@),
            conversation_type_of(backup@),
            conversation_name(backup@),
        ),
{
    let conversation_type = if backup.group_id.is_some() {
        ConversationType::Group
    } else {
        ConversationType::Private
    };
    let name = match &backup.name {
        Some(n) => string_of(n.as_str()),
        None => if backup.group_id.is_some() {
            string_of("Group")
        } else {
            match &backup.recipient_uuid {
                Some(u) => string_of(u.as_str()),
                None => string_of("Unknown"),
            }
        },
    };
    ImportedConversation { id: conversation_key_of(backup), conversation_type, name }
}

/// The message's stored fields: id, conversation, sender, direction, body
/// and time.
pub open spec fn imported_message_view(m: ImportedMessage) -> (
    Seq<char>,
    Seq<char>,
    Seq<char>,
    MessageDirection,
    MessageStatus,
    Seq<char>,
    i64,
) {
    (m.id@, m.conversation_id@, m.sender@, m.direction, m.status, m.body@, m.sent_at_millis)
}

/// The stored form of a backup message whose conversation record is
/// `conv`: it goes to that conversation's key (or keeps its own conversation
/// id where the record is not known); an outgoing message's sender is
/// "self"; every imported message counts as read.
pub open spec fn imported_message(m: MessageRecord, conv: Option<ConversationRecord>) -> (
    Seq<char>,
    Seq<char>,
    Seq<char>,
    MessageDirection,
    MessageStatus,
    Seq<char>,
    i64,
) {
    (
        m.id,
        match conv {
            Some(c) => conversation_key(ConversationRecord { id: m.conversation_id, ..c }),
            None => m.conversation_id,
        },
        if m.is_outgoing {
            SELF_SENDER@
        } else {
            m.sender_uuid
        },
        if m.is_outgoing {
            MessageDirection::Outgoing
        } else {
            MessageDirection::Incoming
        },
        MessageStatus::Read,
        match m.body {
            Some(b) => b,
            None => Seq::empty(),
        },
        m.timestamp,
    )
}

/// The stored form of a backup message.
pub fn convert_backup_message(backup: &BackupMessage, conv_info: Option<&BackupConversation>) -> (r:
    ImportedMessage)
    ensures
        imported_message_view(r) == imported_message(
            backup@,
            match conv_info {
                Some(c) => Some(c@),
                None => None,
            },
        ),
{
    let conversation_id = match conv_info {
        Some(conv) => match &conv.group_id {
            Some(g) => base64_encode(g.as_slice()),
            None => match &conv.recipient_uuid {
                Some(u) => string_of(u.as_str()),
                None => string_of(backup.conversation_id.as_str()),
            },
        },
        None => string_of(backup.conversation_id.as_str()),
    };
    let sender = if backup.is_outgoing {
        string_of(SELF_SENDER)
    } else {
        string_of(backup.sender_uuid.as_str())
    };
    let direction = if backup.is_outgoing {
        MessageDirection::Outgoing
    } else {
        MessageDirection::Incoming
    };
    let body = match &backup.body {
        Some(b) => string_of(b.as_str()),
        None => String::new(),
    };
    ImportedMessage {
        id: string_of(backup.id.as_str()),
        conversation_id,
        sender,
        direction,
        status: MessageStatus::Read,
        body,
        sent_at_millis: backup.timestamp,
    }
}

/// The last conversation record among the first `n` whose id is `id`.
pub open spec fn last_with_id(convs: Seq<ConversationRecord>, id: Seq<char>, n: int) -> Option<ConversationRecord>
    decreases n,
{
    if n <= 0 {
        None
    } else if convs[n - 1].id == id {
        Some(convs[n - 1])
    } else {
        last_with_id(convs, id, n - 1)
    }
}

/// The stored forms of the first `n` messages that have a body.
pub open spec fn imported_messages(
    msgs: Seq<MessageRecord>,
    convs: Seq<ConversationRecord>,
    n: int,
) -> Seq<(Seq<char>, Seq<char>, Seq<char>, MessageDirection, MessageStatus, Seq<char>, i64)>
    decreases n,
{
    if n <= 0 {
        Seq::empty()
    } else {
        let before = imported_messages(msgs, convs, n - 1);
        let m = msgs[n - 1];
        if m.body is Some {
            before.push(imported_message(m, last_with_id(convs, m.conversation_id, convs.len() as int)))
        } else {
            before
        }
    }
}

/// What an import stores.
pub struct BackupImport {
    pub conversations: Vec<ImportedConversation>,
    pub messages: Vec<ImportedMessage>,
}

fn find_conversation<'a>(convs: &'a Vec<BackupConversation>, id: &String) -> (r: Option<&'a BackupConversation>)
    ensures
        match r {
            Some(c) => last_with_id(conversations_view(convs@), id@, convs@.len() as int) == Some(c@),
            None => last_with_id(conversations_view(convs@), id@, convs@.len() as int) is None,
        },
{
    let mut i: usize = convs.len();
    while i > 0
        invariant
            i <= convs@.len(),
            last_with_id(conversations_view(convs@), id@, convs@.len() as int) == last_with_id(
                conversations_view(convs@),
                id@,
                i as int,
            ),
        decreases i,
    {
        if convs[i - 1].id == *id {
            return Some(&convs[i - 1]);
        }
        i = i - 1;
    }
    None
}

/// The conversations and messages an import stores: every conversation,
/// and every message that has a body, attached to the last conversation
/// record with its conversation id.
pub fn import_backup_data(backup_data: &BackupData) -> (r: BackupImport)
    ensures
        r.conversations@.map_values(|c: ImportedConversation| imported_conversation_view(c))
            == conversations_view(backup_data.conversations@).map_values(
            |c: ConversationRecord| (conversation_key(c), conversation_type_of(c), conversation_name(c)),
        ),
        r.messages@.map_values(|m: ImportedMessage| imported_message_view(m)) == imported_messages(
            messages_view(backup_data.messages@),
            conversations_view(backup_data.conversations@),
            backup_data.messages@.len() as int,
        ),
{
    let mut conversations: Vec<ImportedConversation> = Vec::new();
    let mut i: usize = 0;
    while i < backup_data.conversations.len()
        invariant
            i <= backup_data.conversations@.len(),
            conversations@.map_values(|c: ImportedConversation| imported_conversation_view(c))
                =~= conversations_view(backup_data.conversations@.subrange(0, i as int)).map_values(
                |c: ConversationRecord| (conversation_key(c), conversation_type_of(c), conversation_name(c)),
            ),
        decreases backup_data.conversations.len() - i,
    {
        let c = convert_backup_conversation(&backup_data.conversations[i]);
        let ghost before = conversations@;
        conversations.push(c);
        i = i + 1;
        proof {
            let src = backup_data.conversations@;
            assert(src.subrange(0, i as int) =~= src.subrange(0, i - 1).push(src[i - 1]));
            assert(conversations@ =~= before.push(c));
            assert(conversations_view(src.subrange(0, i as int)) =~= conversations_view(
                src.subrange(0, i - 1),
            ).push(src[i - 1]@));
            let f = |c: ImportedConversation| imported_conversation_view(c);
            let g = |c: ConversationRecord|
                (conversation_key(c), conversation_type_of(c), conversation_name(c));
            assert(conversations@.map_values(f) =~= before.map_values(f).push(f(c)));
            assert(conversations_view(src.subrange(0, i as int)).map_values(g) =~= conversations_view(
                src.subrange(0, i - 1),
            ).map_values(g).push(g(src[i - 1]@)));
        }
    }
    proof {
        assert(backup_data.conversations@.subrange(0, i as int) =~= backup_data.conversations@);
    }
    let mut messages: Vec<ImportedMessage> = Vec::new();
    let mut j: usize = 0;
    while j < backup_data.messages.len()
        invariant
            j <= backup_data.messages@.len(),
            messages@.map_values(|m: ImportedMessage| imported_message_view(m)) =~= imported_messages(
                messages_view(backup_data.messages@),
                conversations_view(backup_data.conversations@),
                j as int,
            ),
        decreases backup_data.messages.len() - j,
    {
        let m = &backup_data.messages[j];
        if m.body.is_some() {
            let conv = find_conversation(&backup_data.conversations, &m.conversation_id);
            let im = convert_backup_message(m, conv);
            messages.push(im);
        }
        j = j + 1;
    }
    BackupImport { conversations, messages }
}

} // verus!
