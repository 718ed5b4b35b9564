//! Parts of a stored message: mentions, quotes and group updates.
use vstd::prelude::*;
use vstd::string::StringSliceAdditionalSpecFns;
use vstd::utf8::encode_utf8;

use crate::frames::opt_chars;
use crate::import::{MessageDirection, MessageStatus};
use crate::text::{concat, string_of};
use crate::transport::{IncomingMessage, MessageContent};

verus! {

/// What changed in a group.
#[derive(Debug, Clone, Copy, PartialEq, Eq, Structural)]
pub enum GroupUpdateType {
    Created,
    NameChanged,
    AvatarChanged,
    MembersAdded,
    MembersRemoved,
    MemberJoined,
    MemberLeft,
    AdminsChanged,
    DescriptionChanged,
    DisappearingMessagesChanged,
}

/// A mention of a user within a message body.
#[derive(Debug, Clone)]
pub struct Mention {
    pub start: usize,
    pub length: usize,
    pub uuid: String,
}

/// The message a reply quotes.
#[derive(Debug, Clone)]
pub struct Quote {
    pub message_id: String,
    pub author: String,
    pub text: Option<String>,
    pub attachment_preview: Option<AttachmentPreview>,
}

/// A preview of a quoted attachment.
#[derive(Debug, Clone)]
pub struct AttachmentPreview {
    pub content_type: String,
    pub filename: Option<String>,
    pub thumbnail_id: Option<String>,
}

/// What a stored message holds.
#[derive(Debug, Clone)]
pub enum Content {
    Text { body: String, mentions: Vec<Mention> },
    Image {
        attachment_id: String,
        content_type: String,
        width: u32,
        height: u32,
        size: u64,
        caption: Option<String>,
        blurhash: Option<String>,
    },
    Video {
        attachment_id: String,
        content_type: String,
        width: u32,
        height: u32,
        duration_ms: u64,
        size: u64,
        caption: Option<String>,
        thumbnail_id: Option<String>,
    },
    Audio { attachment_id: String, content_type: String, duration_ms: u64, size: u64, waveform: Option<Vec<u8>> },
    File { attachment_id: String, content_type: String, filename: String, size: u64 },
    Sticker { pack_id: String, pack_key: String, sticker_id: u32, emoji: Option<String> },
    Contact { name: String, phone_numbers: Vec<String>, email: Option<String> },
    GroupUpdate { update_type: GroupUpdateType, details: String },
    ProfileKeyUpdate,
    EndSession,
}

/// A received message as it is stored: incoming and delivered; its times in
/// whole seconds since the epoch.
#[derive(Debug, Clone)]
pub struct StoredIncoming {
    pub id: String,
    pub conversation_id: String,
    pub sender: String,
    pub direction: MessageDirection,
    pub status: MessageStatus,
    pub content: Content,
    pub sent_at_secs: i64,
    pub server_timestamp_secs: i64,
}

/// Whether the UTF-8 bytes of `s` begin with those of `prefix`.
pub open spec fn starts_with_bytes(s: Seq<u8>, prefix: Seq<u8>) -> bool {
    prefix.len() <= s.len() && s.subrange(0, prefix.len() as int) == prefix
}

fn starts_with(s: &str, prefix: &str) -> (r: bool)
    ensures
        r == starts_with_bytes(s.spec_bytes(), prefix.spec_bytes()),
{
    let a = s.as_bytes();
    let b = prefix.as_bytes();
    if b.len() > a.len() {
        return false;
    }
    let mut i: usize = 0;
    while i < b.len()
        invariant
            a@ == s.spec_bytes(),
            b@ == prefix.spec_bytes(),
            b@.len() <= a@.len(),
            i <= b@.len(),
            forall|j: int| 0 <= j < i ==> a@[j] == b@[j],
        decreases b.len() - i,
    {
        if a[i] != b[i] {
            proof {
                assert(a@.subrange(0, b@.len() as int)[i as int] != b@[i as int]);
            }
            return false;
        }
        i = i + 1;
    }
    proof {
        assert(a@.subrange(0, b@.len() as int) =~= b@);
    }
    true
}

/// The kind of stored content an attachment of type `content_type` makes.
pub open spec fn attachment_kind(content_type: Seq<char>) -> u8 {
    let bytes = encode_utf8(content_type);
    if starts_with_bytes(bytes, "image/".spec_bytes()) {
        0
    } else if starts_with_bytes(bytes, "video/".spec_bytes()) {
        1
    } else if starts_with_bytes(bytes, "audio/".spec_bytes()) {
        2
    } else {
        3
    }
}

/// The stored content of received content: text stays text; an attachment
/// becomes an image, video or audio by the start of its type, else a file
/// (named "attachment" where it has no name), with no dimensions or
/// duration known; a sticker keeps its pack and id; a reaction is stored as
/// a sentence; a quote as its text.
pub fn stored_content(content: &MessageContent) -> (r: Content)
    ensures
        match content {
            MessageContent::Text(t) => r matches Content::Text { body, mentions } && body@ == t@
                && mentions@.len() == 0,
            MessageContent::Attachment { content_type, filename, size, attachment_id } => match attachment_kind(content_type@) {
                0 => r matches Content::Image { attachment_id: a, content_type: c, width, height, size: sz, caption, blurhash }
                    && a@ == attachment_id@ && c@ == content_type@ && width == 0 && height == 0 && sz == *size
                    && caption is None && blurhash is None,
                1 => r matches Content::Video { attachment_id: a, content_type: c, width, height, duration_ms, size: sz, caption, thumbnail_id }
                    && a@ == attachment_id@ && c@ == content_type@ && width == 0 && height == 0 && duration_ms == 0
                    && sz == *size && caption is None && thumbnail_id is None,
                2 => r matches Content::Audio { attachment_id: a, content_type: c, duration_ms, size: sz, waveform }
                    && a@ == attachment_id@ && c@ == content_type@ && duration_ms == 0 && sz == *size && waveform is None,
                _ => r matches Content::File { attachment_id: a, content_type: c, filename: f, size: sz }
                    && a@ == attachment_id@ && c@ == content_type@ && sz == *size
                    && f@ == match opt_chars(*filename) {
                    Some(n) => n,
                    None => "attachment"@,
                },
            },
            MessageContent::Sticker { pack_id, sticker_id } => r matches Content::Sticker { pack_id: p, pack_key, sticker_id: i, emoji }
                && p@ == pack_id@ && pack_key@.len() == 0 && i == *sticker_id && emoji is None,
            MessageContent::Reaction { emoji, .. } => r matches Content::Text { body, mentions }
                && body@ == "Reacted with "@ + emoji@ + " to message"@ && mentions@.len() == 0,
            MessageContent::Quote { text, .. } => r matches Content::Text { body, mentions } && body@ == text@
                && mentions@.len() == 0,
        },
{
    match content {
        MessageContent::Text(t) => Content::Text { body: string_of(t.as_str()), mentions: Vec::new() },
        MessageContent::Attachment { content_type, filename, size, attachment_id } => {
            let kind = content_type.as_str();
            if starts_with(kind, "image/") {
                Content::Image {
                    attachment_id: string_of(attachment_id.as_str()),
                    content_type: string_of(kind),
                    width: 0,
                    height: 0,
                    size: *size,
                    caption: None,
                    blurhash: None,
                }
            } else if starts_with(kind, "video/") {
                Content::Video {
                    attachment_id: string_of(attachment_id.as_str()),
                    content_type: string_of(kind),
                    width: 0,
                    height: 0,
                    duration_ms: 0,
                    size: *size,
                    caption: None,
                    thumbnail_id: None,
                }
            } else if starts_with(kind, "audio/") {
                Content::Audio {
                    attachment_id: string_of(attachment_id.as_str()),
                    content_type: string_of(kind),
                    duration_ms: 0,
                    size: *size,
                    waveform: None,
                }
            } else {
                let name = match filename {
                    Some(f) => string_of(f.as_str()),
                    None => string_of("attachment"),
                };
                Content::File {
                    attachment_id: string_of(attachment_id.as_str()),
                    content_type: string_of(kind),
                    filename: name,
                    size: *size,
                }
            }
        },
        MessageContent::Sticker { pack_id, sticker_id } => Content::Sticker {
            pack_id: string_of(pack_id.as_str()),
            pack_key: String::new(),
            sticker_id: *sticker_id,
            emoji: None,
        },
        MessageContent::Reaction { emoji, .. } => {
            let mut body = concat("Reacted with ", emoji.as_str());
            body.append(" to message");
            Content::Text { body, mentions: Vec::new() }
        },
        MessageContent::Quote { text, .. } => Content::Text { body: string_of(text.as_str()), mentions: Vec::new() },
    }
}

/// Whole seconds of a time in milliseconds, rounded toward zero.
pub open spec fn seconds_of(millis: int) -> int {
    if millis >= 0 {
        millis / 1000
    } else {
        -((-millis) / 1000)
    }
}

/// A received message as it is stored.
pub fn incoming_to_message(incoming: &IncomingMessage) -> (r: StoredIncoming)
    ensures
        r.id@ == incoming.id@,
        r.conversation_id@ == incoming.conversation_id@,
        r.sender@ == incoming.sender@,
        r.direction == MessageDirection::Incoming,
        r.status == MessageStatus::Delivered,
        r.sent_at_secs as int == seconds_of(incoming.timestamp as int),
        r.server_timestamp_secs as int == seconds_of(incoming.server_timestamp as int),
{
    StoredIncoming {
        id: string_of(incoming.id.as_str()),
        conversation_id: string_of(incoming.conversation_id.as_str()),
        sender: string_of(incoming.sender.as_str()),
        direction: MessageDirection::Incoming,
        status: MessageStatus::Delivered,
        content: stored_content(&incoming.content),
        sent_at_secs: incoming.timestamp / 1000,
        server_timestamp_secs: incoming.server_timestamp / 1000,
    }
}

} // verus!
