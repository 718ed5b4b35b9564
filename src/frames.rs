//! The backup frame format: a gzip stream of varint-length-prefixed frames,
//! each a run of tag-prefixed fields, read as far as it can be read.
use vstd::prelude::*;

use crate::error::SignalError;
use crate::primitives::{
    gunzip, gzip_decompress, utf8_decode, utf8_decoded, uuid_hyphenated, uuid_text,
};
use crate::text::{decimal, decimal_string, string_of};
use crate::wire::{copy_range, lemma_varint_advances, read_varint, varint_at};

verus! {

/// What one backup import found.
pub struct BackupData {
    pub messages: Vec<BackupMessage>,
    pub conversations: Vec<BackupConversation>,
    pub frame_count: usize,
}

/// A chat item of the backup.
#[derive(Debug, Clone)]
pub struct BackupMessage {
    pub id: String,
    pub conversation_id: String,
    pub sender_uuid: String,
    pub body: Option<String>,
    pub timestamp: i64,
    pub is_outgoing: bool,
}

/// A recipient record of the backup.
#[derive(Debug, Clone)]
pub struct BackupConversation {
    pub id: String,
    pub recipient_uuid: Option<String>,
    pub group_id: Option<Vec<u8>>,
    pub name: Option<String>,
}

/// The value of a `BackupMessage`.
pub struct MessageRecord {
    pub id: Seq<char>,
    pub conversation_id: Seq<char>,
    pub sender_uuid: Seq<char>,
    pub body: Option<Seq<char>>,
    pub timestamp: i64,
    pub is_outgoing: bool,
}

/// The value of a `BackupConversation`.
pub struct ConversationRecord {
    pub id: Seq<char>,
    pub recipient_uuid: Option<Seq<char>>,
    pub group_id: Option<Seq<u8>>,
    pub name: Option<Seq<char>>,
}

pub open spec fn opt_chars(o: Option<String>) -> Option<Seq<char>> {
    match o {
        Some(s) => Some(s@),
        None => None,
    }
}

pub open spec fn opt_bytes(o: Option<Vec<u8>>) -> Option<Seq<u8>> {
    match o {
        Some(v) => Some(v@),
        None => None,
    }
}

impl View for BackupMessage {
    type V = MessageRecord;

    open spec fn view(&self) -> MessageRecord {
        MessageRecord {
            id: self.id@,
            conversation_id: self.conversation_id@,
            sender_uuid: self.sender_uuid@,
            body: opt_chars(self.body),
            timestamp: self.timestamp,
            is_outgoing: self.is_outgoing,
        }
    }
}

impl View for BackupConversation {
    type V = ConversationRecord;

    open spec fn view(&self) -> ConversationRecord {
        ConversationRecord {
            id: self.id@,
            recipient_uuid: opt_chars(self.recipient_uuid),
            group_id: opt_bytes(self.group_id),
            name: opt_chars(self.name),
        }
    }
}

pub open spec fn messages_view(s: Seq<BackupMessage>) -> Seq<MessageRecord> {
    s.map_values(|m: BackupMessage| m@)
}

pub open spec fn conversations_view(s: Seq<BackupConversation>) -> Seq<ConversationRecord> {
    s.map_values(|c: BackupConversation| c@)
}

/// The position after `next` that a scan standing at `pos` goes on from;
/// the readers below always move forward and stay within the data, and this
/// keeps that visible to the recursion.
pub open spec fn advance(pos: int, next: int, len: int) -> int {
    if pos < next && next <= len {
        next
    } else {
        len
    }
}

/// Where the scan goes after a field that it does not read, whose wire type
/// is `wire` and whose content starts at `at`: past a varint, past 8 or 4
/// fixed bytes, past a length-delimited body (no further than the end), or
/// `None` for a wire type that has no known length, where the scan stops.
pub open spec fn skip_from(data: Seq<u8>, at: int, wire: u8) -> Option<int> {
    let len = data.len() as int;
    if wire == 0 {
        Some(varint_at(data, at).1)
    } else if wire == 1 {
        Some(if at + 8 <= len { at + 8 } else { len })
    } else if wire == 2 {
        match varint_at(data, at).0 {
            Some(n) => Some(
                if varint_at(data, at).1 + n <= len {
                    varint_at(data, at).1 + n
                } else {
                    len
                },
            ),
            None => Some(varint_at(data, at).1),
        }
    } else if wire == 5 {
        Some(if at + 4 <= len { at + 4 } else { len })
    } else {
        None
    }
}

/// The body `(start, end)` of a length-delimited field whose length varint
/// starts at `at`, where the length is read and the body fits in the data.
pub open spec fn body_at(data: Seq<u8>, at: int) -> Option<(int, int)> {
    match varint_at(data, at).0 {
        Some(n) => if varint_at(data, at).1 + n <= data.len() {
            Some((varint_at(data, at).1, varint_at(data, at).1 + n))
        } else {
            None
        },
        None => None,
    }
}

/// The tag byte's field number.
pub open spec fn field_of(tag: u8) -> u8 {
    tag >> 3
}

/// The tag byte's wire type.
pub open spec fn wire_of(tag: u8) -> u8 {
    tag & 7
}

/// The text of a text record: field 1 (length-delimited) read as UTF-8.
pub open spec fn text_scan(data: Seq<u8>, pos: int) -> Option<Seq<char>>
    decreases data.len() - pos,
{
    if pos < 0 || pos >= data.len() {
        None
    } else {
        let tag = data[pos];
        let at = pos + 1;
        let len = data.len() as int;
        if field_of(tag) == 1 && wire_of(tag) == 2 {
            match body_at(data, at) {
                Some((s, e)) => utf8_decoded(data.subrange(s, e)),
                None => text_scan(data, advance(pos, varint_at(data, at).1, len)),
            }
        } else {
            match skip_from(data, at, wire_of(tag)) {
                Some(next) => text_scan(data, advance(pos, next, len)),
                None => None,
            }
        }
    }
}

/// The text of a standard message: the text record in field 2.
pub open spec fn standard_scan(data: Seq<u8>, pos: int) -> Option<Seq<char>>
    decreases data.len() - pos,
{
    if pos < 0 || pos >= data.len() {
        None
    } else {
        let tag = data[pos];
        let at = pos + 1;
        let len = data.len() as int;
        if field_of(tag) == 2 && wire_of(tag) == 2 {
            match body_at(data, at) {
                Some((s, e)) => text_scan(data.subrange(s, e), 0),
                None => standard_scan(data, advance(pos, varint_at(data, at).1, len)),
            }
        } else {
            match skip_from(data, at, wire_of(tag)) {
                Some(next) => standard_scan(data, advance(pos, next, len)),
                None => None,
            }
        }
    }
}

/// The master key of a group record: the last field 1 that fits.
pub open spec fn group_scan(data: Seq<u8>, pos: int, key: Option<Seq<u8>>) -> Option<Seq<u8>>
    decreases data.len() - pos,
{
    if pos < 0 || pos >= data.len() {
        key
    } else {
        let tag = data[pos];
        let at = pos + 1;
        let len = data.len() as int;
        match skip_from(data, at, wire_of(tag)) {
            Some(next) => {
                let key2 = if field_of(tag) == 1 && wire_of(tag) == 2 {
                    match body_at(data, at) {
                        Some((s, e)) => Some(data.subrange(s, e)),
                        None => key,
                    }
                } else {
                    key
                };
                group_scan(data, advance(pos, next, len), key2)
            },
            None => key,
        }
    }
}

/// The ACI bytes (field 1, exactly 16 bytes) and profile given name
/// (field 11, UTF-8) of a contact record.
pub open spec fn contact_scan(
    data: Seq<u8>,
    pos: int,
    aci: Option<Seq<u8>>,
    name: Option<Seq<char>>,
) -> (Option<Seq<u8>>, Option<Seq<char>>)
    decreases data.len() - pos,
{
    if pos < 0 || pos >= data.len() {
        (aci, name)
    } else {
        let tag = data[pos];
        let at = pos + 1;
        let len = data.len() as int;
        match skip_from(data, at, wire_of(tag)) {
            Some(next) => {
                let aci2 = if field_of(tag) == 1 && wire_of(tag) == 2 {
                    match body_at(data, at) {
                        Some((s, e)) => if e - s == 16 {
                            Some(data.subrange(s, e))
                        } else {
                            aci
                        },
                        None => aci,
                    }
                } else {
                    aci
                };
                let name2 = if field_of(tag) == 11 && wire_of(tag) == 2 {
                    match body_at(data, at) {
                        Some((s, e)) => utf8_decoded(data.subrange(s, e)),
                        None => name,
                    }
                } else {
                    name
                };
                contact_scan(data, advance(pos, next, len), aci2, name2)
            },
            None => (aci, name),
        }
    }
}

/// The contact record's ACI as UUID text, and its name.
pub open spec fn contact_model(data: Seq<u8>) -> (Option<Seq<char>>, Option<Seq<char>>) {
    let (aci, name) = contact_scan(data, 0, None, None);
    (
        match aci {
            Some(b) => Some(uuid_hyphenated(b)),
            None => None,
        },
        name,
    )
}

/// The fields a recipient record collects: id (field 1), and from a contact
/// (field 2) or group (field 3) sub-record the UUID, group key and name.
pub struct RecipientFields {
    pub id: Option<u64>,
    pub uuid: Option<Seq<char>>,
    pub group: Option<Seq<u8>>,
    pub name: Option<Seq<char>>,
}

pub open spec fn recipient_scan(data: Seq<u8>, pos: int, st: RecipientFields) -> RecipientFields
    decreases data.len() - pos,
{
    if pos < 0 || pos >= data.len() {
        st
    } else {
        let tag = data[pos];
        let at = pos + 1;
        let len = data.len() as int;
        let after_len = varint_at(data, at).1;
        if field_of(tag) == 1 && wire_of(tag) == 0 {
            recipient_scan(
                data,
                advance(pos, after_len, len),
                RecipientFields { id: varint_at(data, at).0, ..st },
            )
        } else if field_of(tag) == 2 && wire_of(tag) == 2 {
            match body_at(data, at) {
                Some((s, e)) => {
                    let (u, n) = contact_model(data.subrange(s, e));
                    recipient_scan(data, advance(pos, e, len), RecipientFields { uuid: u, name: n, ..st })
                },
                None => recipient_scan(data, advance(pos, after_len, len), st),
            }
        } else if field_of(tag) == 3 && wire_of(tag) == 2 {
            match body_at(data, at) {
                Some((s, e)) => {
                    let st2 = match group_scan(data.subrange(s, e), 0, None) {
                        Some(k) => RecipientFields { group: Some(k), name: None, ..st },
                        None => st,
                    };
                    recipient_scan(data, advance(pos, e, len), st2)
                },
                None => recipient_scan(data, advance(pos, after_len, len), st),
            }
        } else {
            match skip_from(data, at, wire_of(tag)) {
                Some(next) => recipient_scan(data, advance(pos, next, len), st),
                None => st,
            }
        }
    }
}

/// The conversation a recipient record gives, where it has an id.
pub open spec fn recipient_model(data: Seq<u8>) -> Option<ConversationRecord> {
    let st = recipient_scan(data, 0, RecipientFields { id: None, uuid: None, group: None, name: None });
    match st.id {
        Some(i) => Some(ConversationRecord {
            id: decimal(i as nat),
            recipient_uuid: st.uuid,
            group_id: st.group,
            name: st.name,
        }),
        None => None,
    }
}

/// The fields a chat item collects: chat id (1), author id (2), date sent (3),
/// the outgoing marker (9) and the standard message body (11).
pub struct ChatFields {
    pub chat: Option<u64>,
    pub author: Option<u64>,
    pub date: Option<u64>,
    pub body: Option<Seq<char>>,
    pub outgoing: bool,
}

pub open spec fn chat_scan(data: Seq<u8>, pos: int, st: ChatFields) -> ChatFields
    decreases data.len() - pos,
{
    if pos < 0 || pos >= data.len() {
        st
    } else {
        let tag = data[pos];
        let at = pos + 1;
        let len = data.len() as int;
        let v = varint_at(data, at);
        if field_of(tag) == 1 && wire_of(tag) == 0 {
            chat_scan(data, advance(pos, v.1, len), ChatFields { chat: v.0, ..st })
        } else if field_of(tag) == 2 && wire_of(tag) == 0 {
            chat_scan(data, advance(pos, v.1, len), ChatFields { author: v.0, ..st })
        } else if field_of(tag) == 3 && wire_of(tag) == 0 {
            chat_scan(data, advance(pos, v.1, len), ChatFields { date: v.0, ..st })
        } else {
            match skip_from(data, at, wire_of(tag)) {
                Some(next) => {
                    let st2 = if field_of(tag) == 9 && wire_of(tag) == 2 && body_at(data, at) is Some {
                        ChatFields { outgoing: true, ..st }
                    } else if field_of(tag) == 11 && wire_of(tag) == 2 && body_at(data, at) is Some {
                        let (s, e) = body_at(data, at)->0;
                        ChatFields { body: standard_scan(data.subrange(s, e), 0), ..st }
                    } else {
                        st
                    };
                    chat_scan(data, advance(pos, next, len), st2)
                },
                None => st,
            }
        }
    }
}

/// Decimal text of an optional number; empty where absent.
pub open spec fn decimal_or_empty(n: Option<u64>) -> Seq<char> {
    match n {
        Some(v) => decimal(v as nat),
        None => Seq::empty(),
    }
}

/// The message a chat item gives: its id is the date sent, its conversation
/// the chat id, its sender the author id, each in decimal.
pub open spec fn chat_model(data: Seq<u8>) -> MessageRecord {
    let st = chat_scan(
        data,
        0,
        ChatFields { chat: None, author: None, date: None, body: None, outgoing: false },
    );
    MessageRecord {
        id: decimal_or_empty(st.date),
        conversation_id: decimal_or_empty(st.chat),
        sender_uuid: decimal_or_empty(st.author),
        body: st.body,
        timestamp: match st.date {
            Some(d) => d as i64,
            None => 0,
        },
        is_outgoing: st.outgoing,
    }
}

/// The fields of one frame: a recipient record (field 2) adds a
/// conversation where it has an id, a chat item (field 4) adds a message.
pub open spec fn frame_scan(
    data: Seq<u8>,
    pos: int,
    msgs: Seq<MessageRecord>,
    convs: Seq<ConversationRecord>,
) -> (Seq<MessageRecord>, Seq<ConversationRecord>)
    decreases data.len() - pos,
{
    if pos < 0 || pos >= data.len() {
        (msgs, convs)
    } else {
        let tag = data[pos];
        let at = pos + 1;
        let len = data.len() as int;
        let after_len = varint_at(data, at).1;
        if field_of(tag) == 2 && wire_of(tag) == 2 {
            match body_at(data, at) {
                Some((s, e)) => {
                    let convs2 = match recipient_model(data.subrange(s, e)) {
                        Some(c) => convs.push(c),
                        None => convs,
                    };
                    frame_scan(data, advance(pos, e, len), msgs, convs2)
                },
                None => frame_scan(data, advance(pos, after_len, len), msgs, convs),
            }
        } else if field_of(tag) == 4 && wire_of(tag) == 2 {
            match body_at(data, at) {
                Some((s, e)) => frame_scan(
                    data,
                    advance(pos, e, len),
                    msgs.push(chat_model(data.subrange(s, e))),
                    convs,
                ),
                None => frame_scan(data, advance(pos, after_len, len), msgs, convs),
            }
        } else {
            match skip_from(data, at, wire_of(tag)) {
                Some(next) => frame_scan(data, advance(pos, next, len), msgs, convs),
                None => (msgs, convs),
            }
        }
    }
}

/// The frames of a decompressed backup from `pos`: each a varint length and
/// that many bytes. The scan stops where a length cannot be read or runs
/// past the end. The result adds what each frame holds, and the number of
/// frames read.
pub open spec fn frames_scan(
    data: Seq<u8>,
    pos: int,
    msgs: Seq<MessageRecord>,
    convs: Seq<ConversationRecord>,
    count: nat,
) -> (Seq<MessageRecord>, Seq<ConversationRecord>, nat)
    decreases data.len() - pos,
{
    if pos < 0 || pos >= data.len() {
        (msgs, convs, count)
    } else {
        match body_at(data, pos) {
            Some((s, e)) => {
                let (m2, c2) = frame_scan(data.subrange(s, e), 0, msgs, convs);
                frames_scan(data, advance(pos, e, data.len() as int), m2, c2, count + 1)
            },
            None => (msgs, convs, count),
        }
    }
}

/// What a decompressed backup holds.
pub open spec fn backup_model(plain: Seq<u8>) -> (Seq<MessageRecord>, Seq<ConversationRecord>, nat) {
    frames_scan(plain, 0, Seq::empty(), Seq::empty(), 0)
}

pub proof fn lemma_skip_from_advances(data: Seq<u8>, at: int, wire: u8)
    requires
        0 < at <= data.len(),
    ensures
        skip_from(data, at, wire) matches Some(next) ==> at <= next <= data.len(),
{
    lemma_varint_advances(data, at);
}

pub proof fn lemma_body_within(data: Seq<u8>, at: int)
    requires
        0 <= at <= data.len(),
    ensures
        body_at(data, at) matches Some((s, e)) ==> at <= s <= e <= data.len() && s
            == varint_at(data, at).1,
{
    lemma_varint_advances(data, at);
}

pub(crate) enum Span {
    Body(usize, usize),
    Overrun,
    Missing,
}

/// Reads the length varint of a length-delimited field at `*offset` and
/// moves past it.
pub(crate) fn read_span(data: &[u8], offset: &mut usize) -> (r: Span)
    requires
        *old(offset) <= data@.len(),
    ensures
        *final(offset) as int == varint_at(data@, *old(offset) as int).1,
        *old(offset) <= *final(offset) <= data@.len(),
        match body_at(data@, *old(offset) as int) {
            Some((s, e)) => r == Span::Body(s as usize, e as usize),
            None => if varint_at(data@, *old(offset) as int).0 is Some {
                r is Overrun
            } else {
                r is Missing
            },
        },
{
    proof {
        lemma_varint_advances(data@, *offset as int);
    }
    match read_varint(data, offset) {
        Some(n) => {
            if n <= (data.len() - *offset) as u64 {
                Span::Body(*offset, *offset + n as usize)
            } else {
                Span::Overrun
            }
        },
        None => Span::Missing,
    }
}

/// Moves `*offset`, which stands after a tag byte, past a field that is not
/// read. Returns false where the wire type has no known length.
pub(crate) fn skip_field(data: &[u8], offset: &mut usize, wire: u8) -> (r: bool)
    requires
        0 < *old(offset) <= data@.len(),
    ensures
        r == skip_from(data@, *old(offset) as int, wire) is Some,
        r ==> *final(offset) as int == skip_from(data@, *old(offset) as int, wire)->0,
        r ==> *old(offset) <= *final(offset) <= data@.len(),
{
    proof {
        lemma_varint_advances(data@, *offset as int);
    }
    if wire == 0 {
        read_varint(data, offset);
        true
    } else if wire == 1 {
        *offset = if data.len() - *offset >= 8 { *offset + 8 } else { data.len() };
        true
    } else if wire == 2 {
        match read_varint(data, offset) {
            Some(n) => {
                *offset = if n <= (data.len() - *offset) as u64 {
                    *offset + n as usize
                } else {
                    data.len()
                };
            },
            None => {},
        }
        true
    } else if wire == 5 {
        *offset = if data.len() - *offset >= 4 { *offset + 4 } else { data.len() };
        true
    } else {
        false
    }
}

/// Reads the text record of a standard message: field 1 as UTF-8.
pub fn parse_text(data: &[u8]) -> (r: Option<String>)
    ensures
        opt_chars(r) == text_scan(data@, 0),
{
    let mut offset: usize = 0;
    while offset < data.len()
        invariant
            offset <= data@.len(),
            text_scan(data@, 0) == text_scan(data@, offset as int),
        decreases data.len() - offset,
    {
        let pos = offset;
        let tag = data[offset];
        let wire = tag & 7;
        let field = tag >> 3;
        offset = offset + 1;
        proof {
            lemma_skip_from_advances(data@, offset as int, wire);
            lemma_varint_advances(data@, offset as int);
        }
        if field == 1 && wire == 2 {
            match read_span(data, &mut offset) {
                Span::Body(s, e) => {
                    return utf8_decode(&data[s..e]);
                },
                _ => {},
            }
        } else if !skip_field(data, &mut offset, wire) {
            return None;
        }
        assert(advance(pos as int, offset as int, data@.len() as int) == offset);
    }
    None
}

/// Reads a standard message body: the text record in field 2.
pub fn parse_standard_message(data: &[u8]) -> (r: Option<String>)
    ensures
        opt_chars(r) == standard_scan(data@, 0),
{
    let mut offset: usize = 0;
    while offset < data.len()
        invariant
            offset <= data@.len(),
            standard_scan(data@, 0) == standard_scan(data@, offset as int),
        decreases data.len() - offset,
    {
        let pos = offset;
        let tag = data[offset];
        let wire = tag & 7;
        let field = tag >> 3;
        offset = offset + 1;
        proof {
            lemma_skip_from_advances(data@, offset as int, wire);
            lemma_varint_advances(data@, offset as int);
        }
        if field == 2 && wire == 2 {
            match read_span(data, &mut offset) {
                Span::Body(s, e) => {
                    return parse_text(&data[s..e]);
                },
                _ => {},
            }
        } else if !skip_field(data, &mut offset, wire) {
            return None;
        }
        assert(advance(pos as int, offset as int, data@.len() as int) == offset);
    }
    None
}

/// Reads a group record: its master key (field 1), where it has one.
pub fn parse_group(data: &[u8]) -> (r: Option<Vec<u8>>)
    ensures
        opt_bytes(r) == group_scan(data@, 0, None),
{
    let mut key: Option<Vec<u8>> = None;
    let mut offset: usize = 0;
    while offset < data.len()
        invariant
            offset <= data@.len(),
            group_scan(data@, 0, None) == group_scan(data@, offset as int, opt_bytes(key)),
        decreases data.len() - offset,
    {
        let pos = offset;
        let tag = data[offset];
        let wire = tag & 7;
        let field = tag >> 3;
        offset = offset + 1;
        proof {
            lemma_skip_from_advances(data@, offset as int, wire);
            lemma_body_within(data@, offset as int);
        }
        let ghost at = offset as int;
        let ghost key0 = opt_bytes(key);
        if field == 1 && wire == 2 {
            let mut probe = offset;
            match read_span(data, &mut probe) {
                Span::Body(s, e) => {
                    key = Some(copy_range(data, s, e));
                },
                _ => {},
            }
        }
        if !skip_field(data, &mut offset, wire) {
            return key;
        }
        assert(advance(pos as int, offset as int, data@.len() as int) == offset);
    }
    key
}

/// Reads a contact record: its ACI (field 1, 16 bytes) as UUID text and its
/// profile given name (field 11).
pub fn parse_contact(data: &[u8]) -> (r: (Option<String>, Option<String>))
    ensures
        (opt_chars(r.0), opt_chars(r.1)) == contact_model(data@),
{
    let mut aci: Option<Vec<u8>> = None;
    let mut name: Option<String> = None;
    let mut offset: usize = 0;
    while offset < data.len()
        invariant
            offset <= data@.len(),
            contact_scan(data@, 0, None, None) == contact_scan(
                data@,
                offset as int,
                opt_bytes(aci),
                opt_chars(name),
            ),
            aci matches Some(a) ==> a@.len() == 16,
        decreases data.len() - offset,
    {
        let pos = offset;
        let tag = data[offset];
        let wire = tag & 7;
        let field = tag >> 3;
        offset = offset + 1;
        proof {
            lemma_skip_from_advances(data@, offset as int, wire);
            lemma_body_within(data@, offset as int);
        }
        if field == 1 && wire == 2 {
            let mut probe = offset;
            match read_span(data, &mut probe) {
                Span::Body(s, e) => {
                    if e - s == 16 {
                        aci = Some(copy_range(data, s, e));
                    }
                },
                _ => {},
            }
        }
        if field == 11 && wire == 2 {
            let mut probe = offset;
            match read_span(data, &mut probe) {
                Span::Body(s, e) => {
                    name = utf8_decode(&data[s..e]);
                },
                _ => {},
            }
        }
        if !skip_field(data, &mut offset, wire) {
            offset = data.len();
        } else {
            assert(advance(pos as int, offset as int, data@.len() as int) == offset);
        }
    }
    let uuid = match aci {
        Some(bytes) => Some(uuid_text(bytes.as_slice())),
        None => None,
    };
    (uuid, name)
}

/// Reads a recipient record into a conversation: its id (field 1), and a
/// contact (field 2) or group (field 3) sub-record. `None` where it has no id.
pub fn parse_recipient(data: &[u8]) -> (r: Option<BackupConversation>)
    ensures
        match r {
            Some(c) => recipient_model(data@) == Some(c@),
            None => recipient_model(data@) is None,
        },
{
    let mut id: Option<u64> = None;
    let mut recipient_uuid: Option<String> = None;
    let mut name: Option<String> = None;
    let mut group_id: Option<Vec<u8>> = None;
    let mut offset: usize = 0;
    let ghost init = RecipientFields { id: None, uuid: None, group: None, name: None };
    while offset < data.len()
        invariant
            offset <= data@.len(),
            recipient_scan(data@, 0, init) == recipient_scan(
                data@,
                offset as int,
                RecipientFields {
                    id: id,
                    uuid: opt_chars(recipient_uuid),
                    group: opt_bytes(group_id),
                    name: opt_chars(name),
                },
            ),
        decreases data.len() - offset,
    {
        let pos = offset;
        let tag = data[offset];
        let wire = tag & 7;
        let field = tag >> 3;
        offset = offset + 1;
        proof {
            lemma_skip_from_advances(data@, offset as int, wire);
            lemma_body_within(data@, offset as int);
            lemma_varint_advances(data@, offset as int);
        }
        if field == 1 && wire == 0 {
            id = read_varint(data, &mut offset);
        } else if field == 2 && wire == 2 {
            match read_span(data, &mut offset) {
                Span::Body(s, e) => {
                    let (u, n) = parse_contact(&data[s..e]);
                    recipient_uuid = u;
                    name = n;
                    offset = e;
                },
                _ => {},
            }
        } else if field == 3 && wire == 2 {
            match read_span(data, &mut offset) {
                Span::Body(s, e) => {
                    match parse_group(&data[s..e]) {
                        Some(k) => {
                            group_id = Some(k);
                            name = None;
                        },
                        None => {},
                    }
                    offset = e;
                },
                _ => {},
            }
        } else if !skip_field(data, &mut offset, wire) {
            offset = data.len();
            continue;
        }
        assert(advance(pos as int, offset as int, data@.len() as int) == offset);
    }
    match id {
        Some(i) => Some(
            BackupConversation {
                id: decimal_string(i),
                recipient_uuid: recipient_uuid,
                group_id: group_id,
                name: name,
            },
        ),
        None => None,
    }
}

/// Reads a chat item into a message: chat id (field 1), author id (2), date
/// sent (3), the outgoing marker (9) and the standard message (11).
pub fn parse_chat_item(data: &[u8]) -> (r: Option<BackupMessage>)
    ensures
        r matches Some(m) && m@ == chat_model(data@),
{
    let mut chat_id: Option<u64> = None;
    let mut author_id: Option<u64> = None;
    let mut date_sent: Option<u64> = None;
    let mut body: Option<String> = None;
    let mut is_outgoing = false;
    let mut offset: usize = 0;
    let ghost init = ChatFields { chat: None, author: None, date: None, body: None, outgoing: false };
    while offset < data.len()
        invariant
            offset <= data@.len(),
            chat_scan(data@, 0, init) == chat_scan(
                data@,
                offset as int,
                ChatFields {
                    chat: chat_id,
                    author: author_id,
                    date: date_sent,
                    body: opt_chars(body),
                    outgoing: is_outgoing,
                },
            ),
        decreases data.len() - offset,
    {
        let pos = offset;
        let tag = data[offset];
        let wire = tag & 7;
        let field = tag >> 3;
        offset = offset + 1;
        proof {
            lemma_skip_from_advances(data@, offset as int, wire);
            lemma_body_within(data@, offset as int);
            lemma_varint_advances(data@, offset as int);
        }
        if field == 1 && wire == 0 {
            chat_id = read_varint(data, &mut offset);
        } else if field == 2 && wire == 0 {
            author_id = read_varint(data, &mut offset);
        } else if field == 3 && wire == 0 {
            date_sent = read_varint(data, &mut offset);
        } else {
            if field == 9 && wire == 2 {
                let mut probe = offset;
                match read_span(data, &mut probe) {
                    Span::Body(_, _) => {
                        is_outgoing = true;
                    },
                    _ => {},
                }
            } else if field == 11 && wire == 2 {
                let mut probe = offset;
                match read_span(data, &mut probe) {
                    Span::Body(s, e) => {
                        body = parse_standard_message(&data[s..e]);
                    },
                    _ => {},
                }
            }
            if !skip_field(data, &mut offset, wire) {
                offset = data.len();
                continue;
            }
        }
        assert(advance(pos as int, offset as int, data@.len() as int) == offset);
    }
    let id = match date_sent {
        Some(d) => decimal_string(d),
        None => String::new(),
    };
    let conversation_id = match chat_id {
        Some(c) => decimal_string(c),
        None => String::new(),
    };
    let sender_uuid = match author_id {
        Some(a) => decimal_string(a),
        None => String::new(),
    };
    let timestamp: i64 = match date_sent {
        Some(d) => d as i64,
        None => 0,
    };
    Some(BackupMessage { id, conversation_id, sender_uuid, body, timestamp, is_outgoing })
}

/// Reads one frame: recipient records (field 2) that have an id are added to
/// `conversations`, chat items (field 4) to `messages`; what cannot be read
/// is skipped. It never fails.
pub fn parse_frame(
    data: &[u8],
    messages: &mut Vec<BackupMessage>,
    conversations: &mut Vec<BackupConversation>,
) -> (r: Result<(), SignalError>)
    ensures
        r is Ok,
        (messages_view(final(messages)@), conversations_view(final(conversations)@)) == frame_scan(
            data@,
            0,
            messages_view(old(messages)@),
            conversations_view(old(conversations)@),
        ),
{
    let mut offset: usize = 0;
    let ghost start = frame_scan(
        data@,
        0,
        messages_view(messages@),
        conversations_view(conversations@),
    );
    while offset < data.len()
        invariant
            offset <= data@.len(),
            start == frame_scan(
                data@,
                offset as int,
                messages_view(messages@),
                conversations_view(conversations@),
            ),
        decreases data.len() - offset,
    {
        let pos = offset;
        let tag = data[offset];
        let wire = tag & 7;
        let field = tag >> 3;
        offset = offset + 1;
        proof {
            lemma_skip_from_advances(data@, offset as int, wire);
            lemma_body_within(data@, offset as int);
            lemma_varint_advances(data@, offset as int);
        }
        if field == 2 && wire == 2 {
            match read_span(data, &mut offset) {
                Span::Body(s, e) => {
                    match parse_recipient(&data[s..e]) {
                        Some(c) => {
                            let ghost before = conversations@;
                            conversations.push(c);
                            assert(conversations_view(conversations@) =~= conversations_view(
                                before,
                            ).push(c@));
                        },
                        None => {},
                    }
                    offset = e;
                },
                _ => {},
            }
        } else if field == 4 && wire == 2 {
            match read_span(data, &mut offset) {
                Span::Body(s, e) => {
                    match parse_chat_item(&data[s..e]) {
                        Some(m) => {
                            let ghost before = messages@;
                            messages.push(m);
                            assert(messages_view(messages@) =~= messages_view(before).push(m@));
                        },
                        None => {},
                    }
                    offset = e;
                },
                _ => {},
            }
        } else if !skip_field(data, &mut offset, wire) {
            offset = data.len();
            continue;
        }
        assert(advance(pos as int, offset as int, data@.len() as int) == offset);
    }
    Ok(())
}

/// The frames of decompressed backup bytes, read until a length cannot be
/// read or runs past the end.
pub fn parse_frames(plain: &[u8]) -> (r: BackupData)
    ensures
        (messages_view(r.messages@), conversations_view(r.conversations@), r.frame_count as nat)
            == backup_model(plain@),
{
    let mut messages: Vec<BackupMessage> = Vec::new();
    let mut conversations: Vec<BackupConversation> = Vec::new();
    let mut offset: usize = 0;
    let mut frame_count: usize = 0;
    proof {
        assert(messages_view(messages@) =~= Seq::<MessageRecord>::empty());
        assert(conversations_view(conversations@) =~= Seq::<ConversationRecord>::empty());
    }
    while offset < plain.len()
        invariant
            offset <= plain@.len(),
            frame_count <= offset,
            backup_model(plain@) == frames_scan(
                plain@,
                offset as int,
                messages_view(messages@),
                conversations_view(conversations@),
                frame_count as nat,
            ),
        decreases plain.len() - offset,
    {
        let pos = offset;
        proof {
            lemma_body_within(plain@, offset as int);
            lemma_varint_advances(plain@, offset as int);
        }
        match read_span(plain, &mut offset) {
            Span::Body(s, e) => {
                parse_frame(&plain[s..e], &mut messages, &mut conversations);
                offset = e;
                frame_count = frame_count + 1;
            },
            _ => {
                offset = plain.len();
                continue;
            },
        }
        assert(advance(pos as int, offset as int, plain@.len() as int) == offset);
    }
    BackupData { messages, conversations, frame_count }
}

/// Decompresses a decrypted backup and reads its frames. Fails only where
/// the gzip stream cannot be decompressed.
pub fn parse_backup(data: &[u8]) -> (r: Result<BackupData, SignalError>)
    ensures
        match gunzip(data@) {
            Some(plain) => r matches Ok(b) && (
                messages_view(b.messages@),
                conversations_view(b.conversations@),
                b.frame_count as nat,
            ) == backup_model(plain),
            None => r matches Err(e) && e == SignalError::ProtocolError(
                e->ProtocolError_0,
            ) && e->ProtocolError_0@ == "Gzip decompression failed"@,
        },
{
    match gzip_decompress(data) {
        Some(plain) => Ok(parse_frames(plain.as_slice())),
        None => Err(SignalError::ProtocolError(string_of("Gzip decompression failed"))),
    }
}

/// A backup whose first frame is whole, followed by a frame whose length
/// cannot be read or runs past the end, gives exactly what the first frame
/// holds, counted as one frame: the scan stops cleanly at the second.
pub proof fn lemma_corrupt_second_frame(plain: Seq<u8>)
    requires
        body_at(plain, 0) matches Some((s, e)) && e < plain.len() && body_at(plain, e) is None,
    ensures
        ({
            let (s, e) = body_at(plain, 0)->0;
            let (m, c) = frame_scan(plain.subrange(s, e), 0, Seq::empty(), Seq::empty());
            backup_model(plain) == (m, c, 1nat)
        }),
{
    lemma_body_within(plain, 0);
    lemma_varint_advances(plain, 0);
    let (s, e) = body_at(plain, 0)->0;
    let (m, c) = frame_scan(plain.subrange(s, e), 0, Seq::empty(), Seq::empty());
    assert(advance(0, e, plain.len() as int) == e);
    assert(frames_scan(plain, e, m, c, 1) == (m, c, 1nat));
}

} // verus!
