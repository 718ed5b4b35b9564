//! The provisioning socket's messages: requests in, acknowledgements out.
//! A message is a protobuf `WebSocketMessage` (type 1, request 2, response
//! 3); a request carries verb 1, path 2, body 3 and id 4. Fields that cannot
//! be read are skipped, as in backup frames.
use vstd::prelude::*;

use crate::frames::{
    advance, body_at, field_of, lemma_body_within, lemma_skip_from_advances, opt_bytes, opt_chars,
    read_span, skip_field, skip_from, wire_of, Span,
};
use crate::primitives::{utf8_decode, utf8_decoded};
use crate::wire::{copy_range, lemma_varint_advances, read_varint, varint_at, varint_bytes, write_varint};

verus! {

/// A request that the server sent over the socket.
#[derive(Debug, Clone)]
pub struct WsRequest {
    pub verb: Option<String>,
    pub path: Option<String>,
    pub body: Option<Vec<u8>>,
    pub id: Option<u64>,
}

/// The value of a request.
pub struct WsRequestFields {
    pub verb: Option<Seq<char>>,
    pub path: Option<Seq<char>>,
    pub body: Option<Seq<u8>>,
    pub id: Option<u64>,
}

pub open spec fn request_view(r: WsRequest) -> WsRequestFields {
    WsRequestFields { verb: opt_chars(r.verb), path: opt_chars(r.path), body: opt_bytes(r.body), id: r.id }
}

/// The fields of a request message from `pos`, the last of each kind
/// winning.
pub open spec fn request_scan(data: Seq<u8>, pos: int, st: WsRequestFields) -> WsRequestFields
    decreases data.len() - pos,
{
    if pos < 0 || pos >= data.len() {
        st
    } else {
        let tag = data[pos];
        let at = pos + 1;
        let len = data.len() as int;
        let v = varint_at(data, at);
        if field_of(tag) == 4 && wire_of(tag) == 0 {
            request_scan(data, advance(pos, v.1, len), WsRequestFields { id: v.0, ..st })
        } else {
            match skip_from(data, at, wire_of(tag)) {
                Some(next) => {
                    let st2 = if wire_of(tag) == 2 && body_at(data, at) is Some {
                        let (s, e) = body_at(data, at)->0;
                        let sub = data.subrange(s, e);
                        if field_of(tag) == 1 {
                            WsRequestFields { verb: utf8_decoded(sub), ..st }
                        } else if field_of(tag) == 2 {
                            WsRequestFields { path: utf8_decoded(sub), ..st }
                        } else if field_of(tag) == 3 {
                            WsRequestFields { body: Some(sub), ..st }
                        } else {
                            st
                        }
                    } else {
                        st
                    };
                    request_scan(data, advance(pos, next, len), st2)
                },
                None => st,
            }
        }
    }
}

/// The request message inside a socket message: the last field 2 that fits.
pub open spec fn request_part(data: Seq<u8>, pos: int, found: Option<Seq<u8>>) -> Option<Seq<u8>>
    decreases data.len() - pos,
{
    if pos < 0 || pos >= data.len() {
        found
    } else {
        let tag = data[pos];
        let at = pos + 1;
        match skip_from(data, at, wire_of(tag)) {
            Some(next) => {
                let found2 = if field_of(tag) == 2 && wire_of(tag) == 2 && body_at(data, at) is Some {
                    let (s, e) = body_at(data, at)->0;
                    Some(data.subrange(s, e))
                } else {
                    found
                };
                request_part(data, advance(pos, next, data.len() as int), found2)
            },
            None => found,
        }
    }
}

/// The request a socket message carries, where it carries one.
pub open spec fn request_model(frame: Seq<u8>) -> Option<WsRequestFields> {
    match request_part(frame, 0, None) {
        Some(r) => Some(
            request_scan(r, 0, WsRequestFields { verb: None, path: None, body: None, id: None }),
        ),
        None => None,
    }
}

fn read_request(data: &[u8]) -> (r: WsRequest)
    ensures
        request_view(r) == request_scan(
            data@,
            0,
            WsRequestFields { verb: None, path: None, body: None, id: None },
        ),
{
    let mut req = WsRequest { verb: None, path: None, body: None, id: None };
    let mut offset: usize = 0;
    let ghost init = WsRequestFields { verb: None, path: None, body: None, id: None };
    while offset < data.len()
        invariant
            offset <= data@.len(),
            request_scan(data@, 0, init) == request_scan(data@, offset as int, request_view(req)),
        decreases data.len() - offset,
    {
        let pos = offset;
        let tag = data[offset];
        let wire = tag & 7;
        let field = tag >> 3;
        offset = offset + 1;
        proof {
            lemma_skip_from_advances(data@, offset as int, wire);
            lemma_body_within(data@, offset as int);
            lemma_varint_advances(data@, offset as int);
        }
        if field == 4 && wire == 0 {
            req.id = read_varint(data, &mut offset);
        } else {
            if wire == 2 {
                let mut probe = offset;
                match read_span(data, &mut probe) {
                    Span::Body(s, e) => {
                        if field == 1 {
                            req.verb = utf8_decode(&data[s..e]);
                        } else if field == 2 {
                            req.path = utf8_decode(&data[s..e]);
                        } else if field == 3 {
                            req.body = Some(copy_range(data, s, e));
                        }
                    },
                    _ => {},
                }
            }
            if !skip_field(data, &mut offset, wire) {
                offset = data.len();
                continue;
            }
        }
        assert(advance(pos as int, offset as int, data@.len() as int) == offset);
    }
    req
}

/// Reads the request of a socket message; `None` where it carries none
/// (a response, or what cannot be read as a message).
pub fn parse_ws_request(frame: &[u8]) -> (r: Option<WsRequest>)
    ensures
        match request_model(frame@) {
            Some(m) => r matches Some(q) && request_view(q) == m,
            None => r is None,
        },
{
    let mut found: Option<(usize, usize)> = None;
    let mut offset: usize = 0;
    while offset < frame.len()
        invariant
            offset <= frame@.len(),
            found matches Some((s, e)) ==> s <= e <= frame@.len(),
            request_part(frame@, 0, None) == request_part(
                frame@,
                offset as int,
                match found {
                    Some((s, e)) => Some(frame@.subrange(s as int, e as int)),
                    None => None,
                },
            ),
        decreases frame.len() - offset,
    {
        let pos = offset;
        let tag = frame[offset];
        let wire = tag & 7;
        let field = tag >> 3;
        offset = offset + 1;
        proof {
            lemma_skip_from_advances(frame@, offset as int, wire);
            lemma_body_within(frame@, offset as int);
        }
        if field == 2 && wire == 2 {
            let mut probe = offset;
            match read_span(frame, &mut probe) {
                Span::Body(s, e) => {
                    found = Some((s, e));
                },
                _ => {},
            }
        }
        if !skip_field(frame, &mut offset, wire) {
            offset = frame.len();
            continue;
        }
        assert(advance(pos as int, offset as int, frame@.len() as int) == offset);
    }
    match found {
        Some((s, e)) => Some(read_request(&frame[s..e])),
        None => None,
    }
}

/// The acknowledgement of a request: a `WebSocketMessage` of type response
/// (2) whose response carries the request's id (where it had one), status
/// 200 and message "OK".
pub open spec fn ack_bytes(id: Option<u64>) -> Seq<u8> {
    let inner = match id {
        Some(i) => seq![0x08u8] + varint_bytes(i),
        None => Seq::empty(),
    } + seq![0x10u8] + varint_bytes(200) + seq![0x1au8, 0x02u8, 0x4fu8, 0x4bu8];
    seq![0x08u8, 0x02u8, 0x1au8] + varint_bytes(inner.len() as u64) + inner
}

/// Encodes the acknowledgement of the request with id `id`.
pub fn encode_ack(id: Option<u64>) -> (r: Vec<u8>)
    ensures
        r@ == ack_bytes(id),
{
    let mut inner: Vec<u8> = Vec::new();
    match id {
        Some(i) => {
            inner.push(0x08);
            write_varint(&mut inner, i);
        },
        None => {},
    }
    inner.push(0x10);
    write_varint(&mut inner, 200);
    inner.push(0x1a);
    inner.push(0x02);
    inner.push(0x4f);
    inner.push(0x4b);
    let mut out: Vec<u8> = Vec::new();
    out.push(0x08);
    out.push(0x02);
    out.push(0x1a);
    write_varint(&mut out, inner.len() as u64);
    let ghost head = out@;
    let mut i: usize = 0;
    while i < inner.len()
        invariant
            i <= inner@.len(),
            out@ == head + inner@.subrange(0, i as int),
        decreases inner.len() - i,
    {
        out.push(inner[i]);
        i = i + 1;
        assert(inner@.subrange(0, i as int) =~= inner@.subrange(0, i - 1).push(inner@[i - 1]));
    }
    proof {
        assert(inner@.subrange(0, inner@.len() as int) =~= inner@);
        let expected_inner = match id {
            Some(i) => seq![0x08u8] + varint_bytes(i),
            None => Seq::empty(),
        } + seq![0x10u8] + varint_bytes(200) + seq![0x1au8, 0x02u8, 0x4fu8, 0x4bu8];
        assert(inner@ =~= expected_inner);
        assert(out@ =~= ack_bytes(id));
    }
    out
}

} // verus!
