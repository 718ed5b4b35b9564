//! The varint and tag/wire-type field encoding of backup frames.
use vstd::prelude::*;

verus! {

/// Reads the varint groups of `data` from `pos`, the `group`-th group next,
/// with `acc` holding the value of the groups read so far. The result is
/// the value (or `None`) and the position after the last byte read.
pub open spec fn varint_from(data: Seq<u8>, pos: int, group: nat, acc: u64) -> (Option<u64>, int)
    decreases data.len() - pos,
{
    if pos < 0 || pos >= data.len() {
        (None, pos)
    } else {
        let b = data[pos];
        let next = acc | (((b & 0x7f) as u64) << ((7 * group) as u64));
        if b & 0x80 == 0 {
            (Some(next), pos + 1)
        } else if 7 * (group + 1) >= 64 {
            (None, pos + 1)
        } else {
            varint_from(data, pos + 1, group + 1, next)
        }
    }
}

/// The varint that starts at `pos`: seven value bits per byte, low group
/// first, high bit set on every byte but the last, at most ten bytes. `None`
/// where the data ends on a continued byte or the shift reaches 64 bits.
pub open spec fn varint_at(data: Seq<u8>, pos: int) -> (Option<u64>, int) {
    varint_from(data, pos, 0, 0)
}

pub proof fn lemma_varint_from_advances(data: Seq<u8>, pos: int, group: nat, acc: u64)
    requires
        0 <= pos,
    ensures
        pos <= varint_from(data, pos, group, acc).1 <= if pos < data.len() { data.len() as int } else { pos },
        pos < data.len() ==> pos < varint_from(data, pos, group, acc).1,
    decreases data.len() - pos,
{
    if pos < data.len() {
        let b = data[pos];
        let next = acc | (((b & 0x7f) as u64) << ((7 * group) as u64));
        if b & 0x80 != 0 && 7 * (group + 1) < 64 {
            lemma_varint_from_advances(data, pos + 1, group + 1, next);
        }
    }
}

/// Reading a varint never moves backwards, moves at least one byte where
/// any is left, and never past the end.
pub proof fn lemma_varint_advances(data: Seq<u8>, pos: int)
    requires
        0 <= pos,
    ensures
        pos <= varint_at(data, pos).1,
        pos < data.len() ==> pos < varint_at(data, pos).1 <= data.len(),
        pos >= data.len() ==> varint_at(data, pos) == (None::<u64>, pos),
{
    lemma_varint_from_advances(data, pos, 0, 0);
}

/// Reads the varint at `*offset` and moves `*offset` past the bytes read.
pub fn read_varint(data: &[u8], offset: &mut usize) -> (r: Option<u64>)
    ensures
        (r, *final(offset) as int) == varint_at(data@, *old(offset) as int),
        *old(offset) <= *final(offset),
        *old(offset) < data@.len() ==> *old(offset) < *final(offset) <= data@.len(),
{
    proof {
        lemma_varint_advances(data@, *offset as int);
    }
    let ghost start = *offset as int;
    let mut result: u64 = 0;
    let mut shift: u64 = 0;
    let ghost mut group: nat = 0;
    while *offset < data.len()
        invariant
            start == *old(offset) as int,
            start <= *offset,
            shift == 7 * group,
            shift < 64,
            varint_at(data@, start) == varint_from(data@, *offset as int, group, result),
        decreases data.len() - *offset,
    {
        let byte = data[*offset];
        let ghost pos = *offset as int;
        let ghost before = result;
        *offset = *offset + 1;
        result = result | (((byte & 0x7f) as u64) << shift);
        assert(result == before | (((byte & 0x7f) as u64) << ((7 * group) as u64)));
        assert(varint_from(data@, pos, group, before) == if byte & 0x80 == 0 {
            (Some(result), pos + 1)
        } else if 7 * (group + 1) >= 64 {
            (None, pos + 1)
        } else {
            varint_from(data@, pos + 1, group + 1, result)
        });
        if byte & 0x80 == 0 {
            return Some(result);
        }
        shift = shift + 7;
        proof {
            group = group + 1;
        }
        if shift >= 64 {
            return None;
        }
    }
    None
}

/// A varint that ends the data on a continued byte gives no value, and the
/// reader stops at the end.
pub proof fn lemma_truncated_varint(data: Seq<u8>, pos: int)
    requires
        0 <= pos < data.len(),
        data.len() - pos <= 9,
        forall|i: int| pos <= i < data.len() ==> #[trigger] data[i] & 0x80 != 0,
    ensures
        varint_at(data, pos) == (None::<u64>, data.len() as int),
{
    lemma_truncated_from(data, pos, 0, 0);
}

proof fn lemma_truncated_from(data: Seq<u8>, pos: int, group: nat, acc: u64)
    requires
        0 <= pos <= data.len(),
        group + data.len() - pos <= 9,
        forall|i: int| pos <= i < data.len() ==> #[trigger] data[i] & 0x80 != 0,
    ensures
        varint_from(data, pos, group, acc) == (None::<u64>, data.len() as int),
    decreases data.len() - pos,
{
    if pos < data.len() {
        let b = data[pos];
        let next = acc | (((b & 0x7f) as u64) << ((7 * group) as u64));
        lemma_truncated_from(data, pos + 1, group + 1, next);
    }
}

/// A copy of `data[start..end]`.
pub fn copy_range(data: &[u8], start: usize, end: usize) -> (r: Vec<u8>)
    requires
        start <= end <= data@.len(),
    ensures
        r@ == data@.subrange(start as int, end as int),
{
    let mut out: Vec<u8> = Vec::new();
    let mut i: usize = start;
    while i < end
        invariant
            start <= i <= end,
            end <= data@.len(),
            out@ == data@.subrange(start as int, i as int),
        decreases end - i,
    {
        out.push(data[i]);
        i = i + 1;
    }
    out
}

/// `a` followed by `b`.
pub fn concat_bytes(a: &[u8], b: &[u8]) -> (r: Vec<u8>)
    ensures
        r@ == a@ + b@,
{
    let mut out = copy_range(a, 0, a.len());
    let mut i: usize = 0;
    while i < b.len()
        invariant
            i <= b@.len(),
            out@ == a@ + b@.subrange(0, i as int),
        decreases b.len() - i,
    {
        out.push(b[i]);
        i = i + 1;
        assert(b@.subrange(0, i as int) =~= b@.subrange(0, i - 1).push(b@[i - 1]));
    }
    assert(b@.subrange(0, b@.len() as int) =~= b@);
    assert(a@.subrange(0, a@.len() as int) =~= a@);
    out
}

/// The varint encoding of `v`: seven bits per byte, low group first, the
/// high bit set on every byte but the last.
pub open spec fn varint_bytes(v: u64) -> Seq<u8>
    decreases v,
{
    if v < 128 {
        seq![v as u8]
    } else {
        seq![(v % 128 + 128) as u8] + varint_bytes(v / 128)
    }
}

/// Appends the varint encoding of `v` to `out`.
pub fn write_varint(out: &mut Vec<u8>, v: u64)
    ensures
        final(out)@ == old(out)@ + varint_bytes(v),
    decreases v,
{
    if v < 128 {
        out.push(v as u8);
        assert(final(out)@ =~= old(out)@ + varint_bytes(v)) by {
            assert(varint_bytes(v) == seq![v as u8]);
        }
    } else {
        let b = (v % 128 + 128) as u8;
        out.push(b);
        write_varint(out, v / 128);
        assert(out@ =~= old(out)@ + varint_bytes(v));
    }
}

/// Appends a length-delimited field: its tag byte, the body's length as a
/// varint, then the body.
pub fn write_bytes_field(out: &mut Vec<u8>, tag: u8, body: &[u8])
    ensures
        final(out)@ == old(out)@ + seq![tag] + varint_bytes(body@.len() as u64) + body@,
{
    out.push(tag);
    write_varint(out, body.len() as u64);
    let mut i: usize = 0;
    let ghost head = out@;
    while i < body.len()
        invariant
            i <= body@.len(),
            out@ == head + body@.subrange(0, i as int),
        decreases body.len() - i,
    {
        out.push(body[i]);
        i = i + 1;
        assert(body@.subrange(0, i as int) =~= body@.subrange(0, i - 1).push(body@[i - 1]));
    }
    assert(body@.subrange(0, body@.len() as int) =~= body@);
    assert(out@ =~= old(out)@ + seq![tag] + varint_bytes(body@.len() as u64) + body@);
}

proof fn lemma_varint_decodes_from(data: Seq<u8>, pos: int, v: u64, s: u64, acc: u64)
    requires
        0 <= pos,
        s % 7 == 0,
        s <= 63,
        acc == v & (((1u64 << s) - 1) as u64),
        pos + varint_bytes(v >> s).len() <= data.len(),
        data.subrange(pos, pos + varint_bytes(v >> s).len()) == varint_bytes(v >> s),
    ensures
        varint_from(data, pos, (s / 7) as nat, acc) == (Some(v), pos + varint_bytes(v >> s).len()),
    decreases 64 - s,
{
    let w = v >> s;
    let g = (s / 7) as nat;
    assert(7 * g == s);
    let enc = varint_bytes(w);
    assert(data[pos] == enc[0]);
    if w < 128 {
        let b = w as u8;
        assert(enc == seq![b]);
        assert(b & 0x80 == 0 && b & 0x7f == b) by (bit_vector)
            requires
                b < 128u8,
        ;
        assert(acc | (w << s) == v) by (bit_vector)
            requires
                w == v >> s,
                acc == v & (((1u64 << s) - 1) as u64),
                w < 128u64,
                s <= 63u64,
        ;
        assert(((b & 0x7f) as u64) == w);
    } else {
        let x = (w % 128) as u8;
        let b = (w % 128 + 128) as u8;
        assert(b == (x + 128) as u8);
        assert(x < 128);
        assert(((x + 128) as u8) & 0x80 != 0 && ((x + 128) as u8) & 0x7f == x) by (bit_vector)
            requires
                x < 128u8,
        ;
        assert(s <= 56) by (bit_vector)
            requires
                w == v >> s,
                w >= 128u64,
                s <= 63u64,
        ;
        assert(w % 128 == w & 0x7f) by (bit_vector);
        let next = acc | ((w % 128) << s);
        assert(next == v & (((1u64 << ((s + 7) as u64)) - 1) as u64)) by (bit_vector)
            requires
                w == v >> s,
                acc == v & (((1u64 << s) - 1) as u64),
                next == acc | ((w & 0x7f) << s),
                s <= 56u64,
        ;
        assert(w / 128 == v >> ((s + 7) as u64)) by (bit_vector)
            requires
                w == v >> s,
                s <= 56u64,
        ;
        let tail = varint_bytes(w / 128);
        assert(enc == seq![b] + tail);
        assert(data.subrange(pos + 1, pos + 1 + tail.len()) =~= enc.subrange(1, enc.len() as int));
        assert(enc.subrange(1, enc.len() as int) =~= tail);
        assert((((s + 7) as u64) / 7) as nat == g + 1);
        lemma_varint_decodes_from(data, pos + 1, v, (s + 7) as u64, next);
    }
}

/// Reading the varint encoding of any value gives the value back, and moves
/// past exactly its bytes, whatever follows them.
pub proof fn lemma_varint_round_trip(v: u64, rest: Seq<u8>)
    ensures
        varint_at(varint_bytes(v) + rest, 0) == (Some(v), varint_bytes(v).len() as int),
{
    let data = varint_bytes(v) + rest;
    assert(v >> 0u64 == v && v & (((1u64 << 0u64) - 1) as u64) == 0) by (bit_vector);
    assert(data.subrange(0, varint_bytes(v).len() as int) =~= varint_bytes(v));
    lemma_varint_decodes_from(data, 0, v, 0, 0);
}

} // verus!
