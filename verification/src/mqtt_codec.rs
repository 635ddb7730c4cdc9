//! MQTT 3.1.1 wire format: the variable-length "remaining length" integer and
//! the 2-byte length-prefixed fields every packet is built from.
use vstd::prelude::*;

verus! {

/// Protocol-level violations found while encoding or decoding a packet.
#[derive(Clone, Copy, Debug, PartialEq, Eq, Structural)]
pub enum ProtocolError {
    /// An invalid packet type was received.
    InvalidPacketType(u8),
    /// The server sent an invalid or unexpected response.
    InvalidResponse,
    /// A packet was not correctly formed.
    MalformedPacket,
    /// A field exceeds the 65535 bytes a 2-byte length prefix can describe.
    PayloadTooLarge,
    /// A string was not valid UTF-8.
    InvalidUtf8String,
}

/// Why a packet could not be encoded or decoded.
#[derive(Clone, Copy, Debug, PartialEq, Eq, Structural)]
pub enum CodecError {
    Protocol(ProtocolError),
    /// The packet does not fit the transmit buffer.
    BufferTooSmall,
}

/// `128^n`.
pub open spec fn pow128(n: nat) -> nat
    decreases n,
{
    if n == 0 { 1 } else { 128 * pow128((n - 1) as nat) }
}

/// The variable-length encoding of `v`: seven bits per byte, least significant
/// group first, the top bit set on every byte but the last.
pub open spec fn varint(v: nat) -> Seq<u8>
    decreases v,
{
    if v < 128 {
        seq![v as u8]
    } else {
        seq![(v % 128 + 128) as u8] + varint(v / 128)
    }
}

/// Encodes `val` as a variable-length integer.
pub fn encode_varint(val: usize) -> (out: Vec<u8>)
    ensures
        out@ == varint(val as nat),
{
    let mut out: Vec<u8> = Vec::new();
    let mut v: usize = val;
    loop
        invariant
            out@ + varint(v as nat) == varint(val as nat),
        decreases v,
    {
        if v < 128 {
            out.push(v as u8);
            assert(out@ == varint(val as nat));
            return out;
        }
        let byte: u8 = (v % 128 + 128) as u8;
        proof {
            assert(varint(v as nat) == seq![byte] + varint((v / 128) as nat));
            assert(out@.push(byte) + varint((v / 128) as nat) =~= out@ + varint(v as nat));
        }
        out.push(byte);
        v = v / 128;
    }
}

/// Reading a variable-length integer from `buf` at `pos`, having read `i`
/// bytes so far worth `acc`: the value and the number of bytes it took, or
/// `None` when the input ends first or the integer runs past four bytes.
pub open spec fn read_varint_from(buf: Seq<u8>, pos: int, i: nat, acc: nat) -> Option<(nat, nat)>
    decreases 4 - i,
{
    if i >= 4 || pos + i >= buf.len() || pos + i < 0 {
        None
    } else {
        let b = buf[pos + i];
        let acc2 = acc + (b % 128) as nat * pow128(i);
        if b < 128 {
            Some((acc2, i + 1))
        } else if i + 1 >= 4 {
            None
        } else {
            read_varint_from(buf, pos, i + 1, acc2)
        }
    }
}

pub open spec fn read_varint(buf: Seq<u8>, pos: int) -> Option<(nat, nat)> {
    read_varint_from(buf, pos, 0, 0)
}

/// Reads a variable-length integer at `cursor`: its value and the cursor
/// just past it. A malformed integer (cut short, or longer than four bytes)
/// is an error.
pub fn decode_varint(buf: &[u8], cursor: usize) -> (res: Result<(usize, usize), CodecError>)
    ensures
        match read_varint(buf@, cursor as int) {
            Some((v, n)) => 1 <= n <= 4 && cursor + n <= buf@.len() && v < pow128(4) && res == Ok::<
                (usize, usize),
                CodecError,
            >((v as usize, (cursor + n) as usize)),
            None => res == Err::<(usize, usize), CodecError>(CodecError::Protocol(ProtocolError::MalformedPacket)),
        },
{
    let mut value: usize = 0;
    let mut multiplier: usize = 1;
    let mut i: usize = 0;
    loop
        invariant
            i < 4,
            multiplier == pow128(i as nat),
            value < pow128(i as nat),
            read_varint(buf@, cursor as int) == read_varint_from(buf@, cursor as int, i as nat, value as nat),
        decreases 4 - i,
    {
        proof {
            reveal_with_fuel(pow128, 5);
        }
        if cursor >= buf.len() || buf.len() - cursor <= i {
            return Err(CodecError::Protocol(ProtocolError::MalformedPacket));
        }
        let b: u8 = buf[cursor + i];
        assert((b % 128) as nat * pow128(i as nat) + value < pow128((i + 1) as nat)) by (nonlinear_arith)
            requires
                b % 128 < 128,
                value < pow128(i as nat),
                pow128((i + 1) as nat) == 128 * pow128(i as nat);
        value = value + ((b % 128) as usize) * multiplier;
        if b < 128 {
            return Ok((value, cursor + i + 1));
        }
        if i + 1 >= 4 {
            return Err(CodecError::Protocol(ProtocolError::MalformedPacket));
        }
        multiplier = multiplier * 128;
        i = i + 1;
    }
}

/// Reading back a variable-length integer of at most four bytes gives the
/// value it encodes, whatever follows it.
pub proof fn lemma_varint_roundtrip(v: nat, rest: Seq<u8>)
    requires
        v < pow128(4),
    ensures
        read_varint(varint(v) + rest, 0) == Some((v, varint(v).len())),
        1 <= varint(v).len() <= 4,
{
    reveal_with_fuel(pow128, 5);
    assert(pow128(0) == 1);
    assert(v * pow128(0) == v) by (nonlinear_arith)
        requires pow128(0) == 1;
    lemma_varint_from(v, 0, 0, Seq::empty(), rest);
    assert(Seq::<u8>::empty() + varint(v) + rest =~= varint(v) + rest);
}

proof fn lemma_varint_from(v: nat, i: nat, acc: nat, prefix: Seq<u8>, rest: Seq<u8>)
    requires
        i < 4,
        prefix.len() == i,
        v * pow128(i) < pow128(4),
    ensures
        read_varint_from(prefix + varint(v) + rest, 0, i, acc) == Some((acc + v * pow128(i), i + varint(v).len())),
        1 <= varint(v).len() <= 4 - i,
    decreases v,
{
    reveal_with_fuel(pow128, 5);
    let buf = prefix + varint(v) + rest;
    assert(buf[i as int] == varint(v)[0]);
    if v < 128 {
        assert(buf[i as int] == v as u8);
    } else {
        let b = (v % 128 + 128) as u8;
        assert(buf[i as int] == b);
        assert(b % 128 == v % 128);
        assert(pow128(i + 1) == 128 * pow128(i));
        assert(i + 1 < 4) by (nonlinear_arith)
            requires
                v >= 128,
                v * pow128(i) < pow128(4),
                i < 4,
                pow128(i) >= 1,
                pow128(4) == 268435456,
                i == 3 ==> pow128(i) == 2097152;
        assert((v / 128) * pow128(i + 1) < pow128(4)) by (nonlinear_arith)
            requires
                v * pow128(i) < pow128(4),
                pow128(i + 1) == 128 * pow128(i),
                pow128(i) >= 1;
        let prefix2 = prefix.push(b);
        assert(prefix2 + varint(v / 128) + rest =~= buf);
        lemma_varint_from(v / 128, i + 1, acc + (v % 128) * pow128(i), prefix2, rest);
        assert(acc + (v % 128) * pow128(i) + (v / 128) * pow128(i + 1) == acc + v * pow128(i))
            by (nonlinear_arith)
            requires
                pow128(i + 1) == 128 * pow128(i),
                v == 128 * (v / 128) + v % 128;
    }
}

/// Size of the transmit and receive buffers of a connection.
pub const MQTT_BUF_SIZE: usize = 512;
/// Room for a packet body: the transmit buffer less the five bytes reserved
/// ahead of it for the fixed header while the body is written.
pub const BODY_ROOM: usize = MQTT_BUF_SIZE - 5;

/// A 16-bit value, most significant byte first.
pub open spec fn be16(v: nat) -> Seq<u8> {
    seq![(v / 256) as u8, (v % 256) as u8]
}

/// A length-prefixed field: 2-byte big-endian length, then the bytes.
pub open spec fn field(data: Seq<u8>) -> Seq<u8> {
    be16(data.len()) + data
}

/// Appending a length-prefixed field to a body under construction.
pub open spec fn put_field(acc: Result<Seq<u8>, CodecError>, data: Seq<u8>) -> Result<Seq<u8>, CodecError> {
    match acc {
        Err(e) => Err(e),
        Ok(body) => if data.len() > 65535 {
            Err(CodecError::Protocol(ProtocolError::PayloadTooLarge))
        } else if body.len() + 2 + data.len() > BODY_ROOM {
            Err(CodecError::BufferTooSmall)
        } else {
            Ok(body + field(data))
        },
    }
}

/// Appending raw bytes to a body under construction.
pub open spec fn put_raw(acc: Result<Seq<u8>, CodecError>, data: Seq<u8>) -> Result<Seq<u8>, CodecError> {
    match acc {
        Err(e) => Err(e),
        Ok(body) => if body.len() + data.len() > BODY_ROOM {
            Err(CodecError::BufferTooSmall)
        } else {
            Ok(body + data)
        },
    }
}

/// A complete packet: the first header byte, the body length, the body.
pub open spec fn frame(first: u8, body: Seq<u8>) -> Seq<u8> {
    seq![first] + varint(body.len()) + body
}

pub(crate) fn write_field(body: &mut Vec<u8>, data: &[u8]) -> (res: Result<(), CodecError>)
    requires
        old(body)@.len() <= BODY_ROOM,
    ensures
        match put_field(Ok(old(body)@), data@) {
            Ok(b) => res is Ok && final(body)@ == b,
            Err(e) => res == Err::<(), CodecError>(e),
        },
{
    let len = data.len();
    if len > 65535 {
        return Err(CodecError::Protocol(ProtocolError::PayloadTooLarge));
    }
    if len > BODY_ROOM || body.len() + 2 + len > BODY_ROOM {
        return Err(CodecError::BufferTooSmall);
    }
    body.push((len / 256) as u8);
    body.push((len % 256) as u8);
    write_raw_unchecked(body, data);
    proof {
        assert(final(body)@ =~= old(body)@ + field(data@));
    }
    Ok(())
}

fn write_raw_unchecked(body: &mut Vec<u8>, data: &[u8])
    ensures
        final(body)@ == old(body)@ + data@,
{
    let mut i: usize = 0;
    while i < data.len()
        invariant
            0 <= i <= data@.len(),
            body@ == old(body)@ + data@.subrange(0, i as int),
        decreases data@.len() - i,
    {
        body.push(data[i]);
        proof {
            assert(data@.subrange(0, (i + 1) as int) =~= data@.subrange(0, i as int).push(data@[i as int]));
        }
        i = i + 1;
    }
    assert(data@.subrange(0, data@.len() as int) =~= data@);
}

pub(crate) fn write_raw(body: &mut Vec<u8>, data: &[u8]) -> (res: Result<(), CodecError>)
    requires
        old(body)@.len() <= BODY_ROOM,
    ensures
        match put_raw(Ok(old(body)@), data@) {
            Ok(b) => res is Ok && final(body)@ == b,
            Err(e) => res == Err::<(), CodecError>(e),
        },
{
    if data.len() > BODY_ROOM - body.len() {
        return Err(CodecError::BufferTooSmall);
    }
    write_raw_unchecked(body, data);
    Ok(())
}

/// Frames a body of at most [`BODY_ROOM`] bytes.
pub(crate) fn finish(first: u8, body: Vec<u8>) -> (packet: Vec<u8>)
    requires
        body@.len() <= BODY_ROOM,
    ensures
        packet@ == frame(first, body@),
{
    let mut packet: Vec<u8> = Vec::new();
    packet.push(first);
    let mut len_bytes = encode_varint(body.len());
    packet.append(&mut len_bytes);
    let mut body = body;
    packet.append(&mut body);
    packet
}

/// Reading a variable-length integer is unaffected by bytes in front of it.
pub proof fn lemma_read_varint_shift(first: u8, rest: Seq<u8>, i: nat, acc: nat)
    ensures
        read_varint_from(seq![first] + rest, 1, i, acc) == read_varint_from(rest, 0, i, acc),
    decreases 4 - i,
{
    let buf = seq![first] + rest;
    if i < 4 && 1 + i < buf.len() {
        assert(buf[1 + i as int] == rest[i as int]);
        lemma_read_varint_shift(first, rest, i + 1, acc + (rest[i as int] % 128) as nat * pow128(i));
    }
}

/// The body length announced in a frame reads back, and says where the body starts.
pub proof fn lemma_frame_length(first: u8, body: Seq<u8>)
    requires
        body.len() < pow128(4),
    ensures
        read_varint(frame(first, body), 1) == Some((body.len(), varint(body.len()).len())),
        1 <= varint(body.len()).len() <= 4,
        frame(first, body)[0] == first,
        frame(first, body).subrange(1 + varint(body.len()).len() as int, frame(first, body).len() as int) == body,
{
    let v = varint(body.len());
    lemma_varint_roundtrip(body.len(), body);
    lemma_read_varint_shift(first, v + body, 0, 0);
    assert(frame(first, body) =~= seq![first] + (v + body));
    assert(frame(first, body).subrange(1 + v.len() as int, frame(first, body).len() as int) =~= body);
}

} // verus!
