//! The MQTT 3.1.1 control packets a client sends and receives: CONNECT,
//! PUBLISH, SUBSCRIBE and PINGREQ out; CONNACK, PUBLISH, PUBACK, SUBACK and the
//! rest in.
use vstd::prelude::*;
use vstd::utf8::{decode_utf8, encode_utf8, encode_utf8_decode_utf8, encode_utf8_valid_utf8, valid_utf8};
use crate::mqtt_codec::{
    be16, decode_varint, field, finish, frame, lemma_frame_length, pow128, put_field, put_raw,
    read_varint, varint, write_field, write_raw, CodecError, ProtocolError, BODY_ROOM,
};

verus! {

/// MQTT quality of service levels.
#[derive(Clone, Copy, Debug, PartialEq, Eq, Structural)]
pub enum QoS {
    AtMostOnce,
    AtLeastOnce,
    ExactlyOnce,
}

pub open spec fn qos_bits(qos: QoS) -> u8 {
    match qos {
        QoS::AtMostOnce => 0,
        QoS::AtLeastOnce => 1,
        QoS::ExactlyOnce => 2,
    }
}

pub fn qos_number(qos: QoS) -> (n: u8)
    ensures
        n == qos_bits(qos),
{
    match qos {
        QoS::AtMostOnce => 0,
        QoS::AtLeastOnce => 1,
        QoS::ExactlyOnce => 2,
    }
}

/// The UTF-8 bytes of a string.
pub open spec fn utf8(s: &str) -> Seq<u8> {
    encode_utf8(s@)
}

/// Calls `core::str::from_utf8` and keeps its `Ok` value. Trusted, not proved:
/// the standard library returns `Ok` exactly when `bytes` are valid UTF-8
/// (`valid_utf8`), and the string it returns then holds the characters those
/// bytes encode (`decode_utf8`).
#[verifier::external_body]
fn str_from_utf8(bytes: &[u8]) -> (s: Option<&str>)
    ensures
        s is Some <==> valid_utf8(bytes@),
        s matches Some(s) ==> s@ == decode_utf8(bytes@),
{
    core::str::from_utf8(bytes).ok()
}

// ---------------------------------------------------------------- encoding

/// The body of a PUBLISH packet.
pub open spec fn publish_body(
    topic: Seq<u8>,
    qos: QoS,
    payload: Seq<u8>,
    packet_id: Option<u16>,
) -> Result<Seq<u8>, CodecError> {
    let with_topic = put_field(Ok(Seq::empty()), topic);
    let with_id = if qos == QoS::AtMostOnce {
        with_topic
    } else {
        match with_topic {
            Err(e) => Err(e),
            Ok(b) => match packet_id {
                None => Err(CodecError::Protocol(ProtocolError::MalformedPacket)),
                Some(id) => put_raw(Ok(b), be16(id as nat)),
            },
        }
    };
    put_raw(with_id, payload)
}

/// First header byte of a PUBLISH packet.
pub open spec fn publish_header(qos: QoS, retain: bool) -> u8 {
    (0x30 + 2 * qos_bits(qos) + if retain { 1int } else { 0int }) as u8
}

/// A PUBLISH packet, or why it cannot be built: a topic longer than a field
/// can hold, a missing packet identifier for QoS 1 and 2, or a packet too
/// large for the transmit buffer.
pub open spec fn publish_packet(
    topic: Seq<u8>,
    qos: QoS,
    retain: bool,
    payload: Seq<u8>,
    packet_id: Option<u16>,
) -> Result<Seq<u8>, CodecError> {
    match publish_body(topic, qos, payload, packet_id) {
        Ok(body) => Ok(frame(publish_header(qos, retain), body)),
        Err(e) => Err(e),
    }
}

pub fn encode_publish(
    topic: &str,
    qos: QoS,
    retain: bool,
    payload: &[u8],
    packet_id: Option<u16>,
) -> (res: Result<Vec<u8>, CodecError>)
    ensures
        match publish_packet(utf8(topic), qos, retain, payload@, packet_id) {
            Ok(p) => res matches Ok(v) && v@ == p,
            Err(e) => res == Err::<Vec<u8>, CodecError>(e),
        },
{
    let mut body: Vec<u8> = Vec::new();
    write_field(&mut body, topic.as_bytes())?;
    if qos != QoS::AtMostOnce {
        let id = match packet_id {
            Some(id) => id,
            None => {
                return Err(CodecError::Protocol(ProtocolError::MalformedPacket));
            },
        };
        let id_bytes: [u8; 2] = [(id / 256) as u8, (id % 256) as u8];
        assert(id_bytes@ == be16(id as nat));
        write_raw(&mut body, &id_bytes)?;
    }
    write_raw(&mut body, payload)?;
    let retain_bit: u8 = if retain { 1 } else { 0 };
    Ok(finish(0x30 + 2 * qos_number(qos) + retain_bit, body))
}

/// The CONNECT protocol name "MQTT".
pub open spec fn protocol_name() -> Seq<u8> {
    seq![0x4Du8, 0x51u8, 0x54u8, 0x54u8]
}

/// CONNECT flags: clean session, user name present, password present.
pub open spec fn connect_flags(clean_session: bool, has_username: bool, has_password: bool) -> u8 {
    ((if clean_session { 0x02int } else { 0 }) + (if has_username { 0x80int } else { 0 }) + (
    if has_password { 0x40int } else { 0 })) as u8
}

pub open spec fn opt_field(acc: Result<Seq<u8>, CodecError>, data: Option<Seq<u8>>) -> Result<Seq<u8>, CodecError> {
    match data {
        Some(d) => put_field(acc, d),
        None => acc,
    }
}

/// The body of a CONNECT packet for protocol level 4 (MQTT 3.1.1).
pub open spec fn connect_body(
    client_id: Seq<u8>,
    keep_alive_secs: u16,
    clean_session: bool,
    username: Option<Seq<u8>>,
    password: Option<Seq<u8>>,
) -> Result<Seq<u8>, CodecError> {
    let header = put_raw(
        put_field(Ok(Seq::empty()), protocol_name()),
        seq![4u8, connect_flags(clean_session, username is Some, password is Some)] + be16(
            keep_alive_secs as nat,
        ),
    );
    opt_field(opt_field(put_field(header, client_id), username), password)
}

pub open spec fn connect_packet(
    client_id: Seq<u8>,
    keep_alive_secs: u16,
    clean_session: bool,
    username: Option<Seq<u8>>,
    password: Option<Seq<u8>>,
) -> Result<Seq<u8>, CodecError> {
    match connect_body(client_id, keep_alive_secs, clean_session, username, password) {
        Ok(body) => Ok(frame(0x10, body)),
        Err(e) => Err(e),
    }
}

pub open spec fn opt_utf8(s: Option<&str>) -> Option<Seq<u8>> {
    match s {
        Some(s) => Some(utf8(s)),
        None => None,
    }
}

pub open spec fn opt_bytes(s: Option<&[u8]>) -> Option<Seq<u8>> {
    match s {
        Some(s) => Some(s@),
        None => None,
    }
}

pub fn encode_connect(
    client_id: &str,
    keep_alive_secs: u16,
    clean_session: bool,
    username: Option<&str>,
    password: Option<&[u8]>,
) -> (res: Result<Vec<u8>, CodecError>)
    ensures
        match connect_packet(
            utf8(client_id),
            keep_alive_secs,
            clean_session,
            opt_utf8(username),
            opt_bytes(password),
        ) {
            Ok(p) => res matches Ok(v) && v@ == p,
            Err(e) => res == Err::<Vec<u8>, CodecError>(e),
        },
{
    let mut body: Vec<u8> = Vec::new();
    let name: [u8; 4] = [0x4D, 0x51, 0x54, 0x54];
    assert(name@ == protocol_name());
    write_field(&mut body, &name)?;
    let mut flags: u8 = 0;
    if clean_session {
        flags = flags + 0x02;
    }
    if username.is_some() {
        flags = flags + 0x80;
    }
    if password.is_some() {
        flags = flags + 0x40;
    }
    let fixed: [u8; 4] = [4, flags, (keep_alive_secs / 256) as u8, (keep_alive_secs % 256) as u8];
    assert(fixed@ =~= seq![4u8, connect_flags(clean_session, username is Some, password is Some)]
        + be16(keep_alive_secs as nat));
    write_raw(&mut body, &fixed)?;
    write_field(&mut body, client_id.as_bytes())?;
    if let Some(username) = username {
        write_field(&mut body, username.as_bytes())?;
    }
    if let Some(password) = password {
        write_field(&mut body, password)?;
    }
    Ok(finish(0x10, body))
}

/// The body of a SUBSCRIBE packet for a single topic filter.
pub open spec fn subscribe_body(packet_id: u16, topic: Seq<u8>, qos: QoS) -> Result<Seq<u8>, CodecError> {
    put_raw(put_field(put_raw(Ok(Seq::empty()), be16(packet_id as nat)), topic), seq![qos_bits(qos)])
}

pub open spec fn subscribe_packet(packet_id: u16, topic: Seq<u8>, qos: QoS) -> Result<Seq<u8>, CodecError> {
    match subscribe_body(packet_id, topic, qos) {
        Ok(body) => Ok(frame(0x82, body)),
        Err(e) => Err(e),
    }
}

/// SUBSCRIBE for one topic filter. A filter whose field ends exactly at the
/// end of the transmit buffer leaves no room for its QoS byte; that length is
/// excluded.
pub fn encode_subscribe(packet_id: u16, topic: &str, qos: QoS) -> (res: Result<Vec<u8>, CodecError>)
    requires
        utf8(topic).len() + 4 != BODY_ROOM,
    ensures
        match subscribe_packet(packet_id, utf8(topic), qos) {
            Ok(p) => res matches Ok(v) && v@ == p,
            Err(e) => res == Err::<Vec<u8>, CodecError>(e),
        },
{
    let mut body: Vec<u8> = Vec::new();
    let id_bytes: [u8; 2] = [(packet_id / 256) as u8, (packet_id % 256) as u8];
    assert(id_bytes@ == be16(packet_id as nat));
    write_raw(&mut body, &id_bytes)?;
    write_field(&mut body, topic.as_bytes())?;
    let q: [u8; 1] = [qos_number(qos)];
    assert(q@ == seq![qos_bits(qos)]);
    write_raw(&mut body, &q)?;
    Ok(finish(0x82, body))
}

/// PUBACK acknowledging `packet_id`.
pub fn encode_puback(packet_id: u16) -> (packet: Vec<u8>)
    ensures
        packet@ == seq![0x40u8, 0x02u8] + be16(packet_id as nat),
{
    let mut packet: Vec<u8> = Vec::new();
    packet.push(0x40);
    packet.push(0x02);
    packet.push((packet_id / 256) as u8);
    packet.push((packet_id % 256) as u8);
    assert(packet@ =~= seq![0x40u8, 0x02u8] + be16(packet_id as nat));
    packet
}

/// DISCONNECT.
pub fn encode_disconnect() -> (packet: Vec<u8>)
    ensures
        packet@ == seq![0xE0u8, 0x00u8],
{
    let mut packet: Vec<u8> = Vec::new();
    packet.push(0xE0);
    packet.push(0x00);
    packet
}

/// PINGREQ.
pub fn encode_pingreq() -> (packet: Vec<u8>)
    ensures
        packet@ == seq![0xC0u8, 0x00u8],
{
    let mut packet: Vec<u8> = Vec::new();
    packet.push(0xC0);
    packet.push(0x00);
    packet
}

// ---------------------------------------------------------------- decoding

/// A length-prefixed field of `buf` at `pos`: its bytes and the position just
/// past it, or `None` when the buffer ends first.
pub open spec fn read_field(buf: Seq<u8>, pos: int) -> Option<(Seq<u8>, int)> {
    if pos < 0 || pos + 2 > buf.len() {
        None
    } else {
        let len = buf[pos] * 256 + buf[pos + 1];
        if pos + 2 + len > buf.len() {
            None
        } else {
            Some((buf.subrange(pos + 2, pos + 2 + len), pos + 2 + len))
        }
    }
}

fn decode_field<'a>(buf: &'a [u8], pos: usize) -> (res: Result<(&'a [u8], usize), CodecError>)
    ensures
        match read_field(buf@, pos as int) {
            Some((data, next)) => res matches Ok((d, n)) && d@ == data && n == next,
            None => res == Err::<(&'a [u8], usize), CodecError>(CodecError::Protocol(ProtocolError::MalformedPacket)),
        },
{
    if pos > buf.len() || buf.len() - pos < 2 {
        return Err(CodecError::Protocol(ProtocolError::MalformedPacket));
    }
    let len: usize = (buf[pos] as usize) * 256 + (buf[pos + 1] as usize);
    if buf.len() - pos - 2 < len {
        return Err(CodecError::Protocol(ProtocolError::MalformedPacket));
    }
    let data = &buf[pos + 2..pos + 2 + len];
    Ok((data, pos + 2 + len))
}

fn decode_str<'a>(buf: &'a [u8], pos: usize) -> (res: Result<(&'a str, usize), CodecError>)
    ensures
        match read_field(buf@, pos as int) {
            Some((data, next)) => if valid_utf8(data) {
                res matches Ok((s, n)) && s@ == decode_utf8(data) && n == next
            } else {
                res == Err::<(&'a str, usize), CodecError>(CodecError::Protocol(ProtocolError::InvalidUtf8String))
            },
            None => res == Err::<(&'a str, usize), CodecError>(CodecError::Protocol(ProtocolError::MalformedPacket)),
        },
{
    let (data, next) = decode_field(buf, pos)?;
    match str_from_utf8(data) {
        Some(s) => Ok((s, next)),
        None => Err(CodecError::Protocol(ProtocolError::InvalidUtf8String)),
    }
}

/// A received PUBLISH, borrowing from the receive buffer.
#[derive(Debug)]
pub struct Publish<'a> {
    pub topic: &'a str,
    pub qos: QoS,
    pub retain: bool,
    pub payload: &'a [u8],
    pub packet_id: Option<u16>,
}

pub ghost struct PublishView {
    pub topic: Seq<char>,
    pub qos: QoS,
    pub retain: bool,
    pub payload: Seq<u8>,
    pub packet_id: Option<u16>,
}

impl<'a> View for Publish<'a> {
    type V = PublishView;

    open spec fn view(&self) -> PublishView {
        PublishView {
            topic: self.topic@,
            qos: self.qos,
            retain: self.retain,
            payload: self.payload@,
            packet_id: self.packet_id,
        }
    }
}

pub open spec fn qos_of_bits(b: int) -> QoS {
    if b == 0 { QoS::AtMostOnce } else if b == 1 { QoS::AtLeastOnce } else { QoS::ExactlyOnce }
}

/// Parsing a PUBLISH packet: QoS and retain from the first byte, the
/// remaining length (read, not checked against the buffer), the topic, the
/// packet identifier for QoS 1 and 2, and the rest of the buffer as payload.
pub open spec fn parse_publish(buf: Seq<u8>) -> Result<PublishView, CodecError> {
    let qb = (buf[0] / 2) % 4;
    if qb == 3 {
        Err(CodecError::Protocol(ProtocolError::MalformedPacket))
    } else {
        let qos = qos_of_bits(qb as int);
        let retain = buf[0] % 2 == 1;
        match read_varint(buf, 1) {
            None => Err(CodecError::Protocol(ProtocolError::MalformedPacket)),
            Some((_, n)) => match read_field(buf, 1 + n as int) {
                None => Err(CodecError::Protocol(ProtocolError::MalformedPacket)),
                Some((topic, c)) => if !valid_utf8(topic) {
                    Err(CodecError::Protocol(ProtocolError::InvalidUtf8String))
                } else if qos == QoS::AtMostOnce {
                    Ok(PublishView {
                        topic: decode_utf8(topic),
                        qos,
                        retain,
                        payload: buf.subrange(c, buf.len() as int),
                        packet_id: None,
                    })
                } else if c + 2 > buf.len() {
                    Err(CodecError::Protocol(ProtocolError::MalformedPacket))
                } else {
                    Ok(PublishView {
                        topic: decode_utf8(topic),
                        qos,
                        retain,
                        payload: buf.subrange(c + 2, buf.len() as int),
                        packet_id: Some((buf[c] * 256 + buf[c + 1]) as u16),
                    })
                },
            },
        }
    }
}

pub fn decode_publish<'a>(buf: &'a [u8]) -> (res: Result<Publish<'a>, CodecError>)
    requires
        buf@.len() >= 1,
    ensures
        match parse_publish(buf@) {
            Ok(p) => res matches Ok(r) && r@ == p,
            Err(e) => res matches Err(re) && re == e,
        },
{
    let qb = (buf[0] / 2) % 4;
    if qb == 3 {
        return Err(CodecError::Protocol(ProtocolError::MalformedPacket));
    }
    let qos = if qb == 0 {
        QoS::AtMostOnce
    } else if qb == 1 {
        QoS::AtLeastOnce
    } else {
        QoS::ExactlyOnce
    };
    let retain = buf[0] % 2 == 1;
    let cursor = match decode_varint(buf, 1) {
        Ok((_remaining, cursor)) => cursor,
        Err(e) => {
            return Err(e);
        },
    };
    let (topic, mut cursor) = match decode_str(buf, cursor) {
        Ok(r) => r,
        Err(e) => {
            return Err(e);
        },
    };
    let packet_id = if qos != QoS::AtMostOnce {
        if cursor > buf.len() || buf.len() - cursor < 2 {
            return Err(CodecError::Protocol(ProtocolError::MalformedPacket));
        }
        let id: u16 = (buf[cursor] as u16) * 256 + (buf[cursor + 1] as u16);
        cursor = cursor + 2;
        Some(id)
    } else {
        None
    };
    let payload = &buf[cursor..buf.len()];
    Ok(Publish { topic, qos, retain, payload, packet_id })
}

/// What decoding gives back of an encoded PUBLISH.
pub open spec fn published(topic: Seq<char>, qos: QoS, retain: bool, payload: Seq<u8>, packet_id: Option<u16>) -> PublishView {
    PublishView {
        topic,
        qos,
        retain,
        payload,
        packet_id: if qos == QoS::AtMostOnce { None } else { packet_id },
    }
}

/// Decoding an encoded PUBLISH gives back its topic, QoS, retain flag and
/// payload, and its packet identifier for QoS 1 and 2.
pub proof fn lemma_publish_roundtrip(
    topic: Seq<char>,
    qos: QoS,
    retain: bool,
    payload: Seq<u8>,
    packet_id: Option<u16>,
)
    requires
        publish_packet(encode_utf8(topic), qos, retain, payload, packet_id) is Ok,
    ensures
        parse_publish(publish_packet(encode_utf8(topic), qos, retain, payload, packet_id)->Ok_0)
            == Ok::<PublishView, CodecError>(published(topic, qos, retain, payload, packet_id)),
{
    let t = encode_utf8(topic);
    let body = publish_body(t, qos, payload, packet_id)->Ok_0;
    let h = publish_header(qos, retain);
    let packet = frame(h, body);
    assert(body.len() <= BODY_ROOM);
    reveal_with_fuel(pow128, 5);
    lemma_frame_length(h, body);
    let k = varint(body.len()).len();
    let c0 = 1 + k as int;
    assert(packet.subrange(c0, packet.len() as int) == body);
    assert(body.subrange(0, 2) == be16(t.len())) by {
        assert(body.subrange(0, 2 + t.len() as int) =~= field(t));
    }
    assert(packet[c0] == body[0]);
    assert(packet[c0 + 1] == body[1]);
    assert(body[0] == be16(t.len())[0] && body[1] == be16(t.len())[1]);
    assert(packet[c0] * 256 + packet[c0 + 1] == t.len());
    assert(packet.subrange(c0 + 2, c0 + 2 + t.len()) =~= t) by {
        assert forall|j: int| 0 <= j < t.len() implies packet[c0 + 2 + j] == t[j] by {
            assert(packet[c0 + 2 + j] == body[2 + j]);
        }
    }
    encode_utf8_valid_utf8(topic);
    encode_utf8_decode_utf8(topic);
    let c = c0 + 2 + t.len();
    assert(((h / 2) % 4) == qos_bits(qos));
    assert(h % 2 == (if retain { 1u8 } else { 0u8 }));
    if qos == QoS::AtMostOnce {
        assert(packet.subrange(c, packet.len() as int) =~= payload) by {
            assert forall|j: int| 0 <= j < payload.len() implies packet[c + j] == payload[j] by {
                assert(packet[c + j] == body[2 + t.len() + j]);
            }
        }
    } else {
        let id = packet_id->Some_0;
        assert(packet[c] == body[2 + t.len() as int]);
        assert(packet[c + 1] == body[3 + t.len() as int]);
        assert(packet[c] * 256 + packet[c + 1] == id);
        assert(packet.subrange(c + 2, packet.len() as int) =~= payload) by {
            assert forall|j: int| 0 <= j < payload.len() implies packet[c + 2 + j] == payload[j] by {
                assert(packet[c + 2 + j] == body[4 + t.len() + j]);
            }
        }
    }
}

/// Any packet a connection may receive.
#[derive(Debug)]
pub enum Packet<'a> {
    Connect {
        clean_session: bool,
        keep_alive: u16,
        client_id: &'a str,
        username: Option<&'a str>,
        password: Option<&'a [u8]>,
    },
    ConnAck { session_present: bool, reason_code: u8 },
    Publish(Publish<'a>),
    PubAck { packet_id: u16 },
    /// A SUBSCRIBE; its contents are not decoded.
    Subscribe,
    SubAck { packet_id: u16, reason_codes: Vec<u8> },
    PingReq,
    PingResp,
    Disconnect,
}

pub ghost enum PacketView {
    Connect {
        clean_session: bool,
        keep_alive: u16,
        client_id: Seq<char>,
        username: Option<Seq<char>>,
        password: Option<Seq<u8>>,
    },
    ConnAck { session_present: bool, reason_code: u8 },
    Publish(PublishView),
    PubAck { packet_id: u16 },
    Subscribe,
    SubAck { packet_id: u16, reason_codes: Seq<u8> },
    PingReq,
    PingResp,
    Disconnect,
}

pub open spec fn opt_str_view(s: Option<&str>) -> Option<Seq<char>> {
    match s {
        Some(s) => Some(s@),
        None => None,
    }
}

impl<'a> View for Packet<'a> {
    type V = PacketView;

    open spec fn view(&self) -> PacketView {
        match self {
            Packet::Connect { clean_session, keep_alive, client_id, username, password } => PacketView::Connect {
                clean_session: *clean_session,
                keep_alive: *keep_alive,
                client_id: client_id@,
                username: opt_str_view(*username),
                password: opt_bytes(*password),
            },
            Packet::ConnAck { session_present, reason_code } => PacketView::ConnAck {
                session_present: *session_present,
                reason_code: *reason_code,
            },
            Packet::Publish(p) => PacketView::Publish(p@),
            Packet::PubAck { packet_id } => PacketView::PubAck { packet_id: *packet_id },
            Packet::Subscribe => PacketView::Subscribe,
            Packet::SubAck { packet_id, reason_codes } => PacketView::SubAck {
                packet_id: *packet_id,
                reason_codes: reason_codes@,
            },
            Packet::PingReq => PacketView::PingReq,
            Packet::PingResp => PacketView::PingResp,
            Packet::Disconnect => PacketView::Disconnect,
        }
    }
}

/// Packet type: the high nibble of the first byte.
pub open spec fn packet_type(buf: Seq<u8>) -> u8 {
    buf[0] / 16
}

/// Inputs on which decoding reads fixed positions without checking the
/// length first: a CONNECT needs its eleven fixed bytes, a CONNACK its four.
pub open spec fn decodable(buf: Seq<u8>) -> bool {
    buf.len() > 0 ==> {
        &&& packet_type(buf) == 1 ==> buf.len() >= 11
        &&& packet_type(buf) == 2 ==> buf.len() >= 4
    }
}

pub open spec fn malformed<T>() -> Result<T, CodecError> {
    Err(CodecError::Protocol(ProtocolError::MalformedPacket))
}

pub open spec fn read_str(buf: Seq<u8>, pos: int) -> Result<(Seq<char>, int), CodecError> {
    match read_field(buf, pos) {
        None => malformed(),
        Some((data, next)) => if valid_utf8(data) {
            Ok((decode_utf8(data), next))
        } else {
            Err(CodecError::Protocol(ProtocolError::InvalidUtf8String))
        },
    }
}

/// Parsing a CONNECT at fixed positions: flags at byte 8, keep-alive at 9-10,
/// then the client identifier at 11 and, as the flags say, user name and
/// password. An encoded CONNECT whose remaining length takes one byte holds
/// its protocol level at byte 8 and its flags at byte 9 (see
/// [`lemma_connect_layout`]), so these reads sit one byte before the fields
/// they name, and a longer CONNECT is read at the same positions all the
/// same. Brokers do not send CONNECT, so a client meets one only from a peer
/// that breaks the protocol.
pub open spec fn parse_connect(buf: Seq<u8>) -> Result<PacketView, CodecError> {
    let flags = buf[8];
    let clean_session = (flags / 2) % 2 == 1;
    let keep_alive = (buf[9] * 256 + buf[10]) as u16;
    match read_str(buf, 11) {
        Err(e) => Err(e),
        Ok((client_id, c1)) => {
            let user = if flags >= 128 {
                match read_str(buf, c1) {
                    Err(e) => Err(e),
                    Ok((u, c2)) => Ok((Some(u), c2)),
                }
            } else {
                Ok((None, c1))
            };
            match user {
                Err(e) => Err(e),
                Ok((username, c2)) => {
                    if (flags / 64) % 2 == 1 {
                        match read_field(buf, c2) {
                            None => malformed(),
                            Some((p, _)) => Ok(PacketView::Connect { clean_session, keep_alive, client_id, username, password: Some(p) }),
                        }
                    } else {
                        Ok(PacketView::Connect { clean_session, keep_alive, client_id, username, password: None })
                    }
                },
            }
        },
    }
}

/// Parsing a SUBACK: the packet identifier follows the remaining length,
/// which starts at byte 1; every byte after the identifier is a return code,
/// at most eight of them.
pub open spec fn parse_suback(buf: Seq<u8>) -> Result<PacketView, CodecError> {
    match read_varint(buf, 1) {
        None => malformed(),
        Some((_, n)) => {
            let c: int = 1 + n as int;
            if c + 2 > buf.len() {
                malformed()
            } else if buf.len() - (c + 2) > 8 {
                Err(CodecError::BufferTooSmall)
            } else {
                Ok(PacketView::SubAck {
                    packet_id: (buf[c] * 256 + buf[c + 1]) as u16,
                    reason_codes: buf.subrange(c + 2, buf.len() as int),
                })
            }
        },
    }
}

/// Decoding a received packet; an empty buffer holds none.
pub open spec fn parse_packet(buf: Seq<u8>) -> Result<Option<PacketView>, CodecError> {
    if buf.len() == 0 {
        Ok(None)
    } else {
        let t = packet_type(buf);
        let p: Result<PacketView, CodecError> = if t == 1 {
            parse_connect(buf)
        } else if t == 2 {
            Ok(PacketView::ConnAck { session_present: buf[2] % 2 == 1, reason_code: buf[3] })
        } else if t == 3 {
            match parse_publish(buf) {
                Ok(p) => Ok(PacketView::Publish(p)),
                Err(e) => Err(e),
            }
        } else if t == 4 {
            if buf.len() < 4 {
                malformed()
            } else {
                Ok(PacketView::PubAck { packet_id: (buf[2] * 256 + buf[3]) as u16 })
            }
        } else if t == 8 {
            Ok(PacketView::Subscribe)
        } else if t == 9 {
            parse_suback(buf)
        } else if t == 12 {
            Ok(PacketView::PingReq)
        } else if t == 13 {
            Ok(PacketView::PingResp)
        } else if t == 14 {
            Ok(PacketView::Disconnect)
        } else {
            Err(CodecError::Protocol(ProtocolError::InvalidPacketType(t)))
        };
        match p {
            Ok(p) => Ok(Some(p)),
            Err(e) => Err(e),
        }
    }
}

fn decode_connect<'a>(buf: &'a [u8]) -> (res: Result<Packet<'a>, CodecError>)
    requires
        buf@.len() >= 11,
    ensures
        match parse_connect(buf@) {
            Ok(p) => res matches Ok(r) && r@ == p,
            Err(e) => res matches Err(re) && re == e,
        },
{
    let flags = buf[8];
    let clean_session = (flags / 2) % 2 == 1;
    let keep_alive: u16 = (buf[9] as u16) * 256 + (buf[10] as u16);
    let (client_id, c1) = match decode_str(buf, 11) {
        Ok(r) => r,
        Err(e) => return Err(e),
    };
    let (username, c2) = if flags >= 128 {
        match decode_str(buf, c1) {
            Ok((u, c2)) => (Some(u), c2),
            Err(e) => return Err(e),
        }
    } else {
        (None, c1)
    };
    let password = if (flags / 64) % 2 == 1 {
        match decode_field(buf, c2) {
            Ok((p, _)) => Some(p),
            Err(e) => return Err(e),
        }
    } else {
        None
    };
    Ok(Packet::Connect { clean_session, keep_alive, client_id, username, password })
}

fn decode_suback<'a>(buf: &'a [u8]) -> (res: Result<Packet<'a>, CodecError>)
    ensures
        match parse_suback(buf@) {
            Ok(p) => res matches Ok(r) && r@ == p,
            Err(e) => res matches Err(re) && re == e,
        },
{
    let c = match decode_varint(buf, 1) {
        Ok((_, c)) => c,
        Err(e) => return Err(e),
    };
    if buf.len() - c < 2 {
        return Err(CodecError::Protocol(ProtocolError::MalformedPacket));
    }
    let packet_id: u16 = (buf[c] as u16) * 256 + (buf[c + 1] as u16);
    if buf.len() - (c + 2) > 8 {
        return Err(CodecError::BufferTooSmall);
    }
    let mut reason_codes: Vec<u8> = Vec::new();
    let mut i: usize = c + 2;
    while i < buf.len()
        invariant
            c + 2 <= i <= buf@.len(),
            reason_codes@ == buf@.subrange(c + 2, i as int),
        decreases buf@.len() - i,
    {
        reason_codes.push(buf[i]);
        proof {
            assert(buf@.subrange(c + 2, i + 1) =~= buf@.subrange(c + 2, i as int).push(buf@[i as int]));
        }
        i = i + 1;
    }
    Ok(Packet::SubAck { packet_id, reason_codes })
}

/// Decodes a received packet; `None` for an empty buffer.
pub fn decode_packet<'a>(buf: &'a [u8]) -> (res: Result<Option<Packet<'a>>, CodecError>)
    requires
        decodable(buf@),
    ensures
        match parse_packet(buf@) {
            Ok(None) => res matches Ok(None),
            Ok(Some(p)) => res matches Ok(Some(r)) && r@ == p,
            Err(e) => res matches Err(re) && re == e,
        },
{
    if buf.len() == 0 {
        return Ok(None);
    }
    let t = buf[0] / 16;
    let p = if t == 1 {
        decode_connect(buf)
    } else if t == 2 {
        Ok(Packet::ConnAck { session_present: buf[2] % 2 == 1, reason_code: buf[3] })
    } else if t == 3 {
        match decode_publish(buf) {
            Ok(p) => Ok(Packet::Publish(p)),
            Err(e) => Err(e),
        }
    } else if t == 4 {
        if buf.len() < 4 {
            Err(CodecError::Protocol(ProtocolError::MalformedPacket))
        } else {
            Ok(Packet::PubAck { packet_id: (buf[2] as u16) * 256 + (buf[3] as u16) })
        }
    } else if t == 8 {
        Ok(Packet::Subscribe)
    } else if t == 9 {
        decode_suback(buf)
    } else if t == 12 {
        Ok(Packet::PingReq)
    } else if t == 13 {
        Ok(Packet::PingResp)
    } else if t == 14 {
        Ok(Packet::Disconnect)
    } else {
        Err(CodecError::Protocol(ProtocolError::InvalidPacketType(t)))
    };
    match p {
        Ok(p) => Ok(Some(p)),
        Err(e) => Err(e),
    }
}

/// Whether [`decode_packet`] may be called on `buf`; on other inputs the
/// fixed-position reads of a CONNECT or CONNACK would run off the buffer.
pub fn is_decodable(buf: &[u8]) -> (ok: bool)
    ensures
        ok == decodable(buf@),
{
    if buf.len() == 0 {
        return true;
    }
    let t = buf[0] / 16;
    !(t == 1 && buf.len() < 11) && !(t == 2 && buf.len() < 4)
}

/// The CONNECT the encoder writes: the header byte 0x10 and the body length,
/// then the protocol name `MQTT`, protocol level 4, the flags byte, the
/// keep-alive (most significant byte first) and the client identifier field.
/// In the flags byte, 0x02 is set exactly when a clean session is asked for,
/// 0x80 exactly when a user name is given, 0x40 exactly when a password is
/// given, and no other bit is set. When the body is shorter than 128 bytes
/// the length takes one byte and the flags sit at byte 9 of the packet.
pub proof fn lemma_connect_layout(
    client_id: Seq<u8>,
    keep_alive_secs: u16,
    clean_session: bool,
    username: Option<Seq<u8>>,
    password: Option<Seq<u8>>,
)
    requires
        connect_packet(client_id, keep_alive_secs, clean_session, username, password) is Ok,
    ensures
        ({
            let p = connect_packet(client_id, keep_alive_secs, clean_session, username, password)->Ok_0;
            let body = connect_body(client_id, keep_alive_secs, clean_session, username, password)->Ok_0;
            let flags = body[7];
            &&& p == seq![0x10u8] + varint(body.len()) + body
            &&& body.len() >= 12 + client_id.len()
            &&& body.subrange(0, 7) == seq![0u8, 4u8, 0x4Du8, 0x51u8, 0x54u8, 0x54u8, 4u8]
            &&& ((flags / 2) % 2 == 1 <==> clean_session)
            &&& (flags / 128 == 1 <==> username is Some)
            &&& ((flags / 64) % 2 == 1 <==> password is Some)
            &&& flags % 2 == 0
            &&& (flags / 4) % 16 == 0
            &&& body[8] * 256 + body[9] == keep_alive_secs
            &&& body[10] * 256 + body[11] == client_id.len()
            &&& body.subrange(12, 12 + client_id.len() as int) == client_id
            &&& (body.len() < 128 ==> p[1] == body.len() && p[9] == flags)
        }),
{
    let flags = connect_flags(clean_session, username is Some, password is Some);
    let fixed = seq![4u8, flags] + be16(keep_alive_secs as nat);
    let name_field = put_field(Ok(Seq::empty()), protocol_name());
    assert(name_field == Ok::<Seq<u8>, CodecError>(field(protocol_name())));
    let header = put_raw(name_field, fixed);
    let h = header->Ok_0;
    assert(h =~= field(protocol_name()) + fixed);
    let with_id = put_field(header, client_id);
    let b1 = with_id->Ok_0;
    assert(b1 == h + field(client_id));
    let with_user = opt_field(with_id, username);
    let b2 = with_user->Ok_0;
    assert(b2.subrange(0, b1.len() as int) =~= b1);
    let body = opt_field(with_user, password)->Ok_0;
    assert(body.subrange(0, b2.len() as int) =~= b2);
    assert(h.len() == 10);
    assert forall|i: int| 0 <= i < b1.len() implies body[i] == b1[i] by {
        assert(body[i] == body.subrange(0, b2.len() as int)[i]);
        assert(b2[i] == b2.subrange(0, b1.len() as int)[i]);
    }
    assert(body.subrange(0, 7) =~= seq![0u8, 4u8, 0x4Du8, 0x51u8, 0x54u8, 0x54u8, 4u8]);
    assert(body[7] == flags);
    assert(body[10] == b1[10] && body[11] == b1[11]);
    assert(body.subrange(12, 12 + client_id.len() as int) =~= client_id) by {
        assert forall|j: int| 0 <= j < client_id.len() implies body[12 + j] == client_id[j] by {
            assert(body[12 + j] == b1[12 + j]);
        }
    }
    if body.len() < 128 {
        assert(varint(body.len()) == seq![body.len() as u8]);
        let p = seq![0x10u8] + varint(body.len()) + body;
        assert(p[9] == body[7]);
    }
}

/// A PUBACK decodes back to the identifier it was encoded with, for every
/// identifier: bytes 2 and 3 carry it, most significant byte first.
pub proof fn lemma_puback_roundtrip(packet_id: u16)
    ensures
        seq![0x40u8, 0x02u8] + be16(packet_id as nat) == seq![
            0x40u8,
            0x02u8,
            (packet_id / 256) as u8,
            (packet_id % 256) as u8,
        ],
        parse_packet(seq![0x40u8, 0x02u8] + be16(packet_id as nat)) == Ok::<
            Option<PacketView>,
            CodecError,
        >(Some(PacketView::PubAck { packet_id })),
{
    let buf = seq![0x40u8, 0x02u8] + be16(packet_id as nat);
    assert(buf =~= seq![0x40u8, 0x02u8, (packet_id / 256) as u8, (packet_id % 256) as u8]);
    assert(packet_type(buf) == 4);
    assert(((packet_id / 256) as u8) * 256 + ((packet_id % 256) as u8) == packet_id);
}

/// A CONNACK decodes to the session-present flag in bit 0 of byte 2 and the
/// return code in byte 3, for every flag and code.
pub proof fn lemma_connack_decodes(session_present: bool, reason_code: u8)
    ensures
        parse_packet(seq![0x20u8, 0x02u8, if session_present { 1u8 } else { 0u8 }, reason_code])
            == Ok::<Option<PacketView>, CodecError>(
            Some(PacketView::ConnAck { session_present, reason_code }),
        ),
{
    let buf = seq![0x20u8, 0x02u8, if session_present { 1u8 } else { 0u8 }, reason_code];
    assert(packet_type(buf) == 2);
}

/// The SUBSCRIBE the encoder writes: the header byte 0x82 (type 8 with the
/// flags MQTT 3.1.1 demands) and the body length, then the packet identifier
/// (most significant byte first), the topic filter as a length-prefixed field,
/// and the requested QoS as its level number 0, 1 or 2 in the last byte.
pub proof fn lemma_subscribe_layout(packet_id: u16, topic: Seq<u8>, qos: QoS)
    requires
        subscribe_packet(packet_id, topic, qos) is Ok,
    ensures
        ({
            let p = subscribe_packet(packet_id, topic, qos)->Ok_0;
            let body = subscribe_body(packet_id, topic, qos)->Ok_0;
            &&& p == seq![0x82u8] + varint(body.len()) + body
            &&& body.len() == 5 + topic.len()
            &&& body[0] * 256 + body[1] == packet_id
            &&& body[2] * 256 + body[3] == topic.len()
            &&& body.subrange(4, 4 + topic.len() as int) == topic
            &&& body[4 + topic.len() as int] == match qos {
                QoS::AtMostOnce => 0u8,
                QoS::AtLeastOnce => 1u8,
                QoS::ExactlyOnce => 2u8,
            }
        }),
{
    let body = subscribe_body(packet_id, topic, qos)->Ok_0;
    assert(body =~= be16(packet_id as nat) + field(topic) + seq![qos_bits(qos)]);
    assert(body.subrange(4, 4 + topic.len() as int) =~= topic);
}

/// The first byte of a PUBLISH: packet type 3 in the high nibble, the DUP flag
/// clear, the QoS level (0, 1 or 2) in bits 1-2 and the retain flag in bit 0.
/// A QoS 0 PUBLISH carries no packet identifier; QoS 1 and 2 need one.
pub proof fn lemma_publish_header(qos: QoS, retain: bool, topic: Seq<u8>, payload: Seq<u8>)
    ensures
        publish_header(qos, retain) / 16 == 3,
        (publish_header(qos, retain) / 8) % 2 == 0,
        (publish_header(qos, retain) / 2) % 4 == match qos {
            QoS::AtMostOnce => 0u8,
            QoS::AtLeastOnce => 1u8,
            QoS::ExactlyOnce => 2u8,
        },
        (publish_header(qos, retain) % 2 == 1) == retain,
        qos != QoS::AtMostOnce && topic.len() <= 65535 ==> publish_packet(topic, qos, retain, payload, None)
            == Err::<Seq<u8>, CodecError>(CodecError::Protocol(ProtocolError::MalformedPacket))
            || publish_packet(topic, qos, retain, payload, None) == Err::<Seq<u8>, CodecError>(
            CodecError::BufferTooSmall,
        ),
{
}

} // verus!
