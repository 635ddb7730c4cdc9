//! The client side of an MQTT connection, minus the socket: connection state,
//! packet identifiers and keep-alive bookkeeping. Each operation returns the
//! bytes to send; the caller sends them, reports a successful send with
//! [`MqttSession::sent`], and hands received bytes back in.
use vstd::prelude::*;
use vstd::utf8::encode_utf8;
use crate::mqtt_codec::{CodecError, ProtocolError, BODY_ROOM};
use crate::mqtt_codec::varint;
use crate::mqtt_packet::{
    connect_body, connect_packet, decodable, lemma_connect_layout, decode_packet, encode_connect, encode_pingreq, encode_publish,
    encode_subscribe, parse_packet, publish_packet, subscribe_packet, utf8, Packet, PacketView,
    Publish, QoS,
};

verus! {

/// Reason a broker gives for refusing a connection.
#[derive(Clone, Copy, Debug, PartialEq, Eq, Structural)]
pub enum ConnectReasonCode {
    Success,
    UnacceptableProtocolVersion,
    IdentifierRejected,
    ServerUnavailable,
    BadUserNameOrPassword,
    NotAuthorized,
    Other(u8),
}

pub open spec fn reason_of(code: u8) -> ConnectReasonCode {
    if code == 0 {
        ConnectReasonCode::Success
    } else if code == 1 {
        ConnectReasonCode::UnacceptableProtocolVersion
    } else if code == 2 {
        ConnectReasonCode::IdentifierRejected
    } else if code == 3 {
        ConnectReasonCode::ServerUnavailable
    } else if code == 4 {
        ConnectReasonCode::BadUserNameOrPassword
    } else if code == 5 {
        ConnectReasonCode::NotAuthorized
    } else {
        ConnectReasonCode::Other(code)
    }
}

pub fn reason_code(code: u8) -> (r: ConnectReasonCode)
    ensures
        r == reason_of(code),
{
    match code {
        0 => ConnectReasonCode::Success,
        1 => ConnectReasonCode::UnacceptableProtocolVersion,
        2 => ConnectReasonCode::IdentifierRejected,
        3 => ConnectReasonCode::ServerUnavailable,
        4 => ConnectReasonCode::BadUserNameOrPassword,
        5 => ConnectReasonCode::NotAuthorized,
        _ => ConnectReasonCode::Other(code),
    }
}

/// Why a client operation failed (transport failures are the caller's).
#[derive(Clone, Copy, Debug, PartialEq, Eq, Structural)]
pub enum ClientError {
    Protocol(ProtocolError),
    ConnectionRefused(ConnectReasonCode),
    NotConnected,
    BufferTooSmall,
}

pub open spec fn client_error(e: CodecError) -> ClientError {
    match e {
        CodecError::Protocol(p) => ClientError::Protocol(p),
        CodecError::BufferTooSmall => ClientError::BufferTooSmall,
    }
}

fn from_codec(e: CodecError) -> (c: ClientError)
    ensures
        c == client_error(e),
{
    match e {
        CodecError::Protocol(p) => ClientError::Protocol(p),
        CodecError::BufferTooSmall => ClientError::BufferTooSmall,
    }
}

#[derive(Clone, Copy, Debug, PartialEq, Eq, Structural)]
pub enum ConnectionState {
    Disconnected,
    Connecting,
    Connected,
}

/// What a connection announces and authenticates with.
pub struct MqttOptions {
    client_id: String,
    keep_alive_secs: u64,
    username: Option<String>,
    password: Option<Vec<u8>>,
}

pub ghost struct MqttOptionsView {
    pub client_id: Seq<char>,
    pub keep_alive_secs: u64,
    pub username: Option<Seq<char>>,
    pub password: Option<Seq<u8>>,
}

pub open spec fn opt_string_view(s: Option<String>) -> Option<Seq<char>> {
    match s {
        Some(s) => Some(s@),
        None => None,
    }
}

pub open spec fn opt_vec_view(v: Option<Vec<u8>>) -> Option<Seq<u8>> {
    match v {
        Some(v) => Some(v@),
        None => None,
    }
}

impl View for MqttOptions {
    type V = MqttOptionsView;

    closed spec fn view(&self) -> MqttOptionsView {
        MqttOptionsView {
            client_id: self.client_id@,
            keep_alive_secs: self.keep_alive_secs,
            username: opt_string_view(self.username),
            password: opt_vec_view(self.password),
        }
    }
}

/// Largest keep-alive, in seconds, that the microsecond clock can measure.
pub const MAX_KEEP_ALIVE_SECS: u64 = 18_446_744_073_709;

impl MqttOptions {
    /// Options for `client_id`, with a 60 s keep-alive and no credentials.
    pub fn new(client_id: &str) -> (o: MqttOptions)
        ensures
            o@ == (MqttOptionsView { client_id: client_id@, keep_alive_secs: 60, username: None, password: None }),
    {
        MqttOptions { client_id: client_id.to_owned(), keep_alive_secs: 60, username: None, password: None }
    }

    pub fn with_keep_alive(self, keep_alive_secs: u64) -> (o: MqttOptions)
        requires
            keep_alive_secs <= MAX_KEEP_ALIVE_SECS,
        ensures
            o@ == (MqttOptionsView { keep_alive_secs, ..self@ }),
    {
        MqttOptions { keep_alive_secs, ..self }
    }

    /// Sets the user name and password sent in CONNECT.
    pub fn with_credentials(self, username: &str, password: &[u8]) -> (o: MqttOptions)
        ensures
            o@ == (MqttOptionsView { username: Some(username@), password: Some(password@), ..self@ }),
    {
        MqttOptions { username: Some(username.to_owned()), password: Some(vstd::slice::slice_to_vec(password)), ..self }
    }
}

pub ghost struct MqttSessionView {
    pub options: MqttOptionsView,
    pub state: ConnectionState,
    /// The last packet identifier handed out.
    pub packet_id: u16,
    /// Microseconds since boot of the last successful send.
    pub last_tx_us: u64,
}

pub struct MqttSession {
    options: MqttOptions,
    state: ConnectionState,
    packet_id: u16,
    last_tx_us: u64,
}

impl View for MqttSession {
    type V = MqttSessionView;

    closed spec fn view(&self) -> MqttSessionView {
        MqttSessionView {
            options: self.options@,
            state: self.state,
            packet_id: self.packet_id,
            last_tx_us: self.last_tx_us,
        }
    }
}

/// The identifier after `id`: the next one, wrapping around and skipping 0.
pub open spec fn next_id(id: u16) -> u16 {
    if id == 65535 { 1 } else { (id + 1) as u16 }
}

/// CONNECT for the given options: clean session, credentials only when both are set.
pub open spec fn connect_bytes(o: MqttOptionsView) -> Result<Seq<u8>, CodecError> {
    let both = o.username is Some && o.password is Some;
    connect_packet(
        encode_utf8(o.client_id),
        o.keep_alive_secs as u16,
        true,
        if both { Some(encode_utf8(o.username->Some_0)) } else { None },
        if both { o.password } else { None },
    )
}

impl MqttSessionView {
    pub open spec fn wf(self) -> bool {
        self.options.keep_alive_secs <= MAX_KEEP_ALIVE_SECS
    }

    /// Sending needs an established connection.
    pub open spec fn send_result(self, bytes: Result<Seq<u8>, CodecError>) -> Result<Seq<u8>, ClientError> {
        if self.state != ConnectionState::Connected {
            Err(ClientError::NotConnected)
        } else {
            match bytes {
                Ok(b) => Ok(b),
                Err(e) => Err(client_error(e)),
            }
        }
    }

    /// The keep-alive interval has passed since the last send.
    pub open spec fn ping_due(self, now_us: u64) -> bool {
        now_us - self.last_tx_us >= self.options.keep_alive_secs * 1_000_000
    }
}

pub open spec fn result_view(r: Result<Vec<u8>, ClientError>) -> Result<Seq<u8>, ClientError> {
    match r {
        Ok(v) => Ok(v@),
        Err(e) => Err(e),
    }
}

impl MqttSession {
    pub fn new(options: MqttOptions, now_us: u64) -> (s: MqttSession)
        requires
            options@.keep_alive_secs <= MAX_KEEP_ALIVE_SECS,
        ensures
            s@ == (MqttSessionView {
                options: options@,
                state: ConnectionState::Disconnected,
                packet_id: 1,
                last_tx_us: now_us,
            }),
    {
        MqttSession { options, state: ConnectionState::Disconnected, packet_id: 1, last_tx_us: now_us }
    }

    pub fn state(&self) -> (s: ConnectionState)
        ensures
            s == self@.state,
    {
        self.state
    }

    fn next_packet_id(&mut self) -> (id: u16)
        ensures
            id == next_id(old(self)@.packet_id),
            final(self)@ == (MqttSessionView { packet_id: id, ..old(self)@ }),
    {
        self.packet_id = if self.packet_id == 65535 { 1 } else { self.packet_id + 1 };
        self.packet_id
    }

    /// Starts connecting: the CONNECT packet to send.
    pub fn connect(&mut self) -> (res: Result<Vec<u8>, ClientError>)
        ensures
            final(self)@ == (MqttSessionView { state: ConnectionState::Connecting, ..old(self)@ }),
            result_view(res) == match connect_bytes(old(self)@.options) {
                Ok(b) => Ok::<Seq<u8>, ClientError>(b),
                Err(e) => Err(client_error(e)),
            },
    {
        self.state = ConnectionState::Connecting;
        let both = self.options.username.is_some() && self.options.password.is_some();
        let (username, password) = if both {
            match (&self.options.username, &self.options.password) {
                (Some(u), Some(p)) => (Some(u.as_str()), Some(p.as_slice())),
                _ => (None, None),
            }
        } else {
            (None, None)
        };
        let keep_alive = self.options.keep_alive_secs as u16;
        match encode_connect(self.options.client_id.as_str(), keep_alive, true, username, password) {
            Ok(bytes) => Ok(bytes),
            Err(e) => Err(from_codec(e)),
        }
    }

    /// The broker's reply to CONNECT: a CONNACK accepting the connection
    /// establishes it; a refusal or any other packet drops back to
    /// disconnected; an empty or undecodable reply leaves it connecting.
    pub fn connect_reply(&mut self, buf: &[u8], now_us: u64) -> (res: Result<(), ClientError>)
        requires
            decodable(buf@),
        ensures
            match parse_packet(buf@) {
                Err(e) => res == Err::<(), ClientError>(client_error(e)) && final(self)@ == old(self)@,
                Ok(None) => res == Err::<(), ClientError>(ClientError::Protocol(ProtocolError::InvalidResponse))
                    && final(self)@ == old(self)@,
                Ok(Some(PacketView::ConnAck { reason_code, .. })) => if reason_code == 0 {
                    res is Ok && final(self)@ == (MqttSessionView {
                        state: ConnectionState::Connected,
                        last_tx_us: now_us,
                        ..old(self)@
                    })
                } else {
                    res == Err::<(), ClientError>(ClientError::ConnectionRefused(reason_of(reason_code)))
                        && final(self)@ == (MqttSessionView { state: ConnectionState::Disconnected, ..old(self)@ })
                },
                Ok(Some(_)) => res == Err::<(), ClientError>(ClientError::Protocol(ProtocolError::InvalidResponse))
                    && final(self)@ == (MqttSessionView { state: ConnectionState::Disconnected, ..old(self)@ }),
            },
    {
        let packet = match decode_packet(buf) {
            Ok(Some(p)) => p,
            Ok(None) => return Err(ClientError::Protocol(ProtocolError::InvalidResponse)),
            Err(e) => return Err(from_codec(e)),
        };
        match packet {
            Packet::ConnAck { reason_code: code, .. } => {
                if code == 0 {
                    self.state = ConnectionState::Connected;
                    self.last_tx_us = now_us;
                    Ok(())
                } else {
                    self.state = ConnectionState::Disconnected;
                    Err(ClientError::ConnectionRefused(reason_code(code)))
                }
            },
            _ => {
                self.state = ConnectionState::Disconnected;
                Err(ClientError::Protocol(ProtocolError::InvalidResponse))
            },
        }
    }

    /// A PUBLISH to send. QoS 1 and 2 take the next packet identifier, even
    /// when the connection is down.
    pub fn publish(&mut self, topic: &str, payload: &[u8], qos: QoS, retain: bool) -> (res: Result<Vec<u8>, ClientError>)
        ensures
            qos == QoS::AtMostOnce ==> final(self)@ == old(self)@ && result_view(res)
                == old(self)@.send_result(publish_packet(utf8(topic), qos, retain, payload@, None)),
            qos != QoS::AtMostOnce ==> {
                let id = next_id(old(self)@.packet_id);
                &&& final(self)@ == (MqttSessionView { packet_id: id, ..old(self)@ })
                &&& result_view(res) == old(self)@.send_result(
                    publish_packet(utf8(topic), qos, retain, payload@, Some(id)),
                )
            },
    {
        let packet_id = if qos == QoS::AtMostOnce { None } else { Some(self.next_packet_id()) };
        if self.state != ConnectionState::Connected {
            return Err(ClientError::NotConnected);
        }
        match encode_publish(topic, qos, retain, payload, packet_id) {
            Ok(bytes) => Ok(bytes),
            Err(e) => Err(from_codec(e)),
        }
    }

    /// A SUBSCRIBE to send for one topic filter, with the next packet identifier.
    pub fn subscribe(&mut self, topic: &str, qos: QoS) -> (res: Result<Vec<u8>, ClientError>)
        requires
            utf8(topic).len() + 4 != BODY_ROOM,
        ensures
            ({
                let id = next_id(old(self)@.packet_id);
                &&& final(self)@ == (MqttSessionView { packet_id: id, ..old(self)@ })
                &&& result_view(res) == old(self)@.send_result(subscribe_packet(id, utf8(topic), qos))
            }),
    {
        let id = self.next_packet_id();
        if self.state != ConnectionState::Connected {
            return Err(ClientError::NotConnected);
        }
        match encode_subscribe(id, topic, qos) {
            Ok(bytes) => Ok(bytes),
            Err(e) => Err(from_codec(e)),
        }
    }

    /// Records a successful send at `now_us`.
    pub fn sent(&mut self, now_us: u64)
        ensures
            final(self)@ == (MqttSessionView { last_tx_us: now_us, ..old(self)@ }),
    {
        self.last_tx_us = now_us;
    }

    /// Start of a poll: the PINGREQ to send first when the keep-alive interval
    /// has passed since the last send.
    pub fn poll_start(&self, now_us: u64) -> (res: Result<Option<Vec<u8>>, ClientError>)
        requires
            self@.wf(),
            self@.last_tx_us <= now_us,
        ensures
            self@.state != ConnectionState::Connected ==> res == Err::<Option<Vec<u8>>, ClientError>(ClientError::NotConnected),
            self@.state == ConnectionState::Connected ==> match res {
                Ok(Some(p)) => self@.ping_due(now_us) && p@ == seq![0xC0u8, 0x00u8],
                Ok(None) => !self@.ping_due(now_us),
                Err(_) => false,
            },
    {
        if self.state != ConnectionState::Connected {
            return Err(ClientError::NotConnected);
        }
        if now_us - self.last_tx_us >= self.options.keep_alive_secs * 1_000_000 {
            Ok(Some(encode_pingreq()))
        } else {
            Ok(None)
        }
    }

    /// End of a poll: `buf` holds the bytes received. A PUBLISH is handed out;
    /// anything else is consumed; nothing received means nothing to report.
    pub fn poll_received<'a>(&self, buf: &'a [u8]) -> (res: Result<Option<Publish<'a>>, ClientError>)
        requires
            decodable(buf@),
        ensures
            match parse_packet(buf@) {
                Err(e) => res == Err::<Option<Publish<'a>>, ClientError>(client_error(e)),
                Ok(Some(PacketView::Publish(p))) => res matches Ok(Some(r)) && r@ == p,
                Ok(_) => res matches Ok(None),
            },
    {
        match decode_packet(buf) {
            Ok(Some(Packet::Publish(p))) => Ok(Some(p)),
            Ok(_) => Ok(None),
            Err(e) => Err(from_codec(e)),
        }
    }
}

/// Packet identifiers are never 0, and consecutive ones differ.
pub proof fn lemma_packet_ids(id: u16)
    ensures
        next_id(id) != 0,
        next_id(id) != id,
{
}

/// Nothing is handed out to send before the broker has accepted the
/// connection; once it has, the encoded packet is handed out as it is, and an
/// encoding failure is reported as the matching client error.
pub proof fn lemma_send_needs_connection(v: MqttSessionView, bytes: Result<Seq<u8>, CodecError>)
    ensures
        v.state != ConnectionState::Connected ==> v.send_result(bytes) == Err::<Seq<u8>, ClientError>(
            ClientError::NotConnected,
        ),
        v.state == ConnectionState::Connected && bytes is Ok ==> v.send_result(bytes) == Ok::<
            Seq<u8>,
            ClientError,
        >(bytes->Ok_0),
        v.state == ConnectionState::Connected && bytes == Err::<Seq<u8>, CodecError>(CodecError::BufferTooSmall)
            ==> v.send_result(bytes) == Err::<Seq<u8>, ClientError>(ClientError::BufferTooSmall),
{
}

/// The CONNECT a session sends always asks for a clean session, carries the
/// keep-alive (cut to its low 16 bits), and names a user and a password exactly when
/// both were configured.
pub proof fn lemma_connect_asks_clean_session(o: MqttOptionsView)
    requires
        connect_bytes(o) is Ok,
    ensures
        ({
            let both = o.username is Some && o.password is Some;
            let body = connect_body(
                encode_utf8(o.client_id),
                o.keep_alive_secs as u16,
                true,
                if both { Some(encode_utf8(o.username->Some_0)) } else { None },
                if both { o.password } else { None },
            )->Ok_0;
            &&& connect_bytes(o)->Ok_0 == seq![0x10u8] + varint(body.len()) + body
            &&& (body[7] / 2) % 2 == 1
            &&& (body[7] / 128 == 1 <==> both)
            &&& ((body[7] / 64) % 2 == 1 <==> both)
            &&& body[8] * 256 + body[9] == o.keep_alive_secs as u16
        }),
{
    let both = o.username is Some && o.password is Some;
    lemma_connect_layout(
        encode_utf8(o.client_id),
        o.keep_alive_secs as u16,
        true,
        if both { Some(encode_utf8(o.username->Some_0)) } else { None },
        if both { o.password } else { None },
    );
}

/// A connection is accepted only for return code 0; the codes 1 to 5 name the
/// five refusals of MQTT 3.1.1, each a different one, and any other code is
/// passed on as it came.
pub proof fn lemma_reason_codes(code: u8)
    ensures
        reason_of(code) == ConnectReasonCode::Success <==> code == 0,
        code > 5 ==> reason_of(code) == ConnectReasonCode::Other(code),
        code <= 5 ==> !(reason_of(code) is Other),
        forall|other: u8| other != code ==> reason_of(other) != reason_of(code),
{
}

} // verus!
