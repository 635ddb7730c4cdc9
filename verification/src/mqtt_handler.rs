//! The single place where incoming MQTT messages get meaning: commands on the
//! cover topic move the leaves, a press of the discovery button clears the wind lock.
use vstd::prelude::*;
use vstd::utf8::{encode_utf8, encode_utf8_decode_utf8};
use crate::mqtt_packet::{lemma_publish_roundtrip, parse_publish, publish_packet, QoS};
use crate::gate::{
    close, open, reset_wind_lock, stop, close_request, open_request, stop_request, GateCommand,
    GateControl, GateControlView,
};
use crate::topics::{
    BUTTON_COMMAND_TOPIC, CLOSE_PAYLOAD, COVER_COMMAND_TOPIC, OPEN_PAYLOAD,
    RESET_WIND_LOCK_PAYLOAD, STOP_PAYLOAD,
};

verus! {

/// Whether `payload` is the UTF-8 text `text`. (A payload that is not valid
/// UTF-8 matches no text.)
pub open spec fn payload_is(payload: Seq<u8>, text: &str) -> bool {
    payload == encode_utf8(text@)
}

/// Byte-wise equality of two slices.
pub fn bytes_eq(a: &[u8], b: &[u8]) -> (eq: bool)
    ensures
        eq == (a@ == b@),
{
    if a.len() != b.len() {
        return false;
    }
    let mut i: usize = 0;
    while i < a.len()
        invariant
            a@.len() == b@.len(),
            0 <= i <= a@.len(),
            forall|j: int| 0 <= j < i ==> a@[j] == b@[j],
        decreases a@.len() - i,
    {
        if a[i] != b[i] {
            return false;
        }
        i = i + 1;
    }
    assert(a@ =~= b@);
    true
}

/// Whether the text of `s` is `text`.
fn str_is(s: &str, text: &str) -> (eq: bool)
    ensures
        eq == (s@ == text@),
{
    proof {
        encode_utf8_decode_utf8(s@);
        encode_utf8_decode_utf8(text@);
    }
    bytes_eq(s.as_bytes(), text.as_bytes())
}

/// Whether `payload` is the UTF-8 text `text`.
fn payload_matches(payload: &[u8], text: &str) -> (eq: bool)
    ensures
        eq == payload_is(payload@, text),
{
    bytes_eq(payload, text.as_bytes())
}

/// The command a message on the cover command topic asks for.
pub open spec fn cover_request(c: GateControlView, payload: Seq<u8>) -> Option<GateCommand> {
    if payload_is(payload, OPEN_PAYLOAD) {
        open_request(c)
    } else if payload_is(payload, CLOSE_PAYLOAD) {
        close_request(c)
    } else if payload_is(payload, STOP_PAYLOAD) {
        stop_request(c)
    } else {
        None
    }
}

/// Whether a message is the press of the wind-lock reset button.
pub open spec fn is_reset_press(topic: Seq<char>, payload: Seq<u8>) -> bool {
    topic == BUTTON_COMMAND_TOPIC@ && payload_is(payload, RESET_WIND_LOCK_PAYLOAD)
}

/// Central callback for every incoming MQTT message. Returns the command
/// to queue, if any.
pub fn on_message(ctl: &mut GateControl, topic: &str, payload: &[u8]) -> (cmd: Option<GateCommand>)
    ensures
        topic@ == COVER_COMMAND_TOPIC@ ==> final(ctl)@ == old(ctl)@ && cmd == cover_request(
            old(ctl)@,
            payload@,
        ),
        topic@ != COVER_COMMAND_TOPIC@ && is_reset_press(topic@, payload@) ==> final(ctl)@ == (
        GateControlView { wind_locked: false, ..old(ctl)@ }) && cmd == Some(GateCommand::Stop),
        topic@ != COVER_COMMAND_TOPIC@ && !is_reset_press(topic@, payload@) ==> final(ctl)@
            == old(ctl)@ && cmd is None,
{
    if str_is(topic, COVER_COMMAND_TOPIC) {
        if payload_matches(payload, OPEN_PAYLOAD) {
            open(ctl)
        } else if payload_matches(payload, CLOSE_PAYLOAD) {
            close(ctl)
        } else if payload_matches(payload, STOP_PAYLOAD) {
            stop(ctl)
        } else {
            None
        }
    } else if str_is(topic, BUTTON_COMMAND_TOPIC) && payload_matches(payload, RESET_WIND_LOCK_PAYLOAD) {
        reset_wind_lock(ctl)
    } else {
        None
    }
}

/// An OPEN published to the cover command topic, once encoded, received and
/// decoded, reaches the handler as a request to open.
pub proof fn lemma_open_command_end_to_end(c: GateControlView, qos: QoS, retain: bool, packet_id: Option<u16>)
    requires
        publish_packet(encode_utf8(COVER_COMMAND_TOPIC@), qos, retain, encode_utf8(OPEN_PAYLOAD@), packet_id) is Ok,
    ensures
        ({
            let bytes = publish_packet(encode_utf8(COVER_COMMAND_TOPIC@), qos, retain, encode_utf8(OPEN_PAYLOAD@), packet_id)->Ok_0;
            &&& parse_publish(bytes) is Ok
            &&& parse_publish(bytes)->Ok_0.topic == COVER_COMMAND_TOPIC@
            &&& cover_request(c, parse_publish(bytes)->Ok_0.payload) == open_request(c)
        }),
{
    lemma_publish_roundtrip(COVER_COMMAND_TOPIC@, qos, retain, encode_utf8(OPEN_PAYLOAD@), packet_id);
}

/// On the cover command topic, OPEN, CLOSE and STOP ask for exactly what the
/// open, close and stop inputs do, in every state of the leaves: STOP stops
/// unless the wind lock is on; OPEN opens unless the wind lock or barrier 1
/// refuses it; CLOSE closes unless the wind lock or either barrier refuses it.
/// Any other payload asks for nothing.
pub proof fn lemma_cover_payloads(c: GateControlView, payload: Seq<u8>)
    ensures
        cover_request(c, encode_utf8(STOP_PAYLOAD@)) == (if c.wind_locked {
            None
        } else {
            Some(GateCommand::Stop)
        }),
        cover_request(c, encode_utf8(OPEN_PAYLOAD@)) == (if c.wind_locked || c.barrier1_active {
            None
        } else {
            Some(GateCommand::Open)
        }),
        cover_request(c, encode_utf8(CLOSE_PAYLOAD@)) == (if c.wind_locked || c.barrier1_active
            || c.barrier2_active {
            None
        } else {
            Some(GateCommand::Close)
        }),
        payload != encode_utf8(STOP_PAYLOAD@) && payload != encode_utf8(OPEN_PAYLOAD@) && payload
            != encode_utf8(CLOSE_PAYLOAD@) ==> cover_request(c, payload) is None,
{
    reveal_strlit("OPEN");
    reveal_strlit("CLOSE");
    reveal_strlit("STOP");
    encode_utf8_decode_utf8(OPEN_PAYLOAD@);
    encode_utf8_decode_utf8(CLOSE_PAYLOAD@);
    encode_utf8_decode_utf8(STOP_PAYLOAD@);
    assert(OPEN_PAYLOAD@ != STOP_PAYLOAD@) by {
        assert(OPEN_PAYLOAD@[0] != STOP_PAYLOAD@[0]);
    }
    assert(CLOSE_PAYLOAD@ != STOP_PAYLOAD@) by {
        assert(CLOSE_PAYLOAD@.len() != STOP_PAYLOAD@.len());
    }
    assert(OPEN_PAYLOAD@ != CLOSE_PAYLOAD@) by {
        assert(OPEN_PAYLOAD@.len() != CLOSE_PAYLOAD@.len());
    }
}

} // verus!
