//! What the MQTT connection keeps track of between reconnects: the messages
//! it hands over, the subscriptions to restore, and the credentials it sends.
//! The socket, the queues between tasks and the wire protocol live with the
//! caller.
use vstd::prelude::*;
use crate::config::AppConfig;
pub use crate::mqtt_packet::QoS;

verus! {

/// Client identifier sent in CONNECT.
pub const CLIENT_ID: &'static str = "mqtt_gate";
/// Keep-alive interval announced in CONNECT, in seconds.
pub const KEEP_ALIVE_SECS: u64 = 50;
/// Pause between losing the connection and the next attempt, in seconds.
pub const RECONNECT_DELAY_SECS: u64 = 5;

/// An MQTT message received from the broker, decoupled from the connection's
/// internal receive buffer so it can be handed off across a queue.
#[derive(Debug)]
pub struct IncomingMessage {
    pub topic: String,
    pub payload: Vec<u8>,
}

#[derive(Clone, Debug)]
pub struct Subscription {
    pub topic: String,
    pub qos: QoS,
}

pub ghost struct SubscriptionView {
    pub topic: Seq<char>,
    pub qos: QoS,
}

impl View for Subscription {
    type V = SubscriptionView;

    open spec fn view(&self) -> SubscriptionView {
        SubscriptionView { topic: self.topic@, qos: self.qos }
    }
}

/// Every subscription ever requested, in request order, so all of them can be
/// restored after a reconnect.
pub struct SubscriptionRegistry {
    subscriptions: Vec<Subscription>,
}

impl View for SubscriptionRegistry {
    type V = Seq<SubscriptionView>;

    closed spec fn view(&self) -> Seq<SubscriptionView> {
        self.subscriptions@.map_values(|s: Subscription| s@)
    }
}

fn copy_subscription(s: &Subscription) -> (c: Subscription)
    ensures
        c@ == s@,
{
    Subscription { topic: s.topic.clone(), qos: s.qos }
}

impl SubscriptionRegistry {
    pub fn new() -> (r: SubscriptionRegistry)
        ensures
            r@ == Seq::<SubscriptionView>::empty(),
    {
        SubscriptionRegistry { subscriptions: Vec::new() }
    }

    /// Records a subscription; it is restored on every later reconnect.
    pub fn register(&mut self, sub: Subscription)
        ensures
            final(self)@ == old(self)@.push(sub@),
    {
        self.subscriptions.push(sub);
        proof {
            assert(self@ =~= old(self)@.push(sub@));
        }
    }

    /// The subscriptions to send on a fresh connection, in request order.
    pub fn to_restore(&self) -> (subs: Vec<Subscription>)
        ensures
            subs@.map_values(|s: Subscription| s@) == self@,
    {
        let mut subs: Vec<Subscription> = Vec::new();
        let n = self.subscriptions.len();
        for i in 0..n
            invariant
                n == self.subscriptions@.len(),
                subs@.len() == i,
                forall|j: int| 0 <= j < i ==> #[trigger] subs@[j]@ == self.subscriptions@[j]@,
        {
            subs.push(copy_subscription(&self.subscriptions[i]));
        }
        assert(subs@.map_values(|s: Subscription| s@) =~= self@);
        subs
    }
}

/// Username and password sent in CONNECT: only when both are configured.
pub fn credentials(cfg: &AppConfig) -> (c: Option<(&str, &str)>)
    ensures
        match (cfg.mqtt_username, cfg.mqtt_password) {
            (Some(u), Some(p)) => c matches Some((cu, cp)) && cu@ == u@ && cp@ == p@,
            _ => c is None,
        },
{
    match (&cfg.mqtt_username, &cfg.mqtt_password) {
        (Some(username), Some(password)) => Some((username.as_str(), password.as_str())),
        _ => None,
    }
}

} // verus!
