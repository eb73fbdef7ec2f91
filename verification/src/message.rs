//! The message vocabulary of the core: commands issued by the consumer,
//! events reported by a session driver, and the envelopes exchanged with
//! the orchestrator.

use vstd::prelude::*;

use crate::options::MqttOpts;

verus! {

/// Relies on the std `Clone` impl for `Result`, which clones whichever
/// side is present; vstd gives it no specification. Variant preservation
/// is stated; what the cloned payload is depends on the payload's own
/// `Clone` and is left open.
pub assume_specification<T: Clone, E: Clone>[ <Result<T, E> as Clone>::clone ](
    r: &Result<T, E>,
) -> (res: Result<T, E>)
    ensures
        r.is_ok() <==> res.is_ok(),
;

/// Identifies exactly one session; assigned by the caller at creation time.
pub type ClientId = String;

/// An MQTT topic or topic filter.
pub type Topic = String;

/// Correlation token attached to a publish so its result can be matched.
pub type PublishRef = String;

/// Delivery quality of a publish or subscription.
#[derive(Clone, Copy, Debug, PartialEq, Eq, Structural)]
pub enum QoS {
    AtMostOnce,
    AtLeastOnce,
    ExactlyOnce,
}

/// An application message: what a publish carries.
#[derive(Clone, Debug, PartialEq, Eq)]
pub struct Publish {
    pub topic: Topic,
    pub qos: QoS,
    pub retain: bool,
    pub payload: Vec<u8>,
}

/// An incoming protocol packet, reduced to what the core routes on.
#[derive(Clone, Debug, PartialEq, Eq)]
pub enum Packet {
    Connect,
    ConnAck,
    Publish(Publish),
    PubAck(u16),
    PubRec(u16),
    PubRel(u16),
    PubComp(u16),
    Subscribe(u16),
    SubAck(u16),
    Unsubscribe(u16),
    UnsubAck(u16),
    PingReq,
    PingResp,
    Disconnect,
}

/// An outgoing protocol packet as reported by the connection's event source.
#[derive(Clone, Copy, Debug, PartialEq, Eq, Structural)]
pub enum Outgoing {
    Publish(u16),
    Subscribe(u16),
    Unsubscribe(u16),
    PubAck(u16),
    PubRec(u16),
    PubRel(u16),
    PubComp(u16),
    PingReq,
    PingResp,
    Disconnect,
    AwaitAck(u16),
}

/// One item of the connection's event source: protocol traffic in either
/// direction.
#[derive(Clone, Debug, PartialEq, Eq)]
pub enum Event {
    Incoming(Packet),
    Outgoing(Outgoing),
}

/// Why a session ended: a consumer-requested disconnect and a connection
/// failure are kept distinguishable.
#[derive(Clone, Copy, Debug, PartialEq, Eq, Structural)]
pub enum DisconnectReason {
    Requested,
    ConnectionLost,
}

/// Failure of a command issued against the protocol connection, mirroring
/// the two ways the underlying client can refuse a request.
#[derive(Clone, Copy, Debug, PartialEq, Eq, Structural)]
pub enum ClientError {
    Request,
    TryRequest,
}

/// A consumer-issued intent applied against one session's connection.
#[derive(Clone, Debug, PartialEq, Eq)]
pub enum ToClient {
    Connect,
    Disconnect,
    Publish(PublishRef, Publish),
    Subscribe(Topic, QoS),
    Unsubscribe(Topic),
}

/// A session-originated notification: protocol traffic, a publish result,
/// or the terminal lifecycle notification.
#[derive(Clone, Debug, PartialEq, Eq)]
pub enum FromClient {
    Disconnected(DisconnectReason),
    Event(Event),
    PublishReslt(PublishRef, Result<(), ClientError>),
}

/// A request on the orchestrator's control channel.
#[derive(Clone, Debug, PartialEq, Eq)]
pub enum ToBackend {
    Startup,
    Shutdown,
    NewClient(MqttOpts),
}

/// An envelope on the consumer's single inbound channel: either the
/// session-ready notification or a session-originated message.
#[derive(Clone, Debug, PartialEq, Eq)]
pub enum ToFrontend {
    ClientCreated(ClientId),
    ClientMsg(ClientId, FromClient),
}

impl ToFrontend {
    /// The session an envelope is tagged with.
    pub open spec fn tag(&self) -> Seq<char> {
        match self {
            ToFrontend::ClientCreated(id) => id@,
            ToFrontend::ClientMsg(id, _) => id@,
        }
    }
}

} // verus!
