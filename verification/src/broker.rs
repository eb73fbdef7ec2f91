//! The boundary to the protocol client library: declarations of its
//! opaque types and thin wrappers around the non-blocking calls a session
//! driver issues. Everything observable about these calls is decided by
//! the connection's state at runtime, so the wrappers promise nothing
//! beyond returning; the verified layer states what holds of every
//! outcome.

use vstd::prelude::*;

use crate::message::{ClientError, QoS};

verus! {

#[verifier::external_type_specification]
#[verifier::external_body]
pub struct ExMqttOptions(rumqttc::MqttOptions);

#[verifier::external_type_specification]
#[verifier::external_body]
pub struct ExAsyncClient(rumqttc::AsyncClient);

/// Relies on rumqttc::MqttOptions::new, which builds the option object
/// for a client id, broker address and port. It panics on an empty or
/// space-led id; the precondition rules those out.
#[verifier::external_body]
pub fn opts_new(id: String, host: String, port: u16) -> rumqttc::MqttOptions
    requires
        id@.len() > 0,
        id@[0] != ' ',
{
    rumqttc::MqttOptions::new(id, host, port)
}

/// Relies on rumqttc::MqttOptions::set_max_packet_size, which records the
/// incoming and outgoing packet size limits.
#[verifier::external_body]
pub fn opts_set_max_packet_size(opts: &mut rumqttc::MqttOptions, incoming: usize, outgoing: usize) {
    opts.set_max_packet_size(incoming, outgoing);
}

/// Relies on rumqttc::MqttOptions::set_credentials, which records a
/// username and password.
#[verifier::external_body]
pub fn opts_set_credentials(opts: &mut rumqttc::MqttOptions, username: String, password: String) {
    opts.set_credentials(username, password);
}

/// Relies on rumqttc::MqttOptions::set_keep_alive, which records the keep
/// alive interval. It asserts an interval of at least five seconds; the
/// precondition rules shorter ones out.
#[verifier::external_body]
pub fn opts_set_keep_alive(opts: &mut rumqttc::MqttOptions, secs: u64)
    requires
        secs >= 5,
{
    opts.set_keep_alive(std::time::Duration::from_secs(secs));
}

/// Relies on rumqttc::MqttOptions::set_clean_session, which records the
/// session-persistence flag.
#[verifier::external_body]
pub fn opts_set_clean_session(opts: &mut rumqttc::MqttOptions, clean_session: bool) {
    opts.set_clean_session(clean_session);
}

/// Relies on rumqttc::AsyncClient::try_publish, a non-blocking enqueue of
/// a publish against the connection; the delivery quality and the two
/// failure variants are converted one for one.
#[verifier::external_body]
pub fn client_try_publish(
    client: &rumqttc::AsyncClient,
    topic: String,
    qos: QoS,
    retain: bool,
    payload: Vec<u8>,
) -> Result<(), ClientError> {
    let q = match qos {
        QoS::AtMostOnce => rumqttc::QoS::AtMostOnce,
        QoS::AtLeastOnce => rumqttc::QoS::AtLeastOnce,
        QoS::ExactlyOnce => rumqttc::QoS::ExactlyOnce,
    };
    match client.try_publish(topic, q, retain, payload) {
        Ok(()) => Ok(()),
        Err(rumqttc::ClientError::Request(_)) => Err(ClientError::Request),
        Err(rumqttc::ClientError::TryRequest(_)) => Err(ClientError::TryRequest),
    }
}

/// Relies on rumqttc::AsyncClient::try_subscribe, a non-blocking enqueue
/// of a subscription; the delivery quality and the two failure variants
/// are converted one for one.
#[verifier::external_body]
pub fn client_try_subscribe(
    client: &rumqttc::AsyncClient,
    topic: String,
    qos: QoS,
) -> Result<(), ClientError> {
    let q = match qos {
        QoS::AtMostOnce => rumqttc::QoS::AtMostOnce,
        QoS::AtLeastOnce => rumqttc::QoS::AtLeastOnce,
        QoS::ExactlyOnce => rumqttc::QoS::ExactlyOnce,
    };
    match client.try_subscribe(topic, q) {
        Ok(()) => Ok(()),
        Err(rumqttc::ClientError::Request(_)) => Err(ClientError::Request),
        Err(rumqttc::ClientError::TryRequest(_)) => Err(ClientError::TryRequest),
    }
}

/// Relies on rumqttc::AsyncClient::try_unsubscribe, a non-blocking
/// enqueue of an unsubscription; failure variants carried over one for
/// one.
#[verifier::external_body]
pub fn client_try_unsubscribe(client: &rumqttc::AsyncClient, topic: String) -> Result<
    (),
    ClientError,
> {
    match client.try_unsubscribe(topic) {
        Ok(()) => Ok(()),
        Err(rumqttc::ClientError::Request(_)) => Err(ClientError::Request),
        Err(rumqttc::ClientError::TryRequest(_)) => Err(ClientError::TryRequest),
    }
}

/// Relies on rumqttc::AsyncClient::try_disconnect, a non-blocking enqueue
/// of a disconnect request; failure variants carried over one for one.
#[verifier::external_body]
pub fn client_try_disconnect(client: &rumqttc::AsyncClient) -> Result<(), ClientError> {
    match client.try_disconnect() {
        Ok(()) => Ok(()),
        Err(rumqttc::ClientError::Request(_)) => Err(ClientError::Request),
        Err(rumqttc::ClientError::TryRequest(_)) => Err(ClientError::TryRequest),
    }
}

} // verus!
