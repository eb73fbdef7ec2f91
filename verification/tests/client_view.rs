use mqtt_v::client::{create_client, Client};
use mqtt_v::message::{
    DisconnectReason, Event, FromClient, Packet, Publish, QoS, ToBackend, ToClient,
};
use mqtt_v::options::MqttOpts;
use mqtt_v::relay::Relay;
use mqtt_v::subscription::{Color, Subcribe};

fn sub(filter: &str) -> Subcribe {
    Subcribe {
        topic: filter.to_owned(),
        qos: QoS::AtLeastOnce,
        color: Color { r: 255, g: 0, b: 0, a: 255 },
    }
}

fn fresh() -> Client {
    let (client, request) = create_client(MqttOpts::default());
    assert_eq!(request, ToBackend::NewClient(MqttOpts::default()));
    client
}

#[test]
fn a_fresh_client_is_disconnected_and_empty() {
    let c = fresh();
    assert!(!c.connected);
    assert!(c.packets.is_empty());
    assert!(c.publish_tx.is_none());
    assert!(c.subscriptions.is_empty());
    assert_eq!(c.recv, 0);
}

#[test]
fn connack_connects_and_reissues_subscriptions() {
    let mut c = fresh();
    c.subscribe(sub("sensors/#"));
    c.subscribe(sub("lights/+"));
    // without a handle nothing was staged, the subscriptions are kept
    assert_eq!(c.subscriptions.len(), 2);

    c.publish_tx = Some(Relay::new(8));
    c.handle_msg(FromClient::Event(Event::Incoming(Packet::ConnAck)));
    assert!(c.connected);

    let tx = c.publish_tx.as_mut().unwrap();
    assert_eq!(
        tx.try_recv(),
        Some(ToClient::Subscribe("sensors/#".to_owned(), QoS::AtLeastOnce))
    );
    assert_eq!(
        tx.try_recv(),
        Some(ToClient::Subscribe("lights/+".to_owned(), QoS::AtLeastOnce))
    );
    assert_eq!(tx.try_recv(), None);
}

#[test]
fn incoming_publishes_are_counted_and_logged() {
    let mut c = fresh();
    let p = Publish {
        topic: "sensors/1".to_owned(),
        qos: QoS::AtMostOnce,
        retain: false,
        payload: b"42".to_vec(),
    };
    c.handle_msg(FromClient::Event(Event::Incoming(Packet::Publish(p.clone()))));
    c.handle_msg(FromClient::Event(Event::Incoming(Packet::PingResp)));
    c.handle_msg(FromClient::Event(Event::Incoming(Packet::Publish(p.clone()))));
    assert_eq!(c.recv, 2);
    assert_eq!(c.packets.len(), 3);
    assert_eq!(c.packets[0], Event::Incoming(Packet::Publish(p)));
}

#[test]
fn publish_results_change_no_view_state() {
    let mut c = fresh();
    c.handle_msg(FromClient::PublishReslt("t1".to_owned(), Ok(())));
    assert!(!c.connected);
    assert!(c.packets.is_empty());
    assert_eq!(c.recv, 0);
}

#[test]
fn disconnect_clears_the_connection_flag() {
    let mut c = fresh();
    c.handle_msg(FromClient::Event(Event::Incoming(Packet::ConnAck)));
    assert!(c.connected);
    c.handle_msg(FromClient::Event(Event::Incoming(Packet::Disconnect)));
    assert!(!c.connected);

    c.handle_msg(FromClient::Event(Event::Incoming(Packet::ConnAck)));
    assert!(c.connected);
    c.handle_msg(FromClient::Disconnected(DisconnectReason::ConnectionLost));
    assert!(!c.connected);
}

#[test]
fn subscribe_stages_the_command_through_the_handle() {
    let mut c = fresh();
    c.publish_tx = Some(Relay::new(4));
    c.subscribe(sub("a/b"));
    assert_eq!(c.subscriptions.len(), 1);
    let tx = c.publish_tx.as_mut().unwrap();
    assert_eq!(
        tx.try_recv(),
        Some(ToClient::Subscribe("a/b".to_owned(), QoS::AtLeastOnce))
    );
}

#[test]
fn unsubscribe_drops_matching_subscriptions_when_accepted() {
    let mut c = fresh();
    c.publish_tx = Some(Relay::new(4));
    c.subscribe(sub("a/b"));
    c.subscribe(sub("a/c"));
    c.subscribe(sub("a/b"));
    c.unsubscribe("a/b".to_owned());
    assert_eq!(c.subscriptions.len(), 1);
    assert_eq!(c.subscriptions[0].topic, "a/c");
    let tx = c.publish_tx.as_mut().unwrap();
    assert_eq!(
        tx.try_recv(),
        Some(ToClient::Subscribe("a/b".to_owned(), QoS::AtLeastOnce))
    );
    assert_eq!(
        tx.try_recv(),
        Some(ToClient::Subscribe("a/c".to_owned(), QoS::AtLeastOnce))
    );
    assert_eq!(
        tx.try_recv(),
        Some(ToClient::Subscribe("a/b".to_owned(), QoS::AtLeastOnce))
    );
    assert_eq!(tx.try_recv(), Some(ToClient::Unsubscribe("a/b".to_owned())));
}

#[test]
fn unsubscribe_on_a_full_relay_keeps_the_subscriptions() {
    let mut c = fresh();
    c.publish_tx = Some(Relay::new(1));
    c.subscribe(sub("a/b"));
    // the relay is now full: the unsubscribe command is dropped and the
    // subscription list is left as it was
    c.unsubscribe("a/b".to_owned());
    assert_eq!(c.subscriptions.len(), 1);
}
