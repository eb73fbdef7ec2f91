use mqtt_v::driver::{apply_command, CommandOutcome};
use mqtt_v::message::{ClientError, FromClient, Publish, QoS, ToClient};
use mqtt_v::options::OptionsV3;

fn broker_options(id: &str) -> rumqttc::MqttOptions {
    let mut v3 = OptionsV3::default();
    v3.client_id = id.to_owned();
    v3.broker_addr = "localhost".to_owned();
    v3.port = 1883;
    v3.convert()
}

fn publish(topic: &str, payload: &[u8]) -> Publish {
    Publish {
        topic: topic.to_owned(),
        qos: QoS::AtLeastOnce,
        retain: false,
        payload: payload.to_vec(),
    }
}

#[test]
fn publish_is_reported_with_its_token() {
    // the client enqueues requests without a network; nothing is polled
    let (client, _eventloop) = rumqttc::AsyncClient::new(broker_options("dev-1"), 10);
    let outcome = apply_command(
        &client,
        ToClient::Publish("t1".to_owned(), publish("sensors/1", b"42")),
    );
    assert_eq!(
        outcome,
        CommandOutcome::Reported(FromClient::PublishReslt("t1".to_owned(), Ok(())))
    );
}

#[test]
fn publish_to_a_wildcard_topic_is_rejected_not_dropped() {
    let (client, _eventloop) = rumqttc::AsyncClient::new(broker_options("dev-2"), 10);
    let outcome = apply_command(
        &client,
        ToClient::Publish("t2".to_owned(), publish("sensors/#", b"42")),
    );
    assert_eq!(
        outcome,
        CommandOutcome::Reported(FromClient::PublishReslt(
            "t2".to_owned(),
            Err(ClientError::TryRequest)
        ))
    );
}

#[test]
fn a_full_request_queue_turns_publishes_into_failures() {
    let (client, _eventloop) = rumqttc::AsyncClient::new(broker_options("dev-3"), 1);
    let first = apply_command(
        &client,
        ToClient::Publish("t1".to_owned(), publish("a", b"1")),
    );
    assert_eq!(
        first,
        CommandOutcome::Reported(FromClient::PublishReslt("t1".to_owned(), Ok(())))
    );
    let second = apply_command(
        &client,
        ToClient::Publish("t2".to_owned(), publish("a", b"2")),
    );
    assert_eq!(
        second,
        CommandOutcome::Reported(FromClient::PublishReslt(
            "t2".to_owned(),
            Err(ClientError::TryRequest)
        ))
    );
}

#[test]
fn subscribe_and_unsubscribe_keep_the_loop_draining() {
    let (client, _eventloop) = rumqttc::AsyncClient::new(broker_options("dev-4"), 10);
    assert_eq!(
        apply_command(
            &client,
            ToClient::Subscribe("sensors/#".to_owned(), QoS::AtLeastOnce)
        ),
        CommandOutcome::Continue
    );
    assert_eq!(
        apply_command(&client, ToClient::Unsubscribe("sensors/#".to_owned())),
        CommandOutcome::Continue
    );
    assert_eq!(apply_command(&client, ToClient::Connect), CommandOutcome::Continue);
}

#[test]
fn disconnect_ends_the_loop_when_accepted() {
    let (client, _eventloop) = rumqttc::AsyncClient::new(broker_options("dev-5"), 10);
    assert_eq!(apply_command(&client, ToClient::Disconnect), CommandOutcome::Done);
}
