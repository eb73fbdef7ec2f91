use mqtt_v::driver::{DriverAction, DriverInput, DriverState};
use mqtt_v::message::{
    DisconnectReason, Event, FromClient, Packet, Publish, QoS, ToBackend, ToClient, ToFrontend,
};
use mqtt_v::options::{MqttOpts, OptionsV3, OptionsV5};
use mqtt_v::orchestrator::{Backend, RequestError};

fn opts(id: &str) -> MqttOpts {
    let mut v3 = OptionsV3::default();
    v3.client_id = id.to_owned();
    MqttOpts::V3(v3)
}

fn publish(topic: &str, payload: &[u8]) -> Publish {
    Publish {
        topic: topic.to_owned(),
        qos: QoS::AtLeastOnce,
        retain: false,
        payload: payload.to_vec(),
    }
}

#[test]
fn session_lifecycle_scenario() {
    let mut b = Backend::new(4, 8, 16);

    // create session "dev-1": the ready notification is the first thing
    // the consumer can observe for it
    assert_eq!(b.request(&opts("dev-1")), Ok(()));
    assert_eq!(
        b.consume(),
        Some(ToFrontend::ClientCreated("dev-1".to_owned()))
    );

    // the consumer subscribes through the handle
    assert!(b.submit_command(
        &"dev-1".to_owned(),
        ToClient::Subscribe("sensors/#".to_owned(), QoS::AtLeastOnce)
    ));
    assert_eq!(
        b.command_step(0),
        Some(DriverAction::Subscribe("sensors/#".to_owned(), QoS::AtLeastOnce))
    );
    assert_eq!(b.command_step(0), None);

    // the connection acknowledgment arrives: it is forwarded verbatim and
    // provokes no protocol action by the driver itself
    b.driver_step(0, DriverInput::SourceEvent(Event::Incoming(Packet::ConnAck)));
    assert_eq!(b.command_step(0), None);
    b.fan_in_one(0);
    assert_eq!(
        b.consume(),
        Some(ToFrontend::ClientMsg(
            "dev-1".to_owned(),
            FromClient::Event(Event::Incoming(Packet::ConnAck))
        ))
    );

    // a publish with correlation token "t1" succeeds and its result comes
    // back tagged with that token
    assert!(b.submit_command(
        &"dev-1".to_owned(),
        ToClient::Publish("t1".to_owned(), publish("sensors/1", b"42"))
    ));
    assert_eq!(
        b.command_step(0),
        Some(DriverAction::Publish("t1".to_owned(), publish("sensors/1", b"42")))
    );
    b.driver_step(0, DriverInput::PublishOutcome("t1".to_owned(), Ok(())));
    b.fan_in_one(0);
    assert_eq!(
        b.consume(),
        Some(ToFrontend::ClientMsg(
            "dev-1".to_owned(),
            FromClient::PublishReslt("t1".to_owned(), Ok(()))
        ))
    );

    // graceful shutdown: exactly one terminal notification, then nothing
    b.shutdown(&"dev-1".to_owned());
    assert_eq!(b.command_step(0), Some(DriverAction::Disconnect));
    b.driver_step(0, DriverInput::DisconnectOk);
    b.driver_step(0, DriverInput::Completion);
    b.fan_in_one(0);
    assert_eq!(
        b.consume(),
        Some(ToFrontend::ClientMsg(
            "dev-1".to_owned(),
            FromClient::Disconnected(DisconnectReason::Requested)
        ))
    );
    // repeated completion signals and late events emit nothing further
    b.driver_step(0, DriverInput::Completion);
    b.driver_step(0, DriverInput::SourceEvent(Event::Incoming(Packet::PingResp)));
    b.fan_in_one(0);
    assert_eq!(b.consume(), None);

    // the terminated, drained session is reaped
    assert!(b.reap(0));
    assert_eq!(b.consume(), None);
}

#[test]
fn duplicate_identifiers_are_refused_while_live() {
    let mut b = Backend::new(2, 4, 8);
    assert_eq!(b.request(&opts("dev-1")), Ok(()));
    assert_eq!(
        b.request(&opts("dev-1")),
        Err(RequestError::DuplicateSession)
    );
    // terminate and reap, then the identifier is free again
    b.driver_step(0, DriverInput::SourceError);
    b.fan_in_one(0);
    assert!(b.reap(0));
    assert_eq!(b.request(&opts("dev-1")), Ok(()));
}

#[test]
fn reserved_options_revision_is_refused_not_fatal() {
    let mut b = Backend::new(2, 4, 8);
    let v5 = MqttOpts::V5(OptionsV5 { client_id: "dev-5".to_owned() });
    assert_eq!(b.request(&v5), Err(RequestError::Unimplemented));
    // the orchestrator survives and keeps serving
    assert_eq!(b.request(&opts("dev-1")), Ok(()));
}

#[test]
fn control_requests_are_dispatched() {
    let mut b = Backend::new(2, 4, 8);
    assert_eq!(b.handle_request(&ToBackend::Startup), Err(RequestError::Unimplemented));
    assert_eq!(b.handle_request(&ToBackend::Shutdown), Ok(()));
    assert_eq!(b.handle_request(&ToBackend::NewClient(opts("dev-1"))), Ok(()));
    assert_eq!(
        b.consume(),
        Some(ToFrontend::ClientCreated("dev-1".to_owned()))
    );
}

#[test]
fn sessions_are_isolated() {
    let mut b = Backend::new(2, 4, 8);
    assert_eq!(b.request(&opts("a")), Ok(()));
    assert_eq!(b.request(&opts("b")), Ok(()));
    assert_eq!(b.consume(), Some(ToFrontend::ClientCreated("a".to_owned())));
    assert_eq!(b.consume(), Some(ToFrontend::ClientCreated("b".to_owned())));

    // drive session "a" through its whole life; feed session "b" an event
    b.submit_command(&"a".to_owned(), ToClient::Disconnect);
    assert_eq!(b.command_step(0), Some(DriverAction::Disconnect));
    b.driver_step(0, DriverInput::DisconnectOk);
    b.driver_step(0, DriverInput::Completion);
    b.driver_step(1, DriverInput::SourceEvent(Event::Incoming(Packet::PingReq)));
    b.fan_in_one(0);
    b.fan_in_one(1);

    // everything observed is tagged with the session it came from
    let first = b.consume().unwrap();
    let second = b.consume().unwrap();
    assert_eq!(
        first,
        ToFrontend::ClientMsg(
            "a".to_owned(),
            FromClient::Disconnected(DisconnectReason::Requested)
        )
    );
    assert_eq!(
        second,
        ToFrontend::ClientMsg(
            "b".to_owned(),
            FromClient::Event(Event::Incoming(Packet::PingReq))
        )
    );
    // terminating "a" did not block "b": its relays still accept and drain
    assert!(b.submit_command(&"b".to_owned(), ToClient::Connect));
    assert_eq!(b.command_step(1), Some(DriverAction::DoNothing));
}

#[test]
fn full_event_relay_drops_but_never_blocks() {
    let mut b = Backend::new(1, 2, 8);
    assert_eq!(b.request(&opts("dev-1")), Ok(()));
    assert_eq!(b.consume(), Some(ToFrontend::ClientCreated("dev-1".to_owned())));

    // two events fill the relay; the rest are dropped while every call
    // keeps returning at once
    for _ in 0..5 {
        b.driver_step(0, DriverInput::SourceEvent(Event::Incoming(Packet::PingResp)));
    }
    b.fan_in_one(0);
    b.fan_in_one(0);
    b.fan_in_one(0);
    assert_eq!(
        b.consume(),
        Some(ToFrontend::ClientMsg(
            "dev-1".to_owned(),
            FromClient::Event(Event::Incoming(Packet::PingResp))
        ))
    );
    assert_eq!(
        b.consume(),
        Some(ToFrontend::ClientMsg(
            "dev-1".to_owned(),
            FromClient::Event(Event::Incoming(Packet::PingResp))
        ))
    );
    // only the two that fit were delivered
    assert_eq!(b.consume(), None);

    // the driver still makes progress after the overflow
    b.driver_step(0, DriverInput::SourceEvent(Event::Incoming(Packet::PingReq)));
    b.fan_in_one(0);
    assert_eq!(
        b.consume(),
        Some(ToFrontend::ClientMsg(
            "dev-1".to_owned(),
            FromClient::Event(Event::Incoming(Packet::PingReq))
        ))
    );
}
