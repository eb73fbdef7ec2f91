use std::time::Duration;

use mqtt_v::options::{MqttOpts, OptionsV3, OptionsV5};
use mqtt_v::tabs::{ChatTab, ChatView, Filter, PacketUI, PubulishTab, State, StatTab, TreeView};
use mqtt_v::message::{Event, Packet, QoS};

#[test]
fn stock_configuration_targets_the_public_test_broker() {
    let opts = MqttOpts::default();
    assert_eq!(opts.client_id(), "mosquitto");
    match opts {
        MqttOpts::V3(v3) => {
            assert_eq!(v3.broker_addr, "test.mosquitto.org");
            assert_eq!(v3.port, 1883);
            assert!(v3.keep_alive);
            assert_eq!(v3.heatbbeat, 20);
            assert!(!v3.clean_session);
            assert_eq!(v3.max_packet_size_in, u16::MAX);
            assert_eq!(v3.max_packet_size_out, u16::MAX);
            assert!(!v3.credentials);
            assert_eq!(v3.username, "");
            assert_eq!(v3.password, "");
        }
        MqttOpts::V5(_) => panic!("the stock configuration is the supported revision"),
    }
}

#[test]
fn client_id_is_read_from_either_revision() {
    let mut v3 = OptionsV3::default();
    v3.client_id = "dev-1".to_owned();
    assert_eq!(MqttOpts::V3(v3).client_id(), "dev-1");
    let v5 = OptionsV5 { client_id: "dev-5".to_owned() };
    assert_eq!(MqttOpts::V5(v5).client_id(), "dev-5");
}

#[test]
fn duplicate_is_a_faithful_copy() {
    let opts = MqttOpts::default();
    assert_eq!(opts.duplicate(), opts);
    let v5 = MqttOpts::V5(OptionsV5 { client_id: "dev-5".to_owned() });
    assert_eq!(v5.duplicate(), v5);
}

#[test]
fn convert_builds_the_broker_options() {
    let mut v3 = OptionsV3::default();
    v3.client_id = "dev-1".to_owned();
    v3.broker_addr = "broker.local".to_owned();
    v3.port = 1884;
    v3.keep_alive = true;
    v3.heatbbeat = 7;
    v3.clean_session = true;
    v3.max_packet_size_in = 2048;
    v3.max_packet_size_out = 1024;
    v3.credentials = true;
    v3.username = "user".to_owned();
    v3.password = "pw".to_owned();
    let built = v3.convert();
    assert_eq!(built.client_id(), "dev-1");
    assert_eq!(built.broker_address(), ("broker.local".to_owned(), 1884));
    assert_eq!(built.keep_alive(), Duration::from_secs(7));
    assert!(built.clean_session());
    assert_eq!(built.max_packet_size(), 2048);
    assert_eq!(
        built.credentials(),
        Some(("user".to_owned(), "pw".to_owned()))
    );
}

#[test]
fn convert_without_credentials_or_keep_alive_leaves_the_defaults() {
    let mut v3 = OptionsV3::default();
    v3.client_id = "dev-2".to_owned();
    v3.broker_addr = "broker.local".to_owned();
    v3.port = 1883;
    let built = v3.convert();
    assert_eq!(built.client_id(), "dev-2");
    assert_eq!(built.credentials(), None);
    // the broker library's own defaults stand where nothing was set
    assert_eq!(built.keep_alive(), Duration::from_secs(60));
    assert!(built.clean_session());
}

#[test]
fn tab_state_starts_as_the_panels_expect() {
    let chat = ChatView::new("Event".to_owned());
    assert_eq!(chat.title(), "Event");
    assert_eq!(chat.filter, "");

    let tree = TreeView::new("Tree".to_owned());
    assert_eq!(tree.title(), "Tree");

    let publish = PubulishTab::new();
    assert_eq!(publish.topic, "");
    assert_eq!(publish.qos, QoS::AtLeastOnce);
    assert!(!publish.retain);
    assert_eq!(publish.payload, "");

    let _stats = StatTab::new();

    let tab = ChatTab::new();
    assert_eq!(tab.subcribe.topic, "#");
    assert_eq!(tab.subcribe.qos, QoS::AtMostOnce);
    assert_eq!((tab.subcribe.color.r, tab.subcribe.color.g), (0, 255));

    let filter = Filter::default();
    assert!(filter.filter(&Event::Incoming(Packet::PingReq)));

    let packet = PacketUI::new(Event::Incoming(Packet::PingResp));
    assert_eq!(packet.event, Event::Incoming(Packet::PingResp));

    let mut state = State::default();
    assert!(!state.open);
    state.toggle();
    assert!(state.open);
    state.toggle();
    assert!(!state.open);
}
