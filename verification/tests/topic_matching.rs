use mqtt_v::message::QoS;
use mqtt_v::subscription::{Color, Subcribe};

fn sub(filter: &str) -> Subcribe {
    Subcribe {
        topic: filter.to_owned(),
        qos: QoS::AtMostOnce,
        color: Color { r: 0, g: 255, b: 0, a: 255 },
    }
}

#[test]
fn hash_matches_everything() {
    assert!(sub("#").matches("sensors"));
    assert!(sub("#").matches("sensors/1/temp"));
    assert!(sub("#").matches(""));
}

#[test]
fn multi_level_wildcard_matches_parent_level() {
    assert!(sub("sensors/#").matches("sensors/1"));
    assert!(sub("sensors/#").matches("sensors/1/temp"));
    assert!(sub("sensors/#").matches("sensors"));
    assert!(!sub("sensors/#").matches("actuators/1"));
}

#[test]
fn plus_matches_exactly_one_level() {
    assert!(sub("a/+/c").matches("a/b/c"));
    assert!(!sub("a/+/c").matches("a/b/d"));
    assert!(!sub("a/+/c").matches("a/c"));
    assert!(!sub("a/+").matches("a/b/c"));
    assert!(sub("+").matches("a"));
    assert!(!sub("+").matches("a/b"));
}

#[test]
fn literal_levels_must_be_equal() {
    assert!(sub("a/b").matches("a/b"));
    assert!(!sub("a/b").matches("a"));
    assert!(!sub("a").matches("a/b"));
    assert!(!sub("a/b").matches("a/c"));
    assert!(sub("").matches(""));
    assert!(!sub("a/").matches("a"));
    assert!(sub("a/").matches("a/"));
}

#[test]
fn hash_in_topic_never_matches_literal_filter() {
    assert!(!sub("a/+").matches("a/#"));
    assert!(!sub("a/b").matches("#"));
    assert!(sub("#").matches("#"));
}

#[test]
fn unicode_topics_match_by_character() {
    assert!(sub("sensören/+").matches("sensören/eins"));
    assert!(!sub("sensören/+").matches("sensoren/eins"));
}
