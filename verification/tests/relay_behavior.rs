use mqtt_v::relay::Relay;

#[test]
fn fifo_order_is_kept() {
    let mut r: Relay<u32> = Relay::new(4);
    assert!(r.try_send(1).is_ok());
    assert!(r.try_send(2).is_ok());
    assert!(r.try_send(3).is_ok());
    assert_eq!(r.try_recv(), Some(1));
    assert_eq!(r.try_recv(), Some(2));
    assert!(r.try_send(4).is_ok());
    assert_eq!(r.try_recv(), Some(3));
    assert_eq!(r.try_recv(), Some(4));
    assert_eq!(r.try_recv(), None);
}

#[test]
fn full_relay_drops_and_returns_the_message() {
    let mut r: Relay<u32> = Relay::new(2);
    assert!(r.try_send(1).is_ok());
    assert!(r.try_send(2).is_ok());
    assert_eq!(r.len(), 2);
    assert!(r.is_full());
    // the producer is never blocked: the send returns at once, handing
    // the message back, and the buffered messages are untouched
    assert_eq!(r.try_send(3), Err(3));
    assert_eq!(r.len(), 2);
    assert_eq!(r.try_recv(), Some(1));
    assert!(r.try_send(4).is_ok());
    assert_eq!(r.try_recv(), Some(2));
    assert_eq!(r.try_recv(), Some(4));
}

#[test]
fn empty_relay_reports_empty() {
    let mut r: Relay<u8> = Relay::new(1);
    assert!(r.is_empty());
    assert!(!r.is_full());
    assert_eq!(r.try_recv(), None);
    assert!(r.try_send(9).is_ok());
    assert!(!r.is_empty());
    assert!(r.is_full());
}
