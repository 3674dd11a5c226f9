use tcp_bridge::addr::Ipv4Address;
use tcp_bridge::relay::PublishDirective;
use tcp_bridge::relay::ReadDirective;
use tcp_bridge::relay::ReadOutcome;
use tcp_bridge::relay::Relay;
use tcp_bridge::relay::RelayState;

fn peer() -> Ipv4Address {
    Ipv4Address { o0: 10, o1: 0, o2: 0, o3: 1 }
}

#[test]
fn start_fixes_topic_and_state() {
    let r = Relay::start("sensors", &peer(), 1);
    assert_eq!(r.topic, "sensors/10.0.0.1");
    assert_eq!(r.qos, 1);
    assert_eq!(r.state, RelayState::ReadPending);
}

#[test]
fn one_send_then_close_publishes_exactly_once() {
    let mut r = Relay::start("sensors", &peer(), 2);
    let mut published: Vec<tcp_bridge::message::Message> = Vec::new();

    match r.on_read(ReadOutcome::Data(vec![0x01, 0x02, 0x03])) {
        ReadDirective::Publish(m) => published.push(m),
        d => panic!("expected a publish, got {:?}", d),
    }
    assert_eq!(r.state, RelayState::Publishing);
    assert_eq!(r.on_publish_result(true), PublishDirective::LogAndContinue);
    assert_eq!(r.state, RelayState::ReadPending);

    assert!(matches!(r.on_read(ReadOutcome::Closed), ReadDirective::Finish));
    assert_eq!(r.state, RelayState::Closed);

    assert_eq!(published.len(), 1);
    assert_eq!(published[0].topic, "sensors/10.0.0.1");
    assert_eq!(published[0].payload, vec![0x01, 0x02, 0x03]);
    assert_eq!(published[0].qos, 2);
    assert!(!published[0].retained);
    assert_eq!(tcp_bridge::hex::hex_dump(&published[0].payload), "010203");
}

#[test]
fn immediate_close_publishes_nothing() {
    let mut r = Relay::start("sensors", &peer(), 0);
    match r.on_read(ReadOutcome::Closed) {
        ReadDirective::Finish => {}
        d => panic!("expected a clean finish, got {:?}", d),
    }
    assert_eq!(r.state, RelayState::Closed);
}

#[test]
fn would_block_is_not_an_error_and_changes_nothing() {
    let mut r = Relay::start("sensors", &peer(), 0);
    assert!(matches!(r.on_read(ReadOutcome::WouldBlock), ReadDirective::Retry));
    assert_eq!(r.state, RelayState::ReadPending);
    assert!(matches!(r.on_read(ReadOutcome::WouldBlock), ReadDirective::Retry));
    assert_eq!(r.state, RelayState::ReadPending);

    // The connection then proceeds as if the wake-ups had never happened.
    match r.on_read(ReadOutcome::Data(vec![9])) {
        ReadDirective::Publish(m) => {
            assert_eq!(m.payload, vec![9]);
            assert_eq!(m.topic, "sensors/10.0.0.1");
        }
        d => panic!("expected a publish, got {:?}", d),
    }
}

#[test]
fn read_error_fails_the_relay() {
    let mut r = Relay::start("sensors", &peer(), 0);
    assert!(matches!(r.on_read(ReadOutcome::ReadError), ReadDirective::Fail));
    assert_eq!(r.state, RelayState::Failed);
}

#[test]
fn rejected_hand_off_fails_the_relay() {
    let mut r = Relay::start("sensors", &peer(), 0);
    assert!(matches!(
        r.on_read(ReadOutcome::Data(vec![1, 2])),
        ReadDirective::Publish(_)
    ));
    assert_eq!(r.on_publish_result(false), PublishDirective::Fail);
    assert_eq!(r.state, RelayState::Failed);
}

#[test]
fn several_reads_publish_in_order() {
    let mut r = Relay::start("sensors", &peer(), 0);
    let chunks: [&[u8]; 3] = [&[1], &[2, 3], &[4, 5, 6]];
    let mut published: Vec<Vec<u8>> = Vec::new();
    for chunk in chunks {
        match r.on_read(ReadOutcome::Data(chunk.to_vec())) {
            ReadDirective::Publish(m) => published.push(m.payload),
            d => panic!("expected a publish, got {:?}", d),
        }
        assert_eq!(r.on_publish_result(true), PublishDirective::LogAndContinue);
    }
    assert!(matches!(r.on_read(ReadOutcome::Closed), ReadDirective::Finish));
    assert_eq!(published, vec![vec![1], vec![2, 3], vec![4, 5, 6]]);
}

#[test]
fn identical_bytes_on_two_connections_publish_identically() {
    let payload = vec![0xDE, 0xAD, 0xBE, 0xEF];
    let mut first: Option<tcp_bridge::message::Message> = None;
    let mut second: Option<tcp_bridge::message::Message> = None;
    for out in [&mut first, &mut second] {
        let mut r = Relay::start("sensors", &peer(), 1);
        match r.on_read(ReadOutcome::Data(payload.clone())) {
            ReadDirective::Publish(m) => *out = Some(m),
            d => panic!("expected a publish, got {:?}", d),
        }
        assert_eq!(r.on_publish_result(true), PublishDirective::LogAndContinue);
        assert!(matches!(r.on_read(ReadOutcome::Closed), ReadDirective::Finish));
    }
    let first = first.unwrap();
    let second = second.unwrap();
    assert_eq!(first.topic, second.topic);
    assert_eq!(first.payload, second.payload);
    assert_eq!(first.qos, second.qos);
    assert_eq!(first.retained, second.retained);
}
