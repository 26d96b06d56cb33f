use async_channel::TryRecvError;
use mosquitto_rs::command::{check_connect, check_pattern, check_publish};
use mosquitto_rs::{
    finish_connect, finish_operation, ConnectSlot, ConnectionStatus, Error, Fanout, Message,
    Outcome, PendingTable, QoS,
};

#[test]
fn connect_status_reaches_the_armed_waiter() {
    let mut slot = ConnectSlot::new();
    assert!(!slot.is_armed());
    let rx = slot.arm();
    assert!(slot.is_armed());
    assert_eq!(slot.on_connect(ConnectionStatus(0)), Outcome::Delivered);
    assert!(!slot.is_armed());
    let got = rx.try_recv().ok();
    assert_eq!(got, Some(ConnectionStatus(0)));
    assert_eq!(finish_connect(got), Ok(ConnectionStatus(0)));
}

#[test]
fn connect_without_waiter_is_unmatched() {
    let mut slot = ConnectSlot::new();
    assert_eq!(slot.on_connect(ConnectionStatus(0)), Outcome::Unmatched);
}

#[test]
fn connect_with_gone_waiter_disconnects() {
    let mut slot = ConnectSlot::new();
    drop(slot.arm());
    let outcome = slot.on_connect(ConnectionStatus(0));
    assert_eq!(outcome, Outcome::Disconnect);
    assert!(outcome.needs_disconnect());
}

#[test]
fn rejected_connect_is_distinguishable() {
    let not_authorized = ConnectionStatus(5);
    let r = finish_connect(Some(not_authorized));
    assert_eq!(r, Err(Error::RejectedConnection(not_authorized)));
    assert!(matches!(r, Err(Error::RejectedConnection(ConnectionStatus(5)))));
    assert_ne!(r, Err(Error::Mosq(mosquitto_rs::MosqErr::ConnRefused)));
    assert_eq!(finish_connect(None), Err(Error::CompletionLost));
}

#[test]
fn subscriber_is_taken_once() {
    let mut fanout = Fanout::new();
    assert!(!fanout.is_taken());
    assert!(fanout.subscriber().is_some());
    assert!(fanout.is_taken());
    assert!(fanout.subscriber().is_none());
    assert!(fanout.subscriber().is_none());
}

#[test]
fn inbound_message_reaches_the_subscriber() {
    let mut fanout = Fanout::new();
    let rx = fanout.subscriber().unwrap();
    let msg = Message::new(0, "test/this".to_string(), b"woot", QoS::AtMostOnce, false);
    assert_eq!(fanout.on_message(msg), Outcome::Delivered);
    let got = rx.try_recv().unwrap();
    assert_eq!(got.topic, "test/this");
    assert_eq!(got.payload, b"woot".to_vec());
    assert_eq!(got.qos, QoS::AtMostOnce);
    assert!(!got.retain);
    assert_eq!(rx.try_recv(), Err(TryRecvError::Empty));
}

#[test]
fn inbound_messages_keep_their_order() {
    let mut fanout = Fanout::new();
    let rx = fanout.subscriber().unwrap();
    for i in 0..5 {
        let m = Message::new(i, format!("t/{i}"), &[i as u8], QoS::AtLeastOnce, true);
        assert_eq!(fanout.on_message(m), Outcome::Delivered);
    }
    for i in 0..5 {
        let m = rx.try_recv().unwrap();
        assert_eq!(m.mid, i);
        assert_eq!(m.topic, format!("t/{i}"));
        assert_eq!(m.payload, vec![i as u8]);
        assert!(m.retain);
    }
}

#[test]
fn inbound_message_without_consumer_disconnects() {
    let mut fanout = Fanout::new();
    drop(fanout.subscriber());
    let msg = Message::new(1, "a".to_string(), b"", QoS::ExactlyOnce, true);
    assert_eq!(fanout.on_message(msg), Outcome::Disconnect);
}

#[test]
fn default_message_is_empty() {
    let m = Message::default();
    assert_eq!(m.topic, "");
    assert!(m.payload.is_empty());
    assert_eq!(m.qos, QoS::AtMostOnce);
    assert!(!m.retain);
    assert_eq!(m.mid, 0);
}

#[test]
fn pubsub_flow() {
    let mut slot = ConnectSlot::new();
    let mut table = PendingTable::new();
    let mut fanout = Fanout::new();

    // connect
    assert_eq!(check_connect("localhost", 5, None), Ok(5));
    let connected = slot.arm();
    assert_eq!(slot.on_connect(ConnectionStatus(0)), Outcome::Delivered);
    assert_eq!(finish_connect(connected.try_recv().ok()), Ok(ConnectionStatus(0)));

    let subscriptions = fanout.subscriber().unwrap();

    // subscribe to test/#
    assert_eq!(check_pattern("test/#"), Ok(()));
    let subscribed = table.register(1);
    assert_eq!(table.acknowledge(1), Outcome::Delivered);
    assert_eq!(finish_operation(subscribed.try_recv().ok()), Ok(1));

    // publish "woot" to test/this at most once
    assert_eq!(check_publish("test/this", 4), Ok(4));
    let published = table.register(2);
    let inbound = Message::new(0, "test/this".to_string(), b"woot", QoS::AtMostOnce, false);
    assert_eq!(fanout.on_message(inbound), Outcome::Delivered);
    assert_eq!(table.acknowledge(2), Outcome::Delivered);
    assert_eq!(finish_operation(published.try_recv().ok()), Ok(2));

    // exactly one message comes out of the stream
    let msg = subscriptions.try_recv().unwrap();
    assert_eq!(msg.topic, "test/this");
    assert_eq!(msg.payload, b"woot".to_vec());
    assert_eq!(msg.qos, QoS::AtMostOnce);
    assert!(!msg.retain);
    assert_eq!(subscriptions.try_recv(), Err(TryRecvError::Empty));
}
