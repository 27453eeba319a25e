use fjarsyn::signaling::{SignalingMessage, SignalingType};
use fjarsyn::signaling_connection::Incoming;
use fjarsyn::signaling_server::{Delivery, RelayStep, SignalingServer};

fn message(to: &str, from: &str, sig_type: SignalingType, data: &str) -> SignalingMessage {
    SignalingMessage { to: to.to_owned(), from: from.to_owned(), sig_type, data: data.to_owned() }
}

fn relay_of(ids: &[&str]) -> SignalingServer<u32> {
    let mut relay = SignalingServer::new();
    for (n, id) in ids.iter().enumerate() {
        relay.register((*id).to_owned(), n as u32);
    }
    relay
}

fn recipients(deliveries: &[Delivery]) -> Vec<String> {
    deliveries.iter().map(|d| d.recipient.clone()).collect()
}

#[test]
fn new_relay_has_no_peers() {
    let relay: SignalingServer<u32> = SignalingServer::new();
    assert_eq!(relay.peer_count(), 0);
    assert!(!relay.is_connected(&"A".to_owned()));
    assert!(relay.handle_of(&"A".to_owned()).is_none());
}

#[test]
fn register_announces_the_identity() {
    let mut relay: SignalingServer<u32> = SignalingServer::new();
    let hello = relay.register("peer-one".to_owned(), 7);
    assert_eq!(hello.to, "peer-one");
    assert_eq!(hello.from, "server");
    assert_eq!(hello.sig_type, SignalingType::Identity);
    assert_eq!(hello.data, "peer-one");
    assert_eq!(relay.peer_count(), 1);
    assert!(relay.is_connected(&"peer-one".to_owned()));
    assert_eq!(relay.handle_of(&"peer-one".to_owned()), Some(&7));
}

#[test]
fn registering_an_identity_again_replaces_its_handle() {
    let mut relay = relay_of(&["A", "B"]);
    relay.register("A".to_owned(), 99);
    assert_eq!(relay.peer_count(), 2);
    assert_eq!(relay.handle_of(&"A".to_owned()), Some(&99));
    assert_eq!(relay.handle_of(&"B".to_owned()), Some(&1));
    let out = relay.route(&"B".to_owned(), message("", "", SignalingType::Offer, "x"));
    assert_eq!(recipients(&out), vec!["A"]);
}

#[test]
fn connect_assigns_a_fresh_identity_of_36_characters() {
    let mut relay: SignalingServer<u32> = SignalingServer::new();
    let (first, hello) = relay.connect(1);
    let (second, _) = relay.connect(2);
    assert_eq!(first.chars().count(), 36);
    assert_eq!(second.chars().count(), 36);
    assert_ne!(first, second);
    assert_eq!(hello.to, first);
    assert_eq!(hello.data, first);
    assert_eq!(hello.from, "server");
    assert_eq!(hello.sig_type, SignalingType::Identity);
    assert_eq!(relay.peer_count(), 2);
    assert_eq!(relay.handle_of(&first), Some(&1));
    assert_eq!(relay.handle_of(&second), Some(&2));
}

#[test]
fn broadcast_reaches_every_other_peer_exactly_once() {
    let relay = relay_of(&["A", "B", "C"]);
    let out = relay.route(&"A".to_owned(), message("", "Mallory", SignalingType::Offer, "sdp"));
    assert_eq!(recipients(&out), vec!["B", "C"]);
    for delivery in &out {
        assert_eq!(delivery.message.from, "A");
        assert_eq!(delivery.message.to, "");
        assert_eq!(delivery.message.sig_type, SignalingType::Offer);
        assert_eq!(delivery.message.data, "sdp");
    }
}

#[test]
fn broadcast_from_the_middle_peer_skips_only_the_sender() {
    let relay = relay_of(&["A", "B", "C"]);
    let out = relay.route(&"B".to_owned(), message("", "", SignalingType::Candidate, "c"));
    assert_eq!(recipients(&out), vec!["A", "C"]);
}

#[test]
fn broadcast_with_a_single_peer_reaches_no_one() {
    let relay = relay_of(&["A"]);
    let out = relay.route(&"A".to_owned(), message("", "", SignalingType::Offer, "sdp"));
    assert!(out.is_empty());
}

#[test]
fn broadcast_from_an_unregistered_sender_reaches_everyone() {
    let relay = relay_of(&["A", "B"]);
    let out = relay.route(&"X".to_owned(), message("", "", SignalingType::Offer, "sdp"));
    assert_eq!(recipients(&out), vec!["A", "B"]);
    assert_eq!(out[0].message.from, "X");
}

#[test]
fn addressed_message_reaches_its_target_only() {
    let relay = relay_of(&["A", "B", "C"]);
    let out = relay.route(&"A".to_owned(), message("C", "B", SignalingType::Answer, "sdp"));
    assert_eq!(out.len(), 1);
    assert_eq!(out[0].recipient, "C");
    assert_eq!(out[0].message.to, "C");
    assert_eq!(out[0].message.from, "A");
    assert_eq!(out[0].message.sig_type, SignalingType::Answer);
    assert_eq!(out[0].message.data, "sdp");
}

#[test]
fn message_to_an_unknown_peer_is_dropped() {
    let relay = relay_of(&["A", "B", "C"]);
    let out = relay.route(&"A".to_owned(), message("Z", "A", SignalingType::Offer, "sdp"));
    assert!(out.is_empty());
}

#[test]
fn message_to_oneself_is_delivered() {
    let relay = relay_of(&["A", "B"]);
    let out = relay.route(&"A".to_owned(), message("A", "", SignalingType::Candidate, "c"));
    assert_eq!(recipients(&out), vec!["A"]);
    assert_eq!(out[0].message.from, "A");
}

#[test]
fn disconnect_removes_the_peer_and_returns_its_handle() {
    let mut relay = relay_of(&["A", "B", "C"]);
    assert_eq!(relay.disconnect(&"B".to_owned()), Some(1));
    assert_eq!(relay.peer_count(), 2);
    assert!(!relay.is_connected(&"B".to_owned()));
    assert_eq!(relay.handle_of(&"A".to_owned()), Some(&0));
    assert_eq!(relay.handle_of(&"C".to_owned()), Some(&2));
    let out = relay.route(&"A".to_owned(), message("", "", SignalingType::Offer, "sdp"));
    assert_eq!(recipients(&out), vec!["C"]);
    let out = relay.route(&"A".to_owned(), message("B", "", SignalingType::Offer, "sdp"));
    assert!(out.is_empty());
}

#[test]
fn disconnect_of_an_unknown_peer_changes_nothing() {
    let mut relay = relay_of(&["A", "B"]);
    assert_eq!(relay.disconnect(&"Z".to_owned()), None);
    assert_eq!(relay.peer_count(), 2);
    assert_eq!(relay.handle_of(&"A".to_owned()), Some(&0));
    assert_eq!(relay.handle_of(&"B".to_owned()), Some(&1));
}

#[test]
fn received_message_is_routed() {
    let relay = relay_of(&["A", "B", "C"]);
    let frame = Incoming::Message(message("", "Mallory", SignalingType::Offer, "sdp"));
    match relay.receive(&"A".to_owned(), frame) {
        RelayStep::Deliver(out) => {
            assert_eq!(recipients(&out), vec!["B", "C"]);
            assert_eq!(out[0].message.from, "A");
        }
        other => panic!("{:?}", other),
    }
    let frame = Incoming::Message(message("Z", "", SignalingType::Offer, "sdp"));
    assert!(matches!(relay.receive(&"A".to_owned(), frame), RelayStep::Deliver(out) if out.is_empty()));
}

#[test]
fn undecodable_and_non_text_frames_reach_no_one() {
    let relay = relay_of(&["A", "B"]);
    let sender = "A".to_owned();
    assert!(matches!(
        relay.receive(&sender, Incoming::Malformed("eof".to_owned())),
        RelayStep::Continue
    ));
    assert!(matches!(relay.receive(&sender, Incoming::Other), RelayStep::Continue));
}

#[test]
fn end_of_stream_and_transport_failure_end_the_connection() {
    let relay = relay_of(&["A", "B"]);
    let sender = "A".to_owned();
    assert!(matches!(relay.receive(&sender, Incoming::Closed), RelayStep::Stop));
    assert!(matches!(
        relay.receive(&sender, Incoming::Failed("reset".to_owned())),
        RelayStep::Stop
    ));
}
