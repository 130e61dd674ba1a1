use pubsub_discovery::broadcast;
use pubsub_discovery::codec::Announcement;
use pubsub_discovery::discovery::StartEffect;
use pubsub_discovery::handler::HandleAction;
use pubsub_discovery::handler::NetworkEvent;
use pubsub_discovery::Identity;
use pubsub_discovery::MultiAddress;
use pubsub_discovery::PubSubPeerDiscovery;

fn identity(bytes: &[u8]) -> Identity {
    Identity::new(bytes.to_vec()).unwrap()
}

fn announcement(id: &[u8], addrs: &[&[u8]]) -> Announcement {
    let addresses: Vec<MultiAddress> =
        addrs.iter().map(|a| MultiAddress::new(a.to_vec()).unwrap()).collect();
    Announcement::new(identity(id), addresses).unwrap()
}

fn started_discovery(id: &[u8]) -> PubSubPeerDiscovery {
    let mut d = PubSubPeerDiscovery::new(2, false, announcement(id, &[]), b"T".to_vec());
    assert_eq!(d.start(true), Ok(StartEffect::Broadcasting));
    d
}

fn message(source: &[u8], topic: &[u8], payload: Vec<u8>) -> NetworkEvent {
    NetworkEvent::Message { source: identity(source), topic: topic.to_vec(), payload }
}

#[test]
fn two_peers_discover_each_other() {
    // Peers A and B, both started on topic "T". A broadcasts; B's handler
    // decodes A's identity and issues exactly one dial request to A.
    let a = started_discovery(&[0xAA]);
    let b = started_discovery(&[0xBB]);

    let payload = broadcast(&a);
    let action = b.handle(&message(&[0xAA], b"T", payload.clone()), &vec![]);
    match action {
        HandleAction::Dial { announcement } => {
            assert_eq!(announcement.originator().as_bytes(), &vec![0xAA]);
        },
        _ => panic!("expected exactly one dial request to A"),
    }

    // B does not dial itself: its own announcement is suppressed.
    let own = broadcast(&b);
    assert!(matches!(
        b.handle(&message(&[0xBB], b"T", own), &vec![]),
        HandleAction::Ignore
    ));
}

#[test]
fn own_messages_never_trigger_a_dial() {
    let d = started_discovery(&[1, 2]);
    let payload = broadcast(&d);
    assert!(matches!(
        d.handle(&message(&[1, 2], b"T", payload), &vec![]),
        HandleAction::Ignore
    ));
}

#[test]
fn foreign_topics_never_trigger_a_dial() {
    let d = started_discovery(&[1]);
    let a = started_discovery(&[9]);
    let payload = broadcast(&a);
    assert!(matches!(
        d.handle(&message(&[9], b"other", payload), &vec![]),
        HandleAction::Ignore
    ));
}

#[test]
fn malformed_payload_reported_once_and_state_unchanged() {
    let d = started_discovery(&[1]);
    let action = d.handle(&message(&[9], b"T", vec![0, 0, 7]), &vec![]);
    assert!(matches!(action, HandleAction::ReportMalformed));
    assert!(d.is_started());
    assert!(!d.stop_requested());
}

#[test]
fn events_are_ignored_when_not_started() {
    let d = PubSubPeerDiscovery::new(2, false, announcement(&[1], &[]), b"T".to_vec());
    let a = started_discovery(&[9]);
    let payload = broadcast(&a);
    assert!(matches!(
        d.handle(&message(&[9], b"T", payload), &vec![]),
        HandleAction::Ignore
    ));
}

#[test]
fn non_message_events_are_ignored() {
    let d = started_discovery(&[1]);
    assert!(matches!(
        d.handle(&NetworkEvent::ConnectionEstablished { peer: identity(&[9]) }, &vec![]),
        HandleAction::Ignore
    ));
    assert!(matches!(
        d.handle(&NetworkEvent::ConnectionClosed { peer: identity(&[9]) }, &vec![]),
        HandleAction::Ignore
    ));
}

#[test]
fn existing_session_suppresses_the_dial() {
    let d = started_discovery(&[1]);
    let a = started_discovery(&[9]);
    let payload = broadcast(&a);
    let connected = vec![identity(&[9])];
    assert!(matches!(
        d.handle(&message(&[9], b"T", payload.clone()), &connected),
        HandleAction::Ignore
    ));
    // A different connected peer does not suppress it.
    let connected = vec![identity(&[8])];
    assert!(matches!(
        d.handle(&message(&[9], b"T", payload), &connected),
        HandleAction::Dial { .. }
    ));
}

#[test]
fn dial_carries_the_announced_addresses() {
    let d = started_discovery(&[1]);
    let remote = announcement(&[9], &[&[4, 5], &[6]]);
    let payload = pubsub_discovery::codec::encode(&remote);
    let action = d.handle(&message(&[9], b"T", payload), &vec![]);
    match action {
        HandleAction::Dial { announcement } => {
            assert_eq!(announcement.originator().as_bytes(), &vec![9]);
            let addrs = announcement.addresses();
            assert_eq!(addrs.len(), 2);
            assert_eq!(addrs[0].as_bytes(), &vec![4, 5]);
            assert_eq!(addrs[1].as_bytes(), &vec![6]);
        },
        _ => panic!("expected a dial request"),
    }
}
