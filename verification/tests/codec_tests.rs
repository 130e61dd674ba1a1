use pubsub_discovery::codec::decode;
use pubsub_discovery::codec::encode;
use pubsub_discovery::codec::Announcement;
use pubsub_discovery::codec::DecodeError;
use pubsub_discovery::Identity;
use pubsub_discovery::MultiAddress;

fn identity(bytes: &[u8]) -> Identity {
    Identity::new(bytes.to_vec()).expect("valid identity bytes")
}

fn address(bytes: &[u8]) -> MultiAddress {
    MultiAddress::new(bytes.to_vec()).expect("valid address bytes")
}

fn announcement(id: &[u8], addrs: &[&[u8]]) -> Announcement {
    let addresses: Vec<MultiAddress> = addrs.iter().map(|a| address(a)).collect();
    Announcement::new(identity(id), addresses).expect("valid announcement")
}

#[test]
fn encode_exact_bytes_identity_only() {
    let a = announcement(&[1, 2, 3], &[]);
    let payload = encode(&a);
    assert_eq!(payload, vec![0, 3, 1, 2, 3, 0]);
}

#[test]
fn encode_exact_bytes_with_addresses() {
    let a = announcement(&[9], &[&[4, 5], &[6]]);
    let payload = encode(&a);
    assert_eq!(payload, vec![0, 1, 9, 2, 0, 2, 4, 5, 0, 1, 6]);
}

#[test]
fn round_trip_identity_only() {
    let a = announcement(&[1, 2, 3], &[]);
    let payload = encode(&a);
    let b = decode(&payload).expect("round trip decodes");
    assert_eq!(b.originator().as_bytes(), &vec![1, 2, 3]);
    assert_eq!(b.addresses().len(), 0);
}

#[test]
fn round_trip_with_addresses() {
    let a = announcement(&[7, 8], &[&[10, 11, 12], &[13]]);
    let payload = encode(&a);
    let b = decode(&payload).expect("round trip decodes");
    assert_eq!(b.originator().as_bytes(), &vec![7, 8]);
    let addrs = b.addresses();
    assert_eq!(addrs.len(), 2);
    assert_eq!(addrs[0].as_bytes(), &vec![10, 11, 12]);
    assert_eq!(addrs[1].as_bytes(), &vec![13]);
}

#[test]
fn round_trip_largest_address_count() {
    let addr_bytes: Vec<Vec<u8>> = (0..255u32).map(|i| vec![(i % 256) as u8, 1]).collect();
    let addr_refs: Vec<&[u8]> = addr_bytes.iter().map(|v| v.as_slice()).collect();
    let a = announcement(&[42], &addr_refs);
    let payload = encode(&a);
    let b = decode(&payload).expect("round trip decodes");
    assert_eq!(b.addresses().len(), 255);
    assert_eq!(b.addresses()[254].as_bytes(), &vec![254, 1]);
}

#[test]
fn decode_rejects_empty_payload() {
    assert!(matches!(decode(&vec![]), Err(DecodeError::MalformedAnnouncement)));
}

#[test]
fn decode_rejects_truncated_header() {
    assert!(matches!(decode(&vec![0, 3]), Err(DecodeError::MalformedAnnouncement)));
}

#[test]
fn decode_rejects_empty_identity() {
    assert!(matches!(decode(&vec![0, 0, 0]), Err(DecodeError::MalformedAnnouncement)));
}

#[test]
fn decode_rejects_truncated_identity() {
    assert!(matches!(decode(&vec![0, 3, 1, 2]), Err(DecodeError::MalformedAnnouncement)));
}

#[test]
fn decode_rejects_missing_address() {
    // Count says one address but no bytes follow.
    assert!(matches!(decode(&vec![0, 1, 9, 1]), Err(DecodeError::MalformedAnnouncement)));
}

#[test]
fn decode_rejects_empty_address() {
    // Address length prefix of zero.
    assert!(matches!(decode(&vec![0, 1, 9, 1, 0, 0]), Err(DecodeError::MalformedAnnouncement)));
}

#[test]
fn decode_rejects_truncated_address() {
    assert!(matches!(decode(&vec![0, 1, 9, 1, 0, 2, 4]), Err(DecodeError::MalformedAnnouncement)));
}

#[test]
fn decode_rejects_trailing_bytes() {
    assert!(matches!(decode(&vec![0, 3, 1, 2, 3, 0, 99]), Err(DecodeError::MalformedAnnouncement)));
}

#[test]
fn identity_rejects_empty_and_oversized_bytes() {
    assert!(Identity::new(vec![]).is_none());
    assert!(Identity::new(vec![0; 65536]).is_none());
    assert!(Identity::new(vec![0; 65535]).is_some());
}

#[test]
fn address_rejects_empty_and_oversized_bytes() {
    assert!(MultiAddress::new(vec![]).is_none());
    assert!(MultiAddress::new(vec![0; 65536]).is_none());
    assert!(MultiAddress::new(vec![7]).is_some());
}

#[test]
fn announcement_rejects_too_many_addresses() {
    let addresses: Vec<MultiAddress> = (0..256u32).map(|_| address(&[1])).collect();
    assert!(Announcement::new(identity(&[1]), addresses).is_none());
}

#[test]
fn round_trip_real_transport_identity() {
    // An identity multihash (code 0x00) as the transport layer encodes peer
    // identifiers on the wire.
    let raw: Vec<u8> = vec![0x00, 0x04, 0xde, 0xad, 0xbe, 0xef];
    let peer = libp2p::PeerId::from_bytes(&raw).expect("valid multihash");
    let bytes = peer.to_bytes();
    let a = Announcement::new(
        Identity::new(bytes.clone()).expect("peer id bytes form a valid identity"),
        Vec::new(),
    )
    .expect("valid announcement");
    let payload = encode(&a);
    let b = decode(&payload).expect("round trip decodes");
    assert_eq!(b.originator().as_bytes(), &bytes);
    let back = libp2p::PeerId::from_bytes(b.originator().as_bytes()).expect("still a valid peer id");
    assert_eq!(back, peer);
}

#[test]
fn round_trip_largest_identity() {
    let id: Vec<u8> = vec![7; 65535];
    let a = announcement(&id, &[&[1]]);
    let payload = encode(&a);
    assert_eq!(payload.len(), 2 + 65535 + 1 + 2 + 1);
    assert_eq!(payload[0], 255);
    assert_eq!(payload[1], 255);
    let b = decode(&payload).expect("round trip decodes");
    assert_eq!(b.originator().as_bytes(), &id);
}
