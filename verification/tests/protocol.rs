use dia::client::{frame_proposal, same_message_id, ClientState, PendingSendOutcome};
use dia::error::DiaError;
use dia::network::{decode_consensus_message, MAX_DATAGRAM_SIZE};
use dia::sequencer::SequencerState;
use dia::types::{SequencerHeader, ENCODED_HEADER_LEN, MESSAGE_ID_LEN};

fn id(seed: u8) -> [u8; 16] {
    let mut out = [0u8; 16];
    for (i, b) in out.iter_mut().enumerate() {
        *b = seed.wrapping_add(i as u8);
    }
    out
}

fn expected_header(msg_id: [u8; 16], seq_num: u64, timestamp_ns: u64) -> Vec<u8> {
    let mut v = Vec::new();
    v.extend_from_slice(&16u64.to_le_bytes());
    v.extend_from_slice(&msg_id);
    v.extend_from_slice(&seq_num.to_le_bytes());
    v.extend_from_slice(&timestamp_ns.to_le_bytes());
    v
}

#[test]
fn encoded_len_is_forty() {
    assert_eq!(SequencerHeader::encoded_len().unwrap(), 40);
    assert_eq!(ENCODED_HEADER_LEN, 40);
    assert_eq!(MESSAGE_ID_LEN, 16);
    assert_eq!(MAX_DATAGRAM_SIZE, 65_535);
}

#[test]
fn header_bytes_are_bincode_layout() {
    let h = SequencerHeader { msg_id: id(7), seq_num: 0x0102_0304_0506_0708, timestamp_ns: 99 };
    let bytes = h.to_bytes().unwrap();
    assert_eq!(bytes, expected_header(id(7), 0x0102_0304_0506_0708, 99));
    assert_eq!(bytes.len(), SequencerHeader::encoded_len().unwrap());
}

#[test]
fn header_bytes_match_bincode_of_uuid_fields() {
    let bytes = SequencerHeader { msg_id: id(3), seq_num: 5, timestamp_ns: 6 }.to_bytes().unwrap();
    let direct = bincode::serialize(&(uuid::Uuid::from_bytes(id(3)), 5u64, 6u64)).unwrap();
    assert_eq!(bytes, direct);
}

#[test]
fn header_round_trip() {
    let bytes = expected_header(id(1), 42, 1234);
    let h = SequencerHeader::from_bytes(&bytes).unwrap();
    assert_eq!(h.msg_id, id(1));
    assert_eq!(h.seq_num, 42);
    assert_eq!(h.timestamp_ns, 1234);
}

#[test]
fn header_with_wrong_length_prefix_is_refused() {
    let mut bytes = expected_header(id(1), 42, 1234);
    bytes[0] = 15;
    assert!(matches!(SequencerHeader::from_bytes(&bytes), Err(DiaError::Serialization(_))));
}

#[test]
fn truncated_header_is_refused() {
    let bytes = expected_header(id(1), 42, 1234);
    assert!(matches!(SequencerHeader::from_bytes(&bytes[..39]), Err(DiaError::Serialization(_))));
}

#[test]
fn header_ignores_trailing_bytes() {
    let mut bytes = expected_header(id(2), 1, 2);
    bytes.extend_from_slice(b"tail");
    let h = SequencerHeader::from_bytes(&bytes).unwrap();
    assert_eq!((h.msg_id, h.seq_num, h.timestamp_ns), (id(2), 1, 2));
}

#[test]
fn sequencer_starts_at_zero() {
    let s = SequencerState::new().unwrap();
    assert_eq!(s.next_seq_num(), 0);
}

#[test]
fn stamp_refuses_short_proposal() {
    let mut s = SequencerState::new().unwrap();
    let r = s.stamp(&[1, 2, 3], 10);
    assert!(matches!(r, Err(DiaError::MalformedPacket { expected: 16, actual: 3 })));
    assert_eq!(s.next_seq_num(), 0);
}

#[test]
fn stamp_layout_and_numbering() {
    let mut s = SequencerState::new().unwrap();
    let proposal = frame_proposal(&id(9), b"hello");
    let out = s.stamp(&proposal, 77).unwrap();
    let mut expected = expected_header(id(9), 0, 77);
    expected.extend_from_slice(b"hello");
    assert_eq!(out, expected);
    assert_eq!(s.next_seq_num(), 1);
    let out2 = s.stamp(&proposal, 78).unwrap();
    assert_eq!(&out2[24..32], &1u64.to_le_bytes());
    assert_eq!(s.next_seq_num(), 2);
}

#[test]
fn stamp_accepts_empty_payload() {
    let mut s = SequencerState::new().unwrap();
    let out = s.stamp(&id(4), 5).unwrap();
    assert_eq!(out, expected_header(id(4), 0, 5));
}

#[test]
fn decode_refuses_short_packet() {
    let r = decode_consensus_message(&[0u8; 39]);
    assert!(matches!(r, Err(DiaError::MalformedPacket { expected: 40, actual: 39 })));
}

#[test]
fn decode_refuses_bad_header() {
    let mut bytes = expected_header(id(1), 0, 0);
    bytes[0] = 17;
    assert!(matches!(decode_consensus_message(&bytes), Err(DiaError::Serialization(_))));
}

#[test]
fn round_trip_through_sequencer() {
    let mut s = SequencerState::new().unwrap();
    let payload = bincode::serialize(&String::from("pooper")).unwrap();
    let proposal = frame_proposal(&id(11), &payload);
    let packet = s.stamp(&proposal, 123).unwrap();
    let msg = decode_consensus_message(&packet).unwrap();
    assert_eq!(msg.header.msg_id, id(11));
    assert_eq!(msg.header.seq_num, 0);
    assert_eq!(msg.header.timestamp_ns, 123);
    let text: String = bincode::deserialize(&msg.payload).unwrap();
    assert_eq!(text, "pooper");
}

#[test]
fn stream_is_numbered_in_order() {
    let mut s = SequencerState::new().unwrap();
    let mut seen = Vec::new();
    for n in 0..15u8 {
        let proposal = frame_proposal(&id(n), &[n, n]);
        let packet = s.stamp(&proposal, 1000 + n as u64).unwrap();
        let msg = decode_consensus_message(&packet).unwrap();
        seen.push((msg.header.seq_num, msg.header.msg_id, msg.payload));
    }
    for (i, (seq, msg_id, payload)) in seen.into_iter().enumerate() {
        assert_eq!(seq, i as u64);
        assert_eq!(msg_id, id(i as u8));
        assert_eq!(payload, vec![i as u8, i as u8]);
    }
}

#[test]
fn frame_proposal_puts_id_first() {
    let p = frame_proposal(&id(5), &[9, 8, 7]);
    assert_eq!(&p[..16], &id(5));
    assert_eq!(&p[16..], &[9, 8, 7]);
}

#[test]
fn same_message_id_compares_all_bytes() {
    assert!(same_message_id(&id(1), &id(1)));
    let mut other = id(1);
    other[15] ^= 1;
    assert!(!same_message_id(&id(1), &other));
}

#[test]
fn client_starts_idle() {
    assert_eq!(ClientState::new().pending(), None);
}

#[test]
fn failed_serialization_leaves_client_idle() {
    let mut c = ClientState::new();
    let err = DiaError::Serialization(Box::new(bincode::ErrorKind::Custom("boom".into())));
    let r = c.prepare_send(Err(err));
    assert!(matches!(r, Err(DiaError::Serialization(_))));
    assert_eq!(c.pending(), None);
    let proposal = c.prepare_send(Ok(vec![1, 2])).unwrap();
    let pending = c.pending().unwrap();
    assert_eq!(&proposal[..16], &pending);
    assert_eq!(&proposal[16..], &[1, 2]);
}

#[test]
fn fresh_ids_are_random_v4() {
    let mut c = ClientState::new();
    c.prepare_send(Ok(vec![])).unwrap();
    let pending = c.pending().unwrap();
    assert_eq!(pending[6] & 0xf0, 0x40);
    assert_eq!(pending[8] & 0xc0, 0x80);
    assert!(!uuid::Uuid::from_bytes(pending).is_nil());
    assert_eq!(uuid::Uuid::from_bytes(pending).get_version_num(), 4);
}

#[test]
fn delivery_completes_only_own_message() {
    let mut c = ClientState::new();
    c.prepare_send(Ok(vec![0])).unwrap();
    let mine = c.pending().unwrap();
    let mut other = mine;
    other[0] ^= 0xff;
    assert!(!c.deliver(&other));
    assert_eq!(c.pending(), Some(mine));
    assert!(c.deliver(&mine));
    assert_eq!(c.pending(), None);
    assert!(!c.deliver(&mine));
}

#[test]
fn abort_send_clears_pending() {
    let mut c = ClientState::new();
    c.prepare_send(Ok(vec![0])).unwrap();
    c.abort_send();
    assert_eq!(c.pending(), None);
}

#[test]
fn receiver_failure_releases_pending_send() {
    let mut c = ClientState::new();
    let reset = DiaError::Network(std::io::Error::from(std::io::ErrorKind::ConnectionReset));
    assert!(c.fail_pending(&reset).is_none());
    c.prepare_send(Ok(vec![3])).unwrap();
    let mine = c.pending().unwrap();
    assert_eq!(c.fail_pending(&reset), Some((mine, PendingSendOutcome::NetworkFailure)));
    assert_eq!(c.pending(), None);
}

#[test]
fn non_network_receiver_failure_drops_pending_send() {
    let mut c = ClientState::new();
    c.prepare_send(Ok(vec![3])).unwrap();
    let mine = c.pending().unwrap();
    let malformed = DiaError::MalformedPacket { expected: 40, actual: 2 };
    assert_eq!(c.fail_pending(&malformed), Some((mine, PendingSendOutcome::ReceiverDropped)));
    assert_eq!(c.pending(), None);
}

#[test]
fn failed_serialization_while_pending_keeps_pending() {
    let mut c = ClientState::new();
    c.prepare_send(Ok(vec![1])).unwrap();
    let mine = c.pending().unwrap();
    let err = DiaError::Serialization(Box::new(bincode::ErrorKind::Custom("boom".into())));
    assert!(matches!(c.prepare_send(Err(err)), Err(DiaError::Serialization(_))));
    assert_eq!(c.pending(), Some(mine));
}

#[test]
fn every_send_end_leaves_nothing_pending() {
    // Serialization failed.
    let mut c = ClientState::new();
    let err = DiaError::Serialization(Box::new(bincode::ErrorKind::Custom("x".into())));
    let _ = c.prepare_send(Err(err));
    assert_eq!(c.pending(), None);
    // Proposal not sent.
    c.prepare_send(Ok(vec![1])).unwrap();
    c.abort_send();
    assert_eq!(c.pending(), None);
    // Own message sequenced.
    c.prepare_send(Ok(vec![2])).unwrap();
    let mine = c.pending().unwrap();
    assert!(c.deliver(&mine));
    assert_eq!(c.pending(), None);
    // Receiver failed.
    c.prepare_send(Ok(vec![3])).unwrap();
    let _ = c.fail_pending(&DiaError::ClientReceiverDropped);
    assert_eq!(c.pending(), None);
}

#[test]
fn encoded_header_decodes_back() {
    let h = SequencerHeader { msg_id: id(200), seq_num: u64::MAX, timestamp_ns: 1 };
    let bytes = h.to_bytes().unwrap();
    assert_eq!(bytes.len(), ENCODED_HEADER_LEN);
    let back = SequencerHeader::from_bytes(&bytes).unwrap();
    assert_eq!((back.msg_id, back.seq_num, back.timestamp_ns), (id(200), u64::MAX, 1));
}

#[test]
fn round_trip_with_empty_payload_and_large_numbers() {
    let mut c = ClientState::new();
    let proposal = c.prepare_send(Ok(Vec::new())).unwrap();
    let pending = c.pending().unwrap();
    let mut s = SequencerState::new().unwrap();
    let packet = s.stamp(&proposal, u64::MAX).unwrap();
    let msg = decode_consensus_message(&packet).unwrap();
    assert_eq!(msg.header.msg_id, pending);
    assert_eq!(msg.header.timestamp_ns, u64::MAX);
    assert!(msg.payload.is_empty());
    assert!(c.deliver(&msg.header.msg_id));
}

#[test]
fn later_stream_packets_carry_larger_numbers() {
    let mut s = SequencerState::new().unwrap();
    let a = decode_consensus_message(&s.stamp(&frame_proposal(&id(1), b"m1"), 5).unwrap()).unwrap();
    let _ = decode_consensus_message(&s.stamp(&frame_proposal(&id(2), b"x"), 6).unwrap()).unwrap();
    let b = decode_consensus_message(&s.stamp(&frame_proposal(&id(1), b"m2"), 7).unwrap()).unwrap();
    assert!(a.header.seq_num < b.header.seq_num);
    assert_eq!((a.header.seq_num, b.header.seq_num), (0, 2));
    assert_eq!(a.payload, b"m1".to_vec());
    assert_eq!(b.payload, b"m2".to_vec());
}
