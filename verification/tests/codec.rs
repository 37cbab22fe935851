use sim_circuit::codec::{Packet, FLAG_ACKS, FLAG_RELIABLE, FLAG_RESENT, HEADER_LEN, MAX_ACKS};
use sim_circuit::message::{
    BodyRule, Catalog, DecodeError, MessageInstance, MessageType, PACKET_ACK_TAG,
};
use sim_circuit::wire::{push_u32_be, u32_be_at};

fn catalog() -> Catalog {
    let mut c = Catalog::new();
    c.register(MessageType { tag: 0xFFFF_0003 }, BodyRule { min_len: 0, max_len: 64 });
    c.register(MessageType { tag: 7 }, BodyRule { min_len: 2, max_len: 2 });
    c
}

fn message(tag: u32, body: Vec<u8>) -> MessageInstance {
    MessageInstance::new(MessageType { tag }, body)
}

#[test]
fn big_endian_bytes_are_most_significant_first() {
    let mut out = vec![9u8];
    push_u32_be(&mut out, 0x0102_0304);
    assert_eq!(out, vec![9, 1, 2, 3, 4]);
    assert_eq!(u32_be_at(&out, 1), 0x0102_0304);
    assert_eq!(u32_be_at(&[0xff, 0, 0, 0, 0x2a], 1), 42);
}

#[test]
fn encode_lays_out_the_envelope() {
    let p = Packet::new(0x0102_0304, true, false, vec![7], message(0xFFFF_0003, vec![0xAA, 0xBB]))
        .unwrap();
    assert_eq!(
        p.encode(),
        vec![0x50, 1, 2, 3, 4, 0xFF, 0xFF, 0, 3, 0xAA, 0xBB, 0, 0, 0, 7, 1]
    );
}

#[test]
fn encode_without_acks_has_no_trailer() {
    let p = Packet::new(5, false, true, vec![], message(7, vec![1, 2])).unwrap();
    assert_eq!(p.encode(), vec![FLAG_RESENT, 0, 0, 0, 5, 0, 0, 0, 7, 1, 2]);
    assert_eq!(HEADER_LEN, 9);
    assert_eq!(FLAG_RELIABLE | FLAG_ACKS, 0x50);
}

#[test]
fn decode_gives_back_what_encode_took() {
    let c = catalog();
    for (reliable, resent) in [(false, false), (false, true), (true, false), (true, true)] {
        for acks in [vec![], vec![1u32], vec![0xFFFF_FFFF, 0, 77]] {
            let p = Packet::new(
                0xDEAD_BEEF,
                reliable,
                resent,
                acks.clone(),
                message(0xFFFF_0003, vec![1, 2, 3, 4, 5]),
            )
            .unwrap();
            let back = Packet::decode(&c, &p.encode()).unwrap();
            assert_eq!(back, p);
            assert_eq!(back.sequence(), 0xDEAD_BEEF);
            assert_eq!(back.reliable(), reliable);
            assert_eq!(back.resent(), resent);
            assert_eq!(back.acks(), &acks);
            assert_eq!(back.message(), &message(0xFFFF_0003, vec![1, 2, 3, 4, 5]));
        }
    }
}

#[test]
fn round_trip_with_the_most_acks() {
    let c = catalog();
    let acks: Vec<u32> = (0..MAX_ACKS as u32).collect();
    let p = Packet::new(1, true, false, acks, message(7, vec![8, 9])).unwrap();
    let bytes = p.encode();
    assert_eq!(bytes.len(), 9 + 2 + 4 * 255 + 1);
    assert_eq!(Packet::decode(&c, &bytes).unwrap(), p);
}

#[test]
fn too_many_acks_make_no_packet() {
    let acks: Vec<u32> = (0..256u32).collect();
    assert!(Packet::new(1, true, false, acks, message(7, vec![8, 9])).is_none());
}

#[test]
fn ack_message_is_known_to_every_catalog() {
    let c = Catalog::new();
    let p = Packet::new(3, false, false, vec![10, 11], message(PACKET_ACK_TAG, vec![])).unwrap();
    assert_eq!(Packet::decode(&c, &p.encode()).unwrap(), p);
    let bad = Packet::new(3, false, false, vec![], message(PACKET_ACK_TAG, vec![1])).unwrap();
    assert_eq!(Packet::decode(&c, &bad.encode()), Err(DecodeError::MalformedBody));
}

#[test]
fn short_buffer_is_truncated() {
    let c = catalog();
    assert_eq!(Packet::decode(&c, &[]), Err(DecodeError::Truncated));
    assert_eq!(
        Packet::decode(&c, &[0, 0, 0, 0, 1, 0, 0, 0]),
        Err(DecodeError::Truncated)
    );
}

#[test]
fn missing_acks_are_truncated() {
    let c = catalog();
    // The flag announces acknowledgments, and the count byte two of them.
    let bytes = [FLAG_ACKS, 0, 0, 0, 1, 0, 0, 0, 7, 1, 2, 0, 0, 0, 9, 2];
    assert_eq!(Packet::decode(&c, &bytes), Err(DecodeError::Truncated));
    // The header alone, with the flag set, has no room for the count.
    let bytes = [FLAG_ACKS, 0, 0, 0, 1, 0, 0, 0, 7];
    assert_eq!(Packet::decode(&c, &bytes), Err(DecodeError::Truncated));
}

#[test]
fn unknown_tag_is_rejected() {
    let c = catalog();
    let p = Packet::new(1, false, false, vec![], message(8, vec![1, 2])).unwrap();
    assert_eq!(
        Packet::decode(&c, &p.encode()),
        Err(DecodeError::UnknownMessageType)
    );
}

#[test]
fn body_of_wrong_length_is_malformed() {
    let c = catalog();
    let p = Packet::new(1, false, false, vec![], message(7, vec![1, 2, 3])).unwrap();
    assert_eq!(Packet::decode(&c, &p.encode()), Err(DecodeError::MalformedBody));
    let p = Packet::new(1, false, false, vec![], message(7, vec![1])).unwrap();
    assert_eq!(Packet::decode(&c, &p.encode()), Err(DecodeError::MalformedBody));
}

#[test]
fn flag_with_count_zero_decodes_to_no_acks() {
    let c = catalog();
    let bytes = [FLAG_ACKS | FLAG_RELIABLE, 0, 0, 0, 1, 0, 0, 0, 7, 1, 2, 0];
    let p = Packet::decode(&c, &bytes).unwrap();
    assert!(p.acks().is_empty());
    assert!(p.reliable());
    assert_eq!(p.message().body, vec![1, 2]);
}

#[test]
fn catalog_decodes_and_encodes_bodies() {
    let c = catalog();
    let m = c.decode(MessageType { tag: 7 }, &[4, 5]).unwrap();
    assert_eq!(m, message(7, vec![4, 5]));
    assert_eq!(m.message_type(), MessageType { tag: 7 });
    assert_eq!(m.duplicate(), m);
    let (t, body) = Catalog::encode(&m);
    assert_eq!(t, MessageType { tag: 7 });
    assert_eq!(body, vec![4, 5]);
    assert_eq!(
        c.decode(MessageType { tag: 9 }, &[4, 5]),
        Err(DecodeError::UnknownMessageType)
    );
}

#[test]
fn later_rule_replaces_earlier() {
    let mut c = catalog();
    c.register(MessageType { tag: 7 }, BodyRule { min_len: 0, max_len: 1 });
    assert!(c.decode(MessageType { tag: 7 }, &[4]).is_ok());
    assert_eq!(
        c.decode(MessageType { tag: 7 }, &[4, 5]),
        Err(DecodeError::MalformedBody)
    );
}
