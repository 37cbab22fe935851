use sim_circuit::codec::{Packet, FLAG_RESENT};
use sim_circuit::message::{BodyRule, Catalog, MessageInstance, MessageType, PACKET_ACK_TAG};
use sim_circuit::model::{SendMessageError, Verdict};
use sim_circuit::reliability::{CircuitConfig, Expiry, ReliabilityEngine};

fn message() -> MessageInstance {
    MessageInstance::new(MessageType { tag: 7 }, vec![1, 2])
}

fn catalog() -> Catalog {
    let mut c = Catalog::new();
    c.register(MessageType { tag: 7 }, BodyRule { min_len: 0, max_len: 16 });
    c
}

fn engine(send_timeout: u64, send_attempts: usize) -> ReliabilityEngine {
    let config = CircuitConfig { send_timeout, send_attempts };
    assert!(config.is_valid());
    ReliabilityEngine::new(config, 4)
}

fn inbound(sequence: u32, reliable: bool, acks: Vec<u32>) -> Packet {
    Packet::new(sequence, reliable, false, acks, message()).unwrap()
}

#[test]
fn config_needs_one_attempt() {
    assert!(!CircuitConfig { send_timeout: 1, send_attempts: 0 }.is_valid());
    assert!(CircuitConfig { send_timeout: 0, send_attempts: 1 }.is_valid());
}

#[test]
fn sequence_numbers_count_up_from_one() {
    let mut e = engine(50, 2);
    assert_eq!(e.submit(&message(), false, 0).unwrap().sequence, 1);
    assert_eq!(e.submit(&message(), true, 0).unwrap().sequence, 2);
    assert_eq!(e.submit(&message(), false, 0).unwrap().sequence, 3);
    assert_eq!(e.pending_count(), 1);
    assert!(e.is_pending(2));
    assert!(!e.is_pending(1));
}

#[test]
fn submitted_datagram_is_the_encoded_packet() {
    let mut e = engine(50, 2);
    let s = e.submit(&message(), true, 0).unwrap();
    let p = Packet::decode(&catalog(), &s.datagram).unwrap();
    assert_eq!(p, Packet::new(1, true, false, vec![], message()).unwrap());
}

#[test]
fn duplicate_is_dropped_and_acked_both_times() {
    let mut e = engine(50, 2);
    let p = inbound(40, true, vec![]);
    assert_eq!(e.note_inbound(&p).verdict, Verdict::Deliver);
    // The first acknowledgment leaves with the next send.
    let sent = e.submit(&message(), false, 0).unwrap();
    assert_eq!(Packet::decode(&catalog(), &sent.datagram).unwrap().acks(), &vec![40]);
    assert!(!e.owes_acks());
    // The packet arrives again: dropped, and acknowledged again.
    assert_eq!(e.note_inbound(&p).verdict, Verdict::Duplicate);
    assert!(e.owes_acks());
    let sent = e.submit(&message(), false, 0).unwrap();
    assert_eq!(Packet::decode(&catalog(), &sent.datagram).unwrap().acks(), &vec![40]);
}

#[test]
fn duplicate_before_flush_is_acked_once() {
    let mut e = engine(50, 2);
    let p = inbound(40, true, vec![]);
    assert_eq!(e.note_inbound(&p).verdict, Verdict::Deliver);
    assert_eq!(e.note_inbound(&p).verdict, Verdict::Duplicate);
    let flushed = e.flush_acks().unwrap();
    let ack = Packet::decode(&catalog(), &flushed.datagram).unwrap();
    assert_eq!(ack.acks(), &vec![40]);
    assert_eq!(ack.message().msg_type.tag, PACKET_ACK_TAG);
    assert!(!ack.reliable());
    assert!(e.flush_acks().is_none());
}

#[test]
fn unreliable_inbound_is_not_acked() {
    let mut e = engine(50, 2);
    assert_eq!(e.note_inbound(&inbound(9, false, vec![])).verdict, Verdict::Deliver);
    assert!(!e.owes_acks());
    assert!(e.flush_acks().is_none());
    assert_eq!(e.note_inbound(&inbound(9, false, vec![])).verdict, Verdict::Duplicate);
}

#[test]
fn oldest_sequence_number_is_forgotten_when_the_record_is_full() {
    let mut e = engine(50, 2);
    for s in 1..=4u32 {
        assert_eq!(e.note_inbound(&inbound(s, false, vec![])).verdict, Verdict::Deliver);
    }
    assert_eq!(e.note_inbound(&inbound(1, false, vec![])).verdict, Verdict::Duplicate);
    assert_eq!(e.note_inbound(&inbound(5, false, vec![])).verdict, Verdict::Deliver);
    // 1 has left the record of four; 2 to 5 are remembered.
    assert_eq!(e.note_inbound(&inbound(2, false, vec![])).verdict, Verdict::Duplicate);
    assert_eq!(e.note_inbound(&inbound(1, false, vec![])).verdict, Verdict::Deliver);
}

#[test]
fn ack_only_packet_is_not_delivered() {
    let mut e = engine(50, 2);
    let sent = e.submit(&message(), true, 0).unwrap();
    let ack = Packet::new(
        1,
        false,
        false,
        vec![sent.sequence],
        MessageInstance::new(MessageType { tag: PACKET_ACK_TAG }, vec![]),
    )
    .unwrap();
    let got = e.note_inbound(&ack);
    assert_eq!(got.verdict, Verdict::AckOnly);
    assert_eq!(got.resolved, vec![sent.sequence]);
}

#[test]
fn bounded_retry_transmits_three_times_then_fails() {
    let mut e = engine(50, 3);
    let sent = e.submit(&message(), true, 1000).unwrap();
    let mut transmissions = 1;
    let mut resent = sent.datagram.clone();
    resent[0] |= FLAG_RESENT;
    let mut now = 1000;
    loop {
        now += 50;
        match e.expire(sent.sequence, now) {
            Expiry::Retransmit(bytes) => {
                assert_eq!(bytes, resent);
                transmissions += 1;
            }
            Expiry::Failed(err) => {
                assert_eq!(err, SendMessageError::Timeout);
                break;
            }
            other => panic!("unexpected {:?}", other),
        }
    }
    assert_eq!(transmissions, 3);
    assert_eq!(now, 1150);
    assert_eq!(e.pending_count(), 0);
    assert!(!e.is_pending(sent.sequence));
    assert_eq!(e.expire(sent.sequence, now + 50), Expiry::NotPending);
}

#[test]
fn two_attempts_fail_after_two_timeouts() {
    let mut e = engine(50, 2);
    let sent = e.submit(&message(), true, 0).unwrap();
    assert_eq!(e.next_deadline(), Some((sent.sequence, 50)));
    // Not immediately.
    assert_eq!(e.expire(sent.sequence, 0), Expiry::NotDue);
    assert_eq!(e.expire(sent.sequence, 49), Expiry::NotDue);
    assert!(matches!(e.expire(sent.sequence, 50), Expiry::Retransmit(_)));
    assert_eq!(e.next_deadline(), Some((sent.sequence, 100)));
    assert_eq!(e.expire(sent.sequence, 99), Expiry::NotDue);
    assert_eq!(
        e.expire(sent.sequence, 100),
        Expiry::Failed(SendMessageError::Timeout)
    );
    assert_eq!(e.next_deadline(), None);
    assert_eq!(e.pending_count(), 0);
}

#[test]
fn one_attempt_is_never_sent_again() {
    let mut e = engine(50, 1);
    let sent = e.submit(&message(), true, 0).unwrap();
    assert_eq!(
        e.expire(sent.sequence, 50),
        Expiry::Failed(SendMessageError::Timeout)
    );
}

#[test]
fn ack_before_deadline_resolves_and_stops_retransmission() {
    let mut e = engine(50, 3);
    let sent = e.submit(&message(), true, 0).unwrap();
    let got = e.note_inbound(&inbound(77, false, vec![sent.sequence]));
    assert_eq!(got.resolved, vec![sent.sequence]);
    assert_eq!(got.verdict, Verdict::Deliver);
    assert_eq!(e.pending_count(), 0);
    assert_eq!(e.expire(sent.sequence, 50), Expiry::NotPending);
    assert_eq!(e.expire(sent.sequence, 5000), Expiry::NotPending);
    assert_eq!(e.next_deadline(), None);
}

#[test]
fn ack_named_twice_resolves_once() {
    let mut e = engine(50, 3);
    let a = e.submit(&message(), true, 0).unwrap().sequence;
    let b = e.submit(&message(), true, 0).unwrap().sequence;
    let got = e.note_inbound(&inbound(77, false, vec![b, 99, b, a]));
    assert_eq!(got.resolved, vec![b, a]);
    assert_eq!(e.pending_count(), 0);
}

#[test]
fn ack_on_a_duplicate_still_resolves() {
    let mut e = engine(50, 3);
    assert_eq!(e.note_inbound(&inbound(77, true, vec![])).verdict, Verdict::Deliver);
    let sent = e.submit(&message(), true, 0).unwrap();
    let got = e.note_inbound(&inbound(77, true, vec![sent.sequence]));
    assert_eq!(got.verdict, Verdict::Duplicate);
    assert_eq!(got.resolved, vec![sent.sequence]);
}

#[test]
fn unreliable_send_is_never_retried() {
    let mut e = engine(50, 3);
    let sent = e.submit(&message(), false, 0).unwrap();
    assert_eq!(e.pending_count(), 0);
    assert_eq!(e.next_deadline(), None);
    assert_eq!(e.expire(sent.sequence, 50), Expiry::NotPending);
    let got = e.note_inbound(&inbound(77, false, vec![sent.sequence]));
    assert!(got.resolved.is_empty());
    assert_eq!(e.expire(sent.sequence, 1000), Expiry::NotPending);
}

#[test]
fn next_deadline_is_the_earliest() {
    let mut e = engine(50, 3);
    let a = e.submit(&message(), true, 30).unwrap().sequence;
    let b = e.submit(&message(), true, 10).unwrap().sequence;
    let _c = e.submit(&message(), true, 20).unwrap().sequence;
    assert_eq!(e.next_deadline(), Some((b, 60)));
    assert!(matches!(e.expire(b, 60), Expiry::Retransmit(_)));
    assert_eq!(e.next_deadline().unwrap().1, 70);
    assert!(e.is_pending(a));
}

#[test]
fn deadline_stops_at_the_end_of_time() {
    let mut e = engine(u64::MAX, 2);
    let sent = e.submit(&message(), true, 5).unwrap();
    assert_eq!(e.next_deadline(), Some((sent.sequence, u64::MAX)));
}

#[test]
fn at_most_255_acks_ride_on_one_packet() {
    let mut e = ReliabilityEngine::new(CircuitConfig { send_timeout: 50, send_attempts: 2 }, 1000);
    for s in 0..300u32 {
        e.note_inbound(&inbound(s, true, vec![]));
    }
    let first = e.submit(&message(), false, 0).unwrap();
    let p = Packet::decode(&catalog(), &first.datagram).unwrap();
    assert_eq!(p.acks(), &(0..255u32).collect::<Vec<u32>>());
    let second = e.flush_acks().unwrap();
    let p = Packet::decode(&catalog(), &second.datagram).unwrap();
    assert_eq!(p.acks(), &(255..300u32).collect::<Vec<u32>>());
    assert!(!e.owes_acks());
}

#[test]
fn sequence_counter_wraps() {
    let config = CircuitConfig { send_timeout: 50, send_attempts: 2 };
    let mut e = ReliabilityEngine::starting_at(config, 4, u32::MAX);
    assert_eq!(e.submit(&message(), false, 0).unwrap().sequence, u32::MAX);
    assert_eq!(e.submit(&message(), false, 0).unwrap().sequence, 0);
    assert_eq!(e.submit(&message(), false, 0).unwrap().sequence, 1);
}

#[test]
fn reliable_send_with_sequence_zero_is_tracked() {
    let config = CircuitConfig { send_timeout: 50, send_attempts: 1 };
    let mut e = ReliabilityEngine::starting_at(config, 4, 0);
    assert_eq!(e.submit(&message(), true, 0).unwrap().sequence, 0);
    assert!(e.is_pending(0));
    assert_eq!(e.pending_count(), 1);
}

#[test]
fn shutdown_cancels_every_send_and_refuses_more() {
    let mut e = engine(50, 3);
    let a = e.submit(&message(), true, 0).unwrap().sequence;
    let _ = e.submit(&message(), false, 0).unwrap();
    let b = e.submit(&message(), true, 0).unwrap().sequence;
    let mut cancelled = e.shutdown();
    cancelled.sort();
    assert_eq!(cancelled, vec![a, b]);
    assert!(e.is_closed());
    assert_eq!(e.pending_count(), 0);
    assert_eq!(e.submit(&message(), true, 0), Err(SendMessageError::Closed));
    assert_eq!(e.expire(a, 1000), Expiry::NotPending);
    assert!(e.shutdown().is_empty());
}
