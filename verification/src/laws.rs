//! What the reliability engine guarantees, proved of its model.

use crate::circuit::{after_close, after_receive, delivery_of, CircuitView, DeliveryView};
use crate::codec::{decode_packet, encode_packet, flag_byte, PacketView};
use crate::message::MessageView;
use crate::model::{
    after_expiry, after_inbound, after_shutdown, after_submit, after_timeouts, engine_wf, expiry,
    lemma_expiry_keeps_wf, lemma_inbound_keeps_wf, lemma_submit_keeps_wf, marked_resent,
    resolved_by, submit_refusal, submitted_packet, timeout_outcome, verdict_on, EngineView,
    ExpiryView, SendMessageError, Verdict,
};
use vstd::prelude::*;

verus! {

/// A packet that arrives a second time is not handed on again, and where it
/// asks for an acknowledgment one is owed after each arrival.
pub proof fn law_duplicate_dropped_and_acked(e: EngineView, p: PacketView)
    requires
        engine_wf(e),
    ensures
        verdict_on(e, p) != Verdict::Duplicate <==> !e.seen.contains(p.sequence),
        verdict_on(after_inbound(e, p), p) == Verdict::Duplicate,
        p.reliable ==> after_inbound(e, p).unsent_acks.contains(p.sequence),
        p.reliable ==> after_inbound(after_inbound(e, p), p).unsent_acks.contains(p.sequence),
{
    lemma_inbound_keeps_wf(e, p);
    lemma_inbound_keeps_wf(after_inbound(e, p), p);
}

/// The same holds where the first acknowledgment has left with a send in
/// between: the second arrival is dropped, and acknowledged anew.
pub proof fn law_duplicate_acked_again(
    e: EngineView,
    p: PacketView,
    m: MessageView,
    reliable: bool,
    now: u64,
)
    requires
        engine_wf(e),
        submit_refusal(after_inbound(e, p)) is None,
    ensures
        verdict_on(after_submit(after_inbound(e, p), m, reliable, now), p) == Verdict::Duplicate,
        p.reliable ==> after_inbound(
            after_submit(after_inbound(e, p), m, reliable, now),
            p,
        ).unsent_acks.contains(p.sequence),
{
    let first = after_inbound(e, p);
    lemma_inbound_keeps_wf(e, p);
    lemma_submit_keeps_wf(first, m, reliable, now);
    lemma_inbound_keeps_wf(after_submit(first, m, reliable, now), p);
}

/// A datagram that is sent again is the packet it was, with the resent flag
/// set and nothing else changed.
pub proof fn law_retransmission_is_same_packet(p: PacketView)
    ensures
        marked_resent(encode_packet(p)) == encode_packet(PacketView { resent: true, ..p }),
        marked_resent(marked_resent(encode_packet(p))) == marked_resent(encode_packet(p)),
{
    let has_acks = p.acks.len() > 0;
    let f = flag_byte(p.reliable, p.resent, has_acks);
    let a: u8 = if p.reliable { 0x40u8 } else { 0u8 };
    let b: u8 = if p.resent { 0x20u8 } else { 0u8 };
    let c: u8 = if has_acks { 0x10u8 } else { 0u8 };
    assert((a | b | c) | 0x20u8 == (a | 0x20u8 | c) && ((a | b | c) | 0x20u8) | 0x20u8 == (a | b
        | c) | 0x20u8) by (bit_vector)
        requires
            b == 0x20u8 || b == 0u8,
    ;
    assert(encode_packet(p)[0] == f);
    assert(marked_resent(encode_packet(p)) =~= encode_packet(PacketView { resent: true, ..p }));
    assert(marked_resent(marked_resent(encode_packet(p))) =~= marked_resent(encode_packet(p)));
}

/// While a reliable send is not acknowledged, `j` expiries leave it in flight
/// with `j` fewer transmissions to go, as long as any are left.
proof fn lemma_attempts_count_down(e: EngineView, m: MessageView, now: u64, j: nat)
    requires
        engine_wf(e),
        submit_refusal(e) is None,
        j < e.send_attempts,
    ensures
        ({
            let state = after_timeouts(after_submit(e, m, true, now), e.next_sequence, j);
            &&& engine_wf(state)
            &&& state.send_attempts == e.send_attempts
            &&& state.pending.contains_key(e.next_sequence)
            &&& state.pending[e.next_sequence].attempts_remaining == e.send_attempts - 1 - j
            &&& state.pending[e.next_sequence].bytes == if j == 0 {
                encode_packet(submitted_packet(e, m, true))
            } else {
                marked_resent(encode_packet(submitted_packet(e, m, true)))
            }
        }),
    decreases j,
{
    let sent = after_submit(e, m, true, now);
    let seq = e.next_sequence;
    lemma_submit_keeps_wf(e, m, true, now);
    if j > 0 {
        lemma_attempts_count_down(e, m, now, (j - 1) as nat);
        let before = after_timeouts(sent, seq, (j - 1) as nat);
        lemma_expiry_keeps_wf(before, seq, before.pending[seq].deadline);
        law_retransmission_is_same_packet(submitted_packet(e, m, true));
    }
}

/// A reliable send that is never acknowledged is transmitted as often as the
/// configuration allows, the first transmission included, and no more: of the
/// expiries that follow it, all but the last transmit the same packet again,
/// and the last one fails the send with a timeout and releases its slot.
pub proof fn law_bounded_retry(e: EngineView, m: MessageView, now: u64, k: nat)
    requires
        engine_wf(e),
        submit_refusal(e) is None,
        k < e.send_attempts,
    ensures
        k + 1 < e.send_attempts ==> timeout_outcome(
            after_submit(e, m, true, now),
            e.next_sequence,
            k,
        ) == ExpiryView::Retransmit(marked_resent(encode_packet(submitted_packet(e, m, true)))),
        k + 1 == e.send_attempts ==> timeout_outcome(
            after_submit(e, m, true, now),
            e.next_sequence,
            k,
        ) == ExpiryView::Failed(SendMessageError::Timeout),
        k + 1 == e.send_attempts ==> !after_timeouts(
            after_submit(e, m, true, now),
            e.next_sequence,
            k + 1,
        ).pending.contains_key(e.next_sequence),
{
    lemma_attempts_count_down(e, m, now, k);
    law_retransmission_is_same_packet(submitted_packet(e, m, true));
}

/// A reliable send whose acknowledgment arrives is resolved at once and leaves
/// the engine: a timer that fires for it later transmits nothing.
pub proof fn law_ack_resolves_early(
    e: EngineView,
    m: MessageView,
    now: u64,
    p: PacketView,
    later: u64,
)
    requires
        engine_wf(e),
        submit_refusal(e) is None,
        p.acks.contains(e.next_sequence),
    ensures
        resolved_by(after_submit(e, m, true, now), p).contains(e.next_sequence),
        !after_inbound(after_submit(e, m, true, now), p).pending.contains_key(e.next_sequence),
        expiry(after_inbound(after_submit(e, m, true, now), p), e.next_sequence, later)
            == ExpiryView::NotPending,
        after_expiry(after_inbound(after_submit(e, m, true, now), p), e.next_sequence, later)
            == after_inbound(after_submit(e, m, true, now), p),
{
}

/// An unreliable send leaves nothing in flight: no timer transmits it again
/// and no acknowledgment resolves it, whatever a later packet refers to.
pub proof fn law_unreliable_never_retried(
    e: EngineView,
    m: MessageView,
    now: u64,
    p: PacketView,
    later: u64,
)
    requires
        engine_wf(e),
        submit_refusal(e) is None,
    ensures
        after_submit(e, m, false, now).pending == e.pending,
        expiry(after_submit(e, m, false, now), e.next_sequence, later) == ExpiryView::NotPending,
        !resolved_by(after_submit(e, m, false, now), p).contains(e.next_sequence),
        expiry(after_inbound(after_submit(e, m, false, now), p), e.next_sequence, later)
            == ExpiryView::NotPending,
{
}

/// A message that arrives while a reader waits goes to the reader, whether or
/// not a handler is registered for its type, and ends the reader's wait: the
/// reader takes exactly one message.
pub proof fn law_read_takes_priority(c: CircuitView, bytes: Seq<u8>)
    requires
        c.reader_waiting,
        !c.engine.closed,
        decode_packet(c.catalog, bytes) is Ok,
        verdict_on(c.engine, decode_packet(c.catalog, bytes).unwrap()) == Verdict::Deliver,
    ensures
        delivery_of(c, bytes) == DeliveryView::ToReader(
            decode_packet(c.catalog, bytes).unwrap().message,
        ),
        !after_receive(c, bytes).reader_waiting,
{
}

/// A datagram is handed to at most one consumer, and a datagram that arrives
/// again right after itself to none.
pub proof fn law_at_most_once_dispatch(c: CircuitView, bytes: Seq<u8>)
    requires
        engine_wf(c.engine),
    ensures
        delivery_of(after_receive(c, bytes), bytes) is Duplicate || delivery_of(
            after_receive(c, bytes),
            bytes,
        ) is Undecodable || delivery_of(after_receive(c, bytes), bytes) is Closed,
{
    if !c.engine.closed && decode_packet(c.catalog, bytes) is Ok {
        let p = decode_packet(c.catalog, bytes).unwrap();
        lemma_inbound_keeps_wf(c.engine, p);
    }
}

/// Closing a circuit leaves no send in flight and no reader waiting, and the
/// closed circuit accepts no send and delivers nothing.
pub proof fn law_teardown_cancels_everything(c: CircuitView, bytes: Seq<u8>)
    requires
        engine_wf(c.engine),
    ensures
        engine_wf(after_close(c).engine),
        after_close(c).engine.pending.dom() =~= Set::<u32>::empty(),
        !after_close(c).reader_waiting,
        submit_refusal(after_close(c).engine) == Some(SendMessageError::Closed),
        delivery_of(after_close(c), bytes) == DeliveryView::Closed,
        after_receive(after_close(c), bytes) == after_close(c),
{
}

/// A sequence number that is remembered stays so through every send, timer
/// and shutdown, and through the arrival of another packet unless the record
/// is full and the number is its oldest entry.
pub proof fn law_record_is_kept(
    e: EngineView,
    s: u32,
    q: PacketView,
    m: MessageView,
    reliable: bool,
    now: u64,
    timer: u32,
)
    requires
        engine_wf(e),
        e.seen.contains(s),
    ensures
        after_submit(e, m, reliable, now).seen == e.seen,
        after_expiry(e, timer, now).seen == e.seen,
        after_shutdown(e).seen == e.seen,
        e.seen.len() < e.seen_limit || e.seen[0] != s || e.seen.contains(q.sequence)
            ==> after_inbound(e, q).seen.contains(s),
{
    let i = choose|i: int| 0 <= i < e.seen.len() && e.seen[i] == s;
    let a = after_inbound(e, q);
    if !e.seen.contains(q.sequence) {
        if e.seen.len() >= e.seen_limit {
            if e.seen[0] != s {
                assert(a.seen[i - 1] == s);
            }
        } else {
            assert(a.seen[i] == s);
        }
    }
}

} // verus!
