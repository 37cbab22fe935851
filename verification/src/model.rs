//! The reliability engine as mathematics: its state, what each event does to
//! it, and the laws that follow.

use crate::codec::{encode_packet, PacketView, FLAG_RESENT, HEADER_LEN, MAX_ACKS};
use crate::message::{MessageView, PACKET_ACK_TAG};
use vstd::prelude::*;

verus! {

/// Why a send did not complete.
#[derive(Clone, Copy, Debug, PartialEq, Eq, Structural)]
pub enum SendMessageError {
    /// No acknowledgment came within the configured number of transmissions.
    Timeout,
    /// The circuit was closed while the send was in flight.
    Cancelled,
    /// The transport failed while the send was in flight.
    Transport,
    /// The circuit is closed and sends nothing.
    Closed,
    /// The sequence counter has wrapped onto a send that is still in flight.
    SequenceInUse,
}

/// What the engine does with an inbound packet once its bookkeeping is done.
#[derive(Clone, Copy, Debug, PartialEq, Eq, Structural)]
pub enum Verdict {
    /// First sight of this sequence number: the message goes to dispatch.
    Deliver,
    /// The sequence number was delivered before: the packet is dropped.
    Duplicate,
    /// The packet carried acknowledgments only: nothing is dispatched.
    AckOnly,
}

/// One reliable send in flight.
pub struct PendingView {
    pub sequence: u32,
    pub bytes: Seq<u8>,
    pub attempts_remaining: nat,
    pub deadline: u64,
}

/// The engine's state.
pub struct EngineView {
    pub next_sequence: u32,
    pub pending: Map<u32, PendingView>,
    pub seen: Seq<u32>,
    pub seen_limit: nat,
    pub unsent_acks: Seq<u32>,
    pub send_timeout: u64,
    pub send_attempts: nat,
    pub closed: bool,
}

/// What a timer's expiry leads to.
pub enum ExpiryView {
    /// The send is no longer in flight: nothing is transmitted.
    NotPending,
    /// The send's deadline lies ahead: nothing is transmitted.
    NotDue,
    /// The datagram to transmit again.
    Retransmit(Seq<u8>),
    /// The send has failed and left the engine.
    Failed(SendMessageError),
}

/// The states that an engine can be in.
pub open spec fn engine_wf(e: EngineView) -> bool {
    &&& e.send_attempts >= 1
    &&& e.seen_limit >= 1
    &&& e.seen.len() <= e.seen_limit
    &&& e.seen.no_duplicates()
    &&& e.unsent_acks.no_duplicates()
    &&& e.pending.dom().finite()
    &&& forall|s: u32| #[trigger]
        e.pending.contains_key(s) ==> e.pending[s].sequence == s && e.pending[s].bytes.len()
            >= HEADER_LEN
    &&& e.closed ==> e.pending.dom() =~= Set::<u32>::empty()
}

/// A fresh engine whose first packet has the sequence number `first`.
pub open spec fn engine_starting_at(
    send_timeout: u64,
    send_attempts: nat,
    seen_limit: nat,
    first: u32,
) -> EngineView {
    EngineView {
        next_sequence: first,
        pending: Map::empty(),
        seen: Seq::empty(),
        seen_limit,
        unsent_acks: Seq::empty(),
        send_timeout,
        send_attempts,
        closed: false,
    }
}

/// A fresh engine. Its first packet has the sequence number 1.
pub open spec fn initial_engine(send_timeout: u64, send_attempts: nat, seen_limit: nat) -> EngineView {
    engine_starting_at(send_timeout, send_attempts, seen_limit, 1)
}

/// The sequence number after `s`; the counter wraps.
pub open spec fn sequence_after(s: u32) -> u32 {
    if s == u32::MAX {
        0
    } else {
        (s + 1) as u32
    }
}

/// The deadline of a transmission made at `now`; it stops at the end of time.
pub open spec fn deadline_after(now: u64, timeout: u64) -> u64 {
    if now + timeout > u64::MAX {
        u64::MAX
    } else {
        (now + timeout) as u64
    }
}

/// How many of the acknowledgments that wait go out with the next packet.
pub open spec fn acks_taken(e: EngineView) -> int {
    if e.unsent_acks.len() <= MAX_ACKS {
        e.unsent_acks.len() as int
    } else {
        MAX_ACKS as int
    }
}

/// Why the engine refuses a send, if it does.
pub open spec fn submit_refusal(e: EngineView) -> Option<SendMessageError> {
    if e.closed {
        Some(SendMessageError::Closed)
    } else if e.pending.contains_key(e.next_sequence) {
        Some(SendMessageError::SequenceInUse)
    } else {
        None
    }
}

/// The packet that a send puts on the wire.
pub open spec fn submitted_packet(e: EngineView, m: MessageView, reliable: bool) -> PacketView {
    PacketView {
        sequence: e.next_sequence,
        reliable,
        resent: false,
        acks: e.unsent_acks.take(acks_taken(e)),
        message: m,
    }
}

/// The engine after a send that it accepted.
pub open spec fn after_submit(e: EngineView, m: MessageView, reliable: bool, now: u64) -> EngineView {
    EngineView {
        next_sequence: sequence_after(e.next_sequence),
        pending: if reliable {
            e.pending.insert(
                e.next_sequence,
                PendingView {
                    sequence: e.next_sequence,
                    bytes: encode_packet(submitted_packet(e, m, reliable)),
                    attempts_remaining: (e.send_attempts - 1) as nat,
                    deadline: deadline_after(now, e.send_timeout),
                },
            )
        } else {
            e.pending
        },
        unsent_acks: e.unsent_acks.skip(acks_taken(e)),
        ..e
    }
}

/// A datagram with the resent flag set.
pub open spec fn marked_resent(bytes: Seq<u8>) -> Seq<u8>
    recommends
        bytes.len() > 0,
{
    bytes.update(0, bytes[0] | FLAG_RESENT)
}

/// What the expiry of the timer of `sequence` at `now` leads to.
pub open spec fn expiry(e: EngineView, sequence: u32, now: u64) -> ExpiryView {
    if !e.pending.contains_key(sequence) {
        ExpiryView::NotPending
    } else if now < e.pending[sequence].deadline {
        ExpiryView::NotDue
    } else if e.pending[sequence].attempts_remaining > 0 {
        ExpiryView::Retransmit(marked_resent(e.pending[sequence].bytes))
    } else {
        ExpiryView::Failed(SendMessageError::Timeout)
    }
}

/// The engine after the expiry of the timer of `sequence` at `now`.
pub open spec fn after_expiry(e: EngineView, sequence: u32, now: u64) -> EngineView {
    match expiry(e, sequence, now) {
        ExpiryView::NotPending => e,
        ExpiryView::NotDue => e,
        ExpiryView::Retransmit(bytes) => EngineView {
            pending: e.pending.insert(
                sequence,
                PendingView {
                    sequence,
                    bytes,
                    attempts_remaining: (e.pending[sequence].attempts_remaining - 1) as nat,
                    deadline: deadline_after(now, e.send_timeout),
                },
            ),
            ..e
        },
        ExpiryView::Failed(_) => EngineView { pending: e.pending.remove(sequence), ..e },
    }
}

/// The sends that an inbound packet acknowledges.
pub open spec fn resolved_by(e: EngineView, p: PacketView) -> Set<u32> {
    e.pending.dom().intersect(p.acks.to_set())
}

/// What becomes of an inbound packet.
pub open spec fn verdict_on(e: EngineView, p: PacketView) -> Verdict {
    if e.seen.contains(p.sequence) {
        Verdict::Duplicate
    } else if p.message.tag == PACKET_ACK_TAG {
        Verdict::AckOnly
    } else {
        Verdict::Deliver
    }
}

/// The record of sequence numbers seen, with `s` as its newest entry; the
/// oldest entry leaves where the record is full.
pub open spec fn remembered(seen: Seq<u32>, limit: nat, s: u32) -> Seq<u32> {
    if seen.len() >= limit {
        seen.skip(1).push(s)
    } else {
        seen.push(s)
    }
}

/// The engine after an inbound packet.
pub open spec fn after_inbound(e: EngineView, p: PacketView) -> EngineView {
    EngineView {
        pending: e.pending.remove_keys(p.acks.to_set()),
        unsent_acks: if p.reliable && !e.unsent_acks.contains(p.sequence) {
            e.unsent_acks.push(p.sequence)
        } else {
            e.unsent_acks
        },
        seen: if e.seen.contains(p.sequence) {
            e.seen
        } else {
            remembered(e.seen, e.seen_limit, p.sequence)
        },
        ..e
    }
}

/// The engine after it was shut down.
pub open spec fn after_shutdown(e: EngineView) -> EngineView {
    EngineView { pending: Map::empty(), closed: true, ..e }
}

/// The engine after `k` expiries of the timer of `sequence`, each at its
/// deadline and with no acknowledgment in between.
pub open spec fn after_timeouts(e: EngineView, sequence: u32, k: nat) -> EngineView
    decreases k,
{
    if k == 0 {
        e
    } else {
        let before = after_timeouts(e, sequence, (k - 1) as nat);
        if before.pending.contains_key(sequence) {
            after_expiry(before, sequence, before.pending[sequence].deadline)
        } else {
            before
        }
    }
}

/// What the `k`-th such expiry leads to, counted from zero.
pub open spec fn timeout_outcome(e: EngineView, sequence: u32, k: nat) -> ExpiryView {
    let before = after_timeouts(e, sequence, k);
    if before.pending.contains_key(sequence) {
        expiry(before, sequence, before.pending[sequence].deadline)
    } else {
        ExpiryView::NotPending
    }
}

/// A send that the engine accepts leaves it in a state that an engine can be
/// in.
pub proof fn lemma_submit_keeps_wf(e: EngineView, m: MessageView, reliable: bool, now: u64)
    requires
        engine_wf(e),
        submit_refusal(e) is None,
    ensures
        engine_wf(after_submit(e, m, reliable, now)),
{
    let a = after_submit(e, m, reliable, now);
    let k = acks_taken(e);
    assert(a.unsent_acks.no_duplicates()) by {
        assert forall|i: int, j: int|
            0 <= i < a.unsent_acks.len() && 0 <= j < a.unsent_acks.len() && i != j implies a.unsent_acks[i]
            != a.unsent_acks[j] by {
            assert(a.unsent_acks[i] == e.unsent_acks[i + k]);
            assert(a.unsent_acks[j] == e.unsent_acks[j + k]);
        }
    }
    assert(encode_packet(submitted_packet(e, m, reliable)).len() >= HEADER_LEN);
}

/// A timer's expiry leaves the engine in a state that an engine can be in.
pub proof fn lemma_expiry_keeps_wf(e: EngineView, sequence: u32, now: u64)
    requires
        engine_wf(e),
    ensures
        engine_wf(after_expiry(e, sequence, now)),
{
    let a = after_expiry(e, sequence, now);
    if expiry(e, sequence, now) is Retransmit {
        assert(a.pending.dom() =~= e.pending.dom());
    }
}

/// An inbound packet leaves the engine in a state that an engine can be in;
/// its sequence number is then remembered, and its acknowledgment owed where
/// it asks for one.
pub proof fn lemma_inbound_keeps_wf(e: EngineView, p: PacketView)
    requires
        engine_wf(e),
    ensures
        engine_wf(after_inbound(e, p)),
        after_inbound(e, p).seen.contains(p.sequence),
        p.reliable ==> after_inbound(e, p).unsent_acks.contains(p.sequence),
{
    let a = after_inbound(e, p);
    assert(a.pending.dom() =~= e.pending.dom().difference(p.acks.to_set()));
    assert(a.pending.dom().finite());
    assert(a.seen.len() <= a.seen_limit);
    assert(a.closed ==> a.pending.dom() =~= Set::<u32>::empty());
    if p.reliable && !e.unsent_acks.contains(p.sequence) {
        assert(a.unsent_acks.last() == p.sequence);
        assert forall|i: int, j: int|
            0 <= i < a.unsent_acks.len() && 0 <= j < a.unsent_acks.len() && i != j implies a.unsent_acks[i]
            != a.unsent_acks[j] by {
            if i < e.unsent_acks.len() {
                assert(e.unsent_acks[i] == a.unsent_acks[i]);
            }
            if j < e.unsent_acks.len() {
                assert(e.unsent_acks[j] == a.unsent_acks[j]);
            }
        }
    }
    if !e.seen.contains(p.sequence) {
        let kept = if e.seen.len() >= e.seen_limit {
            e.seen.skip(1)
        } else {
            e.seen
        };
        assert(a.seen == kept.push(p.sequence));
        assert(a.seen.last() == p.sequence);
        assert forall|i: int| 0 <= i < kept.len() implies e.seen.contains(#[trigger] kept[i]) by {
            if e.seen.len() >= e.seen_limit {
                assert(kept[i] == e.seen[i + 1]);
            }
        }
        assert forall|i: int, j: int|
            0 <= i < a.seen.len() && 0 <= j < a.seen.len() && i != j implies a.seen[i]
            != a.seen[j] by {
            if i < kept.len() && j < kept.len() {
                if e.seen.len() >= e.seen_limit {
                    assert(kept[i] == e.seen[i + 1]);
                    assert(kept[j] == e.seen[j + 1]);
                }
            } else if i < kept.len() {
                assert(e.seen.contains(kept[i]));
            } else if j < kept.len() {
                assert(e.seen.contains(kept[j]));
            }
        }
    }
}

} // verus!
