//! The reliability engine: sequence numbers, sends in flight with their retry
//! budget, the record of what was received, and the acknowledgments owed.
//!
//! The engine does no I/O and reads no clock. Its caller hands it the time and
//! puts on the wire what it returns.

use crate::codec::{encode_packet, Packet, FLAG_RESENT, MAX_ACKS};
use crate::message::{copy_bytes, MessageInstance, MessageType, MessageView, PACKET_ACK_TAG};
use crate::model::{
    after_expiry, after_inbound, after_shutdown, after_submit, engine_starting_at, engine_wf,
    expiry, initial_engine, lemma_expiry_keeps_wf, lemma_inbound_keeps_wf, lemma_submit_keeps_wf,
    marked_resent, resolved_by, submit_refusal, submitted_packet, verdict_on, EngineView,
    ExpiryView, PendingView, SendMessageError, Verdict,
};
use vstd::prelude::*;

verus! {

/// How many sequence numbers an engine remembers unless told otherwise.
pub const DEFAULT_SEEN_LIMIT: usize = 1024;

/// How long a reliable send waits for its acknowledgment and how often it is
/// transmitted, the first transmission included.
#[derive(Clone, Copy, Debug, PartialEq, Eq, Structural)]
pub struct CircuitConfig {
    /// Milliseconds between one transmission and the next.
    pub send_timeout: u64,
    /// Transmissions before a send fails. At least one.
    pub send_attempts: usize,
}

impl CircuitConfig {
    /// A configuration allows at least one transmission.
    pub open spec fn valid(&self) -> bool {
        self.send_attempts >= 1
    }

    pub fn is_valid(&self) -> (b: bool)
        ensures
            b == self.valid(),
    {
        self.send_attempts >= 1
    }
}

/// One reliable send in flight, with the bytes kept for retransmission.
#[derive(Debug, PartialEq, Eq)]
pub struct PendingSend {
    sequence: u32,
    bytes: Vec<u8>,
    attempts_remaining: usize,
    deadline: u64,
}

impl View for PendingSend {
    type V = PendingView;

    closed spec fn view(&self) -> PendingView {
        PendingView {
            sequence: self.sequence,
            bytes: self.bytes@,
            attempts_remaining: self.attempts_remaining as nat,
            deadline: self.deadline,
        }
    }
}

/// What a send put on the wire.
#[derive(Debug, PartialEq, Eq)]
pub struct Submitted {
    /// The sequence number of the packet, by which its completion is known.
    pub sequence: u32,
    /// The datagram to transmit.
    pub datagram: Vec<u8>,
}

/// What a timer's expiry leads to.
#[derive(Debug, PartialEq, Eq)]
pub enum Expiry {
    /// The send is no longer in flight: nothing is transmitted.
    NotPending,
    /// The send's deadline lies ahead: nothing is transmitted.
    NotDue,
    /// The datagram to transmit again.
    Retransmit(Vec<u8>),
    /// The send has failed and left the engine.
    Failed(SendMessageError),
}

impl View for Expiry {
    type V = ExpiryView;

    open spec fn view(&self) -> ExpiryView {
        match self {
            Expiry::NotPending => ExpiryView::NotPending,
            Expiry::NotDue => ExpiryView::NotDue,
            Expiry::Retransmit(bytes) => ExpiryView::Retransmit(bytes@),
            Expiry::Failed(e) => ExpiryView::Failed(*e),
        }
    }
}

/// What the engine made of an inbound packet.
#[derive(Debug, PartialEq, Eq)]
pub struct Inbound {
    /// The sends that the packet acknowledged; each has left the engine.
    pub resolved: Vec<u32>,
    /// What becomes of the packet's message.
    pub verdict: Verdict,
}

/// The sends in flight, by sequence number.
pub open spec fn pending_map(v: Seq<PendingView>) -> Map<u32, PendingView> {
    Map::new(
        |s: u32| exists|i: int| 0 <= i < v.len() && v[i].sequence == s,
        |s: u32| v[choose|i: int| 0 <= i < v.len() && v[i].sequence == s],
    )
}

/// No two sends in flight share a sequence number.
pub open spec fn distinct(v: Seq<PendingView>) -> bool {
    forall|i: int, j: int| 0 <= i < j < v.len() ==> v[i].sequence != v[j].sequence
}

/// The sequence numbers of the sends in flight, in the order of the list.
pub open spec fn sequences(v: Seq<PendingView>) -> Seq<u32> {
    v.map_values(|p: PendingView| p.sequence)
}

proof fn lemma_pending_at(v: Seq<PendingView>, i: int)
    requires
        distinct(v),
        0 <= i < v.len(),
    ensures
        pending_map(v).contains_key(v[i].sequence),
        pending_map(v)[v[i].sequence] == v[i],
{
    let s = v[i].sequence;
    let j = choose|j: int| 0 <= j < v.len() && v[j].sequence == s;
    assert(j == i) by {
        if j < i {
            assert(v[j].sequence != v[i].sequence);
        }
        if i < j {
            assert(v[i].sequence != v[j].sequence);
        }
    }
}

proof fn lemma_pending_finite(v: Seq<PendingView>)
    ensures
        pending_map(v).dom().finite(),
        pending_map(v).dom() =~= sequences(v).to_set(),
{
    let seqs = sequences(v);
    assert forall|s: u32| pending_map(v).dom().contains(s) <==> seqs.to_set().contains(s) by {
        if pending_map(v).dom().contains(s) {
            let i = choose|i: int| 0 <= i < v.len() && v[i].sequence == s;
            assert(seqs[i] == s);
        }
        if seqs.to_set().contains(s) {
            let i = choose|i: int| 0 <= i < seqs.len() && seqs[i] == s;
            assert(v[i].sequence == s);
        }
    }
    vstd::seq_lib::seq_to_set_is_finite(seqs);
    assert(pending_map(v).dom() =~= seqs.to_set());
}

proof fn lemma_pending_push(v: Seq<PendingView>, p: PendingView)
    requires
        distinct(v),
        !pending_map(v).contains_key(p.sequence),
    ensures
        distinct(v.push(p)),
        pending_map(v.push(p)) =~= pending_map(v).insert(p.sequence, p),
{
    let w = v.push(p);
    assert forall|i: int, j: int| 0 <= i < j < w.len() implies w[i].sequence != w[j].sequence by {
        if j == v.len() {
            assert(v[i].sequence != p.sequence);
        }
    }
    assert forall|s: u32| pending_map(w).contains_key(s) <==> pending_map(v).insert(
        p.sequence,
        p,
    ).contains_key(s) by {
        if pending_map(w).contains_key(s) {
            let i = choose|i: int| 0 <= i < w.len() && w[i].sequence == s;
            if i < v.len() {
                assert(v[i].sequence == s);
            }
        }
        if pending_map(v).contains_key(s) {
            let i = choose|i: int| 0 <= i < v.len() && v[i].sequence == s;
            assert(w[i].sequence == s);
        }
        if s == p.sequence {
            assert(w[v.len() as int].sequence == s);
        }
    }
    assert forall|s: u32| pending_map(w).contains_key(s) implies pending_map(w)[s] == pending_map(
        v,
    ).insert(p.sequence, p)[s] by {
        let i = choose|i: int| 0 <= i < w.len() && w[i].sequence == s;
        lemma_pending_at(w, i);
        if i < v.len() {
            lemma_pending_at(v, i);
        }
    }
}

proof fn lemma_pending_remove(v: Seq<PendingView>, i: int)
    requires
        distinct(v),
        0 <= i < v.len(),
    ensures
        distinct(v.remove(i)),
        pending_map(v.remove(i)) =~= pending_map(v).remove(v[i].sequence),
{
    let w = v.remove(i);
    let gone = v[i].sequence;
    assert forall|a: int, b: int| 0 <= a < b < w.len() implies w[a].sequence != w[b].sequence by {
        let a0 = if a < i { a } else { a + 1 };
        let b0 = if b < i { b } else { b + 1 };
        assert(w[a] == v[a0]);
        assert(w[b] == v[b0]);
    }
    assert forall|s: u32| pending_map(w).contains_key(s) <==> pending_map(v).remove(
        gone,
    ).contains_key(s) by {
        if pending_map(w).contains_key(s) {
            let a = choose|a: int| 0 <= a < w.len() && w[a].sequence == s;
            let a0 = if a < i { a } else { a + 1 };
            assert(w[a] == v[a0]);
            assert(v[a0].sequence == s);
            if a0 < i {
                assert(v[a0].sequence != v[i].sequence);
            } else {
                assert(v[i].sequence != v[a0].sequence);
            }
        }
        if pending_map(v).contains_key(s) && s != gone {
            let a0 = choose|a0: int| 0 <= a0 < v.len() && v[a0].sequence == s;
            let a = if a0 < i { a0 } else { a0 - 1 };
            assert(w[a] == v[a0]);
        }
    }
    assert forall|s: u32| pending_map(w).contains_key(s) implies pending_map(w)[s] == pending_map(
        v,
    ).remove(gone)[s] by {
        let a = choose|a: int| 0 <= a < w.len() && w[a].sequence == s;
        let a0 = if a < i { a } else { a + 1 };
        assert(w[a] == v[a0]);
        lemma_pending_at(w, a);
        lemma_pending_at(v, a0);
    }
}

/// The engine of one circuit.
pub struct ReliabilityEngine {
    config: CircuitConfig,
    next_sequence: u32,
    pending: Vec<PendingSend>,
    seen: Vec<u32>,
    seen_limit: usize,
    unsent_acks: Vec<u32>,
    closed: bool,
}

impl View for ReliabilityEngine {
    type V = EngineView;

    closed spec fn view(&self) -> EngineView {
        EngineView {
            next_sequence: self.next_sequence,
            pending: pending_map(self.in_flight()),
            seen: self.seen@,
            seen_limit: self.seen_limit as nat,
            unsent_acks: self.unsent_acks@,
            send_timeout: self.config.send_timeout,
            send_attempts: self.config.send_attempts as nat,
            closed: self.closed,
        }
    }
}

impl ReliabilityEngine {
    /// The sends in flight, in the order in which they are kept.
    pub closed spec fn in_flight(&self) -> Seq<PendingView> {
        self.pending@.map_values(|p: PendingSend| p@)
    }

    /// The engine's invariant.
    pub closed spec fn wf(&self) -> bool {
        &&& engine_wf(self@)
        &&& distinct(self.in_flight())
    }

    /// What every engine state satisfies.
    pub proof fn lemma_wf(&self)
        requires
            self.wf(),
        ensures
            engine_wf(self@),
    {
    }

    /// A fresh engine that remembers up to `seen_limit` sequence numbers.
    pub fn new(config: CircuitConfig, seen_limit: usize) -> (e: Self)
        requires
            config.valid(),
            seen_limit >= 1,
        ensures
            e.wf(),
            e@ == initial_engine(config.send_timeout, config.send_attempts as nat, seen_limit as nat),
    {
        Self::starting_at(config, seen_limit, 1)
    }

    /// A fresh engine whose first packet has the sequence number `first`.
    pub fn starting_at(config: CircuitConfig, seen_limit: usize, first: u32) -> (e: Self)
        requires
            config.valid(),
            seen_limit >= 1,
        ensures
            e.wf(),
            e@ == engine_starting_at(
                config.send_timeout,
                config.send_attempts as nat,
                seen_limit as nat,
                first,
            ),
    {
        let e = ReliabilityEngine {
            config,
            next_sequence: first,
            pending: Vec::new(),
            seen: Vec::new(),
            seen_limit,
            unsent_acks: Vec::new(),
            closed: false,
        };
        proof {
            assert(e.in_flight() =~= Seq::<PendingView>::empty());
            assert(e@.pending =~= Map::<u32, PendingView>::empty());
            lemma_pending_finite(e.in_flight());
        }
        e
    }

    /// Whether the engine was shut down.
    pub fn is_closed(&self) -> (b: bool)
        ensures
            b == self@.closed,
    {
        self.closed
    }

    /// How many sends are in flight.
    pub fn pending_count(&self) -> (n: usize)
        requires
            self.wf(),
        ensures
            n == self@.pending.dom().len(),
    {
        proof {
            let v = self.in_flight();
            lemma_pending_finite(v);
            assert(sequences(v).no_duplicates()) by {
                assert forall|i: int, j: int|
                    0 <= i < sequences(v).len() && 0 <= j < sequences(v).len() && i
                        != j implies sequences(v)[i] != sequences(v)[j] by {
                    if i < j {
                        assert(v[i].sequence != v[j].sequence);
                    } else {
                        assert(v[j].sequence != v[i].sequence);
                    }
                }
            }
            sequences(v).unique_seq_to_set();
        }
        self.pending.len()
    }

    /// Where the send of `sequence` is kept, if it is in flight.
    fn position(&self, sequence: u32) -> (r: Option<usize>)
        ensures
            r is Some <==> self@.pending.contains_key(sequence),
            r is Some ==> r.unwrap() < self.pending@.len() && self.in_flight()[r.unwrap() as int].sequence
                == sequence,
    {
        let mut i: usize = 0;
        while i < self.pending.len()
            invariant
                i <= self.pending@.len(),
                forall|j: int| 0 <= j < i ==> self.in_flight()[j].sequence != sequence,
            decreases self.pending@.len() - i,
        {
            if self.pending[i].sequence == sequence {
                proof {
                    assert(self.in_flight()[i as int].sequence == sequence);
                }
                return Some(i);
            }
            i = i + 1;
        }
        None
    }

    /// Whether the send of `sequence` is in flight.
    pub fn is_pending(&self, sequence: u32) -> (b: bool)
        ensures
            b == self@.pending.contains_key(sequence),
    {
        self.position(sequence).is_some()
    }
}

impl ReliabilityEngine {
    /// Puts `message` into a packet with the next sequence number and the
    /// acknowledgments that wait, as many as one packet carries. A reliable
    /// send stays in flight, with one transmission of its budget used.
    pub fn submit(&mut self, message: &MessageInstance, reliable: bool, now: u64) -> (r: Result<
        Submitted,
        SendMessageError,
    >)
        requires
            old(self).wf(),
        ensures
            final(self).wf(),
            match r {
                Err(e) => submit_refusal(old(self)@) == Some(e) && final(self)@ == old(self)@,
                Ok(s) => {
                    &&& submit_refusal(old(self)@) is None
                    &&& s.sequence == old(self)@.next_sequence
                    &&& s.datagram@ == encode_packet(
                        submitted_packet(old(self)@, message@, reliable),
                    )
                    &&& final(self)@ == after_submit(old(self)@, message@, reliable, now)
                },
            },
    {
        if self.closed {
            return Err(SendMessageError::Closed);
        }
        if self.position(self.next_sequence).is_some() {
            return Err(SendMessageError::SequenceInUse);
        }
        let sequence: u32 = self.next_sequence;
        let take: usize = if self.unsent_acks.len() <= MAX_ACKS {
            self.unsent_acks.len()
        } else {
            MAX_ACKS
        };
        let mut taken = self.unsent_acks.split_off(take);
        std::mem::swap(&mut self.unsent_acks, &mut taken);
        let packet = Packet::new(sequence, reliable, false, taken, message.duplicate()).unwrap();
        let datagram = packet.encode();
        self.next_sequence = if sequence == u32::MAX {
            0
        } else {
            sequence + 1
        };
        if reliable {
            let deadline: u64 = if self.config.send_timeout > u64::MAX - now {
                u64::MAX
            } else {
                now + self.config.send_timeout
            };
            let entry = PendingSend {
                sequence,
                bytes: copy_bytes(datagram.as_slice()),
                attempts_remaining: self.config.send_attempts - 1,
                deadline,
            };
            self.pending.push(entry);
            proof {
                lemma_pending_push(old(self).in_flight(), entry@);
                assert(self.in_flight() =~= old(self).in_flight().push(entry@));
            }
        } else {
            proof {
                assert(self.in_flight() =~= old(self).in_flight());
            }
        }
        proof {
            let want = after_submit(old(self)@, message@, reliable, now);
            lemma_submit_keeps_wf(old(self)@, message@, reliable, now);
            assert(self@.pending =~= want.pending);
            assert(self@.unsent_acks =~= want.unsent_acks);
            assert(packet@.acks =~= submitted_packet(old(self)@, message@, reliable).acks);
            assert(self@ == want);
        }
        Ok(Submitted { sequence, datagram })
    }

    /// Acts on the timer of `sequence` firing at `now`: a send that is due is
    /// transmitted again while its budget lasts, and fails when it is spent.
    pub fn expire(&mut self, sequence: u32, now: u64) -> (r: Expiry)
        requires
            old(self).wf(),
        ensures
            final(self).wf(),
            r@ == expiry(old(self)@, sequence, now),
            final(self)@ == after_expiry(old(self)@, sequence, now),
    {
        let at = self.position(sequence);
        if at.is_none() {
            return Expiry::NotPending;
        }
        let i: usize = at.unwrap();
        proof {
            lemma_pending_at(self.in_flight(), i as int);
            lemma_expiry_keeps_wf(self@, sequence, now);
        }
        if now < self.pending[i].deadline {
            return Expiry::NotDue;
        }
        let mut entry = self.pending.remove(i);
        proof {
            assert(self.in_flight() =~= old(self).in_flight().remove(i as int));
            lemma_pending_remove(old(self).in_flight(), i as int);
        }
        if entry.attempts_remaining > 0 {
            let first: u8 = entry.bytes[0];
            entry.bytes[0] = first | FLAG_RESENT;
            entry.attempts_remaining = entry.attempts_remaining - 1;
            entry.deadline = if self.config.send_timeout > u64::MAX - now {
                u64::MAX
            } else {
                now + self.config.send_timeout
            };
            let out = copy_bytes(entry.bytes.as_slice());
            let ghost before_push = self.in_flight();
            self.pending.push(entry);
            proof {
                assert(self.in_flight() =~= before_push.push(entry@));
                lemma_pending_push(before_push, entry@);
                let want = after_expiry(old(self)@, sequence, now);
                assert(entry@.bytes =~= marked_resent(old(self)@.pending[sequence].bytes));
                assert(self@.pending =~= want.pending);
                assert(self@ == want);
            }
            Expiry::Retransmit(out)
        } else {
            proof {
                let want = after_expiry(old(self)@, sequence, now);
                assert(self@.pending =~= want.pending);
                assert(self@ == want);
            }
            Expiry::Failed(SendMessageError::Timeout)
        }
    }
}

/// The message that carries acknowledgments and nothing else.
pub open spec fn ack_message() -> MessageView {
    MessageView { tag: PACKET_ACK_TAG, body: Seq::<u8>::empty() }
}

/// Whether `x` stands in `v`.
pub fn contains_u32(v: &Vec<u32>, x: u32) -> (b: bool)
    ensures
        b == v@.contains(x),
{
    let mut i: usize = 0;
    while i < v.len()
        invariant
            i <= v@.len(),
            forall|j: int| 0 <= j < i ==> v@[j] != x,
        decreases v@.len() - i,
    {
        if v[i] == x {
            return true;
        }
        i = i + 1;
    }
    false
}

proof fn lemma_prefix_set(a: Seq<u32>, k: int)
    requires
        0 <= k < a.len(),
    ensures
        a.subrange(0, k + 1).to_set() =~= a.subrange(0, k).to_set().insert(a[k]),
{
    let shorter = a.subrange(0, k);
    let longer = a.subrange(0, k + 1);
    assert forall|x: u32| longer.to_set().contains(x) <==> shorter.to_set().insert(a[k]).contains(
        x,
    ) by {
        if longer.contains(x) {
            let i = choose|i: int| 0 <= i < longer.len() && longer[i] == x;
            if i < k {
                assert(shorter[i] == x);
            }
        }
        if shorter.contains(x) {
            let i = choose|i: int| 0 <= i < shorter.len() && shorter[i] == x;
            assert(longer[i] == x);
        }
        if x == a[k] {
            assert(longer[k] == x);
        }
    }
}

impl ReliabilityEngine {
    /// Does the bookkeeping for an inbound packet: the sends that it
    /// acknowledges leave the engine, an acknowledgment is owed where the
    /// packet asks for one, duplicate or not, and its sequence number is
    /// remembered unless it was seen before.
    pub fn note_inbound(&mut self, packet: &Packet) -> (r: Inbound)
        requires
            old(self).wf(),
        ensures
            final(self).wf(),
            final(self)@ == after_inbound(old(self)@, packet@),
            r.verdict == verdict_on(old(self)@, packet@),
            r.resolved@.to_set() == resolved_by(old(self)@, packet@),
            r.resolved@.no_duplicates(),
    {
        let ghost start = self@;
        let acks = packet.acks();
        let sequence: u32 = packet.sequence();
        let mut resolved: Vec<u32> = Vec::new();
        let mut k: usize = 0;
        proof {
            assert(acks@.subrange(0, 0).to_set() =~= Set::<u32>::empty());
            assert(self@.pending =~= start.pending.remove_keys(acks@.subrange(0, 0).to_set()));
            assert(resolved@.to_set() =~= start.pending.dom().intersect(
                acks@.subrange(0, 0).to_set(),
            ));
        }
        while k < acks.len()
            invariant
                k <= acks@.len(),
                distinct(self.in_flight()),
                self@ == (EngineView { pending: self@.pending, ..start }),
                self@.pending =~= start.pending.remove_keys(acks@.subrange(0, k as int).to_set()),
                resolved@.to_set() =~= start.pending.dom().intersect(
                    acks@.subrange(0, k as int).to_set(),
                ),
                resolved@.no_duplicates(),
            decreases acks@.len() - k,
        {
            let ack: u32 = acks[k];
            let ghost before = self.in_flight();
            let ghost before_resolved = resolved@;
            proof {
                lemma_prefix_set(acks@, k as int);
            }
            match self.position(ack) {
                Some(i) => {
                    self.pending.remove(i);
                    resolved.push(ack);
                    proof {
                        assert(self.in_flight() =~= before.remove(i as int));
                        lemma_pending_remove(before, i as int);
                        assert(!before_resolved.contains(ack)) by {
                            if before_resolved.contains(ack) {
                                assert(before_resolved.to_set().contains(ack));
                            }
                        }
                        assert forall|x: u32| resolved@.to_set().contains(x)
                            <==> before_resolved.to_set().insert(ack).contains(x) by {
                            if resolved@.contains(x) {
                                let j = choose|j: int| 0 <= j < resolved@.len() && resolved@[j] == x;
                                if j < before_resolved.len() {
                                    assert(before_resolved[j] == x);
                                }
                            }
                            if before_resolved.contains(x) {
                                let j = choose|j: int|
                                    0 <= j < before_resolved.len() && before_resolved[j] == x;
                                assert(resolved@[j] == x);
                            }
                            if x == ack {
                                assert(resolved@[before_resolved.len() as int] == x);
                            }
                        }
                        assert forall|a: int, b: int|
                            0 <= a < resolved@.len() && 0 <= b < resolved@.len() && a
                                != b implies resolved@[a] != resolved@[b] by {
                            if a < before_resolved.len() {
                                assert(before_resolved.contains(resolved@[a]));
                            }
                            if b < before_resolved.len() {
                                assert(before_resolved.contains(resolved@[b]));
                            }
                        }
                    }
                },
                None => {},
            }
            k = k + 1;
        }
        proof {
            assert(acks@.subrange(0, k as int) =~= acks@);
        }
        if packet.reliable() && !contains_u32(&self.unsent_acks, sequence) {
            self.unsent_acks.push(sequence);
        }
        let verdict = if contains_u32(&self.seen, sequence) {
            Verdict::Duplicate
        } else {
            if self.seen.len() >= self.seen_limit {
                proof {
                    start_is_wf(start);
                }
                self.seen.remove(0);
                proof {
                    assert(self.seen@ =~= start.seen.skip(1));
                }
            }
            self.seen.push(sequence);
            if packet.message().message_type().tag == PACKET_ACK_TAG {
                Verdict::AckOnly
            } else {
                Verdict::Deliver
            }
        };
        proof {
            let want = after_inbound(start, packet@);
            lemma_inbound_keeps_wf(start, packet@);
            assert(self@.pending =~= want.pending);
            assert(self@.seen =~= want.seen);
            assert(self@.unsent_acks =~= want.unsent_acks);
            assert(self@ == want);
        }
        Inbound { resolved, verdict }
    }

    /// Whether acknowledgments wait to be sent.
    pub fn owes_acks(&self) -> (b: bool)
        ensures
            b == (self@.unsent_acks.len() > 0),
    {
        self.unsent_acks.len() > 0
    }

    /// Sends the acknowledgments that wait in a packet of their own, where
    /// there are any and the engine accepts a send.
    pub fn flush_acks(&mut self) -> (r: Option<Submitted>)
        requires
            old(self).wf(),
        ensures
            final(self).wf(),
            r is Some <==> old(self)@.unsent_acks.len() > 0 && submit_refusal(old(self)@) is None,
            match r {
                None => final(self)@ == old(self)@,
                Some(s) => {
                    &&& s.sequence == old(self)@.next_sequence
                    &&& s.datagram@ == encode_packet(
                        submitted_packet(old(self)@, ack_message(), false),
                    )
                    &&& final(self)@ == after_submit(old(self)@, ack_message(), false, 0)
                },
            },
    {
        if self.unsent_acks.len() == 0 {
            return None;
        }
        let message = MessageInstance::new(MessageType { tag: PACKET_ACK_TAG }, Vec::new());
        assert(message@ == ack_message());
        match self.submit(&message, false, 0) {
            Ok(s) => Some(s),
            Err(_) => None,
        }
    }

    /// Shuts the engine down: every send in flight leaves it, and it accepts
    /// no further send. Returns the sequence numbers of the sends cancelled.
    pub fn shutdown(&mut self) -> (cancelled: Vec<u32>)
        requires
            old(self).wf(),
        ensures
            final(self).wf(),
            final(self)@ == after_shutdown(old(self)@),
            cancelled@.to_set() == old(self)@.pending.dom(),
            cancelled@.no_duplicates(),
            cancelled@.len() == old(self)@.pending.dom().len(),
    {
        let mut cancelled: Vec<u32> = Vec::new();
        let mut i: usize = 0;
        while i < self.pending.len()
            invariant
                i <= self.pending@.len(),
                self == old(self),
                cancelled@ == sequences(self.in_flight()).subrange(0, i as int),
            decreases self.pending@.len() - i,
        {
            cancelled.push(self.pending[i].sequence);
            i = i + 1;
            assert(cancelled@ =~= sequences(self.in_flight()).subrange(0, i as int));
        }
        proof {
            let v = self.in_flight();
            assert(cancelled@ =~= sequences(v));
            lemma_pending_finite(v);
            assert forall|a: int, b: int|
                0 <= a < cancelled@.len() && 0 <= b < cancelled@.len() && a
                    != b implies cancelled@[a] != cancelled@[b] by {
                if a < b {
                    assert(v[a].sequence != v[b].sequence);
                } else {
                    assert(v[b].sequence != v[a].sequence);
                }
            }
            cancelled@.unique_seq_to_set();
        }
        self.pending = Vec::new();
        self.closed = true;
        proof {
            assert(self.in_flight() =~= Seq::<PendingView>::empty());
            assert(self@.pending =~= Map::<u32, PendingView>::empty());
            assert(self@ == after_shutdown(old(self)@));
            lemma_pending_finite(self.in_flight());
        }
        cancelled
    }

    /// The send whose deadline comes first, with that deadline.
    pub fn next_deadline(&self) -> (r: Option<(u32, u64)>)
        requires
            self.wf(),
        ensures
            r is None <==> self@.pending.dom() =~= Set::<u32>::empty(),
            r is Some ==> {
                &&& self@.pending.contains_key(r.unwrap().0)
                &&& self@.pending[r.unwrap().0].deadline == r.unwrap().1
                &&& forall|s: u32| #[trigger]
                    self@.pending.contains_key(s) ==> r.unwrap().1 <= self@.pending[s].deadline
            },
    {
        if self.pending.len() == 0 {
            proof {
                assert forall|s: u32| !self@.pending.contains_key(s) by {}
            }
            return None;
        }
        let mut best: usize = 0;
        let mut i: usize = 1;
        while i < self.pending.len()
            invariant
                1 <= i <= self.pending@.len(),
                best < i,
                forall|j: int|
                    0 <= j < i ==> self.in_flight()[best as int].deadline
                        <= #[trigger] self.in_flight()[j].deadline,
            decreases self.pending@.len() - i,
        {
            if self.pending[i].deadline < self.pending[best].deadline {
                best = i;
            }
            i = i + 1;
        }
        proof {
            let v = self.in_flight();
            lemma_pending_at(v, best as int);
            assert forall|s: u32| #[trigger] self@.pending.contains_key(s) implies v[best as int].deadline
                <= self@.pending[s].deadline by {
                let j = choose|j: int| 0 <= j < v.len() && v[j].sequence == s;
                lemma_pending_at(v, j);
            }
            assert(self@.pending.dom().contains(v[best as int].sequence));
        }
        Some((self.pending[best].sequence, self.pending[best].deadline))
    }
}

proof fn start_is_wf(e: EngineView)
    requires
        engine_wf(e),
    ensures
        e.seen.len() <= e.seen_limit,
        e.seen_limit >= 1,
{
}

} // verus!
