//! The circuit: one connection's codec, reliability engine and dispatch
//! registry behind a single surface.
//!
//! A circuit does no I/O. Its caller transmits the datagrams it returns,
//! hands it the datagrams that arrive and the timers that fire, and completes
//! each send's handle when the circuit names its sequence number.

use crate::codec::{decode_packet, encode_packet, Packet};
use crate::dispatch::{route, Dispatcher, MessageHandlers, ReadMessageError, Route};
use crate::message::{BodyRule, Catalog, DecodeError, MessageInstance, MessageType, MessageView};
use crate::model::{
    after_expiry, after_inbound, after_shutdown, after_submit, engine_wf, expiry, initial_engine,
    resolved_by, submit_refusal, submitted_packet, verdict_on, EngineView, SendMessageError,
    Verdict,
};
use crate::reliability::{
    ack_message, CircuitConfig, Expiry, ReliabilityEngine, Submitted, DEFAULT_SEEN_LIMIT,
};
use crate::simulator::{ConnectInfo, SimLocator};
use vstd::prelude::*;

verus! {

/// What a circuit is.
pub struct CircuitView {
    pub engine: EngineView,
    pub handlers: Map<u32, u64>,
    pub reader_waiting: bool,
    pub catalog: Map<u32, BodyRule>,
}

/// What became of a datagram that arrived.
pub enum DeliveryView {
    /// Its message goes to the blocking reader.
    ToReader(MessageView),
    /// Its message goes to the handler of this identifier.
    ToHandler(u64, MessageView),
    /// Its message has no consumer.
    Dropped(MessageView),
    /// It was delivered before.
    Duplicate,
    /// It carried acknowledgments only.
    AckOnly,
    /// It could not be decoded.
    Undecodable(DecodeError),
    /// The circuit is closed.
    Closed,
}

/// What became of a datagram that arrived.
#[derive(Debug, PartialEq, Eq)]
pub enum Delivery {
    /// Its message goes to the blocking reader.
    ToReader(MessageInstance),
    /// Its message goes to the handler of this identifier.
    ToHandler(u64, MessageInstance),
    /// Its message has no consumer.
    Dropped(MessageInstance),
    /// It was delivered before.
    Duplicate,
    /// It carried acknowledgments only.
    AckOnly,
    /// It could not be decoded.
    Undecodable(DecodeError),
    /// The circuit is closed.
    Closed,
}

impl View for Delivery {
    type V = DeliveryView;

    open spec fn view(&self) -> DeliveryView {
        match self {
            Delivery::ToReader(m) => DeliveryView::ToReader(m@),
            Delivery::ToHandler(h, m) => DeliveryView::ToHandler(*h, m@),
            Delivery::Dropped(m) => DeliveryView::Dropped(m@),
            Delivery::Duplicate => DeliveryView::Duplicate,
            Delivery::AckOnly => DeliveryView::AckOnly,
            Delivery::Undecodable(e) => DeliveryView::Undecodable(*e),
            Delivery::Closed => DeliveryView::Closed,
        }
    }
}

/// What a datagram that arrived led to.
#[derive(Debug, PartialEq, Eq)]
pub struct Received {
    /// The sends that it acknowledged: their handles resolve.
    pub resolved: Vec<u32>,
    /// What became of its message.
    pub delivery: Delivery,
}

/// What closing a circuit led to.
#[derive(Debug, PartialEq, Eq)]
pub struct Teardown {
    /// The sends that were in flight: their handles fail with `send_error`.
    pub cancelled: Vec<u32>,
    /// The error that the cancelled sends fail with.
    pub send_error: SendMessageError,
    /// The error that the blocked reader wakes with, if one was blocked.
    pub reader: Option<ReadMessageError>,
}

/// The consumer of a message that the engine lets through.
pub open spec fn consumer_of(c: CircuitView, m: MessageView) -> DeliveryView {
    match route(c.reader_waiting, c.handlers, m.tag) {
        Route::Reader => DeliveryView::ToReader(m),
        Route::Handler(h) => DeliveryView::ToHandler(h, m),
        Route::Dropped => DeliveryView::Dropped(m),
    }
}

/// What becomes of a datagram that arrives.
pub open spec fn delivery_of(c: CircuitView, bytes: Seq<u8>) -> DeliveryView {
    if c.engine.closed {
        DeliveryView::Closed
    } else {
        match decode_packet(c.catalog, bytes) {
            Err(e) => DeliveryView::Undecodable(e),
            Ok(p) => match verdict_on(c.engine, p) {
                Verdict::Duplicate => DeliveryView::Duplicate,
                Verdict::AckOnly => DeliveryView::AckOnly,
                Verdict::Deliver => consumer_of(c, p.message),
            },
        }
    }
}

/// The sends that a datagram that arrives acknowledges.
pub open spec fn resolved_on_receive(c: CircuitView, bytes: Seq<u8>) -> Set<u32> {
    if c.engine.closed {
        Set::empty()
    } else {
        match decode_packet(c.catalog, bytes) {
            Err(_) => Set::empty(),
            Ok(p) => resolved_by(c.engine, p),
        }
    }
}

/// The circuit after a datagram arrived. A datagram that cannot be decoded
/// changes nothing; a message that is delivered ends the reader's wait.
pub open spec fn after_receive(c: CircuitView, bytes: Seq<u8>) -> CircuitView {
    if c.engine.closed {
        c
    } else {
        match decode_packet(c.catalog, bytes) {
            Err(_) => c,
            Ok(p) => CircuitView {
                engine: after_inbound(c.engine, p),
                reader_waiting: c.reader_waiting && verdict_on(c.engine, p) != Verdict::Deliver,
                ..c
            },
        }
    }
}

/// The circuit after it was closed.
pub open spec fn after_close(c: CircuitView) -> CircuitView {
    CircuitView { engine: after_shutdown(c.engine), reader_waiting: false, ..c }
}

/// The per-connection protocol engine.
pub struct Circuit {
    engine: ReliabilityEngine,
    dispatcher: Dispatcher,
    catalog: Catalog,
    peer: SimLocator,
}

impl View for Circuit {
    type V = CircuitView;

    closed spec fn view(&self) -> CircuitView {
        CircuitView {
            engine: self.engine@,
            handlers: self.dispatcher@.handlers,
            reader_waiting: self.dispatcher@.reader_waiting,
            catalog: self.catalog@,
        }
    }
}

impl Circuit {
    /// The circuit's invariant.
    pub closed spec fn wf(&self) -> bool {
        self.engine.wf()
    }

    /// What every circuit satisfies.
    pub proof fn lemma_wf(&self)
        requires
            self.wf(),
        ensures
            engine_wf(self@.engine),
    {
        self.engine.lemma_wf();
    }

    /// A live circuit toward the simulator of `connect_info`, with the given
    /// handlers installed. No message is exchanged.
    pub fn initiate(
        connect_info: &ConnectInfo,
        config: CircuitConfig,
        handlers: MessageHandlers,
        catalog: Catalog,
    ) -> (c: Circuit)
        requires
            config.valid(),
        ensures
            c.wf(),
            c@ == (CircuitView {
                engine: initial_engine(
                    config.send_timeout,
                    config.send_attempts as nat,
                    DEFAULT_SEEN_LIMIT as nat,
                ),
                handlers: handlers@,
                reader_waiting: false,
                catalog: catalog@,
            }),
            c.peer_spec().sim_ip == connect_info.sim_ip,
            c.peer_spec().sim_port == connect_info.sim_port,
    {
        Circuit {
            engine: ReliabilityEngine::new(config, DEFAULT_SEEN_LIMIT),
            dispatcher: Dispatcher::new(handlers),
            catalog,
            peer: connect_info.locator(),
        }
    }

    /// The address that this circuit's datagrams go to.
    pub closed spec fn peer_spec(&self) -> SimLocator {
        self.peer
    }

    /// The address that this circuit's datagrams go to.
    pub fn peer(&self) -> (l: &SimLocator)
        ensures
            *l == self.peer_spec(),
    {
        &self.peer
    }

    /// Whether the circuit was closed.
    pub fn is_closed(&self) -> (b: bool)
        ensures
            b == self@.engine.closed,
    {
        self.engine.is_closed()
    }

    /// Whether the send of `sequence` is in flight.
    pub fn is_pending(&self, sequence: u32) -> (b: bool)
        ensures
            b == self@.engine.pending.contains_key(sequence),
    {
        self.engine.is_pending(sequence)
    }

    /// How many sends are in flight.
    pub fn pending_count(&self) -> (n: usize)
        requires
            self.wf(),
        ensures
            n == self@.engine.pending.dom().len(),
    {
        self.engine.pending_count()
    }

    /// Sends `message`. The datagram returned is to be transmitted now; the
    /// handle of a reliable send is the sequence number returned, and that of
    /// an unreliable send resolves with the transmission.
    pub fn send(&mut self, message: &MessageInstance, reliable: bool, now: u64) -> (r: Result<
        Submitted,
        SendMessageError,
    >)
        requires
            old(self).wf(),
        ensures
            final(self).wf(),
            match r {
                Err(e) => submit_refusal(old(self)@.engine) == Some(e) && final(self)@ == old(self)@,
                Ok(s) => {
                    &&& submit_refusal(old(self)@.engine) is None
                    &&& s.sequence == old(self)@.engine.next_sequence
                    &&& s.datagram@ == encode_packet(
                        submitted_packet(old(self)@.engine, message@, reliable),
                    )
                    &&& final(self)@ == (CircuitView {
                        engine: after_submit(old(self)@.engine, message@, reliable, now),
                        ..old(self)@
                    })
                },
            },
    {
        self.engine.submit(message, reliable, now)
    }

    /// Registers `handler` for `msg_type`, in place of any earlier handler.
    /// It takes effect with the next datagram that arrives.
    pub fn insert(&mut self, msg_type: MessageType, handler: u64)
        requires
            old(self).wf(),
        ensures
            final(self).wf(),
            final(self)@ == (CircuitView {
                handlers: old(self)@.handlers.insert(msg_type.tag, handler),
                ..old(self)@
            }),
    {
        self.dispatcher.insert(msg_type, handler);
    }

    /// A reader starts to wait for the next message. On a closed circuit it
    /// does not wait.
    pub fn begin_read(&mut self) -> (r: Result<(), ReadMessageError>)
        requires
            old(self).wf(),
        ensures
            final(self).wf(),
            r is Err <==> old(self)@.engine.closed,
            r is Err ==> r == Err::<(), ReadMessageError>(ReadMessageError::Closed) && final(self)@
                == old(self)@,
            r is Ok ==> final(self)@ == (CircuitView { reader_waiting: true, ..old(self)@ }),
    {
        if self.engine.is_closed() {
            Err(ReadMessageError::Closed)
        } else {
            self.dispatcher.begin_read();
            Ok(())
        }
    }

    /// The reader's time is up. Where it still waits it wakes with a timeout;
    /// where its message was handed over before, nothing happens.
    pub fn read_timed_out(&mut self) -> (r: Option<ReadMessageError>)
        requires
            old(self).wf(),
        ensures
            final(self).wf(),
            r == if old(self)@.reader_waiting {
                Some(ReadMessageError::Timeout)
            } else {
                None
            },
            final(self)@ == (CircuitView { reader_waiting: false, ..old(self)@ }),
    {
        if self.dispatcher.end_read() {
            Some(ReadMessageError::Timeout)
        } else {
            None
        }
    }

    /// Takes a datagram that arrived through decoding, the engine's
    /// bookkeeping and dispatch.
    pub fn receive(&mut self, datagram: &[u8]) -> (r: Received)
        requires
            old(self).wf(),
        ensures
            final(self).wf(),
            r.delivery@ == delivery_of(old(self)@, datagram@),
            r.resolved@.to_set() == resolved_on_receive(old(self)@, datagram@),
            r.resolved@.no_duplicates(),
            final(self)@ == after_receive(old(self)@, datagram@),
    {
        if self.engine.is_closed() {
            let resolved: Vec<u32> = Vec::new();
            assert(resolved@.to_set() =~= Set::<u32>::empty());
            return Received { resolved, delivery: Delivery::Closed };
        }
        let packet = match Packet::decode(&self.catalog, datagram) {
            Ok(p) => p,
            Err(e) => {
                let resolved: Vec<u32> = Vec::new();
                assert(resolved@.to_set() =~= Set::<u32>::empty());
                return Received { resolved, delivery: Delivery::Undecodable(e) };
            },
        };
        let inbound = self.engine.note_inbound(&packet);
        let delivery = match inbound.verdict {
            Verdict::Duplicate => Delivery::Duplicate,
            Verdict::AckOnly => Delivery::AckOnly,
            Verdict::Deliver => {
                let message = packet.into_message();
                match self.dispatcher.dispatch(message.message_type()) {
                    Route::Reader => Delivery::ToReader(message),
                    Route::Handler(h) => Delivery::ToHandler(h, message),
                    Route::Dropped => Delivery::Dropped(message),
                }
            },
        };
        assert(self@ == after_receive(old(self)@, datagram@));
        Received { resolved: inbound.resolved, delivery }
    }

    /// Acts on the timer of `sequence` firing at `now`.
    pub fn expire(&mut self, sequence: u32, now: u64) -> (r: Expiry)
        requires
            old(self).wf(),
        ensures
            final(self).wf(),
            r@ == expiry(old(self)@.engine, sequence, now),
            final(self)@ == (CircuitView {
                engine: after_expiry(old(self)@.engine, sequence, now),
                ..old(self)@
            }),
    {
        self.engine.expire(sequence, now)
    }

    /// The send whose deadline comes first, with that deadline.
    pub fn next_deadline(&self) -> (r: Option<(u32, u64)>)
        requires
            self.wf(),
        ensures
            r is None <==> self@.engine.pending.dom() =~= Set::<u32>::empty(),
            r is Some ==> {
                &&& self@.engine.pending.contains_key(r.unwrap().0)
                &&& self@.engine.pending[r.unwrap().0].deadline == r.unwrap().1
                &&& forall|s: u32| #[trigger]
                    self@.engine.pending.contains_key(s) ==> r.unwrap().1
                        <= self@.engine.pending[s].deadline
            },
    {
        self.engine.next_deadline()
    }

    /// Sends the acknowledgments that wait in a packet of their own, where
    /// there are any and the circuit is open.
    pub fn flush_acks(&mut self) -> (r: Option<Submitted>)
        requires
            old(self).wf(),
        ensures
            final(self).wf(),
            r is Some <==> old(self)@.engine.unsent_acks.len() > 0 && submit_refusal(
                old(self)@.engine,
            ) is None,
            match r {
                None => final(self)@ == old(self)@,
                Some(s) => {
                    &&& s.sequence == old(self)@.engine.next_sequence
                    &&& s.datagram@ == encode_packet(
                        submitted_packet(old(self)@.engine, ack_message(), false),
                    )
                    &&& final(self)@ == (CircuitView {
                        engine: after_submit(old(self)@.engine, ack_message(), false, 0),
                        ..old(self)@
                    })
                },
            },
    {
        self.engine.flush_acks()
    }

    fn tear_down(&mut self, send_error: SendMessageError) -> (t: Teardown)
        requires
            old(self).wf(),
        ensures
            final(self).wf(),
            final(self)@ == after_close(old(self)@),
            t.cancelled@.to_set() == old(self)@.engine.pending.dom(),
            t.cancelled@.no_duplicates(),
            t.cancelled@.len() == old(self)@.engine.pending.dom().len(),
            t.send_error == send_error,
            t.reader == if old(self)@.reader_waiting {
                Some(ReadMessageError::Closed)
            } else {
                None
            },
    {
        let cancelled = self.engine.shutdown();
        let reader = if self.dispatcher.end_read() {
            Some(ReadMessageError::Closed)
        } else {
            None
        };
        Teardown { cancelled, send_error, reader }
    }

    /// Closes the circuit: every send in flight is cancelled, a blocked
    /// reader wakes, and nothing is sent or delivered afterwards.
    pub fn close(&mut self) -> (t: Teardown)
        requires
            old(self).wf(),
        ensures
            final(self).wf(),
            final(self)@ == after_close(old(self)@),
            t.cancelled@.to_set() == old(self)@.engine.pending.dom(),
            t.cancelled@.no_duplicates(),
            t.cancelled@.len() == old(self)@.engine.pending.dom().len(),
            t.send_error == SendMessageError::Cancelled,
            t.reader == if old(self)@.reader_waiting {
                Some(ReadMessageError::Closed)
            } else {
                None
            },
    {
        self.tear_down(SendMessageError::Cancelled)
    }

    /// The transport has failed: the circuit closes as on `close`, and the
    /// sends in flight fail with a transport error.
    pub fn transport_failed(&mut self) -> (t: Teardown)
        requires
            old(self).wf(),
        ensures
            final(self).wf(),
            final(self)@ == after_close(old(self)@),
            t.cancelled@.to_set() == old(self)@.engine.pending.dom(),
            t.cancelled@.no_duplicates(),
            t.cancelled@.len() == old(self)@.engine.pending.dom().len(),
            t.send_error == SendMessageError::Transport,
            t.reader == if old(self)@.reader_waiting {
                Some(ReadMessageError::Closed)
            } else {
                None
            },
    {
        self.tear_down(SendMessageError::Transport)
    }
}

} // verus!
