//! The dispatch and wait registry: which consumer a delivered message goes to.
//!
//! Handlers are known here by an identifier that the caller chose; the caller
//! keeps the callbacks and runs the one that a route names.

use crate::message::MessageType;
use std::collections::HashMap;
use vstd::prelude::*;

verus! {

broadcast use vstd::std_specs::hash::group_hash_axioms;

/// What a handler reports when it could not deal with a message.
#[derive(Clone, Copy, Debug, PartialEq, Eq, Structural)]
pub enum MessageHandlerError {
    /// The message is of another type than the handler was written for.
    WrongHandler,
    /// The transport failed while the handler was responding.
    Transport,
}

/// Why a blocking read ended without a message.
#[derive(Clone, Copy, Debug, PartialEq, Eq, Structural)]
pub enum ReadMessageError {
    /// No message came in time.
    Timeout,
    /// The circuit was closed.
    Closed,
}

/// The one consumer of a delivered message.
#[derive(Clone, Copy, Debug, PartialEq, Eq, Structural)]
pub enum Route {
    /// The blocking reader takes it.
    Reader,
    /// The handler of this identifier takes it.
    Handler(u64),
    /// Nobody takes it.
    Dropped,
}

/// The consumer of a message of type `tag`: a waiting reader before a
/// handler, a handler before nobody.
pub open spec fn route(reader_waiting: bool, handlers: Map<u32, u64>, tag: u32) -> Route {
    if reader_waiting {
        Route::Reader
    } else if handlers.contains_key(tag) {
        Route::Handler(handlers[tag])
    } else {
        Route::Dropped
    }
}

/// The handler registered for each message type, at most one per type.
pub struct MessageHandlers {
    table: HashMap<u32, u64>,
}

impl View for MessageHandlers {
    type V = Map<u32, u64>;

    closed spec fn view(&self) -> Map<u32, u64> {
        self.table@
    }
}

impl MessageHandlers {
    /// A table without handlers.
    pub fn new() -> (h: Self)
        ensures
            h@ == Map::<u32, u64>::empty(),
    {
        MessageHandlers { table: HashMap::new() }
    }

    /// Registers `handler` for `msg_type`, in place of any earlier handler.
    pub fn insert(&mut self, msg_type: MessageType, handler: u64)
        ensures
            final(self)@ == old(self)@.insert(msg_type.tag, handler),
    {
        self.table.insert(msg_type.tag, handler);
    }

    /// The handler registered for `msg_type`.
    pub fn get(&self, msg_type: MessageType) -> (r: Option<u64>)
        ensures
            r is Some <==> self@.contains_key(msg_type.tag),
            r is Some ==> r.unwrap() == self@[msg_type.tag],
    {
        match self.table.get(&msg_type.tag) {
            Some(h) => Some(*h),
            None => None,
        }
    }
}

/// What the registry is: its handlers, and whether a reader waits.
pub struct DispatcherView {
    pub handlers: Map<u32, u64>,
    pub reader_waiting: bool,
}

/// The handler table together with the slot of the one blocking reader.
pub struct Dispatcher {
    handlers: MessageHandlers,
    reader_waiting: bool,
}

impl View for Dispatcher {
    type V = DispatcherView;

    closed spec fn view(&self) -> DispatcherView {
        DispatcherView { handlers: self.handlers@, reader_waiting: self.reader_waiting }
    }
}

impl Dispatcher {
    /// A registry with the given handlers and no reader.
    pub fn new(handlers: MessageHandlers) -> (d: Self)
        ensures
            d@ == (DispatcherView { handlers: handlers@, reader_waiting: false }),
    {
        Dispatcher { handlers, reader_waiting: false }
    }

    /// Registers `handler` for `msg_type`, in place of any earlier handler.
    pub fn insert(&mut self, msg_type: MessageType, handler: u64)
        ensures
            final(self)@ == (DispatcherView {
                handlers: old(self)@.handlers.insert(msg_type.tag, handler),
                ..old(self)@
            }),
    {
        self.handlers.insert(msg_type, handler);
    }

    /// Whether a reader waits.
    pub fn reader_waiting(&self) -> (b: bool)
        ensures
            b == self@.reader_waiting,
    {
        self.reader_waiting
    }

    /// A reader starts to wait for the next message.
    pub fn begin_read(&mut self)
        ensures
            final(self)@ == (DispatcherView { reader_waiting: true, ..old(self)@ }),
    {
        self.reader_waiting = true;
    }

    /// The reader stops waiting. Returns whether one was waiting: if not, its
    /// message has been handed over already.
    pub fn end_read(&mut self) -> (was_waiting: bool)
        ensures
            was_waiting == old(self)@.reader_waiting,
            final(self)@ == (DispatcherView { reader_waiting: false, ..old(self)@ }),
    {
        let was_waiting = self.reader_waiting;
        self.reader_waiting = false;
        was_waiting
    }

    /// Picks the one consumer of a message of type `msg_type`. A reader that
    /// takes the message waits no longer.
    pub fn dispatch(&mut self, msg_type: MessageType) -> (r: Route)
        ensures
            r == route(old(self)@.reader_waiting, old(self)@.handlers, msg_type.tag),
            final(self)@ == (DispatcherView { reader_waiting: false, ..old(self)@ }),
    {
        if self.reader_waiting {
            self.reader_waiting = false;
            Route::Reader
        } else {
            match self.handlers.get(msg_type) {
                Some(h) => Route::Handler(h),
                None => Route::Dropped,
            }
        }
    }
}

} // verus!
