//! Messages as the circuit sees them: a type tag and an opaque body, and the
//! catalog that says which tags exist and which bodies they admit.

use std::collections::HashMap;
use vstd::prelude::*;

verus! {

broadcast use vstd::std_specs::hash::group_hash_axioms;

/// Tag of the message that carries nothing but acknowledgments.
pub const PACKET_ACK_TAG: u32 = 0xFFFF_FFFB;

/// The tag by which messages are told apart and dispatched.
#[derive(Clone, Copy, Debug, PartialEq, Eq, Structural, Hash)]
pub struct MessageType {
    pub tag: u32,
}

/// Why a datagram could not be decoded.
#[derive(Clone, Copy, Debug, PartialEq, Eq, Structural)]
pub enum DecodeError {
    /// The buffer ends before the envelope does.
    Truncated,
    /// The catalog has no entry for the body's type tag.
    UnknownMessageType,
    /// The catalog knows the tag but rejects the body.
    MalformedBody,
}

/// What a message is: its tag and the bytes of its body.
pub struct MessageView {
    pub tag: u32,
    pub body: Seq<u8>,
}

/// One decoded message. The circuit reads its type and nothing else.
#[derive(Clone, Debug, PartialEq, Eq)]
pub struct MessageInstance {
    pub msg_type: MessageType,
    pub body: Vec<u8>,
}

impl View for MessageInstance {
    type V = MessageView;

    open spec fn view(&self) -> MessageView {
        MessageView { tag: self.msg_type.tag, body: self.body@ }
    }
}

/// Copies `bytes` into a vector of its own.
pub fn copy_bytes(bytes: &[u8]) -> (out: Vec<u8>)
    ensures
        out@ == bytes@,
{
    let mut out: Vec<u8> = Vec::new();
    let mut i: usize = 0;
    while i < bytes.len()
        invariant
            i <= bytes@.len(),
            out@ == bytes@.subrange(0, i as int),
        decreases bytes@.len() - i,
    {
        out.push(bytes[i]);
        i = i + 1;
        assert(out@ =~= bytes@.subrange(0, i as int));
    }
    assert(bytes@.subrange(0, i as int) =~= bytes@);
    out
}

impl MessageInstance {
    /// A message of type `msg_type` with the given body.
    pub fn new(msg_type: MessageType, body: Vec<u8>) -> (m: Self)
        ensures
            m@ == (MessageView { tag: msg_type.tag, body: body@ }),
    {
        MessageInstance { msg_type, body }
    }

    /// The key under which this message is dispatched.
    pub fn message_type(&self) -> (t: MessageType)
        ensures
            t.tag == self@.tag,
    {
        self.msg_type
    }

    /// A second message with the same tag and body.
    pub fn duplicate(&self) -> (m: Self)
        ensures
            m@ == self@,
    {
        MessageInstance { msg_type: self.msg_type, body: copy_bytes(self.body.as_slice()) }
    }
}

/// The bodies that a message type admits: those whose length lies between
/// `min_len` and `max_len`, both included.
#[derive(Clone, Copy, Debug, PartialEq, Eq, Structural)]
pub struct BodyRule {
    pub min_len: usize,
    pub max_len: usize,
}

impl BodyRule {
    pub open spec fn admits(&self, body: Seq<u8>) -> bool {
        self.min_len <= body.len() <= self.max_len
    }
}

/// What decoding a body of the given tag yields under the given rules. The
/// acknowledgment message is known to every catalog and has an empty body.
pub open spec fn decode_body(rules: Map<u32, BodyRule>, tag: u32, body: Seq<u8>) -> Result<
    MessageView,
    DecodeError,
> {
    if tag == PACKET_ACK_TAG {
        if body.len() == 0 {
            Ok(MessageView { tag, body })
        } else {
            Err(DecodeError::MalformedBody)
        }
    } else if !rules.contains_key(tag) {
        Err(DecodeError::UnknownMessageType)
    } else if rules[tag].admits(body) {
        Ok(MessageView { tag, body })
    } else {
        Err(DecodeError::MalformedBody)
    }
}

/// The table of message types that can be decoded.
pub struct Catalog {
    rules: HashMap<u32, BodyRule>,
}

impl View for Catalog {
    type V = Map<u32, BodyRule>;

    closed spec fn view(&self) -> Map<u32, BodyRule> {
        self.rules@
    }
}

impl Catalog {
    /// A catalog that knows only the acknowledgment message.
    pub fn new() -> (c: Self)
        ensures
            c@ == Map::<u32, BodyRule>::empty(),
    {
        Catalog { rules: HashMap::new() }
    }

    /// Makes `msg_type` known, with `rule` in place of any earlier rule.
    pub fn register(&mut self, msg_type: MessageType, rule: BodyRule)
        ensures
            final(self)@ == old(self)@.insert(msg_type.tag, rule),
    {
        self.rules.insert(msg_type.tag, rule);
    }

    /// Whether a message of this view decodes under this catalog.
    pub open spec fn accepts(&self, m: MessageView) -> bool {
        decode_body(self@, m.tag, m.body) == Ok::<MessageView, DecodeError>(m)
    }

    /// Decodes the body of a message whose tag has been read.
    pub fn decode(&self, msg_type: MessageType, body: &[u8]) -> (r: Result<
        MessageInstance,
        DecodeError,
    >)
        ensures
            match r {
                Ok(m) => decode_body(self@, msg_type.tag, body@) == Ok::<MessageView, DecodeError>(
                    m@,
                ),
                Err(e) => decode_body(self@, msg_type.tag, body@) == Err::<
                    MessageView,
                    DecodeError,
                >(e),
            },
    {
        let tag: u32 = msg_type.tag;
        if tag == PACKET_ACK_TAG {
            if body.len() == 0 {
                Ok(MessageInstance { msg_type, body: copy_bytes(body) })
            } else {
                Err(DecodeError::MalformedBody)
            }
        } else {
            match self.rules.get(&tag) {
                None => Err(DecodeError::UnknownMessageType),
                Some(rule) => {
                    if rule.min_len <= body.len() && body.len() <= rule.max_len {
                        Ok(MessageInstance { msg_type, body: copy_bytes(body) })
                    } else {
                        Err(DecodeError::MalformedBody)
                    }
                },
            }
        }
    }

    /// The tag and body bytes under which `m` travels.
    pub fn encode(m: &MessageInstance) -> (r: (MessageType, Vec<u8>))
        ensures
            r.0.tag == m@.tag,
            r.1@ == m@.body,
    {
        (m.msg_type, copy_bytes(m.body.as_slice()))
    }
}

/// A body that the catalog accepts is decoded to the message that it was
/// encoded from, whatever the rules are.
pub proof fn law_body_round_trip(rules: Map<u32, BodyRule>, m: MessageView)
    requires
        decode_body(rules, m.tag, m.body) is Ok,
    ensures
        decode_body(rules, m.tag, m.body) == Ok::<MessageView, DecodeError>(m),
{
}

} // verus!
