//! The packet envelope: one flag byte, the sequence number, the message's type
//! tag and body, then the acknowledgments that ride along and their count.
//!
//! ```text
//! flags | sequence (4, big-endian) | tag (4, big-endian) | body | acks (4 each) | count (1)
//! ```
//!
//! The acknowledgments and their count are present only where the flag byte
//! says so.

use crate::message::{decode_body, Catalog, DecodeError, MessageInstance, MessageType, MessageView};
use crate::wire::{be_bytes, be_value, lemma_be_value_of_bytes, push_u32_be, u32_be_at};
use vstd::prelude::*;

verus! {

/// Length of the fixed header: flags, sequence number and type tag.
pub const HEADER_LEN: usize = 9;

/// Flag bit of a packet that asks for an acknowledgment.
pub const FLAG_RELIABLE: u8 = 0x40;

/// Flag bit of a packet that is sent again.
pub const FLAG_RESENT: u8 = 0x20;

/// Flag bit of a packet that ends in acknowledgments.
pub const FLAG_ACKS: u8 = 0x10;

/// The most acknowledgments that one packet can carry.
pub const MAX_ACKS: usize = 255;

/// What a packet is.
pub struct PacketView {
    pub sequence: u32,
    pub reliable: bool,
    pub resent: bool,
    pub acks: Seq<u32>,
    pub message: MessageView,
}

/// The wire-level envelope of one message.
#[derive(Debug, PartialEq, Eq)]
pub struct Packet {
    sequence: u32,
    reliable: bool,
    resent: bool,
    acks: Vec<u32>,
    message: MessageInstance,
}

impl View for Packet {
    type V = PacketView;

    closed spec fn view(&self) -> PacketView {
        PacketView {
            sequence: self.sequence,
            reliable: self.reliable,
            resent: self.resent,
            acks: self.acks@,
            message: self.message@,
        }
    }
}

/// Whether `flag` is set in `flags`.
pub open spec fn has_flag(flags: u8, flag: u8) -> bool {
    flags & flag != 0
}

/// The flag byte of a packet.
pub open spec fn flag_byte(reliable: bool, resent: bool, has_acks: bool) -> u8 {
    (if reliable { FLAG_RELIABLE } else { 0u8 }) | (if resent { FLAG_RESENT } else { 0u8 }) | (if has_acks { FLAG_ACKS } else { 0u8 })
}

/// The flag byte gives back the three flags that it was made of.
pub proof fn lemma_flag_byte(reliable: bool, resent: bool, has_acks: bool)
    ensures
        has_flag(flag_byte(reliable, resent, has_acks), FLAG_RELIABLE) == reliable,
        has_flag(flag_byte(reliable, resent, has_acks), FLAG_RESENT) == resent,
        has_flag(flag_byte(reliable, resent, has_acks), FLAG_ACKS) == has_acks,
{
    let a: u8 = if reliable { 0x40u8 } else { 0u8 };
    let b: u8 = if resent { 0x20u8 } else { 0u8 };
    let c: u8 = if has_acks { 0x10u8 } else { 0u8 };
    assert(((a | b | c) & 0x40u8 != 0) == (a == 0x40u8) && ((a | b | c) & 0x20u8 != 0) == (b
        == 0x20u8) && ((a | b | c) & 0x10u8 != 0) == (c == 0x10u8)) by (bit_vector)
        requires
            a == 0x40u8 || a == 0u8,
            b == 0x20u8 || b == 0u8,
            c == 0x10u8 || c == 0u8,
    ;
}

/// The bytes of a list of acknowledgments, each big-endian, in order.
pub open spec fn acks_bytes(acks: Seq<u32>) -> Seq<u8> {
    Seq::new(4 * acks.len(), |j: int| be_bytes(acks[j / 4])[j % 4])
}

/// What follows the body: nothing where there is no acknowledgment, else the
/// acknowledgments and their count.
pub open spec fn trailer_bytes(acks: Seq<u32>) -> Seq<u8> {
    if acks.len() == 0 {
        Seq::<u8>::empty()
    } else {
        acks_bytes(acks).push(acks.len() as u8)
    }
}

/// The datagram that carries a packet.
pub open spec fn encode_packet(p: PacketView) -> Seq<u8> {
    seq![flag_byte(p.reliable, p.resent, p.acks.len() > 0)] + be_bytes(p.sequence) + be_bytes(
        p.message.tag,
    ) + p.message.body + trailer_bytes(p.acks)
}

/// The `n` acknowledgments that stand in `bytes` from `start` on.
pub open spec fn acks_at(bytes: Seq<u8>, start: int, n: nat) -> Seq<u32> {
    Seq::new(n, |k: int| be_value(bytes.subrange(start + 4 * k, start + 4 * k + 4)) as u32)
}

/// How many bytes of `bytes` the acknowledgments and their count take.
pub open spec fn trailer_len(bytes: Seq<u8>) -> nat
    recommends
        bytes.len() >= HEADER_LEN,
{
    if has_flag(bytes[0], FLAG_ACKS) {
        (4 * bytes[bytes.len() - 1] + 1) as nat
    } else {
        0
    }
}

/// The packet that a datagram carries, or why it carries none.
pub open spec fn decode_packet(rules: Map<u32, crate::message::BodyRule>, bytes: Seq<u8>) -> Result<
    PacketView,
    DecodeError,
> {
    if bytes.len() < HEADER_LEN {
        Err(DecodeError::Truncated)
    } else if bytes.len() < HEADER_LEN + trailer_len(bytes) {
        Err(DecodeError::Truncated)
    } else {
        let body_end = bytes.len() - trailer_len(bytes);
        match decode_body(
            rules,
            be_value(bytes.subrange(5, 9)) as u32,
            bytes.subrange(9, body_end),
        ) {
            Err(e) => Err(e),
            Ok(m) => Ok(
                PacketView {
                    sequence: be_value(bytes.subrange(1, 5)) as u32,
                    reliable: has_flag(bytes[0], FLAG_RELIABLE),
                    resent: has_flag(bytes[0], FLAG_RESENT),
                    acks: acks_at(
                        bytes,
                        body_end,
                        if has_flag(bytes[0], FLAG_ACKS) {
                            bytes[bytes.len() - 1] as nat
                        } else {
                            0
                        },
                    ),
                    message: m,
                },
            ),
        }
    }
}

/// A packet can be sent if its acknowledgments can be counted in one byte.
pub open spec fn sendable(p: PacketView) -> bool {
    p.acks.len() <= MAX_ACKS
}

impl Packet {
    /// Every packet can be sent.
    #[verifier::type_invariant]
    spec fn wf(&self) -> bool {
        self.acks@.len() <= MAX_ACKS
    }

    /// A packet of the given parts; `None` where there are more
    /// acknowledgments than one packet can carry.
    pub fn new(
        sequence: u32,
        reliable: bool,
        resent: bool,
        acks: Vec<u32>,
        message: MessageInstance,
    ) -> (r: Option<Packet>)
        ensures
            r is Some <==> acks@.len() <= MAX_ACKS,
            r is Some ==> r.unwrap()@ == (PacketView {
                sequence,
                reliable,
                resent,
                acks: acks@,
                message: message@,
            }),
    {
        if acks.len() <= MAX_ACKS {
            Some(Packet { sequence, reliable, resent, acks, message })
        } else {
            None
        }
    }

    pub fn sequence(&self) -> (s: u32)
        ensures
            s == self@.sequence,
    {
        self.sequence
    }

    pub fn reliable(&self) -> (b: bool)
        ensures
            b == self@.reliable,
    {
        self.reliable
    }

    pub fn resent(&self) -> (b: bool)
        ensures
            b == self@.resent,
    {
        self.resent
    }

    pub fn acks(&self) -> (a: &Vec<u32>)
        ensures
            a@ == self@.acks,
            sendable(self@),
    {
        proof {
            use_type_invariant(self);
        }
        &self.acks
    }

    pub fn message(&self) -> (m: &MessageInstance)
        ensures
            m@ == self@.message,
    {
        &self.message
    }

    /// Takes the message out of the packet.
    pub fn into_message(self) -> (m: MessageInstance)
        ensures
            m@ == self@.message,
    {
        self.message
    }

    /// Serialises the packet.
    pub fn encode(&self) -> (out: Vec<u8>)
        ensures
            out@ == encode_packet(self@),
    {
        proof {
            use_type_invariant(self);
        }
        let has_acks: bool = self.acks.len() > 0;
        let flags: u8 = (if self.reliable { FLAG_RELIABLE } else { 0u8 }) | (if self.resent { FLAG_RESENT } else { 0u8 }) | (if has_acks { FLAG_ACKS } else { 0u8 });
        let mut out: Vec<u8> = Vec::new();
        out.push(flags);
        push_u32_be(&mut out, self.sequence);
        push_u32_be(&mut out, self.message.msg_type.tag);
        let ghost head = out@;
        let mut i: usize = 0;
        while i < self.message.body.len()
            invariant
                i <= self.message.body@.len(),
                out@ == head + self.message.body@.subrange(0, i as int),
            decreases self.message.body@.len() - i,
        {
            out.push(self.message.body[i]);
            i = i + 1;
            assert(out@ =~= head + self.message.body@.subrange(0, i as int));
        }
        assert(self.message.body@.subrange(0, i as int) =~= self.message.body@);
        let ghost upto_body = out@;
        if has_acks {
            let mut k: usize = 0;
            while k < self.acks.len()
                invariant
                    k <= self.acks@.len(),
                    out@ == upto_body + acks_bytes(self.acks@.subrange(0, k as int)),
                decreases self.acks@.len() - k,
            {
                let ghost before = out@;
                push_u32_be(&mut out, self.acks[k]);
                k = k + 1;
                assert(out@ =~= upto_body + acks_bytes(self.acks@.subrange(0, k as int))) by {
                    let longer = acks_bytes(self.acks@.subrange(0, k as int));
                    let shorter = acks_bytes(self.acks@.subrange(0, k - 1));
                    assert(longer =~= shorter + be_bytes(self.acks@[k - 1]));
                }
            }
            assert(self.acks@.subrange(0, k as int) =~= self.acks@);
            out.push(self.acks.len() as u8);
        }
        assert(out@ =~= encode_packet(self@));
        out
    }

    /// Reads a packet from a datagram, with the catalog deciding on the body.
    pub fn decode(catalog: &Catalog, bytes: &[u8]) -> (r: Result<Packet, DecodeError>)
        ensures
            match r {
                Ok(p) => decode_packet(catalog@, bytes@) == Ok::<PacketView, DecodeError>(p@),
                Err(e) => decode_packet(catalog@, bytes@) == Err::<PacketView, DecodeError>(e),
            },
    {
        let len: usize = bytes.len();
        if len < HEADER_LEN {
            return Err(DecodeError::Truncated);
        }
        let flags: u8 = bytes[0];
        let has_acks: bool = flags & FLAG_ACKS != 0;
        let count: usize = if has_acks { bytes[len - 1] as usize } else { 0 };
        let trailer: usize = if has_acks { 4 * count + 1 } else { 0 };
        if len - HEADER_LEN < trailer {
            return Err(DecodeError::Truncated);
        }
        let body_end: usize = len - trailer;
        let sequence: u32 = u32_be_at(bytes, 1);
        let tag: u32 = u32_be_at(bytes, 5);
        let body = vstd::slice::slice_subrange(bytes, HEADER_LEN, body_end);
        let message = match catalog.decode(MessageType { tag }, body) {
            Ok(m) => m,
            Err(e) => { return Err(e); },
        };
        let mut acks: Vec<u32> = Vec::new();
        let mut k: usize = 0;
        while k < count
            invariant
                k <= count <= MAX_ACKS,
                has_acks || count == 0,
                bytes@.len() == len,
                has_acks ==> body_end + 4 * count + 1 == bytes@.len(),
                acks@ == acks_at(bytes@, body_end as int, k as nat),
            decreases count - k,
        {
            let ack: u32 = u32_be_at(bytes, body_end + 4 * k);
            acks.push(ack);
            k = k + 1;
            assert(acks@ =~= acks_at(bytes@, body_end as int, k as nat));
        }
        Ok(
            Packet {
                sequence,
                reliable: flags & FLAG_RELIABLE != 0,
                resent: flags & FLAG_RESENT != 0,
                acks,
                message,
            },
        )
    }
}

/// Decoding the encoding of a packet gives the packet back, whenever the
/// catalog accepts its message and its acknowledgments fit in one packet.
pub proof fn law_round_trip(rules: Map<u32, crate::message::BodyRule>, p: PacketView)
    requires
        sendable(p),
        decode_body(rules, p.message.tag, p.message.body) is Ok,
    ensures
        decode_packet(rules, encode_packet(p)) == Ok::<PacketView, DecodeError>(p),
{
    let e = encode_packet(p);
    let n = p.acks.len();
    let has_acks = n > 0;
    let body = p.message.body;
    lemma_flag_byte(p.reliable, p.resent, has_acks);
    lemma_be_value_of_bytes(p.sequence);
    lemma_be_value_of_bytes(p.message.tag);
    assert(e.len() == HEADER_LEN + body.len() + trailer_bytes(p.acks).len());
    assert(e[0] == flag_byte(p.reliable, p.resent, has_acks));
    assert(e.subrange(1, 5) =~= be_bytes(p.sequence));
    assert(e.subrange(5, 9) =~= be_bytes(p.message.tag));
    if has_acks {
        assert(e[e.len() - 1] == n as u8);
        assert(trailer_len(e) == 4 * n + 1);
    }
    let body_end = e.len() - trailer_len(e);
    assert(body_end == HEADER_LEN + body.len());
    assert(e.subrange(9, body_end) =~= body);
    let got = acks_at(e, body_end, n);
    assert(got =~= p.acks) by {
        assert forall|k: int| 0 <= k < n implies got[k] == p.acks[k] by {
            assert(e.subrange(body_end + 4 * k, body_end + 4 * k + 4) =~= be_bytes(p.acks[k]));
            lemma_be_value_of_bytes(p.acks[k]);
        }
    }
}

} // verus!
