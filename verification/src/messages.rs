//! The few messages that the stack itself writes and reads: those of the
//! opening exchange and of the ping check.

use crate::dispatch::MessageHandlerError;
use crate::message::{MessageInstance, MessageType, MessageView};
use crate::types::Uuid;
use crate::wire::{be_bytes, be_value, push_u32_be, u32_be_at};
use vstd::prelude::*;

verus! {

/// Tag of the message that activates a circuit.
pub const USE_CIRCUIT_CODE_TAG: u32 = 0xFFFF_0003;

/// Tag of the message with which a simulator greets an agent.
pub const REGION_HANDSHAKE_TAG: u32 = 0xFFFF_0094;

/// Tag of the message that completes an agent's arrival.
pub const COMPLETE_AGENT_MOVEMENT_TAG: u32 = 0xFFFF_00F9;

/// Tag of the message that reports an agent's state.
pub const AGENT_UPDATE_TAG: u32 = 4;

/// Tag of the message that asks for a ping to be answered.
pub const START_PING_CHECK_TAG: u32 = 1;

/// Tag of the message that answers a ping.
pub const COMPLETE_PING_CHECK_TAG: u32 = 2;

/// Appends the sixteen bytes of `u` to `out`.
pub fn push_uuid(out: &mut Vec<u8>, u: &Uuid)
    ensures
        final(out)@ == old(out)@ + u@,
{
    let mut i: usize = 0;
    while i < 16
        invariant
            i <= 16,
            out@ == old(out)@ + u@.subrange(0, i as int),
        decreases 16 - i,
    {
        out.push(u.bytes[i]);
        i = i + 1;
        assert(out@ =~= old(out)@ + u@.subrange(0, i as int));
    }
    assert(u@.subrange(0, 16) =~= u@);
}

/// Asks the simulator to activate the circuit that a login has set up.
#[derive(Clone, Copy, Debug, PartialEq, Eq)]
pub struct UseCircuitCode {
    pub code: u32,
    pub session_id: Uuid,
    pub id: Uuid,
}

impl UseCircuitCode {
    /// The message as it travels: the code, big-endian, then the session and
    /// the agent.
    pub open spec fn message(&self) -> MessageView {
        MessageView {
            tag: USE_CIRCUIT_CODE_TAG,
            body: be_bytes(self.code) + self.session_id@ + self.id@,
        }
    }

    pub fn to_message(&self) -> (m: MessageInstance)
        ensures
            m@ == self.message(),
    {
        let mut body: Vec<u8> = Vec::new();
        push_u32_be(&mut body, self.code);
        push_uuid(&mut body, &self.session_id);
        push_uuid(&mut body, &self.id);
        assert(body@ =~= be_bytes(self.code) + self.session_id@ + self.id@);
        MessageInstance::new(MessageType { tag: USE_CIRCUIT_CODE_TAG }, body)
    }
}

/// Tells the simulator that the agent has arrived in its region.
#[derive(Clone, Copy, Debug, PartialEq, Eq)]
pub struct CompleteAgentMovement {
    pub agent_id: Uuid,
    pub session_id: Uuid,
    pub circuit_code: u32,
}

impl CompleteAgentMovement {
    /// The message as it travels: the agent, the session, then the code,
    /// big-endian.
    pub open spec fn message(&self) -> MessageView {
        MessageView {
            tag: COMPLETE_AGENT_MOVEMENT_TAG,
            body: self.agent_id@ + self.session_id@ + be_bytes(self.circuit_code),
        }
    }

    pub fn to_message(&self) -> (m: MessageInstance)
        ensures
            m@ == self.message(),
    {
        let mut body: Vec<u8> = Vec::new();
        push_uuid(&mut body, &self.agent_id);
        push_uuid(&mut body, &self.session_id);
        push_u32_be(&mut body, self.circuit_code);
        assert(body@ =~= self.agent_id@ + self.session_id@ + be_bytes(self.circuit_code));
        MessageInstance::new(MessageType { tag: COMPLETE_AGENT_MOVEMENT_TAG }, body)
    }
}

/// Asks for a ping to be answered.
#[derive(Clone, Copy, Debug, PartialEq, Eq, Structural)]
pub struct StartPingCheck {
    pub ping_id: u8,
    pub oldest_unacked: u32,
}

impl StartPingCheck {
    /// Whether a message is a ping request: it has that tag and a body of the
    /// ping's number and one sequence number.
    pub open spec fn matches(m: MessageView) -> bool {
        m.tag == START_PING_CHECK_TAG && m.body.len() == 5
    }

    /// The ping request that a message holds.
    pub open spec fn of_message(m: MessageView) -> StartPingCheck {
        StartPingCheck {
            ping_id: m.body[0],
            oldest_unacked: be_value(m.body.subrange(1, 5)) as u32,
        }
    }

    /// Reads a ping request; a message that is none belongs to another
    /// handler.
    pub fn from_message(m: &MessageInstance) -> (r: Result<StartPingCheck, MessageHandlerError>)
        ensures
            r is Ok <==> Self::matches(m@),
            r is Ok ==> r.unwrap() == Self::of_message(m@),
            r is Err ==> r.unwrap_err() == MessageHandlerError::WrongHandler,
    {
        if m.msg_type.tag == START_PING_CHECK_TAG && m.body.len() == 5 {
            let oldest_unacked: u32 = u32_be_at(m.body.as_slice(), 1);
            Ok(StartPingCheck { ping_id: m.body[0], oldest_unacked })
        } else {
            Err(MessageHandlerError::WrongHandler)
        }
    }
}

/// Answers a ping.
#[derive(Clone, Copy, Debug, PartialEq, Eq, Structural)]
pub struct CompletePingCheck {
    pub ping_id: u8,
}

impl CompletePingCheck {
    /// The message as it travels: the ping's number.
    pub open spec fn message(&self) -> MessageView {
        MessageView { tag: COMPLETE_PING_CHECK_TAG, body: seq![self.ping_id] }
    }

    pub fn to_message(&self) -> (m: MessageInstance)
        ensures
            m@ == self.message(),
    {
        let mut body: Vec<u8> = Vec::new();
        body.push(self.ping_id);
        assert(body@ =~= seq![self.ping_id]);
        MessageInstance::new(MessageType { tag: COMPLETE_PING_CHECK_TAG }, body)
    }
}

/// The handler of ping requests: the answer to send back, unreliably, with
/// the number of the ping that was asked for.
pub fn answer_ping(m: &MessageInstance) -> (r: Result<MessageInstance, MessageHandlerError>)
    ensures
        r is Ok <==> StartPingCheck::matches(m@),
        r is Ok ==> r.unwrap()@ == (CompletePingCheck { ping_id: m@.body[0] }).message(),
        r is Err ==> r.unwrap_err() == MessageHandlerError::WrongHandler,
{
    match StartPingCheck::from_message(m) {
        Ok(start_ping_check) => {
            let response = CompletePingCheck { ping_id: start_ping_check.ping_id };
            Ok(response.to_message())
        },
        Err(e) => Err(e),
    }
}

} // verus!
