//! The two sends that finish an avatar's entry into a new region.

use crate::message::{MessageInstance, MessageView};
use crate::messages::{CompleteAgentMovement, UseCircuitCode};
use crate::model::SendMessageError;
use crate::types::Uuid;
use vstd::prelude::*;

verus! {

/// How far the initiation has come.
#[derive(Clone, Copy, Debug, PartialEq, Eq, Structural)]
pub enum InitiationStage {
    /// Nothing was sent yet.
    Start,
    /// The circuit's activation was sent and is not acknowledged yet.
    AwaitingCircuitCodeAck,
    /// The completion of the agent's movement was sent and is not
    /// acknowledged yet.
    AwaitingMovementAck,
    /// Both sends were acknowledged.
    Done,
    /// A send has failed.
    Failed,
}

/// What the caller reports to the initiation.
#[derive(Clone, Copy, Debug, PartialEq, Eq)]
pub enum InitiationEvent {
    /// The initiation is to begin.
    Begin,
    /// The send that was asked for has completed.
    Sent(Result<(), SendMessageError>),
}

/// What the initiation asks its caller to do next.
#[derive(Debug, PartialEq, Eq)]
pub enum InitiationStep {
    /// Send this message reliably, wait for its completion and report it.
    Send(MessageInstance),
    /// Both sends were acknowledged.
    Done,
    /// A send has failed, and with it the initiation.
    Failed(SendMessageError),
    /// The event was none that the initiation waits for: nothing to do.
    Ignored,
}

/// What the initiation asks its caller to do next.
pub enum InitiationStepView {
    Send(MessageView),
    Done,
    Failed(SendMessageError),
    Ignored,
}

impl View for InitiationStep {
    type V = InitiationStepView;

    open spec fn view(&self) -> InitiationStepView {
        match self {
            InitiationStep::Send(m) => InitiationStepView::Send(m@),
            InitiationStep::Done => InitiationStepView::Done,
            InitiationStep::Failed(e) => InitiationStepView::Failed(*e),
            InitiationStep::Ignored => InitiationStepView::Ignored,
        }
    }
}

/// The initiation: activate the circuit and wait for the acknowledgment,
/// then complete the agent's movement and wait for the acknowledgment.
#[derive(Clone, Copy, Debug, PartialEq, Eq)]
pub struct Initiation {
    pub stage: InitiationStage,
    pub circuit_code: u32,
    pub agent_id: Uuid,
    pub session_id: Uuid,
}

/// What the initiation asks for when `ev` is reported to it.
pub open spec fn initiation_step(i: Initiation, ev: InitiationEvent) -> InitiationStepView {
    match i.stage {
        InitiationStage::Start => match ev {
            InitiationEvent::Begin => InitiationStepView::Send(
                (UseCircuitCode {
                    code: i.circuit_code,
                    session_id: i.session_id,
                    id: i.agent_id,
                }).message(),
            ),
            _ => InitiationStepView::Ignored,
        },
        InitiationStage::AwaitingCircuitCodeAck => match ev {
            InitiationEvent::Sent(Ok(_)) => InitiationStepView::Send(
                (CompleteAgentMovement {
                    agent_id: i.agent_id,
                    session_id: i.session_id,
                    circuit_code: i.circuit_code,
                }).message(),
            ),
            InitiationEvent::Sent(Err(e)) => InitiationStepView::Failed(e),
            _ => InitiationStepView::Ignored,
        },
        InitiationStage::AwaitingMovementAck => match ev {
            InitiationEvent::Sent(Ok(_)) => InitiationStepView::Done,
            InitiationEvent::Sent(Err(e)) => InitiationStepView::Failed(e),
            _ => InitiationStepView::Ignored,
        },
        InitiationStage::Done => InitiationStepView::Ignored,
        InitiationStage::Failed => InitiationStepView::Ignored,
    }
}

/// The stage that follows a stage once a step was asked for.
pub open spec fn initiation_stage_after(stage: InitiationStage, step: InitiationStepView) -> InitiationStage {
    match step {
        InitiationStepView::Ignored => stage,
        InitiationStepView::Failed(_) => InitiationStage::Failed,
        InitiationStepView::Done => InitiationStage::Done,
        InitiationStepView::Send(_) => if stage == InitiationStage::Start {
            InitiationStage::AwaitingCircuitCodeAck
        } else {
            InitiationStage::AwaitingMovementAck
        },
    }
}

/// An initiation that has not begun.
pub fn initiate(circuit_code: u32, agent_id: Uuid, session_id: Uuid) -> (i: Initiation)
    ensures
        i == (Initiation { stage: InitiationStage::Start, circuit_code, agent_id, session_id }),
{
    Initiation { stage: InitiationStage::Start, circuit_code, agent_id, session_id }
}

impl Initiation {
    /// Takes the report of what the caller did and says what to do next.
    pub fn step(&mut self, event: InitiationEvent) -> (r: InitiationStep)
        ensures
            r@ == initiation_step(*old(self), event),
            *final(self) == (Initiation {
                stage: initiation_stage_after(old(self).stage, initiation_step(*old(self), event)),
                ..*old(self)
            }),
    {
        match self.stage {
            InitiationStage::Start => match event {
                InitiationEvent::Begin => {
                    let msg1 = UseCircuitCode {
                        code: self.circuit_code,
                        session_id: self.session_id,
                        id: self.agent_id,
                    };
                    self.stage = InitiationStage::AwaitingCircuitCodeAck;
                    InitiationStep::Send(msg1.to_message())
                },
                _ => InitiationStep::Ignored,
            },
            InitiationStage::AwaitingCircuitCodeAck => match event {
                InitiationEvent::Sent(Ok(_)) => {
                    let msg2 = CompleteAgentMovement {
                        agent_id: self.agent_id,
                        session_id: self.session_id,
                        circuit_code: self.circuit_code,
                    };
                    self.stage = InitiationStage::AwaitingMovementAck;
                    InitiationStep::Send(msg2.to_message())
                },
                InitiationEvent::Sent(Err(e)) => {
                    self.stage = InitiationStage::Failed;
                    InitiationStep::Failed(e)
                },
                _ => InitiationStep::Ignored,
            },
            InitiationStage::AwaitingMovementAck => match event {
                InitiationEvent::Sent(Ok(_)) => {
                    self.stage = InitiationStage::Done;
                    InitiationStep::Done
                },
                InitiationEvent::Sent(Err(e)) => {
                    self.stage = InitiationStage::Failed;
                    InitiationStep::Failed(e)
                },
                _ => InitiationStep::Ignored,
            },
            InitiationStage::Done => InitiationStep::Ignored,
            InitiationStage::Failed => InitiationStep::Ignored,
        }
    }
}

} // verus!
