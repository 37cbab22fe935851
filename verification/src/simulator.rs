//! Connecting to one simulator: what is needed to reach it, and the scripted
//! opening exchange on its circuit.

use crate::circuit::{Circuit, CircuitView};
use crate::codec::encode_packet;
use crate::dispatch::{MessageHandlerError, MessageHandlers, ReadMessageError};
use crate::message::{Catalog, MessageInstance, MessageType, MessageView};
use crate::messages::{
    answer_ping, CompleteAgentMovement, CompletePingCheck, StartPingCheck, UseCircuitCode,
    REGION_HANDSHAKE_TAG, START_PING_CHECK_TAG,
};
use crate::model::{after_submit, initial_engine, submit_refusal, submitted_packet, SendMessageError};
use crate::reliability::{CircuitConfig, Submitted, DEFAULT_SEEN_LIMIT};
use crate::types::{Ip4Addr, Uuid};
use vstd::prelude::*;

verus! {

/// Where a simulator is reached.
#[derive(Clone, Copy, Debug, PartialEq, Eq, Hash)]
pub struct SimLocator {
    pub sim_ip: Ip4Addr,
    pub sim_port: u16,
}

/// What a login hands out about the simulator to connect to.
#[derive(Clone, Debug)]
pub struct LoginResponse {
    pub seed_capability: String,
    pub agent_id: Uuid,
    pub session_id: Uuid,
    pub circuit_code: u32,
    pub sim_ip: Ip4Addr,
    pub sim_port: u16,
}

/// What is needed to connect to a simulator.
#[derive(Clone, Debug)]
pub struct ConnectInfo {
    pub capabilities_seed: String,
    pub agent_id: Uuid,
    pub session_id: Uuid,
    pub circuit_code: u32,
    pub sim_ip: Ip4Addr,
    pub sim_port: u16,
}

impl From<LoginResponse> for ConnectInfo {
    fn from(l: LoginResponse) -> (c: Self) {
        ConnectInfo {
            capabilities_seed: l.seed_capability,
            agent_id: l.agent_id,
            session_id: l.session_id,
            circuit_code: l.circuit_code,
            sim_ip: l.sim_ip,
            sim_port: l.sim_port,
        }
    }
}

impl vstd::std_specs::convert::FromSpecImpl<LoginResponse> for ConnectInfo {
    open spec fn obeys_from_spec() -> bool {
        true
    }

    open spec fn from_spec(l: LoginResponse) -> Self {
        ConnectInfo {
            capabilities_seed: l.seed_capability,
            agent_id: l.agent_id,
            session_id: l.session_id,
            circuit_code: l.circuit_code,
            sim_ip: l.sim_ip,
            sim_port: l.sim_port,
        }
    }
}

impl ConnectInfo {
    /// The address that the simulator's datagrams go to.
    pub fn locator(&self) -> (l: SimLocator)
        ensures
            l.sim_ip == self.sim_ip,
            l.sim_port == self.sim_port,
    {
        SimLocator { sim_ip: self.sim_ip, sim_port: self.sim_port }
    }
}

/// The identifier under which the handler of ping requests is registered.
pub const PING_HANDLER: u64 = 0;

/// Milliseconds that a send of the opening exchange waits for its
/// acknowledgment.
pub const SEND_TIMEOUT_MS: u64 = 5000;

/// Transmissions of each send of the opening exchange.
pub const SEND_ATTEMPTS: usize = 5;

/// Milliseconds that the opening exchange waits for the simulator's
/// handshake.
pub const HANDSHAKE_TIMEOUT_MS: u64 = 15_000;

/// Why a connection could not be made.
#[derive(Clone, Debug, PartialEq, Eq)]
pub enum ConnectErrorKind {
    /// The capabilities could not be fetched.
    CapabilitiesError,
    /// The transport could not be opened or failed.
    IoError,
    /// The channel to the receive path broke.
    MpscError,
    /// A read of the opening exchange failed.
    ReadMessageError(ReadMessageError),
    /// A send of the opening exchange failed.
    SendMessageError(SendMessageError),
    /// Anything else, in words.
    Msg(String),
}

/// What a connection error is.
pub enum ConnectErrorView {
    CapabilitiesError,
    IoError,
    MpscError,
    ReadMessageError(ReadMessageError),
    SendMessageError(SendMessageError),
    Msg(Seq<char>),
}

impl View for ConnectErrorKind {
    type V = ConnectErrorView;

    open spec fn view(&self) -> ConnectErrorView {
        match self {
            ConnectErrorKind::CapabilitiesError => ConnectErrorView::CapabilitiesError,
            ConnectErrorKind::IoError => ConnectErrorView::IoError,
            ConnectErrorKind::MpscError => ConnectErrorView::MpscError,
            ConnectErrorKind::ReadMessageError(e) => ConnectErrorView::ReadMessageError(*e),
            ConnectErrorKind::SendMessageError(e) => ConnectErrorView::SendMessageError(*e),
            ConnectErrorKind::Msg(s) => ConnectErrorView::Msg(s@),
        }
    }
}

/// How far the opening exchange has come.
#[derive(Clone, Copy, Debug, PartialEq, Eq, Structural)]
pub enum BootstrapStage {
    /// Nothing was sent yet.
    Start,
    /// The circuit's activation was sent and is not acknowledged yet.
    AwaitingCircuitCodeAck,
    /// The simulator's handshake is awaited.
    AwaitingHandshake,
    /// The completion of the agent's movement was sent and is not
    /// acknowledged yet.
    AwaitingMovementAck,
    /// The agent's first state update was sent and is not acknowledged yet.
    AwaitingUpdateAck,
    /// The exchange is over and the session is active.
    Connected,
    /// The exchange has failed.
    Failed,
}

/// What the caller reports to the opening exchange.
#[derive(Debug, PartialEq, Eq)]
pub enum BootstrapEvent {
    /// The exchange is to begin.
    Begin,
    /// The send that was asked for has completed.
    Sent(Result<(), SendMessageError>),
    /// The read that was asked for has completed.
    Read(Result<MessageInstance, ReadMessageError>),
}

/// What the caller reports to the opening exchange.
pub enum BootstrapEventView {
    Begin,
    Sent(Result<(), SendMessageError>),
    Read(Result<MessageView, ReadMessageError>),
}

impl View for BootstrapEvent {
    type V = BootstrapEventView;

    open spec fn view(&self) -> BootstrapEventView {
        match self {
            BootstrapEvent::Begin => BootstrapEventView::Begin,
            BootstrapEvent::Sent(r) => BootstrapEventView::Sent(*r),
            BootstrapEvent::Read(Ok(m)) => BootstrapEventView::Read(Ok(m@)),
            BootstrapEvent::Read(Err(e)) => BootstrapEventView::Read(Err(*e)),
        }
    }
}

/// What the opening exchange asks its caller to do next.
#[derive(Debug, PartialEq, Eq)]
pub enum BootstrapStep {
    /// Send this message reliably, wait for its completion and report it.
    Send(MessageInstance),
    /// Read one message within this many milliseconds and report it.
    Read { timeout_ms: u64 },
    /// Send the agent's first state update reliably, wait for its completion
    /// and report it.
    SendAgentUpdate { agent_id: Uuid, session_id: Uuid },
    /// The session is active.
    Connected,
    /// The connection attempt has failed.
    Failed(ConnectErrorKind),
    /// The event was none that the exchange waits for: nothing to do.
    Ignored,
}

/// What the opening exchange asks its caller to do next.
pub enum BootstrapStepView {
    Send(MessageView),
    Read { timeout_ms: u64 },
    SendAgentUpdate { agent_id: Uuid, session_id: Uuid },
    Connected,
    Failed(ConnectErrorView),
    Ignored,
}

impl View for BootstrapStep {
    type V = BootstrapStepView;

    open spec fn view(&self) -> BootstrapStepView {
        match self {
            BootstrapStep::Send(m) => BootstrapStepView::Send(m@),
            BootstrapStep::Read { timeout_ms } => BootstrapStepView::Read { timeout_ms: *timeout_ms },
            BootstrapStep::SendAgentUpdate { agent_id, session_id } => BootstrapStepView::SendAgentUpdate {
                agent_id: *agent_id,
                session_id: *session_id,
            },
            BootstrapStep::Connected => BootstrapStepView::Connected,
            BootstrapStep::Failed(e) => BootstrapStepView::Failed(e@),
            BootstrapStep::Ignored => BootstrapStepView::Ignored,
        }
    }
}

/// What the opening exchange is.
pub struct BootstrapView {
    pub stage: BootstrapStage,
    pub agent_id: Uuid,
    pub session_id: Uuid,
    pub circuit_code: u32,
    pub region_handshake: Option<MessageView>,
}

/// The scripted opening exchange: activate the circuit, await the
/// simulator's handshake, complete the agent's movement, report the agent's
/// first state.
#[derive(Debug, PartialEq, Eq)]
pub struct Bootstrap {
    stage: BootstrapStage,
    agent_id: Uuid,
    session_id: Uuid,
    circuit_code: u32,
    region_handshake: Option<MessageInstance>,
}

impl View for Bootstrap {
    type V = BootstrapView;

    closed spec fn view(&self) -> BootstrapView {
        BootstrapView {
            stage: self.stage,
            agent_id: self.agent_id,
            session_id: self.session_id,
            circuit_code: self.circuit_code,
            region_handshake: match self.region_handshake {
                Some(m) => Some(m@),
                None => None,
            },
        }
    }
}

/// What the exchange asks for when `ev` is reported to it.
pub open spec fn bootstrap_step(b: BootstrapView, ev: BootstrapEventView) -> BootstrapStepView {
    match b.stage {
        BootstrapStage::Start => match ev {
            BootstrapEventView::Begin => BootstrapStepView::Send(
                (UseCircuitCode {
                    code: b.circuit_code,
                    session_id: b.session_id,
                    id: b.agent_id,
                }).message(),
            ),
            _ => BootstrapStepView::Ignored,
        },
        BootstrapStage::AwaitingCircuitCodeAck => match ev {
            BootstrapEventView::Sent(Ok(_)) => BootstrapStepView::Read {
                timeout_ms: HANDSHAKE_TIMEOUT_MS,
            },
            BootstrapEventView::Sent(Err(e)) => BootstrapStepView::Failed(
                ConnectErrorView::SendMessageError(e),
            ),
            _ => BootstrapStepView::Ignored,
        },
        BootstrapStage::AwaitingHandshake => match ev {
            BootstrapEventView::Read(Ok(m)) => if m.tag == REGION_HANDSHAKE_TAG {
                BootstrapStepView::Send(
                    (CompleteAgentMovement {
                        agent_id: b.agent_id,
                        session_id: b.session_id,
                        circuit_code: b.circuit_code,
                    }).message(),
                )
            } else {
                BootstrapStepView::Failed(
                    ConnectErrorView::Msg("Did not receive RegionHandshake"@),
                )
            },
            BootstrapEventView::Read(Err(e)) => BootstrapStepView::Failed(
                ConnectErrorView::ReadMessageError(e),
            ),
            _ => BootstrapStepView::Ignored,
        },
        BootstrapStage::AwaitingMovementAck => match ev {
            BootstrapEventView::Sent(Ok(_)) => BootstrapStepView::SendAgentUpdate {
                agent_id: b.agent_id,
                session_id: b.session_id,
            },
            BootstrapEventView::Sent(Err(e)) => BootstrapStepView::Failed(
                ConnectErrorView::SendMessageError(e),
            ),
            _ => BootstrapStepView::Ignored,
        },
        BootstrapStage::AwaitingUpdateAck => match ev {
            BootstrapEventView::Sent(Ok(_)) => BootstrapStepView::Connected,
            BootstrapEventView::Sent(Err(e)) => BootstrapStepView::Failed(
                ConnectErrorView::SendMessageError(e),
            ),
            _ => BootstrapStepView::Ignored,
        },
        BootstrapStage::Connected => BootstrapStepView::Ignored,
        BootstrapStage::Failed => BootstrapStepView::Ignored,
    }
}

/// The stage that follows a stage once a step was asked for.
pub open spec fn stage_after(stage: BootstrapStage, step: BootstrapStepView) -> BootstrapStage {
    match step {
        BootstrapStepView::Ignored => stage,
        BootstrapStepView::Failed(_) => BootstrapStage::Failed,
        BootstrapStepView::Connected => BootstrapStage::Connected,
        BootstrapStepView::Read { .. } => BootstrapStage::AwaitingHandshake,
        BootstrapStepView::SendAgentUpdate { .. } => BootstrapStage::AwaitingUpdateAck,
        BootstrapStepView::Send(_) => if stage == BootstrapStage::Start {
            BootstrapStage::AwaitingCircuitCodeAck
        } else {
            BootstrapStage::AwaitingMovementAck
        },
    }
}

/// The exchange after `ev` was reported to it. The handshake that arrived is
/// kept.
pub open spec fn bootstrap_after(b: BootstrapView, ev: BootstrapEventView) -> BootstrapView {
    BootstrapView {
        stage: stage_after(b.stage, bootstrap_step(b, ev)),
        region_handshake: match ev {
            BootstrapEventView::Read(Ok(m)) => if b.stage == BootstrapStage::AwaitingHandshake
                && m.tag == REGION_HANDSHAKE_TAG {
                Some(m)
            } else {
                b.region_handshake
            },
            _ => b.region_handshake,
        },
        ..b
    }
}

impl Bootstrap {
    /// An exchange that has not begun.
    pub fn new(agent_id: Uuid, session_id: Uuid, circuit_code: u32) -> (b: Self)
        ensures
            b@ == (BootstrapView {
                stage: BootstrapStage::Start,
                agent_id,
                session_id,
                circuit_code,
                region_handshake: None,
            }),
    {
        Bootstrap {
            stage: BootstrapStage::Start,
            agent_id,
            session_id,
            circuit_code,
            region_handshake: None,
        }
    }

    /// How far the exchange has come.
    pub fn stage(&self) -> (s: BootstrapStage)
        ensures
            s == self@.stage,
    {
        self.stage
    }

    /// The simulator's handshake, once it has arrived.
    pub fn region_handshake(&self) -> (r: Option<&MessageInstance>)
        ensures
            r is Some <==> self@.region_handshake is Some,
            r is Some ==> r.unwrap()@ == self@.region_handshake.unwrap(),
    {
        self.region_handshake.as_ref()
    }

    /// Takes the report of what the caller did and says what to do next.
    pub fn step(&mut self, event: BootstrapEvent) -> (r: BootstrapStep)
        ensures
            r@ == bootstrap_step(old(self)@, event@),
            final(self)@ == bootstrap_after(old(self)@, event@),
    {
        match self.stage {
            BootstrapStage::Start => match event {
                BootstrapEvent::Begin => {
                    let message = UseCircuitCode {
                        code: self.circuit_code,
                        session_id: self.session_id,
                        id: self.agent_id,
                    };
                    self.stage = BootstrapStage::AwaitingCircuitCodeAck;
                    BootstrapStep::Send(message.to_message())
                },
                _ => BootstrapStep::Ignored,
            },
            BootstrapStage::AwaitingCircuitCodeAck => match event {
                BootstrapEvent::Sent(Ok(_)) => {
                    self.stage = BootstrapStage::AwaitingHandshake;
                    BootstrapStep::Read { timeout_ms: HANDSHAKE_TIMEOUT_MS }
                },
                BootstrapEvent::Sent(Err(e)) => {
                    self.stage = BootstrapStage::Failed;
                    BootstrapStep::Failed(ConnectErrorKind::SendMessageError(e))
                },
                _ => BootstrapStep::Ignored,
            },
            BootstrapStage::AwaitingHandshake => match event {
                BootstrapEvent::Read(Ok(handshake)) => {
                    if handshake.msg_type.tag == REGION_HANDSHAKE_TAG {
                        let message = CompleteAgentMovement {
                            agent_id: self.agent_id,
                            session_id: self.session_id,
                            circuit_code: self.circuit_code,
                        };
                        self.region_handshake = Some(handshake);
                        self.stage = BootstrapStage::AwaitingMovementAck;
                        BootstrapStep::Send(message.to_message())
                    } else {
                        self.stage = BootstrapStage::Failed;
                        BootstrapStep::Failed(
                            ConnectErrorKind::Msg("Did not receive RegionHandshake".to_owned()),
                        )
                    }
                },
                BootstrapEvent::Read(Err(e)) => {
                    self.stage = BootstrapStage::Failed;
                    BootstrapStep::Failed(ConnectErrorKind::ReadMessageError(e))
                },
                _ => BootstrapStep::Ignored,
            },
            BootstrapStage::AwaitingMovementAck => match event {
                BootstrapEvent::Sent(Ok(_)) => {
                    self.stage = BootstrapStage::AwaitingUpdateAck;
                    BootstrapStep::SendAgentUpdate {
                        agent_id: self.agent_id,
                        session_id: self.session_id,
                    }
                },
                BootstrapEvent::Sent(Err(e)) => {
                    self.stage = BootstrapStage::Failed;
                    BootstrapStep::Failed(ConnectErrorKind::SendMessageError(e))
                },
                _ => BootstrapStep::Ignored,
            },
            BootstrapStage::AwaitingUpdateAck => match event {
                BootstrapEvent::Sent(Ok(_)) => {
                    self.stage = BootstrapStage::Connected;
                    BootstrapStep::Connected
                },
                BootstrapEvent::Sent(Err(e)) => {
                    self.stage = BootstrapStage::Failed;
                    BootstrapStep::Failed(ConnectErrorKind::SendMessageError(e))
                },
                _ => BootstrapStep::Ignored,
            },
            BootstrapStage::Connected => BootstrapStep::Ignored,
            BootstrapStage::Failed => BootstrapStep::Ignored,
        }
    }
}

/// The connection from a viewer to one simulator: its circuit, the opening
/// exchange on it, and where the simulator is.
pub struct Simulator {
    circuit: Circuit,
    bootstrap: Bootstrap,
    locator: SimLocator,
}

impl Simulator {
    /// The opening exchange of this connection.
    pub closed spec fn exchange(&self) -> BootstrapView {
        self.bootstrap@
    }

    /// Where the simulator is.
    pub closed spec fn spec_locator(&self) -> SimLocator {
        self.locator
    }

    /// The circuit to the simulator.
    pub closed spec fn spec_circuit(&self) -> Circuit {
        self.circuit
    }

    /// The circuit to the simulator.
    pub fn circuit(&self) -> (c: &Circuit)
        ensures
            *c == self.spec_circuit(),
    {
        &self.circuit
    }

    /// The circuit to the simulator, to act on.
    pub fn circuit_mut(&mut self) -> (c: &mut Circuit)
        ensures
            *c == old(self).spec_circuit(),
            final(self).spec_circuit() == *final(c),
            final(self).exchange() == old(self).exchange(),
            final(self).spec_locator() == old(self).spec_locator(),
    {
        &mut self.circuit
    }

    /// The circuit and the opening exchange for a connection: sends wait five
    /// seconds for their acknowledgment and are transmitted up to five times.
    fn setup_circuit(connect_info: &ConnectInfo, handlers: MessageHandlers, catalog: Catalog) -> (r: (
        Circuit,
        Bootstrap,
    ))
        ensures
            r.0.wf(),
            r.0@ == (CircuitView {
                engine: initial_engine(
                    SEND_TIMEOUT_MS,
                    SEND_ATTEMPTS as nat,
                    DEFAULT_SEEN_LIMIT as nat,
                ),
                handlers: handlers@,
                reader_waiting: false,
                catalog: catalog@,
            }),
            r.1@ == (BootstrapView {
                stage: BootstrapStage::Start,
                agent_id: connect_info.agent_id,
                session_id: connect_info.session_id,
                circuit_code: connect_info.circuit_code,
                region_handshake: None,
            }),
    {
        let config = CircuitConfig { send_timeout: SEND_TIMEOUT_MS, send_attempts: SEND_ATTEMPTS };
        let circuit = Circuit::initiate(connect_info, config, handlers, catalog);
        let bootstrap = Bootstrap::new(
            connect_info.agent_id,
            connect_info.session_id,
            connect_info.circuit_code,
        );
        (circuit, bootstrap)
    }

    /// A connection to the simulator of `connect_info` on which nothing was
    /// exchanged yet. The handler of ping requests is installed beside the
    /// given handlers, in place of any that they hold for ping requests.
    pub fn connect(connect_info: &ConnectInfo, handlers: MessageHandlers, catalog: Catalog) -> (s:
        Simulator)
        ensures
            s.spec_circuit().wf(),
            s.spec_circuit()@ == (CircuitView {
                engine: initial_engine(
                    SEND_TIMEOUT_MS,
                    SEND_ATTEMPTS as nat,
                    DEFAULT_SEEN_LIMIT as nat,
                ),
                handlers: handlers@.insert(START_PING_CHECK_TAG, PING_HANDLER),
                reader_waiting: false,
                catalog: catalog@,
            }),
            s.exchange() == (BootstrapView {
                stage: BootstrapStage::Start,
                agent_id: connect_info.agent_id,
                session_id: connect_info.session_id,
                circuit_code: connect_info.circuit_code,
                region_handshake: None,
            }),
            s.spec_locator().sim_ip == connect_info.sim_ip,
            s.spec_locator().sim_port == connect_info.sim_port,
    {
        let mut handlers = handlers;
        handlers.insert(MessageType { tag: START_PING_CHECK_TAG }, PING_HANDLER);
        let (circuit, bootstrap) = Self::setup_circuit(connect_info, handlers, catalog);
        let locator = SimLocator { sim_ip: connect_info.sim_ip, sim_port: connect_info.sim_port };
        Simulator { circuit, bootstrap, locator }
    }

    /// Where the simulator is.
    pub fn locator(&self) -> (l: SimLocator)
        ensures
            l == self.spec_locator(),
    {
        self.locator
    }

    /// The simulator's handshake, which describes its region, once the
    /// opening exchange has received it.
    pub fn region_info(&self) -> (r: Option<&MessageInstance>)
        ensures
            r is Some <==> self.exchange().region_handshake is Some,
            r is Some ==> r.unwrap()@ == self.exchange().region_handshake.unwrap(),
    {
        self.bootstrap.region_handshake()
    }

    /// Sends `message` on the circuit.
    pub fn send_message(&mut self, message: &MessageInstance, reliable: bool, now: u64) -> (r:
        Result<Submitted, SendMessageError>)
        requires
            old(self).spec_circuit().wf(),
        ensures
            final(self).spec_circuit().wf(),
            final(self).exchange() == old(self).exchange(),
            final(self).spec_locator() == old(self).spec_locator(),
            match r {
                Err(e) => {
                    &&& submit_refusal(old(self).spec_circuit()@.engine) == Some(e)
                    &&& final(self).spec_circuit()@ == old(self).spec_circuit()@
                },
                Ok(s) => {
                    &&& submit_refusal(old(self).spec_circuit()@.engine) is None
                    &&& s.sequence == old(self).spec_circuit()@.engine.next_sequence
                    &&& s.datagram@ == encode_packet(
                        submitted_packet(old(self).spec_circuit()@.engine, message@, reliable),
                    )
                    &&& final(self).spec_circuit()@ == (CircuitView {
                        engine: after_submit(old(self).spec_circuit()@.engine, message@, reliable, now),
                        ..old(self).spec_circuit()@
                    })
                },
            },
    {
        self.circuit.send(message, reliable, now)
    }

    /// Reports to the opening exchange what was done and learns what to do
    /// next.
    pub fn advance(&mut self, event: BootstrapEvent) -> (r: BootstrapStep)
        ensures
            r@ == bootstrap_step(old(self).exchange(), event@),
            final(self).exchange() == bootstrap_after(old(self).exchange(), event@),
            final(self).spec_locator() == old(self).spec_locator(),
            final(self).spec_circuit() == old(self).spec_circuit(),
    {
        self.bootstrap.step(event)
    }

    /// Runs the handler of ping requests on a message: the answer is sent
    /// unreliably. A message that is no ping request is another handler's;
    /// an answer that the circuit refuses to send is given up.
    pub fn handle_start_ping_check(&mut self, message: &MessageInstance, now: u64) -> (r: Result<
        Option<Submitted>,
        MessageHandlerError,
    >)
        requires
            old(self).spec_circuit().wf(),
        ensures
            final(self).spec_circuit().wf(),
            final(self).exchange() == old(self).exchange(),
            final(self).spec_locator() == old(self).spec_locator(),
            r is Ok <==> StartPingCheck::matches(message@),
            r is Err ==> r.unwrap_err() == MessageHandlerError::WrongHandler && final(self).spec_circuit()@
                == old(self).spec_circuit()@,
            r is Ok ==> (r.unwrap() is Some <==> submit_refusal(old(self).spec_circuit()@.engine) is None),
            r is Ok && r.unwrap() is None ==> final(self).spec_circuit()@ == old(self).spec_circuit()@,
            r is Ok && r.unwrap() is Some ==> {
                let answer = (CompletePingCheck { ping_id: message@.body[0] }).message();
                &&& r.unwrap().unwrap().sequence == old(self).spec_circuit()@.engine.next_sequence
                &&& r.unwrap().unwrap().datagram@ == encode_packet(
                    submitted_packet(old(self).spec_circuit()@.engine, answer, false),
                )
                &&& final(self).spec_circuit()@ == (CircuitView {
                    engine: after_submit(old(self).spec_circuit()@.engine, answer, false, now),
                    ..old(self).spec_circuit()@
                })
            },
    {
        match answer_ping(message) {
            Err(e) => Err(e),
            Ok(response) => match self.circuit.send(&response, false, now) {
                Ok(s) => Ok(Some(s)),
                Err(_) => Ok(None),
            },
        }
    }
}

} // verus!
