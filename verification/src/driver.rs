//! The session driver: owns one session's lifecycle. Its blocking command
//! loop maps each relayed command onto one non-blocking protocol call,
//! and its cooperative event loop forwards polled events and reacts to
//! the single-fire completion signal. The state machine and everything it
//! emits are specified here; the loops themselves only perform the calls
//! and feed the outcomes back in.

use vstd::prelude::*;

use crate::broker;
use crate::message::{ClientError, DisconnectReason, Event, FromClient, Packet, Publish,
    PublishRef, QoS, ToClient, Topic};

verus! {

/// The lifecycle of a session driver. A graceful stop never skips
/// `Disconnecting`; an unrecoverable event-source failure moves straight
/// to `Terminated`.
#[derive(Clone, Copy, Debug, PartialEq, Eq, Structural)]
pub enum DriverState {
    Connecting,
    Active,
    Disconnecting,
    Terminated,
}

/// The driver's control state: its lifecycle position and whether the
/// single-fire completion signal has been sent by the command loop.
#[derive(Clone, Copy, Debug, PartialEq, Eq, Structural)]
pub struct Driver {
    pub state: DriverState,
    pub stop_requested: bool,
}

/// The protocol call one command maps to.
#[derive(Clone, Debug, PartialEq, Eq)]
pub enum DriverAction {
    DoNothing,
    Publish(PublishRef, Publish),
    Subscribe(Topic, QoS),
    Unsubscribe(Topic),
    Disconnect,
}

/// What the command loop does with one command: `Connect` is protocol
/// level a no-op, the rest map one for one.
pub open spec fn action_of(cmd: ToClient) -> DriverAction {
    match cmd {
        ToClient::Connect => DriverAction::DoNothing,
        ToClient::Disconnect => DriverAction::Disconnect,
        ToClient::Publish(token, publish) => DriverAction::Publish(token, publish),
        ToClient::Subscribe(topic, qos) => DriverAction::Subscribe(topic, qos),
        ToClient::Unsubscribe(topic) => DriverAction::Unsubscribe(topic),
    }
}

/// Maps one relayed command onto the protocol call the command loop
/// makes for it.
pub fn on_command(cmd: ToClient) -> (a: DriverAction)
    ensures
        a == action_of(cmd),
{
    match cmd {
        ToClient::Connect => DriverAction::DoNothing,
        ToClient::Disconnect => DriverAction::Disconnect,
        ToClient::Publish(token, publish) => DriverAction::Publish(token, publish),
        ToClient::Subscribe(topic, qos) => DriverAction::Subscribe(topic, qos),
        ToClient::Unsubscribe(topic) => DriverAction::Unsubscribe(topic),
    }
}

/// One occurrence the driver reacts to: the disconnect call succeeding,
/// the completion signal firing, the outcome of an issued publish, an
/// event polled from the source, or the source failing for good.
#[derive(Clone, Debug, PartialEq, Eq)]
pub enum DriverInput {
    DisconnectOk,
    Completion,
    PublishOutcome(PublishRef, Result<(), ClientError>),
    SourceEvent(Event),
    SourceError,
}

impl Driver {
    /// A driver as it starts: connecting, with no stop requested.
    pub open spec fn spec_new() -> Driver {
        Driver { state: DriverState::Connecting, stop_requested: false }
    }

    pub fn new() -> (d: Driver)
        ensures
            d == Driver::spec_new(),
    {
        Driver { state: DriverState::Connecting, stop_requested: false }
    }

    /// The state after reacting to one input. `Terminated` is absorbing.
    pub open spec fn next(self, input: DriverInput) -> Driver {
        if self.state is Terminated {
            self
        } else {
            match input {
                DriverInput::DisconnectOk => Driver {
                    state: DriverState::Disconnecting,
                    stop_requested: true,
                },
                DriverInput::Completion => if self.stop_requested {
                    Driver { state: DriverState::Terminated, ..self }
                } else {
                    self
                },
                DriverInput::PublishOutcome(_, _) => self,
                DriverInput::SourceEvent(ev) => if self.state is Connecting && ev
                    == Event::Incoming(Packet::ConnAck) {
                    Driver { state: DriverState::Active, ..self }
                } else {
                    self
                },
                DriverInput::SourceError => Driver { state: DriverState::Terminated, ..self },
            }
        }
    }

    /// What reacting to one input emits toward the event relay: polled
    /// events and publish results are forwarded, and exactly the two
    /// transitions into `Terminated` emit the terminal notification, with
    /// the reason kept distinguishable.
    pub open spec fn output(self, input: DriverInput) -> Option<FromClient> {
        if self.state is Terminated {
            None
        } else {
            match input {
                DriverInput::DisconnectOk => None,
                DriverInput::Completion => if self.stop_requested {
                    Some(FromClient::Disconnected(DisconnectReason::Requested))
                } else {
                    None
                },
                DriverInput::PublishOutcome(token, result) => Some(
                    FromClient::PublishReslt(token, result),
                ),
                DriverInput::SourceEvent(ev) => Some(FromClient::Event(ev)),
                DriverInput::SourceError => Some(
                    FromClient::Disconnected(DisconnectReason::ConnectionLost),
                ),
            }
        }
    }

    /// Whether reacting to one input emits the terminal notification.
    pub open spec fn emits_terminal(self, input: DriverInput) -> bool {
        self.output(input) matches Some(FromClient::Disconnected(_))
    }

    /// Reacts to one input: advances the state machine and returns what
    /// is to be forwarded on the event relay.
    pub fn observe(&mut self, input: DriverInput) -> (out: Option<FromClient>)
        ensures
            *final(self) == old(self).next(input),
            out == old(self).output(input),
    {
        if matches!(self.state, DriverState::Terminated) {
            return None;
        }
        match input {
            DriverInput::DisconnectOk => {
                self.state = DriverState::Disconnecting;
                self.stop_requested = true;
                None
            },
            DriverInput::Completion => {
                if self.stop_requested {
                    self.state = DriverState::Terminated;
                    Some(FromClient::Disconnected(DisconnectReason::Requested))
                } else {
                    None
                }
            },
            DriverInput::PublishOutcome(token, result) => Some(
                FromClient::PublishReslt(token, result),
            ),
            DriverInput::SourceEvent(ev) => {
                if matches!(self.state, DriverState::Connecting) && matches!(
                    ev,
                    Event::Incoming(Packet::ConnAck),
                ) {
                    self.state = DriverState::Active;
                }
                Some(FromClient::Event(ev))
            },
            DriverInput::SourceError => {
                self.state = DriverState::Terminated;
                Some(FromClient::Disconnected(DisconnectReason::ConnectionLost))
            },
        }
    }
}

/// The driver after reacting to a whole sequence of inputs.
pub open spec fn run(d: Driver, inputs: Seq<DriverInput>) -> Driver
    decreases inputs.len(),
{
    if inputs.len() == 0 {
        d
    } else {
        run(d.next(inputs[0]), inputs.drop_first())
    }
}

/// How many terminal notifications a whole sequence of inputs makes the
/// driver emit.
pub open spec fn terminal_count(d: Driver, inputs: Seq<DriverInput>) -> nat
    decreases inputs.len(),
{
    if inputs.len() == 0 {
        0nat
    } else {
        (if d.emits_terminal(inputs[0]) {
            1nat
        } else {
            0nat
        }) + terminal_count(d.next(inputs[0]), inputs.drop_first())
    }
}

/// A terminated driver reacts to nothing: it stays terminated and emits
/// nothing, whatever else arrives.
pub proof fn law_terminated_absorbing(d: Driver, inputs: Seq<DriverInput>)
    requires
        d.state is Terminated,
    ensures
        run(d, inputs) == d,
        terminal_count(d, inputs) == 0,
    decreases inputs.len(),
{
    if inputs.len() > 0 {
        law_terminated_absorbing(d, inputs.drop_first());
    }
}

/// A graceful shutdown terminates exactly once: over any sequence of
/// inputs, a driver that has not yet terminated emits the terminal
/// notification exactly once if the run ends terminated and never
/// otherwise — never twice, whatever interleaving of completion signals,
/// source events and source failures arrives.
pub proof fn law_terminal_exactly_once(d: Driver, inputs: Seq<DriverInput>)
    requires
        !(d.state is Terminated),
    ensures
        terminal_count(d, inputs) == if run(d, inputs).state is Terminated {
            1int
        } else {
            0int
        },
    decreases inputs.len(),
{
    if inputs.len() > 0 {
        let d2 = d.next(inputs[0]);
        if d2.state is Terminated {
            assert(d.emits_terminal(inputs[0]));
            law_terminated_absorbing(d2, inputs.drop_first());
        } else {
            assert(!d.emits_terminal(inputs[0]));
            law_terminal_exactly_once(d2, inputs.drop_first());
        }
    }
}

/// The outcome of one blocking-loop step: keep draining, keep draining
/// after reporting a publish result, or stop because the disconnect call
/// was accepted.
#[derive(Clone, Debug, PartialEq, Eq)]
pub enum CommandOutcome {
    Continue,
    Reported(FromClient),
    Done,
}

/// Packages the outcome of an issued publish as the event reported to the
/// consumer, tagged with the correlation token of the originating
/// command.
pub fn publish_result(token: PublishRef, result: Result<(), ClientError>) -> (m: FromClient)
    ensures
        m == FromClient::PublishReslt(token, result),
{
    FromClient::PublishReslt(token, result)
}

/// One step of the command loop: applies a single relayed command against
/// the protocol connection. A publish's outcome, whatever the connection
/// decided, is reported with its correlation token; a disconnect ends the
/// loop exactly when the connection accepted the call; everything else
/// keeps the loop draining.
pub fn apply_command(client: &rumqttc::AsyncClient, cmd: ToClient) -> (o: CommandOutcome)
    ensures
        action_of(cmd) is DoNothing ==> o == CommandOutcome::Continue,
        action_of(cmd) is Subscribe ==> o == CommandOutcome::Continue,
        action_of(cmd) is Unsubscribe ==> o == CommandOutcome::Continue,
        action_of(cmd) matches DriverAction::Publish(token, _) ==> (o matches
            CommandOutcome::Reported(FromClient::PublishReslt(reported, _)) && reported == token),
        action_of(cmd) is Disconnect ==> (o == CommandOutcome::Done || o
            == CommandOutcome::Continue),
{
    match cmd {
        ToClient::Connect => CommandOutcome::Continue,
        ToClient::Publish(token, publish) => {
            let result = broker::client_try_publish(
                client,
                publish.topic,
                publish.qos,
                publish.retain,
                publish.payload,
            );
            CommandOutcome::Reported(publish_result(token, result))
        },
        ToClient::Subscribe(topic, qos) => {
            let _ = broker::client_try_subscribe(client, topic, qos);
            CommandOutcome::Continue
        },
        ToClient::Unsubscribe(topic) => {
            let _ = broker::client_try_unsubscribe(client, topic);
            CommandOutcome::Continue
        },
        ToClient::Disconnect => {
            if broker::client_try_disconnect(client).is_ok() {
                CommandOutcome::Done
            } else {
                CommandOutcome::Continue
            }
        },
    }
}

/// The actions a command sequence maps to when drained front first, as
/// `Relay::try_recv` hands commands out.
pub open spec fn drain_actions(cmds: Seq<ToClient>) -> Seq<DriverAction>
    decreases cmds.len(),
{
    if cmds.len() == 0 {
        Seq::empty()
    } else {
        seq![action_of(cmds[0])] + drain_actions(cmds.drop_first())
    }
}

/// Commands are applied in submission order: draining a command relay
/// front first yields exactly one action per command, in the same
/// relative order the commands were accepted in.
pub proof fn law_command_ordering(cmds: Seq<ToClient>)
    ensures
        drain_actions(cmds).len() == cmds.len(),
        forall|i: int| 0 <= i < cmds.len() ==> drain_actions(cmds)[i] == action_of(cmds[i]),
    decreases cmds.len(),
{
    if cmds.len() > 0 {
        law_command_ordering(cmds.drop_first());
    }
}

} // verus!
