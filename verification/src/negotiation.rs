//! How an incoming SOCKS5 connection is negotiated, up to the address that the
//! client wants to be connected to.

use vstd::prelude::*;

use crate::fault::Complaint;
use crate::fault::Fault;
use crate::machine::actions_of;
use crate::machine::is_complete_run;
use crate::machine::is_run;
use crate::machine::law_runs_are_bounded;
use crate::machine::state_after;
use crate::machine::Machine;
use crate::protocol::unspecified_address;
use crate::protocol::Address;
use crate::protocol::Command;
use crate::protocol::Reply;
use crate::protocol::SocketAddress;

verus! {

/// The state of a negotiation.
#[derive(Debug, PartialEq, Eq)]
pub enum Negotiation<E> {
    /// The handshake is under way.
    Authenticating,
    /// The client may send its request.
    AwaitingCommand,
    /// The client is told that its request is not supported.
    Refusing,
    /// The connection is shut down because of a fault.
    Closing(Fault<E>),
    /// The negotiation is over.
    Finished,
}

/// What can happen in a negotiation.
#[derive(Debug, PartialEq, Eq)]
pub enum NegotiationEvent<E> {
    /// The handshake succeeded.
    Authenticated,
    /// The client sent a request.
    Requested(Command, Address),
    /// The reply was sent.
    Replied,
    /// Shutting the connection down was tried, with or without success.
    ShutDown,
    /// What was to be done failed.
    Failed(E),
}

/// What a negotiation has to do next.
#[derive(Debug, PartialEq, Eq)]
pub enum NegotiationAction<E> {
    /// Perform the handshake.
    Authenticate,
    /// Wait for the client's request.
    AwaitCommand,
    /// Answer the request.
    Reply(Reply, Address),
    /// Shut the connection down.
    ShutDown,
    /// Hand the connection over, with the address that it is for, or report why
    /// it was given up.
    Finish(Result<Address, Fault<E>>),
}

impl<E> Machine for Negotiation<E> {
    type Event = NegotiationEvent<E>;

    type Action = NegotiationAction<E>;

    open spec fn accepts(self, event: NegotiationEvent<E>) -> bool {
        match event {
            NegotiationEvent::Authenticated => self is Authenticating,
            NegotiationEvent::Requested(_, _) => self is AwaitingCommand,
            NegotiationEvent::Replied => self is Refusing,
            NegotiationEvent::ShutDown => self is Closing,
            NegotiationEvent::Failed(_) => !(self is Closing || self is Finished),
        }
    }

    open spec fn after(self, event: NegotiationEvent<E>) -> (Self, NegotiationAction<E>) {
        match event {
            NegotiationEvent::Authenticated => (
                Negotiation::AwaitingCommand,
                NegotiationAction::AwaitCommand,
            ),
            NegotiationEvent::Requested(Command::Connect, address) => (
                Negotiation::Finished,
                NegotiationAction::Finish(Ok(address)),
            ),
            NegotiationEvent::Requested(_, _) => (
                Negotiation::Refusing,
                NegotiationAction::Reply(
                    Reply::CommandNotSupported,
                    unspecified_address(),
                ),
            ),
            NegotiationEvent::Replied => (
                Negotiation::Closing(Fault::Own(Complaint::UnimplementedCommand)),
                NegotiationAction::ShutDown,
            ),
            NegotiationEvent::Failed(error) => (
                Negotiation::Closing(Fault::Outside(error)),
                NegotiationAction::ShutDown,
            ),
            NegotiationEvent::ShutDown => (
                Negotiation::Finished,
                NegotiationAction::Finish(Err(self->Closing_0)),
            ),
        }
    }

    open spec fn is_finished(self) -> bool {
        self is Finished
    }

    open spec fn steps_left(self) -> nat {
        match self {
            Negotiation::Authenticating => 4,
            Negotiation::AwaitingCommand => 3,
            Negotiation::Refusing => 2,
            Negotiation::Closing(_) => 1,
            Negotiation::Finished => 0,
        }
    }

    proof fn law_event_counts_down(self, event: NegotiationEvent<E>) {
    }

    proof fn law_goes_on_until_finished(self) {
        match self {
            Negotiation::Authenticating => {
                assert(self.accepts(NegotiationEvent::Authenticated));
            },
            Negotiation::AwaitingCommand => {
                assert(self.accepts(NegotiationEvent::Requested(Command::Connect, unspecified_address())));
            },
            Negotiation::Refusing => {
                assert(self.accepts(NegotiationEvent::Replied));
            },
            Negotiation::Closing(_) => {
                assert(self.accepts(NegotiationEvent::ShutDown));
            },
            Negotiation::Finished => {},
        }
    }
}

impl<E> Negotiation<E> {
    /// Begins with the handshake.
    pub fn begin() -> (first: (Self, NegotiationAction<E>))
        ensures
            first.0 == Negotiation::<E>::Authenticating,
            first.1 == NegotiationAction::<E>::Authenticate,
    {
        (Negotiation::Authenticating, NegotiationAction::Authenticate)
    }

    /// Tells whether `event` can happen now.
    pub fn is_ready_for(&self, event: &NegotiationEvent<E>) -> (ready: bool)
        ensures
            ready == self.accepts(*event),
    {
        match event {
            NegotiationEvent::Authenticated => matches!(self, Negotiation::Authenticating),
            NegotiationEvent::Requested(_, _) => matches!(self, Negotiation::AwaitingCommand),
            NegotiationEvent::Replied => matches!(self, Negotiation::Refusing),
            NegotiationEvent::ShutDown => matches!(self, Negotiation::Closing(_)),
            NegotiationEvent::Failed(_) => {
                !matches!(self, Negotiation::Closing(_) | Negotiation::Finished)
            },
        }
    }

    /// Goes on after `event`.
    pub fn step(self, event: NegotiationEvent<E>) -> (next: (Self, NegotiationAction<E>))
        requires
            self.accepts(event),
        ensures
            next == self.after(event),
            next.1 is Finish <==> next.0 is Finished,
            next.0.steps_left() < self.steps_left(),
    {
        match event {
            NegotiationEvent::Authenticated => (
                Negotiation::AwaitingCommand,
                NegotiationAction::AwaitCommand,
            ),
            NegotiationEvent::Requested(command, address) => match command {
                Command::Connect => (
                    Negotiation::Finished,
                    NegotiationAction::Finish(Ok(address)),
                ),
                Command::Bind | Command::Associate => (
                    Negotiation::Refusing,
                    NegotiationAction::Reply(Reply::CommandNotSupported, Address::unspecified()),
                ),
            },
            NegotiationEvent::Replied => (
                Negotiation::Closing(Fault::Own(Complaint::UnimplementedCommand)),
                NegotiationAction::ShutDown,
            ),
            NegotiationEvent::Failed(error) => (
                Negotiation::Closing(Fault::Outside(error)),
                NegotiationAction::ShutDown,
            ),
            NegotiationEvent::ShutDown => {
                match self {
                    Negotiation::Closing(fault) => (
                        Negotiation::Finished,
                        NegotiationAction::Finish(Err(fault)),
                    ),
                    _ => vstd::pervasive::unreached(),
                }
            },
        }
    }
}

/// What the course of a whole negotiation is, by what happens in it: only a
/// client that authenticates and asks for a connection is accepted, at once and
/// with its own address; one that asks for something else is told that this is
/// not supported; and unless it is accepted the connection is shut down, once,
/// before the fault is reported.
pub proof fn law_negotiation_runs<E>(events: Seq<NegotiationEvent<E>>)
    requires
        is_complete_run(Negotiation::<E>::Authenticating, events),
    ensures
        ({
            let actions = actions_of(Negotiation::<E>::Authenticating, events);
            let refusal = NegotiationAction::<E>::Reply(
                Reply::CommandNotSupported,
                unspecified_address(),
            );
            match events[0] {
                NegotiationEvent::Authenticated => match events[1] {
                    NegotiationEvent::Requested(Command::Connect, address) => {
                        &&& events.len() == 2
                        &&& actions == seq![
                            NegotiationAction::<E>::AwaitCommand,
                            NegotiationAction::Finish(Ok(address)),
                        ]
                    },
                    NegotiationEvent::Requested(_, _) => {
                        &&& events.len() == 4
                        &&& events[3] == NegotiationEvent::<E>::ShutDown
                        &&& match events[2] {
                            NegotiationEvent::Replied => actions == seq![
                                NegotiationAction::<E>::AwaitCommand,
                                refusal,
                                NegotiationAction::ShutDown,
                                NegotiationAction::Finish(
                                    Err(Fault::Own(Complaint::UnimplementedCommand)),
                                ),
                            ],
                            NegotiationEvent::Failed(error) => actions == seq![
                                NegotiationAction::<E>::AwaitCommand,
                                refusal,
                                NegotiationAction::ShutDown,
                                NegotiationAction::Finish(Err(Fault::Outside(error))),
                            ],
                            _ => false,
                        }
                    },
                    NegotiationEvent::Failed(error) => {
                        &&& events.len() == 3
                        &&& events[2] == NegotiationEvent::<E>::ShutDown
                        &&& actions == seq![
                            NegotiationAction::<E>::AwaitCommand,
                            NegotiationAction::ShutDown,
                            NegotiationAction::Finish(Err(Fault::Outside(error))),
                        ]
                    },
                    _ => false,
                },
                NegotiationEvent::Failed(error) => {
                    &&& events.len() == 2
                    &&& events[1] == NegotiationEvent::<E>::ShutDown
                    &&& actions == seq![
                        NegotiationAction::<E>::ShutDown,
                        NegotiationAction::Finish(Err(Fault::Outside(error))),
                    ]
                },
                _ => false,
            }
        }),
{
    reveal_with_fuel(is_run, 6);
    reveal_with_fuel(state_after, 6);
    reveal_with_fuel(actions_of, 6);
}

/// At every point of a negotiation, finished or not, what comes next follows from
/// what has happened: an address is accepted only in answer to a request to
/// connect to it, at once; every other request is answered with "not supported"
/// and 0.0.0.0:0, whatever address it names; and what is reported after a
/// shutdown is what the connection was shut down for.
pub proof fn law_negotiation_goes_by_what_happened<E>(events: Seq<NegotiationEvent<E>>)
    requires
        is_run(Negotiation::<E>::Authenticating, events),
        events.len() > 0,
    ensures
        ({
            let action = actions_of(Negotiation::<E>::Authenticating, events).last();
            match events.last() {
                NegotiationEvent::Authenticated => action is AwaitCommand,
                NegotiationEvent::Requested(command, address) => if command is Connect {
                    action == NegotiationAction::<E>::Finish(Ok(address))
                } else {
                    action == NegotiationAction::<E>::Reply(
                        Reply::CommandNotSupported,
                        Address::SocketAddress(SocketAddress::V4 { ipv4: 0, port: 0 }),
                    )
                },
                NegotiationEvent::Replied => action is ShutDown,
                NegotiationEvent::Failed(_) => action is ShutDown,
                NegotiationEvent::ShutDown => match events[events.len() - 2] {
                    NegotiationEvent::Replied => action == NegotiationAction::<E>::Finish(
                        Err(Fault::Own(Complaint::UnimplementedCommand)),
                    ),
                    NegotiationEvent::Failed(error) => action == NegotiationAction::<E>::Finish(
                        Err(Fault::Outside(error)),
                    ),
                    _ => false,
                },
            }
        }),
{
    reveal_with_fuel(is_run, 6);
    reveal_with_fuel(state_after, 6);
    reveal_with_fuel(actions_of, 6);
    law_runs_are_bounded(Negotiation::<E>::Authenticating, events);
}

/// At every point of a negotiation exactly that can happen which may come of what
/// was last asked for, success or failure; and it is over exactly when it has
/// reported its outcome.
pub proof fn law_negotiation_awaits_what_it_asked_for<E>(
    events: Seq<NegotiationEvent<E>>,
    event: NegotiationEvent<E>,
)
    requires
        is_run(Negotiation::<E>::Authenticating, events),
    ensures
        ({
            let state = state_after(Negotiation::<E>::Authenticating, events);
            let asked = if events.len() == 0 {
                NegotiationAction::Authenticate
            } else {
                actions_of(Negotiation::<E>::Authenticating, events).last()
            };
            &&& state.accepts(event) <==> match asked {
                NegotiationAction::Authenticate => event is Authenticated || event is Failed,
                NegotiationAction::AwaitCommand => event is Requested || event is Failed,
                NegotiationAction::Reply(_, _) => event is Replied || event is Failed,
                NegotiationAction::ShutDown => event is ShutDown,
                NegotiationAction::Finish(_) => false,
            }
            &&& state.is_finished() <==> asked is Finish
        }),
{
    reveal_with_fuel(is_run, 6);
    reveal_with_fuel(state_after, 6);
    reveal_with_fuel(actions_of, 6);
    law_runs_are_bounded(Negotiation::<E>::Authenticating, events);
}

/// In no state is an address accepted but in answer to a request to connect to
/// it, and to accept one ends the negotiation.
pub proof fn law_only_connect_is_accepted<E>(
    state: Negotiation<E>,
    event: NegotiationEvent<E>,
    address: Address,
)
    requires
        state.accepts(event),
        state.after(event).1 == NegotiationAction::<E>::Finish(Ok(address)),
    ensures
        event == NegotiationEvent::<E>::Requested(Command::Connect, address),
        forall|later: NegotiationEvent<E>| !(#[trigger] state.after(event).0.accepts(later)),
{
}

/// Every request can be made, and every negotiation that comes to one can be
/// brought to its end: with the address, or with a refusal and a shutdown.
pub proof fn law_every_request_is_dealt_with<E>(command: Command, address: Address)
    ensures
        ({
            let start = Negotiation::<E>::Authenticating;
            if command is Connect {
                let events = seq![
                    NegotiationEvent::<E>::Authenticated,
                    NegotiationEvent::Requested(command, address),
                ];
                &&& is_complete_run(start, events)
                &&& actions_of(start, events) == seq![
                    NegotiationAction::<E>::AwaitCommand,
                    NegotiationAction::Finish(Ok(address)),
                ]
            } else {
                let events = seq![
                    NegotiationEvent::<E>::Authenticated,
                    NegotiationEvent::Requested(command, address),
                    NegotiationEvent::Replied,
                    NegotiationEvent::ShutDown,
                ];
                &&& is_complete_run(start, events)
                &&& actions_of(start, events) == seq![
                    NegotiationAction::<E>::AwaitCommand,
                    NegotiationAction::Reply(
                        Reply::CommandNotSupported,
                        Address::SocketAddress(SocketAddress::V4 { ipv4: 0, port: 0 }),
                    ),
                    NegotiationAction::ShutDown,
                    NegotiationAction::Finish(Err(Fault::Own(Complaint::UnimplementedCommand))),
                ]
            }
        }),
{
    reveal_with_fuel(is_run, 6);
    reveal_with_fuel(state_after, 6);
    reveal_with_fuel(actions_of, 6);
}

/// Whatever a connection is shut down for, nothing but the end of that is waited
/// for, and then that fault is reported.
pub proof fn law_negotiation_reports_what_it_closed_for<E>(
    fault: Fault<E>,
    event: NegotiationEvent<E>,
)
    ensures
        Negotiation::Closing(fault).accepts(event) <==> event is ShutDown,
        Negotiation::Closing(fault).after(NegotiationEvent::ShutDown) == (
            Negotiation::<E>::Finished,
            NegotiationAction::<E>::Finish(Err(fault)),
        ),
{
}

} // verus!
