//! How the client asks an upstream proxy for a connection.

use vstd::prelude::*;

use crate::fault::Complaint;
use crate::fault::Fault;
use crate::machine::actions_of;
use crate::machine::is_complete_run;
use crate::machine::is_run;
use crate::machine::law_runs_are_bounded;
use crate::machine::state_after;
use crate::machine::Machine;
use crate::protocol::Address;
use crate::protocol::Command;
use crate::protocol::Reply;
use crate::protocol::METHOD_NONE;

verus! {

/// The state of a dial.
#[derive(Debug, PartialEq, Eq)]
pub enum Dial<E> {
    /// The connection to the upstream is being made, for this address.
    Connecting(Address),
    /// The handshake is being sent.
    Greeting(Address),
    /// The upstream may choose a handshake method.
    AwaitingMethod(Address),
    /// The upstream wants another method: its name is asked for.
    NamingPeer,
    /// The request is being sent.
    Requesting,
    /// The upstream may answer the request.
    AwaitingReply,
    /// The connection is shut down, with this to report.
    Closing(Result<Reply, Fault<E>>),
    /// The dial is over.
    Finished,
}

/// What can happen in a dial.
#[derive(Debug, PartialEq, Eq)]
pub enum DialEvent<E> {
    /// The connection to the upstream is made.
    Connected,
    /// What was to be sent was sent.
    Sent,
    /// The upstream chose a handshake method.
    MethodChosen(u8),
    /// The upstream's address, as text.
    PeerNamed(String),
    /// The upstream answered the request.
    Answered(Reply),
    /// Shutting the connection down was tried, with or without success.
    ShutDown,
    /// What was to be done failed.
    Failed(E),
}

/// What a dial has to do next.
#[derive(Debug, PartialEq, Eq)]
pub enum DialAction<E> {
    /// Connect to the upstream.
    Connect,
    /// Send a handshake that offers this method and no other.
    Greet(u8),
    /// Wait for the upstream to choose a method.
    AwaitMethod,
    /// Find out the upstream's address.
    NamePeer,
    /// Send a request.
    Request(Command, Address),
    /// Wait for the upstream's answer.
    AwaitReply,
    /// Shut the connection down.
    ShutDown,
    /// Hand over the upstream's answer and the connection, or report why there
    /// is none.
    Finish(Result<Reply, Fault<E>>),
}

impl<E> Machine for Dial<E> {
    type Event = DialEvent<E>;

    type Action = DialAction<E>;

    open spec fn accepts(self, event: DialEvent<E>) -> bool {
        match event {
            DialEvent::Connected => self is Connecting,
            DialEvent::Sent => self is Greeting || self is Requesting,
            DialEvent::MethodChosen(_) => self is AwaitingMethod,
            DialEvent::PeerNamed(_) => self is NamingPeer,
            DialEvent::Answered(_) => self is AwaitingReply,
            DialEvent::ShutDown => self is Closing,
            DialEvent::Failed(_) => {
                ||| self is Connecting
                ||| self is Greeting
                ||| self is AwaitingMethod
                ||| self is Requesting
                ||| self is AwaitingReply
            },
        }
    }

    open spec fn after(self, event: DialEvent<E>) -> (Self, DialAction<E>) {
        match event {
            DialEvent::Connected => (
                Dial::Greeting(self->Connecting_0),
                DialAction::Greet(METHOD_NONE),
            ),
            DialEvent::Sent => match self {
                Dial::Greeting(address) => (
                    Dial::AwaitingMethod(address),
                    DialAction::AwaitMethod,
                ),
                _ => (Dial::AwaitingReply, DialAction::AwaitReply),
            },
            DialEvent::MethodChosen(method) => if method == METHOD_NONE {
                (
                    Dial::Requesting,
                    DialAction::Request(Command::Connect, self->AwaitingMethod_0),
                )
            } else {
                (Dial::NamingPeer, DialAction::NamePeer)
            },
            DialEvent::PeerNamed(peer) => (
                Dial::Closing(Err(Fault::Own(Complaint::NoAcceptableMethod(peer)))),
                DialAction::ShutDown,
            ),
            DialEvent::Answered(reply) => if reply == Reply::Succeeded {
                (Dial::Finished, DialAction::Finish(Ok(reply)))
            } else {
                (Dial::Closing(Ok(reply)), DialAction::ShutDown)
            },
            DialEvent::ShutDown => (Dial::Finished, DialAction::Finish(self->Closing_0)),
            DialEvent::Failed(error) => (
                Dial::Finished,
                DialAction::Finish(Err(Fault::Outside(error))),
            ),
        }
    }

    open spec fn is_finished(self) -> bool {
        self is Finished
    }

    open spec fn steps_left(self) -> nat {
        match self {
            Dial::Connecting(_) => 6,
            Dial::Greeting(_) => 5,
            Dial::AwaitingMethod(_) => 4,
            Dial::Requesting => 3,
            Dial::NamingPeer => 2,
            Dial::AwaitingReply => 2,
            Dial::Closing(_) => 1,
            Dial::Finished => 0,
        }
    }

    proof fn law_event_counts_down(self, event: DialEvent<E>) {
    }

    proof fn law_goes_on_until_finished(self) {
        match self {
            Dial::Connecting(_) => {
                assert(self.accepts(DialEvent::Connected));
            },
            Dial::Greeting(_) | Dial::Requesting => {
                assert(self.accepts(DialEvent::Sent));
            },
            Dial::AwaitingMethod(_) => {
                assert(self.accepts(DialEvent::MethodChosen(METHOD_NONE)));
            },
            Dial::NamingPeer => {
                assert(self.accepts(DialEvent::PeerNamed(arbitrary())));
            },
            Dial::AwaitingReply => {
                assert(self.accepts(DialEvent::Answered(Reply::Succeeded)));
            },
            Dial::Closing(_) => {
                assert(self.accepts(DialEvent::ShutDown));
            },
            Dial::Finished => {},
        }
    }
}

impl<E> Dial<E> {
    /// Begins to dial an upstream for `address`.
    pub fn begin(address: Address) -> (first: (Self, DialAction<E>))
        ensures
            first.0 == Dial::<E>::Connecting(address),
            first.1 == DialAction::<E>::Connect,
    {
        (Dial::Connecting(address), DialAction::Connect)
    }

    /// Tells whether `event` can happen now.
    pub fn is_ready_for(&self, event: &DialEvent<E>) -> (ready: bool)
        ensures
            ready == self.accepts(*event),
    {
        match event {
            DialEvent::Connected => matches!(self, Dial::Connecting(_)),
            DialEvent::Sent => matches!(self, Dial::Greeting(_) | Dial::Requesting),
            DialEvent::MethodChosen(_) => matches!(self, Dial::AwaitingMethod(_)),
            DialEvent::PeerNamed(_) => matches!(self, Dial::NamingPeer),
            DialEvent::Answered(_) => matches!(self, Dial::AwaitingReply),
            DialEvent::ShutDown => matches!(self, Dial::Closing(_)),
            DialEvent::Failed(_) => {
                !matches!(self, Dial::NamingPeer | Dial::Closing(_) | Dial::Finished)
            },
        }
    }

    /// Goes on after `event`.
    pub fn step(self, event: DialEvent<E>) -> (next: (Self, DialAction<E>))
        requires
            self.accepts(event),
        ensures
            next == self.after(event),
            next.1 is Finish <==> next.0 is Finished,
            next.0.steps_left() < self.steps_left(),
    {
        match (self, event) {
            (Dial::Connecting(address), DialEvent::Connected) => {
                (Dial::Greeting(address), DialAction::Greet(METHOD_NONE))
            },
            (Dial::Greeting(address), DialEvent::Sent) => {
                (Dial::AwaitingMethod(address), DialAction::AwaitMethod)
            },
            (Dial::AwaitingMethod(address), DialEvent::MethodChosen(method)) => {
                if method != METHOD_NONE {
                    (Dial::NamingPeer, DialAction::NamePeer)
                } else {
                    (Dial::Requesting, DialAction::Request(Command::Connect, address))
                }
            },
            (Dial::NamingPeer, DialEvent::PeerNamed(peer)) => (
                Dial::Closing(Err(Fault::Own(Complaint::NoAcceptableMethod(peer)))),
                DialAction::ShutDown,
            ),
            (Dial::Requesting, DialEvent::Sent) => (Dial::AwaitingReply, DialAction::AwaitReply),
            (Dial::AwaitingReply, DialEvent::Answered(reply)) => {
                if reply != Reply::Succeeded {
                    (Dial::Closing(Ok(reply)), DialAction::ShutDown)
                } else {
                    (Dial::Finished, DialAction::Finish(Ok(reply)))
                }
            },
            (Dial::Closing(outcome), DialEvent::ShutDown) => {
                (Dial::Finished, DialAction::Finish(outcome))
            },
            (_, DialEvent::Failed(error)) => (
                Dial::Finished,
                DialAction::Finish(Err(Fault::Outside(error))),
            ),
            _ => vstd::pervasive::unreached(),
        }
    }
}

/// A dial of which nothing fails runs like this: no method but "none" is offered;
/// an upstream that chooses another one is named, shut down and complained
/// about; one that chooses "none" is asked for a connection to the address,
/// and its answer is handed over. Unless it succeeded the connection is shut
/// down before.
pub proof fn law_dial_runs<E>(address: Address, events: Seq<DialEvent<E>>)
    requires
        is_complete_run(Dial::<E>::Connecting(address), events),
        forall|i: int| 0 <= i < events.len() ==> !((#[trigger] events[i]) is Failed),
    ensures
        ({
            let actions = actions_of(Dial::<E>::Connecting(address), events);
            &&& events.len() >= 5
            &&& events[0] is Connected
            &&& events[1] is Sent
            &&& events[2] is MethodChosen
            &&& if events[2]->MethodChosen_0 != METHOD_NONE {
                &&& events.len() == 5
                &&& events[3] is PeerNamed
                &&& events[4] is ShutDown
                &&& actions == seq![
                    DialAction::<E>::Greet(METHOD_NONE),
                    DialAction::AwaitMethod,
                    DialAction::NamePeer,
                    DialAction::ShutDown,
                    DialAction::Finish(
                        Err(
                            Fault::Own(Complaint::NoAcceptableMethod(events[3]->PeerNamed_0)),
                        ),
                    ),
                ]
            } else {
                &&& events[3] is Sent
                &&& events[4] is Answered
                &&& if events[4]->Answered_0 == Reply::Succeeded {
                    &&& events.len() == 5
                    &&& actions == seq![
                        DialAction::<E>::Greet(METHOD_NONE),
                        DialAction::AwaitMethod,
                        DialAction::Request(Command::Connect, address),
                        DialAction::AwaitReply,
                        DialAction::Finish(Ok(Reply::Succeeded)),
                    ]
                } else {
                    &&& events.len() == 6
                    &&& events[5] is ShutDown
                    &&& actions == seq![
                        DialAction::<E>::Greet(METHOD_NONE),
                        DialAction::AwaitMethod,
                        DialAction::Request(Command::Connect, address),
                        DialAction::AwaitReply,
                        DialAction::ShutDown,
                        DialAction::Finish(Ok(events[4]->Answered_0)),
                    ]
                }
            }
        }),
{
    reveal_with_fuel(is_run, 8);
    reveal_with_fuel(state_after, 8);
    reveal_with_fuel(actions_of, 8);
}

/// A failure ends a dial, wherever it happens: nothing is done after it but to
/// report its error.
pub proof fn law_dial_failure_is_reported<E>(
    state: Dial<E>,
    events: Seq<DialEvent<E>>,
    at: int,
    error: E,
)
    requires
        is_run(state, events),
        0 <= at < events.len(),
        events[at] == DialEvent::Failed(error),
    ensures
        at == events.len() - 1,
        state_after(state, events) == Dial::<E>::Finished,
        actions_of(state, events).len() == events.len(),
        actions_of(state, events)[at] == DialAction::<E>::Finish(Err(Fault::Outside(error))),
    decreases events.len(),
{
    let rest = events.drop_first();
    let next = state.after(events.first()).0;
    if at > 0 {
        assert(rest[at - 1] == events[at]);
        law_dial_failure_is_reported(next, rest, at - 1, error);
    } else {
        reveal_with_fuel(is_run, 2);
        reveal_with_fuel(state_after, 2);
        reveal_with_fuel(actions_of, 2);
    }
}

/// At every point of a dial, finished or not, what comes next follows from what
/// has happened: "no authentication", method 0, is offered; the request is for
/// the address of the dial; an upstream that succeeded is handed over at once;
/// one that gave another answer is shut down first and then that very answer is
/// handed over; and a failure is reported at once.
pub proof fn law_dial_goes_by_what_happened<E>(address: Address, events: Seq<DialEvent<E>>)
    requires
        is_run(Dial::<E>::Connecting(address), events),
        events.len() > 0,
    ensures
        ({
            let action = actions_of(Dial::<E>::Connecting(address), events).last();
            let previous = events[events.len() - 2];
            match events.last() {
                DialEvent::Connected => action == DialAction::<E>::Greet(0),
                DialEvent::Sent => match previous {
                    DialEvent::Connected => action is AwaitMethod,
                    DialEvent::MethodChosen(_) => action is AwaitReply,
                    _ => false,
                },
                DialEvent::MethodChosen(method) => if method == 0 {
                    action == DialAction::<E>::Request(Command::Connect, address)
                } else {
                    action is NamePeer
                },
                DialEvent::PeerNamed(_) => action is ShutDown,
                DialEvent::Answered(reply) => if reply is Succeeded {
                    action == DialAction::<E>::Finish(Ok(reply))
                } else {
                    action is ShutDown
                },
                DialEvent::ShutDown => match previous {
                    DialEvent::PeerNamed(peer) => action == DialAction::<E>::Finish(
                        Err(Fault::Own(Complaint::NoAcceptableMethod(peer))),
                    ),
                    DialEvent::Answered(reply) => action == DialAction::<E>::Finish(Ok(reply)),
                    _ => false,
                },
                DialEvent::Failed(error) => action == DialAction::<E>::Finish(
                    Err(Fault::Outside(error)),
                ),
            }
        }),
{
    reveal_with_fuel(is_run, 8);
    reveal_with_fuel(state_after, 8);
    reveal_with_fuel(actions_of, 8);
    law_runs_are_bounded(Dial::<E>::Connecting(address), events);
}

/// At every point of a dial exactly that can happen which may come of what was
/// last asked for, success or failure; and it is over exactly when it has
/// reported its outcome. What the upstream chooses or answers is up to it.
pub proof fn law_dial_awaits_what_it_asked_for<E>(
    address: Address,
    events: Seq<DialEvent<E>>,
    event: DialEvent<E>,
)
    requires
        is_run(Dial::<E>::Connecting(address), events),
    ensures
        ({
            let state = state_after(Dial::<E>::Connecting(address), events);
            let asked = if events.len() == 0 {
                DialAction::Connect
            } else {
                actions_of(Dial::<E>::Connecting(address), events).last()
            };
            &&& state.accepts(event) <==> match asked {
                DialAction::Connect => event is Connected || event is Failed,
                DialAction::Greet(_) => event is Sent || event is Failed,
                DialAction::AwaitMethod => event is MethodChosen || event is Failed,
                DialAction::NamePeer => event is PeerNamed,
                DialAction::Request(_, _) => event is Sent || event is Failed,
                DialAction::AwaitReply => event is Answered || event is Failed,
                DialAction::ShutDown => event is ShutDown,
                DialAction::Finish(_) => false,
            }
            &&& state.is_finished() <==> asked is Finish
        }),
{
    reveal_with_fuel(is_run, 8);
    reveal_with_fuel(state_after, 8);
    reveal_with_fuel(actions_of, 8);
    law_runs_are_bounded(Dial::<E>::Connecting(address), events);
}

/// In whichever state an upstream answers, its answer is what is handed over in
/// the end: at once if it succeeded, otherwise after a shutdown and nothing else.
pub proof fn law_answer_is_handed_over<E>(dial: Dial<E>, reply: Reply)
    requires
        dial.accepts(DialEvent::Answered(reply)),
    ensures
        ({
            let (next, action) = dial.after(DialEvent::Answered(reply));
            if reply is Succeeded {
                &&& action == DialAction::<E>::Finish(Ok(reply))
                &&& forall|event: DialEvent<E>| !(#[trigger] next.accepts(event))
            } else {
                &&& action is ShutDown
                &&& forall|event: DialEvent<E>| #[trigger]
                    next.accepts(event) <==> event is ShutDown
                &&& next.after(DialEvent::ShutDown).1 == DialAction::<E>::Finish(Ok(reply))
                &&& forall|event: DialEvent<E>|
                    !(#[trigger] next.after(DialEvent::ShutDown).0.accepts(event))
            }
        }),
{
}

/// For every address and every answer there is a dial that comes to that answer
/// and hands it over.
pub proof fn law_every_answer_can_be_handed_over<E>(address: Address, reply: Reply)
    ensures
        ({
            let start = Dial::<E>::Connecting(address);
            let answered = seq![
                DialEvent::<E>::Connected,
                DialEvent::Sent,
                DialEvent::MethodChosen(0),
                DialEvent::Sent,
                DialEvent::Answered(reply),
            ];
            let asked = seq![
                DialAction::<E>::Greet(0),
                DialAction::AwaitMethod,
                DialAction::Request(Command::Connect, address),
                DialAction::AwaitReply,
            ];
            if reply is Succeeded {
                &&& is_complete_run(start, answered)
                &&& actions_of(start, answered) == asked.push(DialAction::Finish(Ok(reply)))
            } else {
                &&& is_complete_run(start, answered.push(DialEvent::ShutDown))
                &&& actions_of(start, answered.push(DialEvent::ShutDown)) == asked.push(
                    DialAction::ShutDown,
                ).push(DialAction::Finish(Ok(reply)))
            }
        }),
{
    reveal_with_fuel(is_run, 8);
    reveal_with_fuel(state_after, 8);
    reveal_with_fuel(actions_of, 8);
}

/// Whatever a connection is shut down with to report, nothing but the end of that
/// is waited for, and then it is reported.
pub proof fn law_dial_reports_what_it_closed_with<E>(
    outcome: Result<Reply, Fault<E>>,
    event: DialEvent<E>,
)
    ensures
        Dial::Closing(outcome).accepts(event) <==> event is ShutDown,
        Dial::Closing(outcome).after(DialEvent::ShutDown) == (
            Dial::<E>::Finished,
            DialAction::<E>::Finish(outcome),
        ),
{
}

} // verus!
