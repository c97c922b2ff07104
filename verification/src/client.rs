//! The client: it answers a SOCKS5 client once both upstreams have answered, and
//! hands the two directions of the connection to one of them each.

use vstd::prelude::*;

use crate::fault::Complaint;
use crate::fault::Fault;
use crate::machine::actions_of;
use crate::machine::is_complete_run;
use crate::machine::is_run;
use crate::machine::law_runs_are_bounded;
use crate::machine::state_after;
use crate::machine::Machine;
use crate::protocol::Address;
use crate::protocol::AddressView;
use crate::protocol::Reply;
use crate::session_id::Direction;

verus! {

/// How the client is set up.
#[derive(Debug, PartialEq, Eq)]
pub struct Config {
    /// The address to listen on.
    pub listen: String,
    /// The upstream that carries what the clients send.
    pub up: String,
    /// The upstream that carries what the clients receive.
    pub down: String,
}

/// The upstream that is to blame if the two answers are not both "succeeded":
/// the one for the way up goes first.
pub open spec fn refusing_upstream(up: Reply, down: Reply) -> Option<Direction> {
    if up != Reply::Succeeded {
        Some(Direction::Up)
    } else if down != Reply::Succeeded {
        Some(Direction::Down)
    } else {
        None
    }
}

/// The answer for the client, given the answers of the two upstreams.
pub open spec fn joint_reply(up: Reply, down: Reply) -> Reply {
    match refusing_upstream(up, down) {
        Some(Direction::Up) => up,
        Some(Direction::Down) => down,
        None => Reply::Succeeded,
    }
}

/// Makes one answer out of two, and says which upstream is to blame.
pub fn select_reply(up: Reply, down: Reply) -> (selected: (Reply, Option<Direction>))
    ensures
        selected.0 == joint_reply(up, down),
        selected.1 == refusing_upstream(up, down),
        up != Reply::Succeeded ==> selected == (up, Some(Direction::Up)),
        up == Reply::Succeeded && down != Reply::Succeeded ==> selected == (
            down,
            Some(Direction::Down),
        ),
        up == Reply::Succeeded && down == Reply::Succeeded ==> selected == (
            Reply::Succeeded,
            None::<Direction>,
        ),
{
    if up != Reply::Succeeded {
        (up, Some(Direction::Up))
    } else if down != Reply::Succeeded {
        (down, Some(Direction::Down))
    } else {
        (Reply::Succeeded, None)
    }
}

/// A client is told "succeeded" only if both upstreams said so, and otherwise
/// what the upstream to blame said: the one for the way up if it did not succeed,
/// else the one for the way down.
pub proof fn law_success_takes_both(up: Reply, down: Reply)
    ensures
        joint_reply(up, down) == Reply::Succeeded <==> up == Reply::Succeeded && down
            == Reply::Succeeded,
        refusing_upstream(up, down) is None <==> joint_reply(up, down) == Reply::Succeeded,
        joint_reply(up, down) == up || joint_reply(up, down) == down,
        up != Reply::Succeeded ==> joint_reply(up, down) == up && refusing_upstream(up, down)
            == Some(Direction::Up),
        up == Reply::Succeeded ==> joint_reply(up, down) == down,
        up == Reply::Succeeded && down != Reply::Succeeded ==> refusing_upstream(up, down) == Some(
            Direction::Down,
        ),
{
}

/// How far a session has come. Addresses are of type `A`.
#[derive(Debug, PartialEq, Eq)]
pub enum Stage<A, E> {
    /// The client's request is being negotiated.
    Negotiating,
    /// Both upstreams are being asked for a connection to this address.
    Dialing(A),
    /// The client is being told the outcome, which this upstream is to blame for.
    Replying(Option<Direction>),
    /// The connection is shut down because of a fault.
    Closing(Fault<E>),
    /// Data is being carried.
    Relaying,
    /// The session is over.
    Finished,
}

/// The state of a session: the addresses of its upstreams, as text, its id, and
/// how far it has come.
#[derive(Debug, PartialEq, Eq)]
pub struct Session<A, E> {
    pub up: String,
    pub down: String,
    pub id: u64,
    pub stage: Stage<A, E>,
}

/// What can happen in a session.
#[derive(Debug, PartialEq, Eq)]
pub enum ClientEvent<A, E> {
    /// The negotiation is over.
    Negotiated(Result<A, Fault<E>>),
    /// The upstreams for the way up and for the way down have been dialed.
    Dialed(Result<Reply, Fault<E>>, Result<Reply, Fault<E>>),
    /// The reply was sent.
    Replied,
    /// The relay of the way up is over.
    Relayed,
    /// Shutting the connection down was tried, with or without success.
    ShutDown,
    /// What was to be done failed.
    Failed(E),
}

/// What a session has to do next.
#[derive(Debug, PartialEq, Eq)]
pub enum ClientAction<A, E> {
    /// Negotiate with the client.
    Negotiate,
    /// Dial both upstreams at once, for these addresses.
    Dial { up: A, down: A },
    /// Answer the client.
    Reply(Reply, A),
    /// Shut the connection to the client down.
    ShutDown,
    /// Carry both directions of the session with this id.
    Relay(u64),
    /// The session is over, well or because of a fault.
    Finish(Result<(), Fault<E>>),
}

impl<E> View for Session<Address, E> {
    type V = Session<AddressView, E>;

    open spec fn view(&self) -> Session<AddressView, E> {
        Session {
            up: self.up,
            down: self.down,
            id: self.id,
            stage: match self.stage {
                Stage::Negotiating => Stage::Negotiating,
                Stage::Dialing(address) => Stage::Dialing(address@),
                Stage::Replying(blamed) => Stage::Replying(blamed),
                Stage::Closing(fault) => Stage::Closing(fault),
                Stage::Relaying => Stage::Relaying,
                Stage::Finished => Stage::Finished,
            },
        }
    }
}

impl<E> View for ClientEvent<Address, E> {
    type V = ClientEvent<AddressView, E>;

    open spec fn view(&self) -> ClientEvent<AddressView, E> {
        match *self {
            ClientEvent::Negotiated(Ok(address)) => ClientEvent::Negotiated(Ok(address@)),
            ClientEvent::Negotiated(Err(fault)) => ClientEvent::Negotiated(Err(fault)),
            ClientEvent::Dialed(up, down) => ClientEvent::Dialed(up, down),
            ClientEvent::Replied => ClientEvent::Replied,
            ClientEvent::Relayed => ClientEvent::Relayed,
            ClientEvent::ShutDown => ClientEvent::ShutDown,
            ClientEvent::Failed(error) => ClientEvent::Failed(error),
        }
    }
}

impl<E> View for ClientAction<Address, E> {
    type V = ClientAction<AddressView, E>;

    open spec fn view(&self) -> ClientAction<AddressView, E> {
        match *self {
            ClientAction::Negotiate => ClientAction::Negotiate,
            ClientAction::Dial { up, down } => ClientAction::Dial { up: up@, down: down@ },
            ClientAction::Reply(reply, address) => ClientAction::Reply(reply, address@),
            ClientAction::ShutDown => ClientAction::ShutDown,
            ClientAction::Relay(id) => ClientAction::Relay(id),
            ClientAction::Finish(outcome) => ClientAction::Finish(outcome),
        }
    }
}

impl<A, E> Session<A, E> {
    /// The address of the upstream for a direction, as text.
    pub open spec fn upstream(self, direction: Direction) -> String {
        match direction {
            Direction::Up => self.up,
            Direction::Down => self.down,
        }
    }

    /// This session, at another stage.
    pub open spec fn at(self, stage: Stage<A, E>) -> Self {
        Session { stage, ..self }
    }
}

impl<A, E> Machine for Session<A, E> {
    type Event = ClientEvent<A, E>;

    type Action = ClientAction<A, E>;

    open spec fn accepts(self, event: ClientEvent<A, E>) -> bool {
        match event {
            ClientEvent::Negotiated(_) => self.stage is Negotiating,
            ClientEvent::Dialed(_, _) => self.stage is Dialing,
            ClientEvent::Replied => self.stage is Replying,
            ClientEvent::Relayed => self.stage is Relaying,
            ClientEvent::ShutDown => self.stage is Closing,
            ClientEvent::Failed(_) => self.stage is Replying,
        }
    }

    open spec fn after(self, event: ClientEvent<A, E>) -> (Self, ClientAction<A, E>) {
        match event {
            ClientEvent::Negotiated(Ok(address)) => (
                self.at(Stage::Dialing(address)),
                ClientAction::Dial { up: address, down: address },
            ),
            ClientEvent::Negotiated(Err(fault)) => (
                self.at(Stage::Finished),
                ClientAction::Finish(Err(fault)),
            ),
            ClientEvent::Dialed(Ok(up), Ok(down)) => (
                self.at(Stage::Replying(refusing_upstream(up, down))),
                ClientAction::Reply(joint_reply(up, down), self.stage->Dialing_0),
            ),
            ClientEvent::Dialed(Err(fault), _) => (
                self.at(Stage::Finished),
                ClientAction::Finish(Err(fault)),
            ),
            ClientEvent::Dialed(Ok(_), Err(fault)) => (
                self.at(Stage::Finished),
                ClientAction::Finish(Err(fault)),
            ),
            ClientEvent::Replied => match self.stage->Replying_0 {
                None => (self.at(Stage::Relaying), ClientAction::Relay(self.id)),
                Some(blamed) => (
                    self.at(
                        Stage::Closing(
                            Fault::Own(Complaint::UnsuccessfulReply(self.upstream(blamed))),
                        ),
                    ),
                    ClientAction::ShutDown,
                ),
            },
            ClientEvent::Failed(error) => (
                self.at(Stage::Closing(Fault::Outside(error))),
                ClientAction::ShutDown,
            ),
            ClientEvent::ShutDown => (
                self.at(Stage::Finished),
                ClientAction::Finish(Err(self.stage->Closing_0)),
            ),
            ClientEvent::Relayed => (self.at(Stage::Finished), ClientAction::Finish(Ok(()))),
        }
    }

    open spec fn is_finished(self) -> bool {
        self.stage is Finished
    }

    open spec fn steps_left(self) -> nat {
        match self.stage {
            Stage::Negotiating => 4,
            Stage::Dialing(_) => 3,
            Stage::Replying(_) => 2,
            Stage::Closing(_) => 1,
            Stage::Relaying => 1,
            Stage::Finished => 0,
        }
    }

    proof fn law_event_counts_down(self, event: ClientEvent<A, E>) {
    }

    proof fn law_goes_on_until_finished(self) {
        match self.stage {
            Stage::Negotiating => {
                assert(self.accepts(ClientEvent::Negotiated(arbitrary())));
            },
            Stage::Dialing(_) => {
                assert(self.accepts(ClientEvent::Dialed(Ok(Reply::Succeeded), Ok(Reply::Succeeded))));
            },
            Stage::Replying(_) => {
                assert(self.accepts(ClientEvent::Replied));
            },
            Stage::Closing(_) => {
                assert(self.accepts(ClientEvent::ShutDown));
            },
            Stage::Relaying => {
                assert(self.accepts(ClientEvent::Relayed));
            },
            Stage::Finished => {},
        }
    }
}

impl<E> Session<Address, E> {
    /// Begins the session `id` over the upstreams at `up` and `down`, by
    /// negotiating with the client.
    pub fn begin(up: String, down: String, id: u64) -> (first: (
        Self,
        ClientAction<Address, E>,
    ))
        ensures
            first.0 == (Session::<Address, E> { up, down, id, stage: Stage::Negotiating }),
            first.1 == ClientAction::<Address, E>::Negotiate,
    {
        (Session { up, down, id, stage: Stage::Negotiating }, ClientAction::Negotiate)
    }

    /// Tells whether `event` can happen now.
    pub fn is_ready_for(&self, event: &ClientEvent<Address, E>) -> (ready: bool)
        ensures
            ready == self.accepts(*event),
            ready == self@.accepts(event@),
    {
        match event {
            ClientEvent::Negotiated(_) => matches!(self.stage, Stage::Negotiating),
            ClientEvent::Dialed(_, _) => matches!(self.stage, Stage::Dialing(_)),
            ClientEvent::Replied | ClientEvent::Failed(_) => {
                matches!(self.stage, Stage::Replying(_))
            },
            ClientEvent::Relayed => matches!(self.stage, Stage::Relaying),
            ClientEvent::ShutDown => matches!(self.stage, Stage::Closing(_)),
        }
    }

    /// Goes on after `event`.
    pub fn step(self, event: ClientEvent<Address, E>) -> (next: (
        Self,
        ClientAction<Address, E>,
    ))
        requires
            self@.accepts(event@),
        ensures
            next.0@ == self@.after(event@).0,
            next.1@ == self@.after(event@).1,
            next.0.up == self.up,
            next.0.down == self.down,
            next.0.id == self.id,
            next.1 is Finish <==> next.0.stage is Finished,
            next.0@.steps_left() < self@.steps_left(),
    {
        let Session { up, down, id, stage } = self;
        let (stage, action) = match (stage, event) {
            (Stage::Negotiating, ClientEvent::Negotiated(Ok(address))) => {
                let action = ClientAction::Dial { up: address.clone(), down: address.clone() };
                (Stage::Dialing(address), action)
            },
            (Stage::Negotiating, ClientEvent::Negotiated(Err(fault))) => {
                (Stage::Finished, ClientAction::Finish(Err(fault)))
            },
            (Stage::Dialing(address), ClientEvent::Dialed(from_up, from_down)) => {
                match (from_up, from_down) {
                    (Ok(from_up), Ok(from_down)) => {
                        let (reply, blamed) = select_reply(from_up, from_down);
                        (Stage::Replying(blamed), ClientAction::Reply(reply, address))
                    },
                    (Err(fault), _) => (Stage::Finished, ClientAction::Finish(Err(fault))),
                    (Ok(_), Err(fault)) => (Stage::Finished, ClientAction::Finish(Err(fault))),
                }
            },
            (Stage::Replying(blamed), ClientEvent::Replied) => match blamed {
                None => (Stage::Relaying, ClientAction::Relay(id)),
                Some(Direction::Up) => (
                    Stage::Closing(Fault::Own(Complaint::UnsuccessfulReply(up.clone()))),
                    ClientAction::ShutDown,
                ),
                Some(Direction::Down) => (
                    Stage::Closing(Fault::Own(Complaint::UnsuccessfulReply(down.clone()))),
                    ClientAction::ShutDown,
                ),
            },
            (Stage::Replying(_), ClientEvent::Failed(error)) => {
                (Stage::Closing(Fault::Outside(error)), ClientAction::ShutDown)
            },
            (Stage::Closing(fault), ClientEvent::ShutDown) => {
                (Stage::Finished, ClientAction::Finish(Err(fault)))
            },
            (Stage::Relaying, ClientEvent::Relayed) => {
                (Stage::Finished, ClientAction::Finish(Ok(())))
            },
            _ => vstd::pervasive::unreached(),
        };
        (Session { up, down, id, stage }, action)
    }
}

/// What a session does with an address depends on what the address says alone:
/// to go on and then look at what all addresses say is to look first and then go
/// on.
pub proof fn law_session_goes_by_what_addresses_say<E>(
    session: Session<Address, E>,
    event: ClientEvent<Address, E>,
)
    requires
        session.accepts(event),
    ensures
        session@.accepts(event@),
        session.after(event).0@ == session@.after(event@).0,
        session.after(event).1@ == session@.after(event@).1,
{
}

/// The same of a whole run: a run over addresses, seen through what the addresses
/// say, is the run whose steps [`Session::step`] takes, with the same actions, the
/// same state at its end, and complete if and only if that run is.
pub proof fn law_run_goes_by_what_addresses_say<E>(
    session: Session<Address, E>,
    events: Seq<ClientEvent<Address, E>>,
)
    requires
        is_run(session, events),
    ensures
        ({
            let said = events.map_values(|event: ClientEvent<Address, E>| event@);
            &&& is_run(session@, said)
            &&& state_after(session@, said) == state_after(session, events)@
            &&& actions_of(session@, said) == actions_of(session, events).map_values(
                |action: ClientAction<Address, E>| action@,
            )
            &&& is_complete_run(session, events) == is_complete_run(session@, said)
        }),
    decreases events.len(),
{
    let said = events.map_values(|event: ClientEvent<Address, E>| event@);
    if events.len() > 0 {
        let next = session.after(events.first()).0;
        law_session_goes_by_what_addresses_say(session, events.first());
        law_run_goes_by_what_addresses_say(next, events.drop_first());
        assert(said.drop_first() =~= events.drop_first().map_values(
            |event: ClientEvent<Address, E>| event@,
        ));
    }
    assert(actions_of(session@, said) =~= actions_of(session, events).map_values(
        |action: ClientAction<Address, E>| action@,
    ));
}

/// What the course of a whole session is, by what happens in it: both upstreams
/// are asked for the address that the client wants; the client is answered with
/// that address and with success only if both succeeded; only then data is
/// carried; and a client that was told a failure, or could not be told
/// anything, is shut down before the fault is reported. A session whose
/// negotiation or dialing fails is given up without an answer.
pub proof fn law_client_runs<A, E>(session: Session<A, E>, events: Seq<ClientEvent<A, E>>)
    requires
        session.stage is Negotiating,
        is_complete_run(session, events),
    ensures
        ({
            let actions = actions_of(session, events);
            match events[0] {
                ClientEvent::Negotiated(Err(fault)) => {
                    &&& events.len() == 1
                    &&& actions == seq![ClientAction::<A, E>::Finish(Err(fault))]
                },
                ClientEvent::Negotiated(Ok(address)) => {
                    let dial = ClientAction::<A, E>::Dial { up: address, down: address };
                    match events[1] {
                        ClientEvent::Dialed(Err(fault), _) => {
                            &&& events.len() == 2
                            &&& actions == seq![dial, ClientAction::Finish(Err(fault))]
                        },
                        ClientEvent::Dialed(Ok(_), Err(fault)) => {
                            &&& events.len() == 2
                            &&& actions == seq![dial, ClientAction::Finish(Err(fault))]
                        },
                        ClientEvent::Dialed(Ok(up), Ok(down)) => {
                            let reply = ClientAction::<A, E>::Reply(
                                joint_reply(up, down),
                                address,
                            );
                            &&& events.len() == 4
                            &&& match (events[2], refusing_upstream(up, down)) {
                                (ClientEvent::Failed(error), _) => {
                                    &&& events[3] is ShutDown
                                    &&& actions == seq![
                                        dial,
                                        reply,
                                        ClientAction::ShutDown,
                                        ClientAction::Finish(Err(Fault::Outside(error))),
                                    ]
                                },
                                (ClientEvent::Replied, Some(blamed)) => {
                                    &&& events[3] is ShutDown
                                    &&& actions == seq![
                                        dial,
                                        reply,
                                        ClientAction::ShutDown,
                                        ClientAction::Finish(
                                            Err(
                                                Fault::Own(
                                                    Complaint::UnsuccessfulReply(
                                                        session.upstream(blamed),
                                                    ),
                                                ),
                                            ),
                                        ),
                                    ]
                                },
                                (ClientEvent::Replied, None) => {
                                    &&& events[3] is Relayed
                                    &&& actions == seq![
                                        dial,
                                        ClientAction::Reply(Reply::Succeeded, address),
                                        ClientAction::Relay(session.id),
                                        ClientAction::Finish(Ok(())),
                                    ]
                                },
                                _ => false,
                            }
                        },
                        _ => false,
                    }
                },
                _ => false,
            }
        }),
{
    reveal_with_fuel(is_run, 6);
    reveal_with_fuel(state_after, 6);
    reveal_with_fuel(actions_of, 6);
}

/// At every point of a session, finished or not, what comes next follows from
/// what has happened: both upstreams are asked for the address that the client
/// wants; the client is answered with that address, and with what the upstream
/// for the way up said unless that is "succeeded", else with what the other one
/// said; data is carried, under the id that the session began with, exactly if
/// both said "succeeded" and the client was told; and the fault that is reported
/// after a shutdown blames the upstream that did not succeed, that of the way up
/// first.
pub proof fn law_session_goes_by_what_happened<A, E>(
    session: Session<A, E>,
    events: Seq<ClientEvent<A, E>>,
)
    requires
        session.stage is Negotiating,
        is_run(session, events),
        events.len() > 0,
    ensures
        ({
            let action = actions_of(session, events).last();
            match events.last() {
                ClientEvent::Negotiated(Ok(address)) => action == ClientAction::<A, E>::Dial {
                    up: address,
                    down: address,
                },
                ClientEvent::Negotiated(Err(fault)) => action == ClientAction::<A, E>::Finish(
                    Err(fault),
                ),
                ClientEvent::Dialed(Ok(up), Ok(down)) => {
                    &&& events[events.len() - 2] matches ClientEvent::Negotiated(Ok(address))
                    &&& action == ClientAction::<A, E>::Reply(
                        if up is Succeeded {
                            down
                        } else {
                            up
                        },
                        address,
                    )
                },
                ClientEvent::Dialed(Err(fault), _) => action == ClientAction::<A, E>::Finish(
                    Err(fault),
                ),
                ClientEvent::Dialed(Ok(_), Err(fault)) => action == ClientAction::<A, E>::Finish(
                    Err(fault),
                ),
                ClientEvent::Replied => {
                    &&& events[events.len() - 2] matches ClientEvent::Dialed(Ok(up), Ok(down))
                    &&& if up is Succeeded && down is Succeeded {
                        action == ClientAction::<A, E>::Relay(session.id)
                    } else {
                        action is ShutDown
                    }
                },
                ClientEvent::Failed(_) => action is ShutDown,
                ClientEvent::ShutDown => match events[events.len() - 2] {
                    ClientEvent::Failed(error) => action == ClientAction::<A, E>::Finish(
                        Err(Fault::Outside(error)),
                    ),
                    ClientEvent::Replied => {
                        &&& events[events.len() - 3] matches ClientEvent::Dialed(Ok(up), Ok(_))
                        &&& action == ClientAction::<A, E>::Finish(
                            Err(
                                Fault::Own(
                                    Complaint::UnsuccessfulReply(
                                        if up is Succeeded {
                                            session.down
                                        } else {
                                            session.up
                                        },
                                    ),
                                ),
                            ),
                        )
                    },
                    _ => false,
                },
                ClientEvent::Relayed => action == ClientAction::<A, E>::Finish(Ok(())),
            }
        }),
{
    reveal_with_fuel(is_run, 6);
    reveal_with_fuel(state_after, 6);
    reveal_with_fuel(actions_of, 6);
    law_runs_are_bounded(session, events);
}

/// At every point of a session exactly that can happen which may come of what was
/// last asked for, success or failure, whatever the session's id and upstreams
/// are; and it is over exactly when it has reported its outcome.
pub proof fn law_session_awaits_what_it_asked_for<A, E>(
    session: Session<A, E>,
    events: Seq<ClientEvent<A, E>>,
    event: ClientEvent<A, E>,
)
    requires
        session.stage is Negotiating,
        is_run(session, events),
    ensures
        ({
            let state = state_after(session, events);
            let asked = if events.len() == 0 {
                ClientAction::Negotiate
            } else {
                actions_of(session, events).last()
            };
            &&& state.accepts(event) <==> match asked {
                ClientAction::Negotiate => event is Negotiated,
                ClientAction::Dial { .. } => event is Dialed,
                ClientAction::Reply(_, _) => event is Replied || event is Failed,
                ClientAction::ShutDown => event is ShutDown,
                ClientAction::Relay(_) => event is Relayed,
                ClientAction::Finish(_) => false,
            }
            &&& state.is_finished() <==> asked is Finish
            &&& state.id == session.id
            &&& state.up == session.up
            &&& state.down == session.down
        }),
{
    reveal_with_fuel(is_run, 6);
    reveal_with_fuel(state_after, 6);
    reveal_with_fuel(actions_of, 6);
    law_runs_are_bounded(session, events);
}

/// In whichever state both upstreams have answered, the client is told next:
/// "succeeded" if and only if both said so.
pub proof fn law_client_is_told_what_upstreams_said<A, E>(
    session: Session<A, E>,
    up: Reply,
    down: Reply,
)
    requires
        session.accepts(ClientEvent::Dialed(Ok(up), Ok(down))),
    ensures
        ({
            let (next, action) = session.after(ClientEvent::Dialed(Ok(up), Ok(down)));
            let replied = next.after(ClientEvent::Replied);
            &&& action matches ClientAction::Reply(reply, _)
            &&& reply is Succeeded <==> up is Succeeded && down is Succeeded
            &&& !(up is Succeeded) ==> reply == up
            &&& up is Succeeded ==> reply == down
            &&& forall|event: ClientEvent<A, E>| #[trigger]
                next.accepts(event) <==> event is Replied || event is Failed
            &&& reply is Succeeded ==> replied.1 == ClientAction::<A, E>::Relay(session.id)
            &&& !(reply is Succeeded) ==> replied.1 is ShutDown
        }),
{
}

/// For every id, every pair of upstreams and every address, a session of which
/// nothing fails runs to its end and carries data under its own id.
pub proof fn law_every_session_can_succeed<A, E>(session: Session<A, E>, address: A)
    requires
        session.stage is Negotiating,
    ensures
        ({
            let events = seq![
                ClientEvent::<A, E>::Negotiated(Ok(address)),
                ClientEvent::Dialed(Ok(Reply::Succeeded), Ok(Reply::Succeeded)),
                ClientEvent::Replied,
                ClientEvent::Relayed,
            ];
            &&& is_complete_run(session, events)
            &&& actions_of(session, events) == seq![
                ClientAction::<A, E>::Dial { up: address, down: address },
                ClientAction::Reply(Reply::Succeeded, address),
                ClientAction::Relay(session.id),
                ClientAction::Finish(Ok(())),
            ]
        }),
{
    reveal_with_fuel(is_run, 6);
    reveal_with_fuel(state_after, 6);
    reveal_with_fuel(actions_of, 6);
}

/// For all answers of which one is not "succeeded", a session that comes to them
/// runs to its end: the client is told, shut down, and the upstream is blamed.
pub proof fn law_every_refusal_is_told<A, E>(
    session: Session<A, E>,
    address: A,
    up: Reply,
    down: Reply,
)
    requires
        session.stage is Negotiating,
        !(up is Succeeded && down is Succeeded),
    ensures
        ({
            let events = seq![
                ClientEvent::<A, E>::Negotiated(Ok(address)),
                ClientEvent::Dialed(Ok(up), Ok(down)),
                ClientEvent::Replied,
                ClientEvent::ShutDown,
            ];
            let (refusal, upstream) = if up is Succeeded {
                (down, session.down)
            } else {
                (up, session.up)
            };
            &&& is_complete_run(session, events)
            &&& actions_of(session, events) == seq![
                ClientAction::<A, E>::Dial { up: address, down: address },
                ClientAction::Reply(refusal, address),
                ClientAction::ShutDown,
                ClientAction::Finish(Err(Fault::Own(Complaint::UnsuccessfulReply(upstream)))),
            ]
        }),
{
    reveal_with_fuel(is_run, 6);
    reveal_with_fuel(state_after, 6);
    reveal_with_fuel(actions_of, 6);
}

/// To see a session, what happens in it and what it does through what addresses
/// say changes nothing but the addresses.
pub proof fn law_views_change_addresses_alone<E>(
    session: Session<Address, E>,
    event: ClientEvent<Address, E>,
    action: ClientAction<Address, E>,
)
    ensures
        session@.up == session.up,
        session@.down == session.down,
        session@.id == session.id,
        match (session.stage, session@.stage) {
            (Stage::Negotiating, Stage::Negotiating) => true,
            (Stage::Dialing(address), Stage::Dialing(said)) => said == address@,
            (Stage::Replying(blamed), Stage::Replying(said)) => said == blamed,
            (Stage::Closing(fault), Stage::Closing(said)) => said == fault,
            (Stage::Relaying, Stage::Relaying) => true,
            (Stage::Finished, Stage::Finished) => true,
            _ => false,
        },
        match (event, event@) {
            (ClientEvent::Negotiated(Ok(address)), ClientEvent::Negotiated(Ok(said))) => said
                == address@,
            (ClientEvent::Negotiated(Err(fault)), ClientEvent::Negotiated(Err(said))) => said
                == fault,
            (ClientEvent::Dialed(up, down), ClientEvent::Dialed(said_up, said_down)) => said_up
                == up && said_down == down,
            (ClientEvent::Replied, ClientEvent::Replied) => true,
            (ClientEvent::Relayed, ClientEvent::Relayed) => true,
            (ClientEvent::ShutDown, ClientEvent::ShutDown) => true,
            (ClientEvent::Failed(error), ClientEvent::Failed(said)) => said == error,
            _ => false,
        },
        match (action, action@) {
            (ClientAction::Negotiate, ClientAction::Negotiate) => true,
            (
                ClientAction::Dial { up, down },
                ClientAction::Dial { up: said_up, down: said_down },
            ) => said_up == up@ && said_down == down@,
            (ClientAction::Reply(reply, address), ClientAction::Reply(said, to)) => said == reply
                && to == address@,
            (ClientAction::ShutDown, ClientAction::ShutDown) => true,
            (ClientAction::Relay(id), ClientAction::Relay(said)) => said == id,
            (ClientAction::Finish(outcome), ClientAction::Finish(said)) => said == outcome,
            _ => false,
        },
{
}

/// Whatever the connection to a client is shut down for, nothing but the end of
/// that is waited for, and then that fault is reported.
pub proof fn law_session_reports_what_it_closed_for<A, E>(
    session: Session<A, E>,
    fault: Fault<E>,
    event: ClientEvent<A, E>,
)
    requires
        session.stage == Stage::<A, E>::Closing(fault),
    ensures
        session.accepts(event) <==> event is ShutDown,
        session.after(ClientEvent::ShutDown).0.stage is Finished,
        session.after(ClientEvent::ShutDown).1 == ClientAction::<A, E>::Finish(Err(fault)),
{
}

} // verus!
