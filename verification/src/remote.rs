//! How the server connects to the address that a client asked for.

use vstd::prelude::*;

use crate::machine::actions_of;
use crate::machine::is_complete_run;
use crate::machine::is_run;
use crate::machine::law_runs_are_bounded;
use crate::machine::state_after;
use crate::machine::Machine;
use crate::protocol::connect_target;
use crate::protocol::is_target_for;
use crate::protocol::utf8_lossy;
use crate::protocol::Address;
use crate::protocol::Target;

verus! {

/// The state of a connection to a remote address.
#[derive(Debug, PartialEq, Eq)]
pub enum Remote<E> {
    /// The connection is being made.
    Connecting,
    /// The client's stream is shut down because the connection failed.
    Closing(E),
    /// The connection is made or given up.
    Finished,
}

/// What can happen to a connection to a remote address.
#[derive(Debug, PartialEq, Eq)]
pub enum RemoteEvent<E> {
    /// It is made.
    Connected,
    /// It failed.
    Failed(E),
    /// Shutting the client's stream down was tried, with or without success.
    ShutDown,
}

/// What has to be done next for a connection to a remote address.
#[derive(Debug, PartialEq, Eq)]
pub enum RemoteAction<E> {
    /// Connect to this target.
    Connect(Target),
    /// Shut the client's stream down.
    ShutDown,
    /// Hand the connection over or report why there is none.
    Finish(Result<(), E>),
}

impl<E> Machine for Remote<E> {
    type Event = RemoteEvent<E>;

    type Action = RemoteAction<E>;

    open spec fn accepts(self, event: RemoteEvent<E>) -> bool {
        match event {
            RemoteEvent::Connected => self is Connecting,
            RemoteEvent::Failed(_) => self is Connecting,
            RemoteEvent::ShutDown => self is Closing,
        }
    }

    open spec fn after(self, event: RemoteEvent<E>) -> (Self, RemoteAction<E>) {
        match event {
            RemoteEvent::Connected => (Remote::Finished, RemoteAction::Finish(Ok(()))),
            RemoteEvent::Failed(error) => (Remote::Closing(error), RemoteAction::ShutDown),
            RemoteEvent::ShutDown => (
                Remote::Finished,
                RemoteAction::Finish(Err(self->Closing_0)),
            ),
        }
    }

    open spec fn is_finished(self) -> bool {
        self is Finished
    }

    open spec fn steps_left(self) -> nat {
        match self {
            Remote::Connecting => 2,
            Remote::Closing(_) => 1,
            Remote::Finished => 0,
        }
    }

    proof fn law_event_counts_down(self, event: RemoteEvent<E>) {
    }

    proof fn law_goes_on_until_finished(self) {
        match self {
            Remote::Connecting => {
                assert(self.accepts(RemoteEvent::Connected));
            },
            Remote::Closing(_) => {
                assert(self.accepts(RemoteEvent::ShutDown));
            },
            Remote::Finished => {},
        }
    }
}

impl<E> Remote<E> {
    /// Begins to connect to `address`.
    pub fn begin(address: &Address) -> (first: (Self, RemoteAction<E>))
        ensures
            first.0 == Remote::<E>::Connecting,
            first.1 matches RemoteAction::Connect(target) && is_target_for(target@, address@),
            match *address {
                Address::SocketAddress(socket) => first.1 == RemoteAction::<E>::Connect(
                    Target::Socket(socket),
                ),
                Address::DomainAddress(host, port) => {
                    &&& first.1 matches RemoteAction::Connect(Target::Host(name, to))
                    &&& to == port
                    &&& name@ == utf8_lossy(host@)
                    &&& vstd::utf8::valid_utf8(host@) ==> name@ == vstd::utf8::decode_utf8(host@)
                },
            },
    {
        (Remote::Connecting, RemoteAction::Connect(connect_target(address)))
    }

    /// Tells whether `event` can happen now.
    pub fn is_ready_for(&self, event: &RemoteEvent<E>) -> (ready: bool)
        ensures
            ready == self.accepts(*event),
    {
        match event {
            RemoteEvent::Connected | RemoteEvent::Failed(_) => matches!(self, Remote::Connecting),
            RemoteEvent::ShutDown => matches!(self, Remote::Closing(_)),
        }
    }

    /// Goes on after `event`.
    pub fn step(self, event: RemoteEvent<E>) -> (next: (Self, RemoteAction<E>))
        requires
            self.accepts(event),
        ensures
            next == self.after(event),
            next.1 is Finish <==> next.0 is Finished,
            next.0.steps_left() < self.steps_left(),
    {
        match (self, event) {
            (Remote::Connecting, RemoteEvent::Connected) => {
                (Remote::Finished, RemoteAction::Finish(Ok(())))
            },
            (Remote::Connecting, RemoteEvent::Failed(error)) => {
                (Remote::Closing(error), RemoteAction::ShutDown)
            },
            (Remote::Closing(error), RemoteEvent::ShutDown) => {
                (Remote::Finished, RemoteAction::Finish(Err(error)))
            },
            _ => vstd::pervasive::unreached(),
        }
    }
}

/// A connection is handed over as soon as it is made; one that fails has the
/// client's stream shut down before its error is reported.
pub proof fn law_remote_runs<E>(events: Seq<RemoteEvent<E>>)
    requires
        is_complete_run(Remote::<E>::Connecting, events),
    ensures
        match events[0] {
            RemoteEvent::Connected => {
                &&& events.len() == 1
                &&& actions_of(Remote::<E>::Connecting, events) == seq![
                    RemoteAction::<E>::Finish(Ok(())),
                ]
            },
            RemoteEvent::Failed(error) => {
                &&& events == seq![RemoteEvent::Failed(error), RemoteEvent::ShutDown]
                &&& actions_of(Remote::<E>::Connecting, events) == seq![
                    RemoteAction::<E>::ShutDown,
                    RemoteAction::Finish(Err(error)),
                ]
            },
            RemoteEvent::ShutDown => false,
        },
{
    reveal_with_fuel(is_run, 4);
    reveal_with_fuel(state_after, 4);
    reveal_with_fuel(actions_of, 4);
}

/// At every point of a connection to a remote address, what comes next follows
/// from what has happened: it is handed over once it is made, and a failure is
/// reported after the client's stream was shut down.
pub proof fn law_remote_goes_by_what_happened<E>(events: Seq<RemoteEvent<E>>)
    requires
        is_run(Remote::<E>::Connecting, events),
        events.len() > 0,
    ensures
        ({
            let action = actions_of(Remote::<E>::Connecting, events).last();
            match events.last() {
                RemoteEvent::Connected => action == RemoteAction::<E>::Finish(Ok(())),
                RemoteEvent::Failed(_) => action is ShutDown,
                RemoteEvent::ShutDown => {
                    &&& events[events.len() - 2] matches RemoteEvent::Failed(error)
                    &&& action == RemoteAction::<E>::Finish(Err(error))
                },
            }
        }),
{
    reveal_with_fuel(is_run, 4);
    reveal_with_fuel(state_after, 4);
    reveal_with_fuel(actions_of, 4);
    law_runs_are_bounded(Remote::<E>::Connecting, events);
}

/// At every point exactly that can happen which may come of what was last asked
/// for, success or failure; and the connection is made or given up exactly when
/// that was reported.
pub proof fn law_remote_awaits_what_it_asked_for<E>(
    events: Seq<RemoteEvent<E>>,
    event: RemoteEvent<E>,
)
    requires
        is_run(Remote::<E>::Connecting, events),
    ensures
        ({
            let state = state_after(Remote::<E>::Connecting, events);
            let asked = actions_of(Remote::<E>::Connecting, events).last();
            if events.len() == 0 {
                &&& state.accepts(event) <==> event is Connected || event is Failed
                &&& !state.is_finished()
            } else {
                &&& state.accepts(event) <==> match asked {
                    RemoteAction::Connect(_) => event is Connected || event is Failed,
                    RemoteAction::ShutDown => event is ShutDown,
                    RemoteAction::Finish(_) => false,
                }
                &&& state.is_finished() <==> asked is Finish
            }
        }),
{
    reveal_with_fuel(is_run, 4);
    reveal_with_fuel(state_after, 4);
    reveal_with_fuel(actions_of, 4);
    law_runs_are_bounded(Remote::<E>::Connecting, events);
}

} // verus!
