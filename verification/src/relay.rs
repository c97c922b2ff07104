//! How the client carries one direction of a session, once both upstreams are
//! connected.

use vstd::prelude::*;

use crate::machine::actions_of;
use crate::machine::is_complete_run;
use crate::machine::is_run;
use crate::machine::law_runs_are_bounded;
use crate::machine::state_after;
use crate::machine::Machine;
use crate::session_id::wire_id;
use crate::session_id::wire_id_of;
use crate::session_id::Direction;

verus! {

/// How far a relay has come.
#[derive(Clone, Copy, Debug, PartialEq, Eq, Structural)]
pub enum RelayStage {
    /// The connection id is being written to the upstream.
    Announcing,
    /// Data is being copied.
    Copying,
    /// The end of this direction is being made known.
    Closing,
    /// The relay is over.
    Finished,
}

/// The state of a relay.
#[derive(Clone, Copy, Debug, PartialEq, Eq, Structural)]
pub struct Relay {
    pub direction: Direction,
    pub stage: RelayStage,
}

/// What can happen in a relay.
#[derive(Clone, Copy, Debug, PartialEq, Eq, Structural)]
pub enum RelayEvent {
    /// Writing the connection id was tried; whether it succeeded.
    Announced(bool),
    /// Copying has come to its end, whichever that is.
    Copied,
    /// The end was made known.
    Closed,
}

/// What a relay has to do next.
#[derive(Clone, Copy, Debug, PartialEq, Eq, Structural)]
pub enum RelayAction {
    /// Write this connection id to the upstream.
    Announce(u64),
    /// Copy from the client to the upstream.
    CopyUp,
    /// Copy from the upstream to the client, until the relay of the other
    /// direction makes its end known.
    CopyDown,
    /// Make known to the relay of the other direction that this one has ended.
    NotifyClosed,
    /// Shut down the stream to the client.
    ShutDownClient,
    /// The relay is over.
    Finish,
}

/// A relay that has not told its upstream the connection id yet.
pub open spec fn new_relay(direction: Direction) -> Relay {
    Relay { direction, stage: RelayStage::Announcing }
}

/// How a relay begins: it tells the upstream which stream of which session it is.
pub open spec fn announcement(session_id: u64, direction: Direction) -> RelayAction {
    RelayAction::Announce(wire_id_of(session_id, direction))
}

/// How data is carried in a direction.
pub open spec fn copy_action(direction: Direction) -> RelayAction {
    match direction {
        Direction::Up => RelayAction::CopyUp,
        Direction::Down => RelayAction::CopyDown,
    }
}

/// How the end of a direction is made known.
pub open spec fn close_action(direction: Direction) -> RelayAction {
    match direction {
        Direction::Up => RelayAction::NotifyClosed,
        Direction::Down => RelayAction::ShutDownClient,
    }
}

impl Machine for Relay {
    type Event = RelayEvent;

    type Action = RelayAction;

    open spec fn accepts(self, event: RelayEvent) -> bool {
        match event {
            RelayEvent::Announced(_) => self.stage == RelayStage::Announcing,
            RelayEvent::Copied => self.stage == RelayStage::Copying,
            RelayEvent::Closed => self.stage == RelayStage::Closing,
        }
    }

    open spec fn after(self, event: RelayEvent) -> (Self, RelayAction) {
        match event {
            RelayEvent::Announced(true) => (
                Relay { stage: RelayStage::Copying, ..self },
                copy_action(self.direction),
            ),
            RelayEvent::Announced(false) | RelayEvent::Copied => (
                Relay { stage: RelayStage::Closing, ..self },
                close_action(self.direction),
            ),
            RelayEvent::Closed => (
                Relay { stage: RelayStage::Finished, ..self },
                RelayAction::Finish,
            ),
        }
    }

    open spec fn is_finished(self) -> bool {
        self.stage == RelayStage::Finished
    }

    open spec fn steps_left(self) -> nat {
        match self.stage {
            RelayStage::Announcing => 3,
            RelayStage::Copying => 2,
            RelayStage::Closing => 1,
            RelayStage::Finished => 0,
        }
    }

    proof fn law_event_counts_down(self, event: RelayEvent) {
    }

    proof fn law_goes_on_until_finished(self) {
        match self.stage {
            RelayStage::Announcing => {
                assert(self.accepts(RelayEvent::Announced(true)));
            },
            RelayStage::Copying => {
                assert(self.accepts(RelayEvent::Copied));
            },
            RelayStage::Closing => {
                assert(self.accepts(RelayEvent::Closed));
            },
            RelayStage::Finished => {},
        }
    }
}

impl Relay {
    /// Begins to carry one direction of the session `session_id`, by telling the
    /// upstream which stream of which session this is.
    pub fn begin(session_id: u64, direction: Direction) -> (first: (Self, RelayAction))
        ensures
            first.0 == new_relay(direction),
            first.1 == announcement(session_id, direction),
            first.0 == (Relay { direction, stage: RelayStage::Announcing }),
            first.1 matches RelayAction::Announce(id) && match direction {
                Direction::Up => id == session_id,
                Direction::Down => id % 2 == 1 && id / 2 == session_id / 2,
            },
    {
        (
            Relay { direction, stage: RelayStage::Announcing },
            RelayAction::Announce(wire_id(session_id, direction)),
        )
    }

    /// Tells whether `event` can happen now.
    pub fn is_ready_for(&self, event: RelayEvent) -> (ready: bool)
        ensures
            ready == self.accepts(event),
    {
        match event {
            RelayEvent::Announced(_) => self.stage == RelayStage::Announcing,
            RelayEvent::Copied => self.stage == RelayStage::Copying,
            RelayEvent::Closed => self.stage == RelayStage::Closing,
        }
    }

    /// Goes on after `event`.
    pub fn step(self, event: RelayEvent) -> (next: (Self, RelayAction))
        requires
            self.accepts(event),
        ensures
            next == self.after(event),
            next.0.direction == self.direction,
            next.1 is Finish <==> next.0.stage == RelayStage::Finished,
            next.0.steps_left() < self.steps_left(),
    {
        let direction = self.direction;
        match event {
            RelayEvent::Announced(true) => {
                let action = match direction {
                    Direction::Up => RelayAction::CopyUp,
                    Direction::Down => RelayAction::CopyDown,
                };
                (Relay { direction, stage: RelayStage::Copying }, action)
            },
            RelayEvent::Announced(false) | RelayEvent::Copied => {
                let action = match direction {
                    Direction::Up => RelayAction::NotifyClosed,
                    Direction::Down => RelayAction::ShutDownClient,
                };
                (Relay { direction, stage: RelayStage::Closing }, action)
            },
            RelayEvent::Closed => {
                (Relay { direction, stage: RelayStage::Finished }, RelayAction::Finish)
            },
        }
    }
}

/// Data is carried only after the upstream was told the connection id, and
/// however a relay ends, its end is made known once.
pub proof fn law_relay_runs(direction: Direction, events: Seq<RelayEvent>)
    requires
        is_complete_run(new_relay(direction), events),
    ensures
        ({
            let actions = actions_of(new_relay(direction), events);
            if events[0] == RelayEvent::Announced(true) {
                &&& events == seq![
                    RelayEvent::Announced(true),
                    RelayEvent::Copied,
                    RelayEvent::Closed,
                ]
                &&& actions == seq![
                    copy_action(direction),
                    close_action(direction),
                    RelayAction::Finish,
                ]
            } else {
                &&& events == seq![RelayEvent::Announced(false), RelayEvent::Closed]
                &&& actions == seq![close_action(direction), RelayAction::Finish]
            }
        }),
{
    reveal_with_fuel(is_run, 5);
    reveal_with_fuel(state_after, 5);
    reveal_with_fuel(actions_of, 5);
}

/// At every point of a relay, what comes next follows from what has happened:
/// data is carried in the relay's own direction once the upstream was told the
/// connection id; and the end of the way up is told to the other relay, that of
/// the way down to the client.
pub proof fn law_relay_goes_by_what_happened(direction: Direction, events: Seq<RelayEvent>)
    requires
        is_run(Relay { direction, stage: RelayStage::Announcing }, events),
        events.len() > 0,
    ensures
        ({
            let action = actions_of(
                Relay { direction, stage: RelayStage::Announcing },
                events,
            ).last();
            match events.last() {
                RelayEvent::Announced(told) => match (told, direction) {
                    (true, Direction::Up) => action is CopyUp,
                    (true, Direction::Down) => action is CopyDown,
                    (false, Direction::Up) => action is NotifyClosed,
                    (false, Direction::Down) => action is ShutDownClient,
                },
                RelayEvent::Copied => match direction {
                    Direction::Up => action is NotifyClosed,
                    Direction::Down => action is ShutDownClient,
                },
                RelayEvent::Closed => action is Finish,
            }
        }),
{
    reveal_with_fuel(is_run, 5);
    reveal_with_fuel(state_after, 5);
    reveal_with_fuel(actions_of, 5);
    law_runs_are_bounded(Relay { direction, stage: RelayStage::Announcing }, events);
}

/// At every point of a relay exactly that can happen which may come of what was
/// last asked for, and it is over exactly when it says so.
pub proof fn law_relay_awaits_what_it_asked_for(
    session_id: u64,
    direction: Direction,
    events: Seq<RelayEvent>,
    event: RelayEvent,
)
    requires
        is_run(Relay { direction, stage: RelayStage::Announcing }, events),
    ensures
        ({
            let start = Relay { direction, stage: RelayStage::Announcing };
            let state = state_after(start, events);
            let asked = if events.len() == 0 {
                announcement(session_id, direction)
            } else {
                actions_of(start, events).last()
            };
            &&& state.accepts(event) <==> match asked {
                RelayAction::Announce(_) => event is Announced,
                RelayAction::CopyUp => event is Copied,
                RelayAction::CopyDown => event is Copied,
                RelayAction::NotifyClosed => event is Closed,
                RelayAction::ShutDownClient => event is Closed,
                RelayAction::Finish => false,
            }
            &&& state.is_finished() <==> asked is Finish
        }),
{
    reveal_with_fuel(is_run, 5);
    reveal_with_fuel(state_after, 5);
    reveal_with_fuel(actions_of, 5);
    law_runs_are_bounded(Relay { direction, stage: RelayStage::Announcing }, events);
}

/// A relay tells its upstream the session id as it is for the way up, and with
/// the lowest bit set for the way down.
pub proof fn law_announcement(session_id: u64, direction: Direction)
    ensures
        announcement(session_id, direction) matches RelayAction::Announce(id) && match direction {
            Direction::Up => id == session_id,
            Direction::Down => id % 2 == 1 && id / 2 == session_id / 2,
        },
{
}

} // verus!
