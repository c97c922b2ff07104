//! The server: it joins the two streams of a session to one remote connection.

use vstd::prelude::*;

use crate::fault::Complaint;
use crate::fault::Fault;
use crate::machine::actions_of;
use crate::machine::is_complete_run;
use crate::machine::is_run;
use crate::machine::law_runs_are_bounded;
use crate::machine::state_after;
use crate::machine::Machine;
use crate::protocol::unspecified_address;
use crate::protocol::Address;
use crate::protocol::Reply;
use crate::protocol::SocketAddress;
use crate::session_id::direction_of;
use crate::session_id::key_of;
use crate::session_id::split_wire_id;
use crate::session_id::Direction;
use crate::session_table::after_arrival;
use crate::session_table::arrival_of;
use crate::session_table::Arrival;
use crate::session_table::Entry;
use crate::session_table::SessionTable;

verus! {

/// How the server is set up.
#[derive(Debug, PartialEq, Eq)]
pub struct Config {
    /// The address to listen on.
    pub listen: String,
    /// How long a stream may take to tell its connection id, and how long a
    /// session waits for its second stream, in milliseconds.
    pub timeout_ms: u64,
}

impl Config {
    /// The timeout of a set-up that gives none, in milliseconds.
    pub fn default_timeout_ms() -> (timeout_ms: u64)
        ensures
            timeout_ms == 1000,
    {
        1000
    }

    /// The timeout in nanoseconds.
    pub fn timeout_nanos(&self) -> (nanos: u128)
        ensures
            nanos == self.timeout_ms * 1_000_000,
    {
        self.timeout_ms as u128 * 1_000_000
    }

    /// The time between two sweeps of the session table, half the timeout, in
    /// whole seconds and the nanoseconds that are left.
    pub fn sweep_interval(&self) -> (interval: (u64, u32))
        ensures
            2 * (interval.0 * 1_000_000_000 + interval.1) == self.timeout_ms * 1_000_000,
            interval.1 < 1_000_000_000,
    {
        let secs: u64 = self.timeout_ms / 2000;
        let nanos: u32 = (self.timeout_ms % 2000) as u32 * 500_000;
        (secs, nanos)
    }
}

/// Half of a remote connection: the one to read from or the one to write to.
#[derive(Debug, PartialEq, Eq)]
pub enum ConnHalf<R, W> {
    R(R),
    W(W),
}

/// Which half of a remote connection is meant.
#[derive(Clone, Copy, Debug, PartialEq, Eq, Structural)]
pub enum HalfKind {
    R,
    W,
}

impl<R, W> ConnHalf<R, W> {
    /// Which half this is.
    pub open spec fn half_kind(self) -> HalfKind {
        match self {
            ConnHalf::R(_) => HalfKind::R,
            ConnHalf::W(_) => HalfKind::W,
        }
    }

    /// Tells which half this is.
    pub fn kind(&self) -> (kind: HalfKind)
        ensures
            kind == self.half_kind(),
            kind == HalfKind::R <==> self is R,
            kind == HalfKind::W <==> self is W,
    {
        match self {
            ConnHalf::R(_) => HalfKind::R,
            ConnHalf::W(_) => HalfKind::W,
        }
    }
}

/// The half of the remote connection that the stream of a direction needs: the
/// way down reads from the remote side, the way up writes to it.
pub open spec fn half_of(direction: Direction) -> HalfKind {
    match direction {
        Direction::Down => HalfKind::R,
        Direction::Up => HalfKind::W,
    }
}

/// Tells which half of the remote connection the stream of a direction needs.
pub fn needed_half(direction: Direction) -> (kind: HalfKind)
    ensures
        kind == half_of(direction),
        kind == HalfKind::R <==> direction == Direction::Down,
{
    match direction {
        Direction::Down => HalfKind::R,
        Direction::Up => HalfKind::W,
    }
}

/// Tells which half of the remote connection the first stream of a session
/// leaves for the second one, if the first one is of this direction.
pub fn spare_half(direction: Direction) -> (kind: HalfKind)
    ensures
        kind == half_of(direction.opposite()),
        kind != half_of(direction),
        kind == HalfKind::W <==> direction == Direction::Down,
{
    match direction {
        Direction::Down => HalfKind::W,
        Direction::Up => HalfKind::R,
    }
}

/// The state of a stream.
#[derive(Debug, PartialEq, Eq)]
pub enum Stream<E> {
    /// The request is being negotiated. The connection id will be awaited for
    /// this many milliseconds.
    Negotiating(u64),
    /// The request, for this address, is being answered. The connection id will
    /// be awaited for this many milliseconds.
    Replying(Address, u64),
    /// The connection id is awaited.
    ReadingId(Address),
    /// The session of the stream with this id is looked up.
    LookingUp(Address, u64),
    /// The half of the remote connection that the session keeps is awaited.
    Joining(Direction),
    /// The remote connection is being made.
    Connecting(Direction),
    /// Data is being carried.
    Copying,
    /// The connection is shut down because of a fault.
    Closing(Fault<E>),
    /// The stream is over.
    Finished,
}

/// What can happen to a stream.
#[derive(Debug, PartialEq, Eq)]
pub enum ServerEvent<E> {
    /// The negotiation is over.
    Negotiated(Result<Address, Fault<E>>),
    /// The reply was sent.
    Replied,
    /// The connection id came.
    IdRead(u64),
    /// The connection id did not come in time.
    TimedOut,
    /// The session is new.
    Opened,
    /// The session was waiting for this stream.
    Resumed,
    /// The half of the remote connection that the session kept is at hand.
    HalfTaken(HalfKind),
    /// The session has kept no half: its first stream could not connect.
    NothingLeft,
    /// The remote connection is made.
    Connected,
    /// Copying has come to its end, whichever that is.
    Copied,
    /// Shutting the connection down was tried, with or without success.
    ShutDown,
    /// What was to be done failed.
    Failed(E),
}

/// What has to be done next for a stream.
#[derive(Debug, PartialEq, Eq)]
pub enum ServerAction<E> {
    /// Negotiate with the client.
    Negotiate,
    /// Answer the request.
    Reply(Reply, Address),
    /// Wait for the connection id, for this many milliseconds at most.
    ReadId(u64),
    /// Let the stream with this id arrive at the session table.
    LookUp(u64),
    /// Wait for the half of the remote connection that the session kept.
    TakeHalf,
    /// Connect to this address.
    Connect(Address),
    /// Leave this half of the remote connection for the other stream.
    /// Then copy, in this direction, over the other half.
    KeepAndCopy(HalfKind, Direction),
    /// Copy, in this direction, over the half that was taken.
    Copy(Direction),
    /// Shut the connection down.
    ShutDown,
    /// The stream is over, well or because of a fault.
    Finish(Result<(), Fault<E>>),
}

/// What the second stream of a session finds in the slot that the first one has
/// let go of.
pub open spec fn found_in_slot<E>(kept: Option<HalfKind>) -> ServerEvent<E> {
    match kept {
        Some(kind) => ServerEvent::HalfTaken(kind),
        None => ServerEvent::NothingLeft,
    }
}

impl<E> ServerEvent<E> {
    /// Tells what it means for the second stream of a session to find this in the
    /// slot.
    pub fn from_slot<R, W>(slot: &Option<ConnHalf<R, W>>) -> (event: Self)
        ensures
            event == found_in_slot::<E>(
                match slot {
                    Some(half) => Some(half.half_kind()),
                    None => None,
                },
            ),
            match slot {
                Some(ConnHalf::R(_)) => event == ServerEvent::<E>::HalfTaken(HalfKind::R),
                Some(ConnHalf::W(_)) => event == ServerEvent::<E>::HalfTaken(HalfKind::W),
                None => event == ServerEvent::<E>::NothingLeft,
            },
    {
        match slot {
            Some(half) => ServerEvent::HalfTaken(half.kind()),
            None => ServerEvent::NothingLeft,
        }
    }
}

impl<E> Machine for Stream<E> {
    type Event = ServerEvent<E>;

    type Action = ServerAction<E>;

    open spec fn accepts(self, event: ServerEvent<E>) -> bool {
        match event {
            ServerEvent::Negotiated(_) => self is Negotiating,
            ServerEvent::Replied => self is Replying,
            ServerEvent::IdRead(_) => self is ReadingId,
            ServerEvent::TimedOut => self is ReadingId,
            ServerEvent::Opened => self is LookingUp,
            ServerEvent::Resumed => self is LookingUp,
            ServerEvent::HalfTaken(_) => self is Joining,
            ServerEvent::NothingLeft => self is Joining,
            ServerEvent::Connected => self is Connecting,
            ServerEvent::Copied => self is Copying,
            ServerEvent::ShutDown => self is Closing,
            ServerEvent::Failed(_) => self is Replying || self is Connecting,
        }
    }

    open spec fn after(self, event: ServerEvent<E>) -> (Self, ServerAction<E>) {
        match event {
            ServerEvent::Negotiated(Ok(address)) => (
                Stream::Replying(address, self->Negotiating_0),
                ServerAction::Reply(Reply::Succeeded, unspecified_address()),
            ),
            ServerEvent::Negotiated(Err(fault)) => (
                Stream::Finished,
                ServerAction::Finish(Err(fault)),
            ),
            ServerEvent::Replied => (
                Stream::ReadingId(self->Replying_0),
                ServerAction::ReadId(self->Replying_1),
            ),
            ServerEvent::IdRead(id) => (
                Stream::LookingUp(self->ReadingId_0, id),
                ServerAction::LookUp(id),
            ),
            ServerEvent::TimedOut => (
                Stream::Finished,
                ServerAction::Finish(Err(Fault::Own(Complaint::IdTimeout))),
            ),
            ServerEvent::Opened => (
                Stream::Connecting(direction_of(self->LookingUp_1)),
                ServerAction::Connect(self->LookingUp_0),
            ),
            ServerEvent::Resumed => (
                Stream::Joining(direction_of(self->LookingUp_1)),
                ServerAction::TakeHalf,
            ),
            ServerEvent::HalfTaken(kind) => if kind == half_of(self->Joining_0) {
                (Stream::Copying, ServerAction::Copy(self->Joining_0))
            } else {
                (
                    Stream::Finished,
                    ServerAction::Finish(Err(Fault::Own(Complaint::MismatchedConnection))),
                )
            },
            ServerEvent::NothingLeft => (
                Stream::Finished,
                ServerAction::Finish(Err(Fault::Own(Complaint::NothingLeft))),
            ),
            ServerEvent::Connected => (
                Stream::Copying,
                ServerAction::KeepAndCopy(
                    half_of(self->Connecting_0.opposite()),
                    self->Connecting_0,
                ),
            ),
            ServerEvent::Copied => (Stream::Finished, ServerAction::Finish(Ok(()))),
            ServerEvent::ShutDown => (
                Stream::Finished,
                ServerAction::Finish(Err(self->Closing_0)),
            ),
            ServerEvent::Failed(error) => match self {
                Stream::Replying(_, _) => (
                    Stream::Closing(Fault::Outside(error)),
                    ServerAction::ShutDown,
                ),
                _ => (Stream::Finished, ServerAction::Finish(Err(Fault::Outside(error)))),
            },
        }
    }

    open spec fn is_finished(self) -> bool {
        self is Finished
    }

    open spec fn steps_left(self) -> nat {
        match self {
            Stream::Negotiating(_) => 6,
            Stream::Replying(_, _) => 5,
            Stream::ReadingId(_) => 4,
            Stream::LookingUp(_, _) => 3,
            Stream::Joining(_) => 2,
            Stream::Connecting(_) => 2,
            Stream::Copying => 1,
            Stream::Closing(_) => 1,
            Stream::Finished => 0,
        }
    }

    proof fn law_event_counts_down(self, event: ServerEvent<E>) {
    }

    proof fn law_goes_on_until_finished(self) {
        match self {
            Stream::Negotiating(_) => {
                assert(self.accepts(ServerEvent::Negotiated(Ok(unspecified_address()))));
            },
            Stream::Replying(_, _) => {
                assert(self.accepts(ServerEvent::Replied));
            },
            Stream::ReadingId(_) => {
                assert(self.accepts(ServerEvent::TimedOut));
            },
            Stream::LookingUp(_, _) => {
                assert(self.accepts(ServerEvent::Opened));
            },
            Stream::Joining(_) => {
                assert(self.accepts(ServerEvent::NothingLeft));
            },
            Stream::Connecting(_) => {
                assert(self.accepts(ServerEvent::Connected));
            },
            Stream::Copying => {
                assert(self.accepts(ServerEvent::Copied));
            },
            Stream::Closing(_) => {
                assert(self.accepts(ServerEvent::ShutDown));
            },
            Stream::Finished => {},
        }
    }
}

impl<E> Stream<E> {
    /// Begins with the negotiation.
    pub fn begin(config: &Config) -> (first: (Self, ServerAction<E>))
        ensures
            first.0 == Stream::<E>::Negotiating(config.timeout_ms),
            first.1 == ServerAction::<E>::Negotiate,
    {
        (Stream::Negotiating(config.timeout_ms), ServerAction::Negotiate)
    }

    /// Tells whether `event` can happen now.
    pub fn is_ready_for(&self, event: &ServerEvent<E>) -> (ready: bool)
        ensures
            ready == self.accepts(*event),
    {
        match event {
            ServerEvent::Negotiated(_) => matches!(self, Stream::Negotiating(_)),
            ServerEvent::Replied => matches!(self, Stream::Replying(_, _)),
            ServerEvent::IdRead(_) | ServerEvent::TimedOut => matches!(self, Stream::ReadingId(_)),
            ServerEvent::Opened | ServerEvent::Resumed => matches!(self, Stream::LookingUp(_, _)),
            ServerEvent::HalfTaken(_) | ServerEvent::NothingLeft => {
                matches!(self, Stream::Joining(_))
            },
            ServerEvent::Connected => matches!(self, Stream::Connecting(_)),
            ServerEvent::Copied => matches!(self, Stream::Copying),
            ServerEvent::ShutDown => matches!(self, Stream::Closing(_)),
            ServerEvent::Failed(_) => {
                matches!(self, Stream::Replying(_, _) | Stream::Connecting(_))
            },
        }
    }

    /// Goes on after `event`.
    pub fn step(self, event: ServerEvent<E>) -> (next: (Self, ServerAction<E>))
        requires
            self.accepts(event),
        ensures
            next == self.after(event),
            next.1 is Finish <==> next.0 is Finished,
            next.0.steps_left() < self.steps_left(),
    {
        match (self, event) {
            (Stream::Negotiating(timeout_ms), ServerEvent::Negotiated(Ok(address))) => (
                Stream::Replying(address, timeout_ms),
                ServerAction::Reply(Reply::Succeeded, Address::unspecified()),
            ),
            (Stream::Negotiating(_), ServerEvent::Negotiated(Err(fault))) => {
                (Stream::Finished, ServerAction::Finish(Err(fault)))
            },
            (Stream::Replying(address, timeout_ms), ServerEvent::Replied) => {
                (Stream::ReadingId(address), ServerAction::ReadId(timeout_ms))
            },
            (Stream::Replying(_, _), ServerEvent::Failed(error)) => {
                (Stream::Closing(Fault::Outside(error)), ServerAction::ShutDown)
            },
            (Stream::ReadingId(address), ServerEvent::IdRead(id)) => {
                (Stream::LookingUp(address, id), ServerAction::LookUp(id))
            },
            (Stream::ReadingId(_), ServerEvent::TimedOut) => (
                Stream::Finished,
                ServerAction::Finish(Err(Fault::Own(Complaint::IdTimeout))),
            ),
            (Stream::LookingUp(_, id), ServerEvent::Resumed) => {
                let (_, direction) = split_wire_id(id);
                (Stream::Joining(direction), ServerAction::TakeHalf)
            },
            (Stream::LookingUp(address, id), ServerEvent::Opened) => {
                let (_, direction) = split_wire_id(id);
                (Stream::Connecting(direction), ServerAction::Connect(address))
            },
            (Stream::Joining(direction), ServerEvent::HalfTaken(kind)) => {
                if kind != needed_half(direction) {
                    (
                        Stream::Finished,
                        ServerAction::Finish(Err(Fault::Own(Complaint::MismatchedConnection))),
                    )
                } else {
                    (Stream::Copying, ServerAction::Copy(direction))
                }
            },
            (Stream::Joining(_), ServerEvent::NothingLeft) => (
                Stream::Finished,
                ServerAction::Finish(Err(Fault::Own(Complaint::NothingLeft))),
            ),
            (Stream::Connecting(direction), ServerEvent::Connected) => {
                (Stream::Copying, ServerAction::KeepAndCopy(spare_half(direction), direction))
            },
            (Stream::Connecting(_), ServerEvent::Failed(error)) => {
                (Stream::Finished, ServerAction::Finish(Err(Fault::Outside(error))))
            },
            (Stream::Copying, ServerEvent::Copied) => {
                (Stream::Finished, ServerAction::Finish(Ok(())))
            },
            (Stream::Closing(fault), ServerEvent::ShutDown) => {
                (Stream::Finished, ServerAction::Finish(Err(fault)))
            },
            _ => vstd::pervasive::unreached(),
        }
    }

    /// Lets the stream whose id was read arrive at the session table at `now`,
    /// and goes on with what comes of it. A session that was waiting is handed
    /// out; a new one waits with `slot`.
    pub fn look_up<H>(self, table: &mut SessionTable<H>, now: u128, slot: H) -> (found: (
        Self,
        ServerAction<E>,
        Option<Entry<H>>,
    ))
        requires
            self is LookingUp,
        ensures
            final(table)@ == after_arrival(old(table)@, key_of(self->LookingUp_1), now, slot),
            match arrival_of(old(table)@, key_of(self->LookingUp_1)) {
                Arrival::Resumed(entry) => {
                    &&& (found.0, found.1) == self.after(ServerEvent::Resumed)
                    &&& found.2 == Some(entry)
                },
                Arrival::Opened => {
                    &&& (found.0, found.1) == self.after(ServerEvent::Opened)
                    &&& found.2 is None
                },
            },
            ({
                let key = self->LookingUp_1 / 2;
                if old(table)@.contains_key(key) {
                    &&& found.2 == Some(old(table)@[key])
                    &&& found.1 == ServerAction::<E>::TakeHalf
                    &&& final(table)@ == old(table)@.remove(key)
                } else {
                    &&& found.2 is None
                    &&& found.1 == ServerAction::<E>::Connect(self->LookingUp_0)
                    &&& final(table)@ == old(table)@.insert(key, Entry { born: now, slot })
                }
            }),
    {
        let id: u64 = match &self {
            Stream::LookingUp(_, id) => *id,
            _ => vstd::pervasive::unreached(),
        };
        match table.arrive(id, now, slot) {
            Arrival::Resumed(entry) => {
                let (stream, action) = self.step(ServerEvent::Resumed);
                (stream, action, Some(entry))
            },
            Arrival::Opened => {
                let (stream, action) = self.step(ServerEvent::Opened);
                (stream, action, None)
            },
        }
    }
}

/// What the course of a whole stream is, by what happens to it: it is told
/// "succeeded" before anything is known of the remote side; only a stream that
/// tells its id within the timeout gets any further; the first of a session connects to
/// the address, keeps for the other stream the half of the remote connection
/// that it does not need, and copies over its own; the second copies over the
/// half that was kept, if that is the one it needs, and is given up if it is
/// not or if none was kept.
pub proof fn law_server_runs<E>(timeout_ms: u64, events: Seq<ServerEvent<E>>)
    requires
        is_complete_run(Stream::<E>::Negotiating(timeout_ms), events),
    ensures
        ({
            let actions = actions_of(Stream::<E>::Negotiating(timeout_ms), events);
            let reply = ServerAction::<E>::Reply(Reply::Succeeded, unspecified_address());
            match events[0] {
                ServerEvent::Negotiated(Err(fault)) => {
                    &&& events.len() == 1
                    &&& actions == seq![ServerAction::<E>::Finish(Err(fault))]
                },
                ServerEvent::Negotiated(Ok(address)) => match (events[1], events[2]) {
                    (ServerEvent::Failed(error), _) => {
                        &&& events.len() == 3
                        &&& events[2] is ShutDown
                        &&& actions == seq![
                            reply,
                            ServerAction::ShutDown,
                            ServerAction::Finish(Err(Fault::Outside(error))),
                        ]
                    },
                    (ServerEvent::Replied, ServerEvent::TimedOut) => {
                        &&& events.len() == 3
                        &&& actions == seq![
                            reply,
                            ServerAction::ReadId(timeout_ms),
                            ServerAction::Finish(Err(Fault::Own(Complaint::IdTimeout))),
                        ]
                    },
                    (ServerEvent::Replied, ServerEvent::IdRead(id)) => match (
                        events[3],
                        events[4],
                    ) {
                        (ServerEvent::Opened, ServerEvent::Failed(error)) => {
                            &&& events.len() == 5
                            &&& actions == seq![
                                reply,
                                ServerAction::ReadId(timeout_ms),
                                ServerAction::LookUp(id),
                                ServerAction::Connect(address),
                                ServerAction::Finish(Err(Fault::Outside(error))),
                            ]
                        },
                        (ServerEvent::Opened, ServerEvent::Connected) => {
                            &&& events.len() == 6
                            &&& events[5] is Copied
                            &&& actions == seq![
                                reply,
                                ServerAction::ReadId(timeout_ms),
                                ServerAction::LookUp(id),
                                ServerAction::Connect(address),
                                ServerAction::KeepAndCopy(
                                    half_of(direction_of(id).opposite()),
                                    direction_of(id),
                                ),
                                ServerAction::Finish(Ok(())),
                            ]
                        },
                        (ServerEvent::Resumed, ServerEvent::NothingLeft) => {
                            &&& events.len() == 5
                            &&& actions == seq![
                                reply,
                                ServerAction::ReadId(timeout_ms),
                                ServerAction::LookUp(id),
                                ServerAction::TakeHalf,
                                ServerAction::Finish(Err(Fault::Own(Complaint::NothingLeft))),
                            ]
                        },
                        (ServerEvent::Resumed, ServerEvent::HalfTaken(kind)) => if kind
                            == half_of(direction_of(id)) {
                            &&& events.len() == 6
                            &&& events[5] is Copied
                            &&& actions == seq![
                                reply,
                                ServerAction::ReadId(timeout_ms),
                                ServerAction::LookUp(id),
                                ServerAction::TakeHalf,
                                ServerAction::Copy(direction_of(id)),
                                ServerAction::Finish(Ok(())),
                            ]
                        } else {
                            &&& events.len() == 5
                            &&& actions == seq![
                                reply,
                                ServerAction::ReadId(timeout_ms),
                                ServerAction::LookUp(id),
                                ServerAction::TakeHalf,
                                ServerAction::Finish(
                                    Err(Fault::Own(Complaint::MismatchedConnection)),
                                ),
                            ]
                        },
                        _ => false,
                    },
                    _ => false,
                },
                _ => false,
            }
        }),
{
    reveal_with_fuel(is_run, 8);
    reveal_with_fuel(state_after, 8);
    reveal_with_fuel(actions_of, 8);
}

/// At every point of a stream, finished or not, what comes next follows from what
/// has happened: a negotiated stream is told "succeeded" and 0.0.0.0:0; it is
/// given the timeout to tell its id, and the session of that very id is looked
/// up. The first stream of a session connects to the address that it negotiated.
/// Then one with an odd id copies down and keeps the half to write to for the
/// other stream; one with an even id copies up and keeps the half to read from.
/// The second stream copies down over the half to read from if its id is odd, up
/// over the half to write to if it is even, and is given up if it finds another.
pub proof fn law_stream_goes_by_what_happened<E>(timeout_ms: u64, events: Seq<ServerEvent<E>>)
    requires
        is_run(Stream::<E>::Negotiating(timeout_ms), events),
        events.len() > 0,
    ensures
        ({
            let action = actions_of(Stream::<E>::Negotiating(timeout_ms), events).last();
            match events.last() {
                ServerEvent::Negotiated(Ok(_)) => action == ServerAction::<E>::Reply(
                    Reply::Succeeded,
                    Address::SocketAddress(SocketAddress::V4 { ipv4: 0, port: 0 }),
                ),
                ServerEvent::Negotiated(Err(fault)) => action == ServerAction::<E>::Finish(
                    Err(fault),
                ),
                ServerEvent::Replied => action == ServerAction::<E>::ReadId(timeout_ms),
                ServerEvent::IdRead(id) => action == ServerAction::<E>::LookUp(id),
                ServerEvent::TimedOut => action == ServerAction::<E>::Finish(
                    Err(Fault::Own(Complaint::IdTimeout)),
                ),
                ServerEvent::Opened => {
                    &&& events[0] matches ServerEvent::Negotiated(Ok(address))
                    &&& action == ServerAction::<E>::Connect(address)
                },
                ServerEvent::Resumed => action is TakeHalf,
                ServerEvent::Connected => {
                    &&& events[2] matches ServerEvent::IdRead(id)
                    &&& if id % 2 == 1 {
                        action == ServerAction::<E>::KeepAndCopy(HalfKind::W, Direction::Down)
                    } else {
                        action == ServerAction::<E>::KeepAndCopy(HalfKind::R, Direction::Up)
                    }
                },
                ServerEvent::HalfTaken(kind) => {
                    &&& events[2] matches ServerEvent::IdRead(id)
                    &&& match kind {
                        HalfKind::R if id % 2 == 1 => action == ServerAction::<E>::Copy(
                            Direction::Down,
                        ),
                        HalfKind::W if id % 2 == 0 => action == ServerAction::<E>::Copy(
                            Direction::Up,
                        ),
                        _ => action == ServerAction::<E>::Finish(
                            Err(Fault::Own(Complaint::MismatchedConnection)),
                        ),
                    }
                },
                ServerEvent::NothingLeft => action == ServerAction::<E>::Finish(
                    Err(Fault::Own(Complaint::NothingLeft)),
                ),
                ServerEvent::Copied => action == ServerAction::<E>::Finish(Ok(())),
                ServerEvent::Failed(error) => match events[events.len() - 2] {
                    ServerEvent::Negotiated(_) => action is ShutDown,
                    ServerEvent::Opened => action == ServerAction::<E>::Finish(
                        Err(Fault::Outside(error)),
                    ),
                    _ => false,
                },
                ServerEvent::ShutDown => {
                    &&& events[events.len() - 2] matches ServerEvent::Failed(error)
                    &&& action == ServerAction::<E>::Finish(Err(Fault::Outside(error)))
                },
            }
        }),
{
    reveal_with_fuel(is_run, 8);
    reveal_with_fuel(state_after, 8);
    reveal_with_fuel(actions_of, 8);
    law_runs_are_bounded(Stream::<E>::Negotiating(timeout_ms), events);
}

/// At every point of a stream exactly that can happen which may come of what was
/// last asked for, whatever the id and the address are; and it is over exactly
/// when it has reported its outcome.
pub proof fn law_stream_awaits_what_it_asked_for<E>(
    timeout_ms: u64,
    events: Seq<ServerEvent<E>>,
    event: ServerEvent<E>,
)
    requires
        is_run(Stream::<E>::Negotiating(timeout_ms), events),
    ensures
        ({
            let state = state_after(Stream::<E>::Negotiating(timeout_ms), events);
            let asked = if events.len() == 0 {
                ServerAction::Negotiate
            } else {
                actions_of(Stream::<E>::Negotiating(timeout_ms), events).last()
            };
            &&& state.accepts(event) <==> match asked {
                ServerAction::Negotiate => event is Negotiated,
                ServerAction::Reply(_, _) => event is Replied || event is Failed,
                ServerAction::ReadId(_) => event is IdRead || event is TimedOut,
                ServerAction::LookUp(_) => event is Opened || event is Resumed,
                ServerAction::TakeHalf => event is HalfTaken || event is NothingLeft,
                ServerAction::Connect(_) => event is Connected || event is Failed,
                ServerAction::KeepAndCopy(_, _) => event is Copied,
                ServerAction::Copy(_) => event is Copied,
                ServerAction::ShutDown => event is ShutDown,
                ServerAction::Finish(_) => false,
            }
            &&& state.is_finished() <==> asked is Finish
        }),
{
    reveal_with_fuel(is_run, 8);
    reveal_with_fuel(state_after, 8);
    reveal_with_fuel(actions_of, 8);
    law_runs_are_bounded(Stream::<E>::Negotiating(timeout_ms), events);
}

/// The way down reads from the remote side and the way up writes to it; a half
/// that was kept is found as what it is.
pub proof fn law_halves<R, W, E>(direction: Direction, half: ConnHalf<R, W>)
    ensures
        half_of(direction) == HalfKind::R <==> direction == Direction::Down,
        half_of(direction.opposite()) == HalfKind::W <==> direction == Direction::Down,
        half.half_kind() == HalfKind::R <==> half is R,
        found_in_slot::<E>(Some(half.half_kind())) matches ServerEvent::HalfTaken(kind) && (kind
            == HalfKind::R <==> half is R),
        found_in_slot::<E>(None) is NothingLeft,
{
}

/// Whatever a stream is shut down for, nothing but the end of that is waited for,
/// and then that fault is reported.
pub proof fn law_stream_reports_what_it_closed_for<E>(fault: Fault<E>, event: ServerEvent<E>)
    ensures
        Stream::Closing(fault).accepts(event) <==> event is ShutDown,
        Stream::Closing(fault).after(ServerEvent::ShutDown) == (
            Stream::<E>::Finished,
            ServerAction::<E>::Finish(Err(fault)),
        ),
{
}

} // verus!
