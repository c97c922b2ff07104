//! How the two streams of a session find each other, from the client's ids to
//! the halves of the remote connection.

use vstd::prelude::*;

use crate::client::law_client_runs;
use crate::client::ClientAction;
use crate::client::ClientEvent;
use crate::client::Session;
use crate::dial::law_dial_runs;
use crate::dial::Dial;
use crate::dial::DialAction;
use crate::dial::DialEvent;
use crate::fault::Complaint;
use crate::fault::Fault;
use crate::machine::actions_of;
use crate::machine::is_complete_run;
use crate::machine::is_run;
use crate::machine::state_after;
use crate::machine::Machine;
use crate::negotiation::Negotiation;
use crate::negotiation::NegotiationAction;
use crate::negotiation::NegotiationEvent;
use crate::protocol::unspecified_address;
use crate::protocol::Address;
use crate::protocol::Command;
use crate::protocol::Reply;
use crate::protocol::METHOD_NONE;
use crate::relay::announcement;
use crate::relay::copy_action;
use crate::relay::new_relay;
use crate::relay::RelayAction;
use crate::relay::RelayEvent;
use crate::server::found_in_slot;
use crate::server::half_of;
use crate::server::HalfKind;
use crate::server::ServerAction;
use crate::server::ServerEvent;
use crate::server::Stream;
use crate::session_id::direction_of;
use crate::session_id::key_of;
use crate::session_id::law_wire_id_round_trip;
use crate::session_id::session_id_of;
use crate::session_id::wire_id_of;
use crate::session_id::Direction;
use crate::session_table::after_arrival;
use crate::session_table::arrival_of;
use crate::session_table::law_second_arrival_undoes_the_first;
use crate::session_table::replay;
use crate::session_table::Arrival;
use crate::session_table::Entry;
use crate::session_table::Operation;

verus! {

/// Whether a history leaves the session `key`, born at `born`, in peace: no
/// stream arrives for it, and no sweep comes as late as its timeout.
pub open spec fn spares<H>(
    history: Seq<Operation<H>>,
    key: u64,
    born: u128,
    timeout: u128,
) -> bool {
    forall|i: int|
        0 <= i < history.len() ==> match #[trigger] history[i] {
            Operation::Arrive { key: arrived, .. } => arrived != key,
            Operation::Sweep { now } => now - born < timeout,
        }
}

/// A session waits for its second stream until the timeout, whatever streams
/// of other sessions do.
pub proof fn law_session_waits<H>(
    table: Map<u64, Entry<H>>,
    history: Seq<Operation<H>>,
    timeout: u128,
    key: u64,
)
    requires
        table.contains_key(key),
        spares(history, key, table[key].born, timeout),
    ensures
        replay(table, history, timeout).contains_key(key),
        replay(table, history, timeout)[key] == table[key],
    decreases history.len(),
{
    if history.len() > 0 {
        let earlier = history.drop_last();
        assert forall|i: int| 0 <= i < earlier.len() implies match #[trigger] earlier[i] {
            Operation::Arrive { key: arrived, .. } => arrived != key,
            Operation::Sweep { now } => now - table[key].born < timeout,
        } by {
            assert(earlier[i] == history[i]);
        }
        law_session_waits(table, earlier, timeout, key);
        assert(history[history.len() - 1] == history.last());
    }
}

/// The two streams that the client opens for a session meet at the server, in
/// whichever order they come and whatever happens between, as long as no other
/// stream has their key and no sweep comes as late as the timeout. The first
/// one connects to the address and copies in its own direction, the second one
/// copies in its own over the half that the first one left, and the session is
/// gone from the table.
pub proof fn law_streams_meet<H, E>(
    raw: u64,
    first: Direction,
    addresses: (Address, Address),
    table: Map<u64, Entry<H>>,
    born: u128,
    slot: H,
    between: Seq<Operation<H>>,
    timeout: u128,
    then: u128,
    unused: H,
)
    requires
        !table.contains_key(key_of(wire_id_of(session_id_of(raw), first))),
        spares(between, key_of(wire_id_of(session_id_of(raw), first)), born, timeout),
    ensures
        ({
            let second = first.opposite();
            let first_id = wire_id_of(session_id_of(raw), first);
            let second_id = wire_id_of(session_id_of(raw), second);
            let first_stream = Stream::<E>::LookingUp(addresses.0, first_id);
            let second_stream = Stream::<E>::LookingUp(addresses.1, second_id);
            let opened = after_arrival(table, key_of(first_id), born, slot);
            let waiting = replay(opened, between, timeout);
            let joined = after_arrival(waiting, key_of(second_id), then, unused);
            &&& arrival_of(table, key_of(first_id)) == Arrival::<H>::Opened
            &&& first_stream.after(ServerEvent::Opened).1 == ServerAction::<E>::Connect(
                addresses.0,
            )
            &&& first_stream.after(ServerEvent::Opened).0.after(ServerEvent::Connected).1
                == ServerAction::<E>::KeepAndCopy(half_of(second), first)
            &&& arrival_of(waiting, key_of(second_id)) == Arrival::Resumed(Entry { born, slot })
            &&& second_stream.after(ServerEvent::Resumed).0.after(
                ServerEvent::HalfTaken(half_of(second)),
            ).1 == ServerAction::<E>::Copy(second)
            &&& !joined.contains_key(key_of(first_id))
            &&& half_of(first) != half_of(second)
        }),
{
    law_wire_id_round_trip(raw, first);
    law_wire_id_round_trip(raw, first.opposite());
    let key = key_of(wire_id_of(session_id_of(raw), first));
    let opened = after_arrival(table, key, born, slot);
    law_session_waits(opened, between, timeout, key);
}

/// If nothing happens between the two streams of a session, they leave the
/// table as it was.
pub proof fn law_session_leaves_no_trace<H>(
    raw: u64,
    first: Direction,
    table: Map<u64, Entry<H>>,
    born: u128,
    slot: H,
    then: u128,
    unused: H,
)
    requires
        !table.contains_key(key_of(wire_id_of(session_id_of(raw), first))),
    ensures
        after_arrival(
            after_arrival(table, key_of(wire_id_of(session_id_of(raw), first)), born, slot),
            key_of(wire_id_of(session_id_of(raw), first.opposite())),
            then,
            unused,
        ) == table,
{
    law_wire_id_round_trip(raw, first);
    law_wire_id_round_trip(raw, first.opposite());
    let key = key_of(wire_id_of(session_id_of(raw), first));
    law_second_arrival_undoes_the_first(
        table,
        key,
        born,
        slot,
        then,
        unused,
    );
}

/// A stream that claims the direction of the one that opened its session is
/// given up, and the session with it.
pub proof fn law_same_direction_is_a_mismatch<H, E>(
    id: u64,
    address: Address,
    table: Map<u64, Entry<H>>,
    born: u128,
    slot: H,
    then: u128,
    unused: H,
)
    requires
        !table.contains_key(key_of(id)),
    ensures
        ({
            let direction = direction_of(id);
            let opened = after_arrival(table, key_of(id), born, slot);
            let stream = Stream::<E>::LookingUp(address, id);
            &&& arrival_of(opened, key_of(id)) == Arrival::Resumed(Entry { born, slot })
            &&& stream.after(ServerEvent::Resumed).0.after(
                ServerEvent::HalfTaken(half_of(direction.opposite())),
            ).1 == ServerAction::<E>::Finish(
                Err(Fault::Own(Complaint::MismatchedConnection)),
            )
            &&& after_arrival(opened, key_of(id), then, unused) == table
        }),
{
    law_second_arrival_undoes_the_first(
        table,
        key_of(id),
        born,
        slot,
        then,
        unused,
    );
}

/// The slot of a session, as its second stream meets it.
pub enum SlotState {
    /// The first stream holds it: the second one waits.
    Locked,
    /// The first stream has let go of it and left this half in it, or none.
    Released(Option<HalfKind>),
}

/// The slot after the first stream of a session, which locked it before it put the
/// session in the table, has gone on to do `actions`. It lets go of the slot when
/// it leaves a half in it, or when it ends.
pub open spec fn slot_after<E>(actions: Seq<ServerAction<E>>) -> SlotState
    decreases actions.len(),
{
    if actions.len() == 0 {
        SlotState::Locked
    } else {
        match actions.first() {
            ServerAction::KeepAndCopy(kept, _) => SlotState::Released(Some(kept)),
            ServerAction::Finish(_) => SlotState::Released(None),
            _ => slot_after(actions.drop_first()),
        }
    }
}

/// The second stream of a session waits exactly as long as the first one is
/// connecting. If the first one connected, the slot is never empty: the second
/// one finds the half that the first one does not need, and copies over it if
/// it is of the other direction. Only if the first one failed to connect
/// nothing is left, and the second one is given up for that reason.
pub proof fn law_second_stream_waits_for_the_first<E>(
    first: Direction,
    second: Direction,
    events: Seq<ServerEvent<E>>,
)
    requires
        is_run(Stream::<E>::Connecting(first), events),
    ensures
        ({
            let slot = slot_after(actions_of(Stream::<E>::Connecting(first), events));
            let joining = Stream::<E>::Joining(second);
            &&& slot is Locked <==> events.len() == 0
            &&& events.len() > 0 ==> (events[0] is Connected || events[0] is Failed)
            &&& events.len() > 0 && events[0] is Connected ==> slot == SlotState::Released(
                Some(half_of(first.opposite())),
            )
            &&& events.len() > 0 && events[0] is Failed ==> slot == SlotState::Released(None)
            &&& match slot {
                SlotState::Locked => true,
                SlotState::Released(kept) => {
                    let event = found_in_slot::<E>(kept);
                    &&& joining.accepts(event)
                    &&& kept is Some && second == first.opposite() ==> joining.after(event).1
                        == ServerAction::<E>::Copy(second)
                    &&& kept is Some && second == first ==> joining.after(event).1
                        == ServerAction::<E>::Finish(
                        Err(Fault::Own(Complaint::MismatchedConnection)),
                    )
                    &&& kept is None ==> joining.after(event).1 == ServerAction::<E>::Finish(
                        Err(Fault::Own(Complaint::NothingLeft)),
                    )
                },
            }
        }),
{
    reveal_with_fuel(is_run, 3);
    reveal_with_fuel(actions_of, 3);
    reveal_with_fuel(slot_after, 3);
    if events.len() > 0 {
        let actions = actions_of(Stream::<E>::Connecting(first), events);
        assert(actions.first() == Stream::<E>::Connecting(first).after(events[0]).1);
    }
}

/// Whether all streams that arrive in a history are of sessions made from numbers
/// that differ from `raw` in their low 63 bits.
pub open spec fn is_foreign<H>(history: Seq<Operation<H>>, raw: u64) -> bool {
    forall|i: int|
        0 <= i < history.len() ==> match #[trigger] history[i] {
            Operation::Arrive { key, .. } => exists|other: u64, direction: Direction|
                other % 0x8000_0000_0000_0000 != raw % 0x8000_0000_0000_0000 && key == key_of(
                    #[trigger] wire_id_of(session_id_of(other), direction),
                ),
            Operation::Sweep { .. } => true,
        }
}

/// Whether no sweep in a history comes as late as the timeout of a session born at
/// `born`.
pub open spec fn sweeps_early<H>(
    history: Seq<Operation<H>>,
    born: u128,
    timeout: u128,
) -> bool {
    forall|i: int|
        0 <= i < history.len() ==> match #[trigger] history[i] {
            Operation::Arrive { .. } => true,
            Operation::Sweep { now } => now - born < timeout,
        }
}

proof fn lemma_foreign_arrivals_have_other_keys<H>(
    history: Seq<Operation<H>>,
    raw: u64,
    direction: Direction,
)
    requires
        is_foreign(history, raw),
    ensures
        forall|i: int|
            0 <= i < history.len() ==> match #[trigger] history[i] {
                Operation::Arrive { key, .. } => key != key_of(
                    wire_id_of(session_id_of(raw), direction),
                ),
                Operation::Sweep { .. } => true,
            },
{
    assert forall|i: int| 0 <= i < history.len() implies match #[trigger] history[i] {
        Operation::Arrive { key, .. } => key != key_of(wire_id_of(session_id_of(raw), direction)),
        Operation::Sweep { .. } => true,
    } by {
        match history[i] {
            Operation::Arrive { key, .. } => {
                let (other, taken) = choose|other: u64, taken: Direction|
                    other % 0x8000_0000_0000_0000 != raw % 0x8000_0000_0000_0000 && key == key_of(
                        #[trigger] wire_id_of(session_id_of(other), taken),
                    );
                law_wire_id_round_trip(other, taken);
                law_wire_id_round_trip(raw, direction);
            },
            Operation::Sweep { .. } => {},
        }
    }
}

/// Streams of other sessions never make a session wait that has not begun.
pub proof fn law_foreign_streams_open_nothing<H>(
    table: Map<u64, Entry<H>>,
    history: Seq<Operation<H>>,
    timeout: u128,
    raw: u64,
    direction: Direction,
)
    requires
        !table.contains_key(key_of(wire_id_of(session_id_of(raw), direction))),
        is_foreign(history, raw),
    ensures
        !replay(table, history, timeout).contains_key(
            key_of(wire_id_of(session_id_of(raw), direction)),
        ),
    decreases history.len(),
{
    if history.len() > 0 {
        let earlier = history.drop_last();
        assert forall|i: int| 0 <= i < earlier.len() implies match #[trigger] earlier[i] {
            Operation::Arrive { key, .. } => exists|other: u64, taken: Direction|
                other % 0x8000_0000_0000_0000 != raw % 0x8000_0000_0000_0000 && key == key_of(
                    #[trigger] wire_id_of(session_id_of(other), taken),
                ),
            Operation::Sweep { .. } => true,
        } by {
            assert(earlier[i] == history[i]);
        }
        law_foreign_streams_open_nothing(table, earlier, timeout, raw, direction);
        lemma_foreign_arrivals_have_other_keys(history, raw, direction);
        assert(history[history.len() - 1] == history.last());
    }
}

/// The answer that a stream gets from the server.
pub open spec fn server_answer<E>(timeout_ms: u64, address: Address) -> ServerAction<E> {
    Stream::<E>::Negotiating(timeout_ms).after(ServerEvent::Negotiated(Ok(address))).1
}

/// Whether a dial for `address` was answered with what the server answers.
pub open spec fn is_answered_by_server<E>(
    address: Address,
    timeout_ms: u64,
    events: Seq<DialEvent<E>>,
) -> bool {
    &&& is_complete_run(Dial::<E>::Connecting(address), events)
    &&& forall|i: int| 0 <= i < events.len() ==> !((#[trigger] events[i]) is Failed)
    &&& events[2] == DialEvent::<E>::MethodChosen(METHOD_NONE)
    &&& events[4] is Answered
    &&& server_answer::<E>(timeout_ms, address) == ServerAction::<E>::Reply(
        events[4]->Answered_0,
        unspecified_address(),
    )
}

/// What a dial for `address` reports in the end.
pub open spec fn dial_outcome<E>(address: Address, events: Seq<DialEvent<E>>) -> Result<
    Reply,
    Fault<E>,
> {
    actions_of(Dial::<E>::Connecting(address), events).last()->Finish_0
}

/// What happens to the first stream of a session that connects.
pub open spec fn first_stream_events<E>(address: Address, id: u64) -> Seq<ServerEvent<E>> {
    seq![
        ServerEvent::Negotiated(Ok(address)),
        ServerEvent::Replied,
        ServerEvent::IdRead(id),
        ServerEvent::Opened,
        ServerEvent::Connected,
        ServerEvent::Copied,
    ]
}

/// What happens to the second one, if it finds the half `kept` in the slot.
pub open spec fn second_stream_events<E>(
    address: Address,
    id: u64,
    kept: HalfKind,
) -> Seq<ServerEvent<E>> {
    seq![
        ServerEvent::Negotiated(Ok(address)),
        ServerEvent::Replied,
        ServerEvent::IdRead(id),
        ServerEvent::Resumed,
        ServerEvent::HalfTaken(kept),
        ServerEvent::Copied,
    ]
}

proof fn lemma_stream_actions<E>(timeout_ms: u64, address: Address, id: u64)
    ensures
        is_complete_run(
            Stream::<E>::Negotiating(timeout_ms),
            first_stream_events(address, id),
        ),
        actions_of(Stream::<E>::Negotiating(timeout_ms), first_stream_events(address, id)) == seq![
            ServerAction::<E>::Reply(Reply::Succeeded, unspecified_address()),
            ServerAction::ReadId(timeout_ms),
            ServerAction::LookUp(id),
            ServerAction::Connect(address),
            ServerAction::KeepAndCopy(half_of(direction_of(id).opposite()), direction_of(id)),
            ServerAction::Finish(Ok(())),
        ],
        is_complete_run(
            Stream::<E>::Negotiating(timeout_ms),
            second_stream_events(address, id, half_of(direction_of(id))),
        ),
        actions_of(
            Stream::<E>::Negotiating(timeout_ms),
            second_stream_events(address, id, half_of(direction_of(id))),
        ) == seq![
            ServerAction::<E>::Reply(Reply::Succeeded, unspecified_address()),
            ServerAction::ReadId(timeout_ms),
            ServerAction::LookUp(id),
            ServerAction::TakeHalf,
            ServerAction::Copy(direction_of(id)),
            ServerAction::Finish(Ok(())),
        ],
{
    reveal_with_fuel(is_run, 8);
    reveal_with_fuel(state_after, 8);
    reveal_with_fuel(actions_of, 8);
}

/// A client of which both dials were answered by the server is told "succeeded",
/// with the address that it asked for, and its session is carried.
pub proof fn law_client_of_the_server_is_told_success<E>(
    session: Session<Address, E>,
    address: Address,
    timeout_ms: u64,
    up_dial: Seq<DialEvent<E>>,
    down_dial: Seq<DialEvent<E>>,
    events: Seq<ClientEvent<Address, E>>,
)
    requires
        session.stage is Negotiating,
        is_complete_run(session, events),
        events[0] == ClientEvent::<Address, E>::Negotiated(Ok(address)),
        is_answered_by_server(address, timeout_ms, up_dial),
        is_answered_by_server(address, timeout_ms, down_dial),
        events[1] == ClientEvent::<Address, E>::Dialed(
            dial_outcome(address, up_dial),
            dial_outcome(address, down_dial),
        ),
        events[2] is Replied,
    ensures
        actions_of(Dial::<E>::Connecting(address), up_dial)[2] == DialAction::<E>::Request(
            Command::Connect,
            address,
        ),
        actions_of(Dial::<E>::Connecting(address), down_dial)[2] == DialAction::<E>::Request(
            Command::Connect,
            address,
        ),
        Negotiation::<E>::AwaitingCommand.after(
            NegotiationEvent::Requested(Command::Connect, address),
        ).1 == NegotiationAction::<E>::Finish(Ok(address)),
        actions_of(session, events) == seq![
            ClientAction::<Address, E>::Dial { up: address, down: address },
            ClientAction::Reply(Reply::Succeeded, address),
            ClientAction::Relay(session.id),
            ClientAction::Finish(Ok(())),
        ],
{
    law_dial_runs(address, up_dial);
    law_dial_runs(address, down_dial);
    law_client_runs(session, events);
}

/// A connection that is split at the client is whole again at the server.
///
/// A client of which both dials were answered by the server is told "succeeded"
/// for its address, and its two streams are announced and carried. At the server
/// they meet, in whichever order they arrive and whatever streams of other
/// sessions do before and between, unless a sweep comes as late as the timeout.
/// The first one connects to that address and leaves in the slot the half of that
/// connection which it does not need; the second one gets that very slot and
/// copies over that half. So each direction is carried once, over its own half of
/// one remote connection. The table loses this session and no other.
pub proof fn law_split_connection_is_joined<H, E>(
    raw: u64,
    session: Session<Address, E>,
    address: Address,
    timeout_ms: u64,
    up_dial: Seq<DialEvent<E>>,
    down_dial: Seq<DialEvent<E>>,
    events: Seq<ClientEvent<Address, E>>,
    first: Direction,
    before: Seq<Operation<H>>,
    born: u128,
    slot: H,
    between: Seq<Operation<H>>,
    timeout: u128,
    then: u128,
    unused: H,
)
    requires
        session.stage is Negotiating,
        session.id == session_id_of(raw),
        is_complete_run(session, events),
        events[0] == ClientEvent::<Address, E>::Negotiated(Ok(address)),
        is_answered_by_server(address, timeout_ms, up_dial),
        is_answered_by_server(address, timeout_ms, down_dial),
        events[1] == ClientEvent::<Address, E>::Dialed(
            dial_outcome(address, up_dial),
            dial_outcome(address, down_dial),
        ),
        events[2] is Replied,
        is_foreign(before, raw),
        is_foreign(between, raw),
        sweeps_early(between, born, timeout),
    ensures
        actions_of(session, events) == seq![
            ClientAction::<Address, E>::Dial { up: address, down: address },
            ClientAction::Reply(Reply::Succeeded, address),
            ClientAction::Relay(session_id_of(raw)),
            ClientAction::Finish(Ok(())),
        ],
        ({
            let second = first.opposite();
            let first_id = wire_id_of(session_id_of(raw), first);
            let second_id = wire_id_of(session_id_of(raw), second);
            let key = key_of(first_id);
            let table = replay(Map::<u64, Entry<H>>::empty(), before, timeout);
            let opened = after_arrival(table, key_of(first_id), born, slot);
            let waiting = replay(opened, between, timeout);
            let joined = after_arrival(waiting, key_of(second_id), then, unused);
            &&& announcement(session_id_of(raw), first) == RelayAction::Announce(first_id)
            &&& announcement(session_id_of(raw), second) == RelayAction::Announce(second_id)
            &&& new_relay(first).after(RelayEvent::Announced(true)).1 == copy_action(first)
            &&& new_relay(second).after(RelayEvent::Announced(true)).1 == copy_action(second)
            &&& arrival_of(table, key_of(first_id)) == Arrival::<H>::Opened
            &&& arrival_of(waiting, key_of(second_id)) == Arrival::Resumed(Entry { born, slot })
            &&& joined == waiting.remove(key)
            &&& is_complete_run(
                Stream::<E>::Negotiating(timeout_ms),
                first_stream_events(address, first_id),
            )
            &&& actions_of(
                Stream::<E>::Negotiating(timeout_ms),
                first_stream_events(address, first_id),
            ) == seq![
                server_answer::<E>(timeout_ms, address),
                ServerAction::ReadId(timeout_ms),
                ServerAction::LookUp(first_id),
                ServerAction::Connect(address),
                ServerAction::KeepAndCopy(half_of(second), first),
                ServerAction::Finish(Ok(())),
            ]
            &&& is_complete_run(
                Stream::<E>::Negotiating(timeout_ms),
                second_stream_events(address, second_id, half_of(second)),
            )
            &&& actions_of(
                Stream::<E>::Negotiating(timeout_ms),
                second_stream_events(address, second_id, half_of(second)),
            ) == seq![
                server_answer::<E>(timeout_ms, address),
                ServerAction::ReadId(timeout_ms),
                ServerAction::LookUp(second_id),
                ServerAction::TakeHalf,
                ServerAction::Copy(second),
                ServerAction::Finish(Ok(())),
            ]
            &&& half_of(first) != half_of(second)
        }),
{
    law_client_of_the_server_is_told_success(
        session,
        address,
        timeout_ms,
        up_dial,
        down_dial,
        events,
    );
    let second = first.opposite();
    let first_id = wire_id_of(session_id_of(raw), first);
    let second_id = wire_id_of(session_id_of(raw), second);
    law_wire_id_round_trip(raw, first);
    law_wire_id_round_trip(raw, second);
    let table = replay(Map::<u64, Entry<H>>::empty(), before, timeout);
    law_foreign_streams_open_nothing(
        Map::<u64, Entry<H>>::empty(),
        before,
        timeout,
        raw,
        first,
    );
    lemma_foreign_arrivals_have_other_keys(between, raw, first);
    law_session_waits(
        after_arrival(table, key_of(first_id), born, slot),
        between,
        timeout,
        key_of(first_id),
    );
    lemma_stream_actions::<E>(timeout_ms, address, first_id);
    lemma_stream_actions::<E>(timeout_ms, address, second_id);
}

} // verus!
