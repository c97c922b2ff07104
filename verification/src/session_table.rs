//! The table of sessions of which one stream has arrived.

use std::collections::HashMap;

use vstd::prelude::*;

use crate::session_id::split_wire_id;

verus! {

broadcast use vstd::std_specs::hash::group_hash_axioms;

/// A session that waits for its second stream: when the first one arrived, in
/// nanoseconds on the server's clock, and where the second one finds the half
/// of the remote connection that is kept for it.
#[derive(Debug, PartialEq, Eq)]
pub struct Entry<H> {
    pub born: u128,
    pub slot: H,
}

/// What the arrival of a stream does to the session that it names.
#[derive(Debug, PartialEq, Eq)]
pub enum Arrival<H> {
    /// The session was waiting: it leaves the table and this stream joins it.
    Resumed(Entry<H>),
    /// The session is new and now waits for its other stream.
    Opened,
}

/// Sessions that wait for their second stream, by key.
pub struct SessionTable<H> {
    sessions: HashMap<u64, Entry<H>>,
}

impl<H> View for SessionTable<H> {
    type V = Map<u64, Entry<H>>;

    closed spec fn view(&self) -> Map<u64, Entry<H>> {
        self.sessions@
    }
}

/// Whether a session born at `born` outlives a sweep at `now`.
pub open spec fn outlives(born: u128, now: u128, timeout: u128) -> bool {
    now - timeout < born
}

/// The table after the arrival of a stream for the session `key`.
pub open spec fn after_arrival<H>(
    table: Map<u64, Entry<H>>,
    key: u64,
    now: u128,
    slot: H,
) -> Map<u64, Entry<H>> {
    if table.contains_key(key) {
        table.remove(key)
    } else {
        table.insert(key, Entry { born: now, slot })
    }
}

/// What that arrival amounts to.
pub open spec fn arrival_of<H>(table: Map<u64, Entry<H>>, key: u64) -> Arrival<H> {
    if table.contains_key(key) {
        Arrival::Resumed(table[key])
    } else {
        Arrival::Opened
    }
}

/// The table after a sweep at `now`: what is as old as `timeout` is gone.
pub open spec fn after_sweep<H>(
    table: Map<u64, Entry<H>>,
    now: u128,
    timeout: u128,
) -> Map<u64, Entry<H>> {
    table.filter_keys(|key: u64| outlives(table[key].born, now, timeout))
}

/// Decides whether a session born at `born` outlives a sweep at `now`.
fn keeps(born: u128, now: u128, timeout: u128) -> (kept: bool)
    ensures
        kept == outlives(born, now, timeout),
{
    now < born || now - born < timeout
}

impl<H> SessionTable<H> {
    /// A table without sessions.
    pub fn new() -> (table: Self)
        ensures
            table@ == Map::<u64, Entry<H>>::empty(),
    {
        SessionTable { sessions: HashMap::new() }
    }

    /// The number of waiting sessions.
    pub fn len(&self) -> (len: usize)
        ensures
            len == self@.len(),
    {
        self.sessions.len()
    }

    /// Lets the stream announced by `wire_id` arrive at `now`. A waiting session
    /// is taken out of the table; a new one is put in with `slot`.
    pub fn arrive(&mut self, wire_id: u64, now: u128, slot: H) -> (arrival: Arrival<H>)
        ensures
            arrival == arrival_of(old(self)@, crate::session_id::key_of(wire_id)),
            final(self)@ == after_arrival(
                old(self)@,
                crate::session_id::key_of(wire_id),
                now,
                slot,
            ),
            ({
                let key = wire_id / 2;
                if old(self)@.contains_key(key) {
                    &&& arrival == Arrival::Resumed(old(self)@[key])
                    &&& final(self)@ == old(self)@.remove(key)
                } else {
                    &&& arrival is Opened
                    &&& final(self)@ == old(self)@.insert(key, Entry { born: now, slot })
                }
            }),
    {
        let (key, _) = split_wire_id(wire_id);
        match self.sessions.remove(&key) {
            Some(entry) => Arrival::Resumed(entry),
            None => {
                assert(self.sessions@ =~= old(self)@);
                self.sessions.insert(key, Entry { born: now, slot });
                Arrival::Opened
            },
        }
    }

    /// Drops the sessions that have waited for `timeout` nanoseconds at `now`.
    pub fn sweep(&mut self, now: u128, timeout: u128)
        ensures
            final(self)@ == after_sweep(old(self)@, now, timeout),
            forall|key: u64| #[trigger]
                final(self)@.contains_key(key) <==> old(self)@.contains_key(key) && now
                    - old(self)@[key].born < timeout,
            forall|key: u64| #[trigger]
                final(self)@.contains_key(key) ==> final(self)@[key] == old(self)@[key],
    {
        let mut stale: Vec<u64> = Vec::new();
        let ghost before = self.sessions@;
        let ghost entries = vstd::std_specs::iter::IteratorSpec::remaining(
            &vstd::std_specs::hash::spec_hash_map_iter(&self.sessions),
        );
        for (key, entry) in it: self.sessions.iter()
            invariant
                before == self.sessions@,
                entries == vstd::std_specs::iter::IteratorSpec::remaining(
                    &vstd::std_specs::hash::spec_hash_map_iter(&self.sessions),
                ),
                it.seq() == entries,
                forall|i: int|
                    0 <= i < stale.len() ==> before.contains_key(#[trigger] stale[i]) && !outlives(
                        before[stale[i]].born,
                        now,
                        timeout,
                    ),
                forall|i: int|
                    0 <= i < it.index() && !outlives((#[trigger] it.seq()[i]).1.born, now, timeout)
                        ==> stale@.contains(*it.seq()[i].0),
        {
            let ghost found = stale@;
            if !keeps(entry.born, now, timeout) {
                stale.push(*key);
                assert(stale@.last() == *key);
            }
            assert forall|k: u64| found.contains(k) implies stale@.contains(k) by {
                let j = choose|j: int| 0 <= j < found.len() && found[j] == k;
                assert(stale@[j] == k);
            }
        }
        assert forall|k: u64|
            before.contains_key(k) && !outlives(before[k].born, now, timeout) implies stale@.contains(
            k,
        ) by {
            assert(entries.contains((&k, &before[k])));
        }
        let mut i: usize = 0;
        while i < stale.len()
            invariant
                i <= stale.len(),
                forall|k: u64| #[trigger]
                    self.sessions@.contains_key(k) <==> before.contains_key(k) && !stale@.take(
                        i as int,
                    ).contains(k),
                forall|k: u64| #[trigger]
                    self.sessions@.contains_key(k) ==> self.sessions@[k] == before[k],
            decreases stale.len() - i,
        {
            assert(stale@.take(i + 1) =~= stale@.take(i as int).push(stale@[i as int]));
            assert forall|k: u64| #[trigger]
                stale@.take(i + 1).contains(k) <==> stale@.take(i as int).contains(k) || k
                    == stale@[i as int] by {
                broadcast use vstd::seq_lib::group_seq_properties;

            }
            self.sessions.remove(&stale[i]);
            i = i + 1;
        }
        assert(stale@.take(i as int) =~= stale@);
        assert(self.sessions@ =~= after_sweep(before, now, timeout));
    }
}

/// Something that happens to a table.
pub enum Operation<H> {
    /// A stream for the session `key` arrives.
    Arrive { key: u64, now: u128, slot: H },
    /// The table is swept.
    Sweep { now: u128 },
}

impl<H> Operation<H> {
    /// When it happens.
    pub open spec fn time(self) -> u128 {
        match self {
            Operation::Arrive { key, now, slot } => now,
            Operation::Sweep { now } => now,
        }
    }
}

/// What a history makes of a table.
pub open spec fn replay<H>(
    table: Map<u64, Entry<H>>,
    history: Seq<Operation<H>>,
    timeout: u128,
) -> Map<u64, Entry<H>>
    decreases history.len(),
{
    if history.len() == 0 {
        table
    } else {
        let earlier = replay(table, history.drop_last(), timeout);
        match history.last() {
            Operation::Arrive { key, now, slot } => after_arrival(earlier, key, now, slot),
            Operation::Sweep { now } => after_sweep(earlier, now, timeout),
        }
    }
}

/// When the table was last swept; a table without sweeps counts as swept when
/// it was made, at `start`.
pub open spec fn last_sweep<H>(start: u128, history: Seq<Operation<H>>) -> u128
    decreases history.len(),
{
    if history.len() == 0 {
        start
    } else {
        match history.last() {
            Operation::Arrive { .. } => last_sweep(start, history.drop_last()),
            Operation::Sweep { now } => now,
        }
    }
}

/// No operation happens before `start` or before an earlier one.
pub open spec fn in_order<H>(start: u128, history: Seq<Operation<H>>) -> bool {
    &&& forall|i: int| 0 <= i < history.len() ==> start <= #[trigger] history[i].time()
    &&& forall|i: int, j: int|
        0 <= i <= j < history.len() ==> (#[trigger] history[i].time()) <= (
        #[trigger] history[j].time())
}

proof fn lemma_last_sweep_is_past<H>(start: u128, history: Seq<Operation<H>>, time: u128)
    requires
        start <= time,
        forall|i: int| 0 <= i < history.len() ==> (#[trigger] history[i].time()) <= time,
    ensures
        last_sweep(start, history) <= time,
    decreases history.len(),
{
    if history.len() > 0 {
        let earlier = history.drop_last();
        assert forall|i: int| 0 <= i < earlier.len() implies (#[trigger] earlier[i].time())
            <= time by {
            assert(earlier[i] == history[i]);
        }
        lemma_last_sweep_is_past(start, earlier, time);
        assert(history[history.len() - 1].time() <= time);
    }
}

proof fn lemma_no_session_is_older_than_the_sweep_allows<H>(
    start: u128,
    history: Seq<Operation<H>>,
    timeout: u128,
    key: u64,
)
    requires
        in_order(start, history),
        replay(Map::empty(), history, timeout).contains_key(key),
    ensures
        last_sweep(start, history) - timeout <= replay(Map::empty(), history, timeout)[key].born,
    decreases history.len(),
{
    let earlier = history.drop_last();
    assert forall|i: int| 0 <= i < earlier.len() implies start
        <= #[trigger] earlier[i].time() by {
        assert(earlier[i] == history[i]);
    }
    assert forall|i: int, j: int| 0 <= i <= j < earlier.len() implies (#[trigger] earlier[i].time())
        <= (#[trigger] earlier[j].time()) by {
        assert(earlier[i] == history[i] && earlier[j] == history[j]);
    }
    match history.last() {
        Operation::Arrive { key: arrived, now, slot } => {
            if arrived == key {
                assert(history[history.len() - 1].time() == now);
                assert forall|i: int| 0 <= i < earlier.len() implies (#[trigger] earlier[i].time())
                    <= now by {
                    assert(earlier[i] == history[i]);
                    assert(history[i].time() <= history[history.len() - 1].time());
                }
                lemma_last_sweep_is_past(start, earlier, now);
            } else {
                lemma_no_session_is_older_than_the_sweep_allows(start, earlier, timeout, key);
            }
        },
        Operation::Sweep { now } => {},
    }
}

/// A session waits for one and a half timeouts at most: whatever happened to the
/// table since it was made, empty, as long as its last sweep is no more than
/// half a timeout ago.
pub proof fn law_session_lifetime<H>(
    start: u128,
    history: Seq<Operation<H>>,
    timeout: u128,
    now: u128,
    key: u64,
)
    requires
        in_order(start, history),
        2 * (now - last_sweep(start, history)) <= timeout,
        replay(Map::empty(), history, timeout).contains_key(key),
    ensures
        2 * (now - replay(Map::empty(), history, timeout)[key].born) <= 3 * timeout,
{
    lemma_no_session_is_older_than_the_sweep_allows(start, history, timeout, key);
}

/// A sweep leaves alone what has waited for less than the timeout, drops the
/// rest, and adds nothing.
pub proof fn law_sweep_drops_the_stale<H>(
    table: Map<u64, Entry<H>>,
    now: u128,
    timeout: u128,
    key: u64,
)
    ensures
        after_sweep(table, now, timeout).contains_key(key) <==> table.contains_key(key) && now
            - table[key].born < timeout,
        after_sweep(table, now, timeout).contains_key(key) ==> after_sweep(
            table,
            now,
            timeout,
        )[key] == table[key],
{
}

/// A later sweep makes an earlier one redundant.
pub proof fn law_later_sweep_absorbs_earlier<H>(
    table: Map<u64, Entry<H>>,
    now: u128,
    later: u128,
    timeout: u128,
)
    requires
        now <= later,
    ensures
        after_sweep(after_sweep(table, now, timeout), later, timeout) == after_sweep(
            table,
            later,
            timeout,
        ),
{
    assert(after_sweep(after_sweep(table, now, timeout), later, timeout) =~= after_sweep(
        table,
        later,
        timeout,
    ));
}

/// The arrival of a stream changes no other session.
pub proof fn law_arrival_leaves_others_alone<H>(
    table: Map<u64, Entry<H>>,
    key: u64,
    now: u128,
    slot: H,
    other: u64,
)
    requires
        other != key,
    ensures
        after_arrival(table, key, now, slot).contains_key(other) == table.contains_key(other),
        table.contains_key(other) ==> after_arrival(table, key, now, slot)[other] == table[other],
        arrival_of(after_arrival(table, key, now, slot), other) == arrival_of(table, other),
{
}

/// The second stream of a session gets what the first one left for it, and
/// leaves the table as it was before both.
pub proof fn law_second_arrival_undoes_the_first<H>(
    table: Map<u64, Entry<H>>,
    key: u64,
    first: u128,
    slot: H,
    second: u128,
    unused: H,
)
    requires
        !table.contains_key(key),
    ensures
        arrival_of(table, key) == Arrival::<H>::Opened,
        arrival_of(after_arrival(table, key, first, slot), key) == Arrival::Resumed(
            Entry { born: first, slot },
        ),
        after_arrival(after_arrival(table, key, first, slot), key, second, unused) == table,
{
    assert(after_arrival(after_arrival(table, key, first, slot), key, second, unused) =~= table);
}

/// A stream that arrives takes its session out, just as it was put in, if the
/// session was waiting; otherwise it opens one, born at that time and with that
/// slot, and every other session stays as it is.
pub proof fn law_arrival_takes_or_opens<H>(
    table: Map<u64, Entry<H>>,
    key: u64,
    now: u128,
    slot: H,
)
    ensures
        ({
            let after = after_arrival(table, key, now, slot);
            if table.contains_key(key) {
                &&& arrival_of(table, key) == Arrival::Resumed(table[key])
                &&& !after.contains_key(key)
                &&& after.insert(key, table[key]) == table
            } else {
                &&& arrival_of(table, key) is Opened
                &&& after.contains_key(key)
                &&& after[key].born == now
                &&& after[key].slot == slot
                &&& after.remove(key) == table
            }
        }),
{
    let after = after_arrival(table, key, now, slot);
    if table.contains_key(key) {
        assert(after.insert(key, table[key]) =~= table);
    } else {
        assert(after.remove(key) =~= table);
    }
}

} // verus!
