//! Protocols as machines: what happened goes in, what to do next comes out.

use vstd::prelude::*;

verus! {

/// A machine that decides, from what happened, what to do next.
pub trait Machine: Sized {
    /// What can happen.
    type Event;

    /// What can be done next.
    type Action;

    /// Whether `event` can happen in this state.
    spec fn accepts(self, event: Self::Event) -> bool;

    /// The state after `event`, and what to do in it.
    spec fn after(self, event: Self::Event) -> (Self, Self::Action);

    /// Whether there is nothing left to happen.
    spec fn is_finished(self) -> bool;

    /// How many events can still happen, at most.
    spec fn steps_left(self) -> nat;

    /// Every event brings the end nearer.
    proof fn law_event_counts_down(self, event: Self::Event)
        requires
            self.accepts(event),
        ensures
            self.after(event).0.steps_left() < self.steps_left(),
    ;

    /// Something can happen exactly as long as the end is not reached.
    proof fn law_goes_on_until_finished(self)
        ensures
            self.is_finished() <==> forall|event: Self::Event| !(#[trigger] self.accepts(event)),
    ;
}

/// Whether `events` can happen one after the other.
pub open spec fn is_run<M: Machine>(machine: M, events: Seq<M::Event>) -> bool
    decreases events.len(),
{
    events.len() > 0 ==> {
        &&& machine.accepts(events.first())
        &&& is_run(machine.after(events.first()).0, events.drop_first())
    }
}

/// The state that `events` lead to.
pub open spec fn state_after<M: Machine>(machine: M, events: Seq<M::Event>) -> M
    decreases events.len(),
{
    if events.len() == 0 {
        machine
    } else {
        state_after(machine.after(events.first()).0, events.drop_first())
    }
}

/// What is done in the course of `events`, one action for each.
pub open spec fn actions_of<M: Machine>(machine: M, events: Seq<M::Event>) -> Seq<M::Action>
    decreases events.len(),
{
    if events.len() == 0 {
        Seq::empty()
    } else {
        let (next, action) = machine.after(events.first());
        seq![action] + actions_of(next, events.drop_first())
    }
}

/// Whether `events` can happen and bring the machine to its end.
pub open spec fn is_complete_run<M: Machine>(machine: M, events: Seq<M::Event>) -> bool {
    is_run(machine, events) && state_after(machine, events).is_finished()
}

/// No run goes on for ever: as many events as happened have been counted down.
pub proof fn law_runs_are_bounded<M: Machine>(machine: M, events: Seq<M::Event>)
    requires
        is_run(machine, events),
    ensures
        events.len() + state_after(machine, events).steps_left() <= machine.steps_left(),
        actions_of(machine, events).len() == events.len(),
    decreases events.len(),
{
    if events.len() > 0 {
        machine.law_event_counts_down(events.first());
        law_runs_are_bounded(machine.after(events.first()).0, events.drop_first());
    }
}

/// As long as nothing has happened the machine is as it was, and nothing is done.
pub proof fn law_run_begins_with_nothing<M: Machine>(machine: M)
    ensures
        is_run(machine, Seq::empty()),
        state_after(machine, Seq::empty()) == machine,
        actions_of(machine, Seq::empty()).len() == 0,
        is_complete_run(machine, Seq::empty()) <==> machine.is_finished(),
{
}

/// To let one more event happen is to let it happen in the state that the others
/// led to; what was done before stays done.
pub proof fn law_run_goes_on<M: Machine>(machine: M, events: Seq<M::Event>, event: M::Event)
    ensures
        is_run(machine, events.push(event)) <==> is_run(machine, events) && state_after(
            machine,
            events,
        ).accepts(event),
        state_after(machine, events.push(event)) == state_after(machine, events).after(event).0,
        actions_of(machine, events.push(event)) == actions_of(machine, events).push(
            state_after(machine, events).after(event).1,
        ),
    decreases events.len(),
{
    let longer = events.push(event);
    if events.len() == 0 {
        reveal_with_fuel(is_run, 2);
        reveal_with_fuel(state_after, 2);
        reveal_with_fuel(actions_of, 2);
        assert(longer.drop_first() =~= Seq::<M::Event>::empty());
        assert(actions_of(machine, longer) =~= actions_of(machine, events).push(
            machine.after(event).1,
        ));
    } else {
        let next = machine.after(events.first()).0;
        law_run_goes_on(next, events.drop_first(), event);
        assert(longer.first() == events.first());
        assert(longer.drop_first() =~= events.drop_first().push(event));
        assert(actions_of(machine, longer) =~= actions_of(machine, events).push(
            state_after(machine, events).after(event).1,
        ));
    }
}

/// The beginning of a run is a run, in which the same is done.
pub proof fn law_run_begins_with_runs<M: Machine>(machine: M, events: Seq<M::Event>, count: int)
    requires
        is_run(machine, events),
        0 <= count <= events.len(),
    ensures
        is_run(machine, events.take(count)),
        actions_of(machine, events.take(count)) == actions_of(machine, events).take(count),
    decreases events.len() - count,
{
    law_runs_are_bounded(machine, events);
    if count == events.len() {
        assert(events.take(count) =~= events);
        assert(actions_of(machine, events).take(count) =~= actions_of(machine, events));
    } else {
        law_run_begins_with_runs(machine, events, count + 1);
        law_run_goes_on(machine, events.take(count), events[count]);
        assert(events.take(count + 1) =~= events.take(count).push(events[count]));
        law_runs_are_bounded(machine, events.take(count));
        assert(actions_of(machine, events.take(count)) =~= actions_of(machine, events).take(count));
    }
}

/// However far a run has come, it can be brought to its end.
pub proof fn law_runs_can_be_completed<M: Machine>(machine: M, events: Seq<M::Event>)
    requires
        is_run(machine, events),
    ensures
        exists|more: Seq<M::Event>| is_complete_run(machine, #[trigger] (events + more)),
    decreases state_after(machine, events).steps_left(),
{
    let state = state_after(machine, events);
    state.law_goes_on_until_finished();
    if state.is_finished() {
        let more = Seq::<M::Event>::empty();
        assert(events + more =~= events);
        assert(is_complete_run(machine, events + more));
    } else {
        let event = choose|event: M::Event| #[trigger] state.accepts(event);
        law_run_goes_on(machine, events, event);
        state.law_event_counts_down(event);
        law_runs_can_be_completed(machine, events.push(event));
        let rest = choose|rest: Seq<M::Event>|
            is_complete_run(machine, #[trigger] (events.push(event) + rest));
        assert(events.push(event) + rest =~= events + (seq![event] + rest));
        assert(is_complete_run(machine, events + (seq![event] + rest)));
    }
}

} // verus!
