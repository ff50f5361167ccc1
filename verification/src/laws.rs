//! What holds of whole rounds: of every state that any sequence of ticks and key events
//! leads to.

use vstd::prelude::*;
use crate::model::{Event, Lander};
use crate::outcome::Outcome;
use crate::units::{CEILING, SAFE_SPEED};

verus! {

/// `count` ticks in a row, with no key event between them.
pub open spec fn ticks(count: nat) -> Seq<Event> {
    Seq::new(count, |i: int| Event::Tick)
}

/// One event keeps a valid state valid; in particular the height never becomes negative.
pub proof fn lemma_step_keeps_valid(state: Lander, event: Event)
    requires
        state.valid(),
    ensures
        state.step(event).valid(),
        state.step(event).height >= 0,
{
}

/// One event never adds fuel, and only a tick of thrust in a running round takes any.
pub proof fn lemma_step_fuel(state: Lander, event: Event)
    ensures
        state.step(event).fuel <= state.fuel,
        state.step(event).fuel < state.fuel <==> event is Tick && state.running()
            && state.engine_active && state.fuel > 0,
{
}

/// Running first `before` and then `after` is running the two in one sequence.
pub proof fn lemma_run_concat(state: Lander, before: Seq<Event>, after: Seq<Event>)
    ensures
        state.run(before + after) == state.run(before).run(after),
    decreases after.len(),
{
    if after.len() == 0 {
        assert(before + after =~= before);
    } else {
        lemma_run_concat(state, before, after.drop_last());
        assert((before + after).drop_last() =~= before + after.drop_last());
        assert((before + after).last() == after.last());
    }
}

/// Every state of a round is valid: whatever the events, the height is never negative, and
/// the fuel stays between the last burn and the full tank.
pub proof fn lemma_run_keeps_valid(state: Lander, events: Seq<Event>)
    requires
        state.valid(),
    ensures
        state.run(events).valid(),
        state.run(events).height >= 0,
    decreases events.len(),
{
    if events.len() > 0 {
        lemma_run_keeps_valid(state, events.drop_last());
        lemma_step_keeps_valid(state.run(events.drop_last()), events.last());
    }
}

/// Fuel never increases: after any further events there is at most as much as before them.
pub proof fn lemma_run_fuel_never_increases(state: Lander, before: Seq<Event>, after: Seq<Event>)
    ensures
        state.run(before + after).fuel <= state.run(before).fuel,
    decreases after.len(),
{
    lemma_run_concat(state, before, after);
    if after.len() > 0 {
        lemma_run_concat(state, before, after.drop_last());
        lemma_run_fuel_never_increases(state, before, after.drop_last());
        lemma_step_fuel(state.run(before).run(after.drop_last()), after.last());
    }
}

/// The end is final: once the ship is on the ground, no event moves it, changes its speed,
/// takes fuel or alters the grade.
pub proof fn lemma_run_ended_is_final(state: Lander, events: Seq<Event>)
    requires
        state.ended(),
    ensures
        state.run(events).ended(),
        state.run(events).height == state.height,
        state.run(events).speed == state.speed,
        state.run(events).fuel == state.fuel,
        state.run(events).outcome() == state.outcome(),
    decreases events.len(),
{
    if events.len() > 0 {
        lemma_run_ended_is_final(state, events.drop_last());
    }
}

/// The round is graded by the tick that brings the ship to the ground: if the round still
/// runs after `before` and the next tick ends it, then whatever follows, the round is won if
/// the speed after that tick is at most `SAFE_SPEED`, and lost otherwise.
pub proof fn lemma_outcome_is_decided_on_arrival(
    state: Lander,
    before: Seq<Event>,
    after: Seq<Event>,
)
    requires
        state.run(before).running(),
        state.run(before.push(Event::Tick)).ended(),
    ensures
        state.run(before.push(Event::Tick) + after).outcome() == Some(
            if state.run(before.push(Event::Tick)).speed <= SAFE_SPEED {
                Outcome::Win
            } else {
                Outcome::Lose
            },
        ),
        state.run(before.push(Event::Tick)).speed == state.run(before).speed + state.run(
            before,
        ).acceleration(),
{
    let arrival = before.push(Event::Tick);
    assert(arrival.drop_last() =~= before);
    assert(state.run(arrival) == state.run(before).tick());
    lemma_run_concat(state, arrival, after);
    lemma_run_ended_is_final(state.run(arrival), after);
}

/// Free fall: from a state that moves downwards with the engine idle, `count` ticks add
/// `count` times gravity to the speed and the sum of the speeds passed through to the height,
/// as long as the ship is still above the ground before the last of them.
pub proof fn lemma_free_fall(state: Lander, count: nat)
    requires
        state.valid(),
        !state.thrusting(),
        state.speed >= 0,
        count > 0 ==> 2 * state.height + 2 * (count - 1) * state.speed + state.gravity * (count
            - 1) * count < 2 * CEILING,
    ensures
        state.run(ticks(count)).speed == state.speed + count * state.gravity,
        2 * state.run(ticks(count)).height == 2 * state.height + 2 * count * state.speed
            + state.gravity * count * (count + 1),
        state.run(ticks(count)).fuel == state.fuel,
        state.run(ticks(count)).engine_active == state.engine_active,
        state.run(ticks(count)).gravity == state.gravity,
        state.run(ticks(count)).engine == state.engine,
    decreases count,
{
    let (h, v, g) = (state.height, state.speed, state.gravity);
    if count == 0 {
        assert(2 * count * v + g * count * (count + 1) == 0) by (nonlinear_arith)
            requires
                count == 0,
        ;
    } else {
        let n = (count - 1) as nat;
        assert(ticks(count).drop_last() =~= ticks(n));
        assert(ticks(count).last() == Event::Tick);
        if n > 0 {
            assert(2 * (n - 1) * v + g * (n - 1) * n <= 2 * n * v + g * n * (n + 1))
                by (nonlinear_arith)
                requires
                    n > 0,
                    v >= 0,
                    g >= 0,
            ;
        }
        lemma_free_fall(state, n);
        let middle = state.run(ticks(n));
        assert(middle.running());
        assert(middle.acceleration() == g);
        assert(middle.speed + g == v + count * g) by (nonlinear_arith)
            requires
                middle.speed == v + n * g,
                count == n + 1,
        ;
        assert(2 * middle.height + 2 * (v + count * g) == 2 * h + 2 * count * v + g * count * (
            count + 1)) by (nonlinear_arith)
            requires
                2 * middle.height == 2 * h + 2 * n * v + g * n * (n + 1),
                count == n + 1,
        ;
        assert(count * g >= 0) by (nonlinear_arith)
            requires
                g >= 0,
                count >= 0,
        ;
        assert(state.run(ticks(count)) == middle.tick());
    }
}

} // verus!
