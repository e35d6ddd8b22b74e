//! What holds of the engine across its operations.

use vstd::prelude::*;
use vstd::arithmetic::div_mod::{lemma_div_is_ordered, lemma_fundamental_div_mod, lemma_fundamental_div_mod_converse};
use vstd::arithmetic::power2::{lemma2_to64_rest, lemma_pow2_pos, pow2};
use crate::entity::{update_times, Entity};
use crate::event::{Action, Event, Frame};
use crate::state::{EngineState, MAX_STEPS_PER_FRAME};
use crate::player::Player;
use crate::rate::{exponent, exponent_field, lemma_reciprocal_significand_bounds, nearest, period_nanos, rate_is_valid, reciprocal_exponent, reciprocal_significand, sign_is_set, significand, step_of, DEFAULT_TICK_RATE, NANOS_PER_SECOND};

verus! {

/// One entity after `steps` successive updates by `dt`.
pub open spec fn updated_times<E: Entity>(entity: E, dt: u64, steps: nat) -> E
    decreases steps,
{
    if steps == 0 {
        entity
    } else {
        updated_times(entity, dt, (steps - 1) as nat).updated(dt)
    }
}

/// One entity after `count` successive explicit steps of `dt`: each an
/// update followed by a render.
pub open spec fn ticked_times<E: Entity>(entity: E, dt: u64, count: nat) -> E
    decreases count,
{
    if count == 0 {
        entity
    } else {
        ticked_times(entity, dt, (count - 1) as nat).updated(dt).rendered()
    }
}

/// The state after `count` successive calls of `tick` with `dt`.
pub open spec fn after_ticks<E: Entity>(state: EngineState<E>, dt: u64, count: nat) -> EngineState<E>
    decreases count,
{
    if count == 0 {
        state
    } else {
        after_ticks(state, dt, (count - 1) as nat).ticked(dt)
    }
}

/// The state after a succession of frames, each beginning the given time
/// after the one before it.
pub open spec fn after_frames<E: Entity>(state: EngineState<E>, deltas: Seq<u64>) -> EngineState<E>
    decreases deltas.len(),
{
    if deltas.len() == 0 {
        state
    } else {
        after_frames(state, deltas.drop_last()).framed(deltas.last())
    }
}

/// The sum of a sequence of times.
pub open spec fn total(deltas: Seq<u64>) -> nat
    decreases deltas.len(),
{
    if deltas.len() == 0 {
        0
    } else {
        total(deltas.drop_last()) + deltas.last() as nat
    }
}

/// The times between the frames of a run that keeps its pace: the first
/// frame comes at once, each later one a step after the one before it.
pub open spec fn paced(step: u64, frames: nat) -> Seq<u64>
    decreases frames,
{
    if frames == 0 {
        Seq::empty()
    } else if frames == 1 {
        seq![0u64]
    } else {
        paced(step, (frames - 1) as nat).push(step)
    }
}

/// The valid rates are the bit patterns strictly between zero and positive
/// infinity. Zero, every negative number, both infinities and every NaN are
/// invalid.
pub proof fn law_valid_rates_are_positive_and_finite(bits: u64)
    ensures
        rate_is_valid(bits) <==> 0 < bits < 0x7FF0_0000_0000_0000,
        sign_is_set(bits) ==> !rate_is_valid(bits),
        exponent_field(bits) == 0x7FF ==> !rate_is_valid(bits),
        bits == 0 ==> !rate_is_valid(bits),
{
}

/// Setting a rate and reading it back gives that rate exactly, and the step
/// is the one that belongs to it. Nothing else changes.
pub proof fn law_tick_rate_round_trip<E: Entity>(state: EngineState<E>, rate: u64)
    ensures
        state.with_rate(rate).tick_rate == rate,
        state.with_rate(rate).step() == step_of(rate),
        state.with_rate(rate) == (EngineState { tick_rate: rate, ..state }),
{
}

/// `nearest(n, d)` is a whole number nearest to `n / d`: no more than half
/// away, and even where it is exactly half away.
pub proof fn law_nearest_is_nearest(n: nat, d: nat)
    requires
        d > 0,
    ensures
        2 * (nearest(n, d) * d - n) <= d,
        2 * (n - nearest(n, d) * d) <= d,
        2 * (nearest(n, d) * d - n) == d || 2 * (n - nearest(n, d) * d) == d ==> nearest(n, d) % 2 == 0,
{
    let q = (n / d) as int;
    let r = (n % d) as int;
    lemma_fundamental_div_mod(n as int, d as int);
    assert(q * d == d * q) by (nonlinear_arith);
    assert((q + 1) * d == d * q + d) by (nonlinear_arith);
}

/// The step is the reciprocal of the rate as floating-point arithmetic
/// gives it. With the rate's value `m * 2^e`, the reciprocal's significand
/// `q` has the 53 bits of a double's and `q * 2^(-e-105)` is no more than
/// half a unit in the last place from `1 / (m * 2^e)`. The period is the
/// whole number of nanoseconds nearest to that double times 10^9. The step
/// is the period wherever that is at least one nanosecond and fits a `u64`.
pub proof fn law_step_is_reciprocal_of_rate(bits: u64)
    requires
        rate_is_valid(bits),
    ensures
        significand(bits) > 0,
        exponent_field(bits) != 0 ==> pow2(52) <= reciprocal_significand(bits) <= pow2(53),
        2 * (reciprocal_significand(bits) * significand(bits) - pow2(105)) <= significand(bits),
        2 * (pow2(105) - reciprocal_significand(bits) * significand(bits)) <= significand(bits),
        reciprocal_exponent(bits) >= 0 ==> period_nanos(bits) == reciprocal_significand(bits) * pow2(
            reciprocal_exponent(bits) as nat,
        ) * NANOS_PER_SECOND,
        reciprocal_exponent(bits) < 0 ==> {
            let unit = pow2((-reciprocal_exponent(bits)) as nat);
            let exact = reciprocal_significand(bits) * NANOS_PER_SECOND;
            &&& 2 * (period_nanos(bits) * unit - exact) <= unit
            &&& 2 * (exact - period_nanos(bits) * unit) <= unit
        },
        1 <= step_of(bits) <= u64::MAX,
        1 <= period_nanos(bits) <= u64::MAX ==> step_of(bits) == period_nanos(bits),
{
    lemma_reciprocal_significand_bounds(bits);
    lemma2_to64_rest();
    law_nearest_is_nearest(pow2(105), significand(bits));
    if reciprocal_exponent(bits) < 0 {
        let unit = pow2((-reciprocal_exponent(bits)) as nat);
        lemma_pow2_pos((-reciprocal_exponent(bits)) as nat);
        law_nearest_is_nearest(reciprocal_significand(bits) * (NANOS_PER_SECOND as nat), unit);
    }
}

/// The default rate is 60 steps per second. The double nearest to a
/// sixtieth is 4803839602528529 / 2^58, and the step is 16,666,667
/// nanoseconds.
pub proof fn law_default_rate()
    ensures
        rate_is_valid(DEFAULT_TICK_RATE),
        significand(DEFAULT_TICK_RATE) == 60 * pow2(47),
        exponent(DEFAULT_TICK_RATE) == -47,
        reciprocal_significand(DEFAULT_TICK_RATE) == 4803839602528529,
        reciprocal_exponent(DEFAULT_TICK_RATE) == -58,
        step_of(DEFAULT_TICK_RATE) == 16_666_667,
{
    lemma2_to64_rest();
    lemma_reciprocal_significand_bounds(DEFAULT_TICK_RATE);
    let m = significand(DEFAULT_TICK_RATE) as int;
    assert(m == 0x1E_0000_0000_0000);
    let q: int = 4803839602528529;
    let left: int = 4int * 0x8000_0000_0000int;
    assert(pow2(105) == q * m + left);
    lemma_fundamental_div_mod_converse(pow2(105) as int, m, q, left);
    let unit = pow2(58) as int;
    let exact: int = q * 1_000_000_000int;
    let over: int = 192153584034474496;
    assert(exact == 16_666_666 * unit + over);
    lemma_fundamental_div_mod_converse(exact, unit, 16_666_666, over);
}

/// One pass of updates reaches every entity once, with the same `dt`, and
/// `steps` passes reach each entity `steps` times. The number of entities
/// and their order stay as they are.
pub proof fn law_updates_reach_every_entity<E: Entity>(entities: Seq<E>, dt: u64, steps: nat)
    ensures
        update_times(entities, dt, steps).len() == entities.len(),
        forall|i: int| 0 <= i < entities.len() ==>
            #[trigger] update_times(entities, dt, steps)[i] == updated_times(entities[i], dt, steps),
    decreases steps,
{
    if steps > 0 {
        law_updates_reach_every_entity(entities, dt, (steps - 1) as nat);
    }
}

/// One explicit step updates every entity exactly once with the given
/// `dt`, then renders it once. The number of entities and their order stay
/// as they are, and nothing but the step counter changes beside them.
pub proof fn law_tick_reaches_every_entity<E: Entity>(state: EngineState<E>, dt: u64)
    ensures
        state.ticked(dt).entities.len() == state.entities.len(),
        forall|i: int| 0 <= i < state.entities.len() ==>
            #[trigger] state.ticked(dt).entities[i] == state.entities[i].updated(dt).rendered(),
        state.ticked(dt).ticks == state.ticks.saturating_add(1),
        state.ticked(dt) == (EngineState {
            entities: state.ticked(dt).entities,
            ticks: state.ticked(dt).ticks,
            ..state
        }),
{
    reveal_with_fuel(update_times, 2);
}

/// `count` explicit steps in a row update and render every entity exactly
/// `count` times, and count as `count` steps.
pub proof fn law_ticks_add_up<E: Entity>(state: EngineState<E>, dt: u64, count: nat)
    ensures
        after_ticks(state, dt, count).entities.len() == state.entities.len(),
        forall|i: int| 0 <= i < state.entities.len() ==>
            #[trigger] after_ticks(state, dt, count).entities[i] == ticked_times(state.entities[i], dt, count),
        state.ticks + count <= u64::MAX ==> after_ticks(state, dt, count).ticks == state.ticks + count,
        state.ticks + count > u64::MAX ==> after_ticks(state, dt, count).ticks == u64::MAX,
        after_ticks(state, dt, count) == (EngineState {
            entities: after_ticks(state, dt, count).entities,
            ticks: after_ticks(state, dt, count).ticks,
            ..state
        }),
    decreases count,
{
    if count > 0 {
        law_ticks_add_up(state, dt, (count - 1) as nat);
        law_tick_reaches_every_entity(after_ticks(state, dt, (count - 1) as nat), dt);
    }
}

/// A player that is stepped `count` times has counted `count` more steps,
/// modulo 2^64.
pub proof fn law_player_counts_steps(player: Player, dt: u64, count: nat)
    ensures
        ticked_times(player, dt, count).ticks == (player.ticks + count) % 0x1_0000_0000_0000_0000,
        updated_times(player, dt, count).ticks == (player.ticks + count) % 0x1_0000_0000_0000_0000,
    decreases count,
{
    if count > 0 {
        law_player_counts_steps(player, dt, (count - 1) as nat);
    }
}

/// Stopping twice is stopping once, and stopping an idle engine changes
/// nothing.
pub proof fn law_stop_is_idempotent<E: Entity>(state: EngineState<E>)
    ensures
        state.stopped().stopped() == state.stopped(),
        !state.running ==> state.stopped() == state,
        !state.stopped().running,
{
}

/// A request to stop touches no entity and no time, and what comes after
/// it dispatches nothing: the next frame ends the run as it finds it, and
/// the next event is answered with the way out. A step that was under way
/// when the request came is complete, and no further one begins.
pub proof fn law_stop_ends_run_at_next_frame<E: Entity>(
    state: EngineState<E>,
    delta: u64,
    spent: u64,
    event: Event,
    now: u64,
)
    ensures
        state.stopped().entities == state.entities,
        state.stopped().ticks == state.ticks,
        state.stopped().accumulator == state.accumulator,
        state.stopped().framed(delta) == state.stopped(),
        state.stopped().frame_answer(delta, spent) == Frame::Finished,
        state.stopped().framed_when(now) == state.stopped(),
        state.stopped().handled(event, now) == state.stopped(),
        state.stopped().reply(event) == Action::Exit,
{
}

/// A frame answers that the run is finished exactly when it leaves the
/// engine idle. A run with a time limit ends at the first frame that begins
/// at or after the limit, and that frame dispatches nothing; before the
/// limit a frame leaves the run going.
pub proof fn law_run_ends_when_time_is_up<E: Entity>(state: EngineState<E>, delta: u64, spent: u64)
    ensures
        state.frame_answer(delta, spent) == Frame::Finished <==> !state.framed(delta).running,
        state.running && state.expired(delta) ==> {
            &&& !state.framed(delta).running
            &&& state.framed(delta).entities == state.entities
            &&& state.framed(delta).ticks == state.ticks
            &&& state.limit matches Some(limit) && state.framed(delta).elapsed >= limit
        },
        state.running && !state.expired(delta) ==> state.framed(delta).running,
{
}

/// A run with a time limit is over once a frame has begun at or after the
/// limit, whatever the frames before it did. While the run goes on, the
/// engine's count of the time since its start is the sum of what its frames
/// measured.
pub proof fn law_run_ends_in_time<E: Entity>(
    state: EngineState<E>,
    duration: u64,
    rate: u64,
    now: u64,
    deltas: Seq<u64>,
)
    ensures
        ({
            let end = after_frames(state.started(Some(duration), rate, now), deltas);
            &&& end.limit == Some(duration)
            &&& end.running ==> end.elapsed == total(deltas)
            &&& deltas.len() > 0 && total(deltas) >= duration ==> !end.running
        }),
    decreases deltas.len(),
{
    if deltas.len() > 0 {
        law_run_ends_in_time(state, duration, rate, now, deltas.drop_last());
    }
}

/// A frame by the clock measures from the previous reading and leaves its
/// own reading behind, so that no time is counted twice: over two readings
/// in a row, the times taken add up to the time from the first previous
/// reading to the last. A frame of an idle engine leaves the previous
/// reading alone.
pub proof fn law_readings_are_counted_once<E: Entity>(state: EngineState<E>, first: u64, second: u64)
    ensures
        state.marked(first).last_time == first,
        state.running ==> state.framed_when(first).last_time == first,
        state.running ==> state.framed_when(first) == state.marked(first).framed(state.delta_to(first)),
        !state.running ==> state.framed_when(first) == state,
        state.last_time <= first <= second ==> state.delta_to(first) + state.marked(first).delta_to(second)
            == state.delta_to(second),
        first <= state.last_time ==> state.delta_to(first) == 0,
{
}

/// Accounting for time dispatches whole steps only and loses no time while
/// the loop keeps up: the steps taken and what the accumulator keeps add up
/// to what it held plus the time that passed, and less than a step is kept.
/// A frame that owes more than [`MAX_STEPS_PER_FRAME`] steps takes that
/// many and drops the other whole steps.
pub proof fn law_advance_conserves_time<E: Entity>(state: EngineState<E>, elapsed: u64)
    ensures
        state.step() >= 1,
        state.advanced(elapsed).accumulator < state.step(),
        state.taken(elapsed) <= MAX_STEPS_PER_FRAME,
        state.due(elapsed) * state.step() + state.advanced(elapsed).accumulator
            == state.accumulator + elapsed,
        state.due(elapsed) <= MAX_STEPS_PER_FRAME ==> state.taken(elapsed) == state.due(elapsed),
        state.advanced(elapsed).entities == update_times(
            state.entities,
            state.step() as u64,
            state.taken(elapsed),
        ),
        state.advanced(elapsed).running == state.running,
        state.advanced(elapsed).tick_rate == state.tick_rate,
{
    let step = state.step() as int;
    let sum = state.accumulator + elapsed;
    lemma_fundamental_div_mod(sum, step);
    assert((sum / step) * step == step * (sum / step)) by (nonlinear_arith);
}

/// While a run with a time limit keeps up, its steps follow the clock: the
/// first frame dispatches one step at once, and after frames that began
/// `total(deltas)` nanoseconds into the run, one more step has been
/// dispatched for every whole step of that time. The run is still going as
/// long as that time is under the limit, and the number of entities is what
/// it was.
///
/// To keep up is never to owe more than [`MAX_STEPS_PER_FRAME`] steps in
/// one frame; no frame does that is at most one step short of that many
/// steps late.
pub proof fn law_steps_follow_time<E: Entity>(
    state: EngineState<E>,
    duration: u64,
    rate: u64,
    now: u64,
    deltas: Seq<u64>,
)
    requires
        deltas.len() > 0,
        total(deltas) < duration,
        forall|i: int| 0 <= i < deltas.len() ==> deltas[i] <= (MAX_STEPS_PER_FRAME - 1) * step_of(rate),
        state.ticks + total(deltas) / step_of(rate) + 1 <= u64::MAX,
    ensures
        ({
            let end = after_frames(state.started(Some(duration), rate, now), deltas);
            &&& end.running
            &&& end.tick_rate == rate
            &&& end.limit == Some(duration)
            &&& end.elapsed == total(deltas)
            &&& end.ticks == state.ticks + total(deltas) / step_of(rate) + 1
            &&& end.accumulator == total(deltas) % step_of(rate)
            &&& end.entities.len() == state.entities.len()
        }),
    decreases deltas.len(),
{
    let begin = state.started(Some(duration), rate, now);
    let before = deltas.drop_last();
    let delta = deltas.last();
    let step = step_of(rate) as int;
    let sooner = total(before) as int;
    let prior = after_frames(begin, before);
    assert(total(deltas) == sooner + delta);
    lemma_div_is_ordered(sooner, sooner + delta, step);
    if before.len() > 0 {
        law_steps_follow_time(state, duration, rate, now, before);
    }
    let held = prior.accumulator as int;
    let owed = (held + delta) / step;
    let kept = (held + delta) % step;
    lemma_fundamental_div_mod(held + delta, step);
    lemma_fundamental_div_mod(sooner, step);
    assert(held + delta <= MAX_STEPS_PER_FRAME * step);
    assert(owed <= MAX_STEPS_PER_FRAME) by (nonlinear_arith)
        requires
            held + delta == step * owed + kept,
            held + delta <= 8 * step,
            0 <= kept < step,
            MAX_STEPS_PER_FRAME == 8,
    ;
    let whole = if before.len() > 0 { sooner / step + owed } else { owed - 1 };
    assert(sooner + delta == whole * step + kept) by (nonlinear_arith)
        requires
            held + delta == step * owed + kept,
            before.len() > 0 ==> sooner == step * (sooner / step) + held && whole == sooner / step + owed,
            before.len() == 0 ==> sooner == 0 && held == step && whole == owed - 1,
    ;
    lemma_fundamental_div_mod_converse(sooner + delta, step, whole, kept);
    law_advance_conserves_time(prior, delta);
    law_updates_reach_every_entity(prior.entities, prior.step() as u64, prior.taken(delta));
}

/// The frames of a paced run: as many as asked for, none longer than a
/// step, and a step apart from the second on.
proof fn lemma_paced(step: u64, frames: nat)
    requires
        frames >= 1,
    ensures
        paced(step, frames).len() == frames,
        forall|i: int| 0 <= i < frames ==> #[trigger] paced(step, frames)[i] <= step,
        total(paced(step, frames)) == (frames - 1) * step,
    decreases frames,
{
    if frames > 1 {
        let before = paced(step, (frames - 1) as nat);
        lemma_paced(step, (frames - 1) as nat);
        assert(paced(step, frames).drop_last() == before);
        assert(paced(step, frames).last() == step);
        assert((frames - 2) * step + step == (frames - 1) * step) by (nonlinear_arith);
    } else {
        assert(paced(step, frames).drop_last() == Seq::<u64>::empty());
        assert(total(Seq::<u64>::empty()) == 0);
    }
}

/// A run with a time limit that keeps its pace dispatches one step per
/// frame, and ends at the first frame that begins at or after its limit.
/// So the number of steps it dispatches is the least `n` with `n` steps
/// no shorter than the run: the run's length over the step, rounded up.
pub proof fn law_paced_run_counts_steps<E: Entity>(
    state: EngineState<E>,
    duration: u64,
    rate: u64,
    now: u64,
    frames: nat,
)
    requires
        frames >= 1,
        state.ticks + frames <= u64::MAX,
        (frames - 1) * step_of(rate) < duration,
    ensures
        ({
            let step = step_of(rate) as u64;
            let end = after_frames(state.started(Some(duration), rate, now), paced(step, frames));
            &&& end.running
            &&& end.ticks == state.ticks + frames
            &&& end.accumulator == 0
            &&& end.elapsed == (frames - 1) * step
            &&& frames * step >= duration ==> !end.framed(step).running && end.framed(step).ticks
                == state.ticks + frames
        }),
{
    let step = step_of(rate) as u64;
    let deltas = paced(step, frames);
    lemma_paced(step, frames);
    let whole = (frames - 1) as int;
    lemma_fundamental_div_mod_converse(whole * step, step as int, whole, 0);
    assert forall|i: int| 0 <= i < deltas.len() implies deltas[i] <= (MAX_STEPS_PER_FRAME - 1) * step_of(
        rate,
    ) by {
        assert(deltas[i] <= step);
    }
    law_steps_follow_time(state, duration, rate, now, deltas);
    assert(frames * step == (frames - 1) * step + step) by (nonlinear_arith);
}

} // verus!
