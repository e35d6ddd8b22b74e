//! The engine as a state machine.
//!
//! [`EngineState`] is what an engine is to its contracts, and the functions
//! on it say what each operation makes of a state. The engine's executable
//! methods are proved against them.

use vstd::prelude::*;
use instant::Instant;
use crate::entity::{render_each, update_times, Entity};
use crate::event::{answer, ends_run, pause, Action, Event, Frame};
use crate::rate::{step_of, DEFAULT_TICK_RATE};

verus! {

/// The most simulation steps that one frame dispatches. A frame that owes
/// more (the loop fell behind by more than this many steps) dispatches this
/// many and drops the rest of the whole steps it owes, so that a slow frame
/// cannot make the next one slower still.
pub const MAX_STEPS_PER_FRAME: u64 = 8;

/// The abstract state of an engine.
pub struct EngineState<E> {
    /// The registered entities, in the order of their registration, which
    /// is the order of dispatch.
    pub entities: Seq<E>,
    /// Whether a run is under way.
    pub running: bool,
    /// The configured rate, as the bits of a binary64 number.
    pub tick_rate: u64,
    /// Nanoseconds of simulation time not yet consumed by a step.
    pub accumulator: u64,
    /// The simulation steps dispatched so far, at most `u64::MAX`.
    pub ticks: u64,
    /// The length of the run in nanoseconds, where the run has one.
    pub limit: Option<u64>,
    /// The nanoseconds since the run began, at most `u64::MAX`.
    pub elapsed: u64,
    /// The clock's reading when the engine was made. Every later reading is
    /// counted from it.
    pub origin: Instant,
    /// The previous reading of the clock, in nanoseconds since `origin`.
    pub last_time: u64,
}

impl<E: Entity> EngineState<E> {
    /// A fresh engine, made when the clock read `origin`: no entity, idle,
    /// 60 steps per second.
    pub open spec fn initial(origin: Instant) -> Self {
        EngineState {
            entities: Seq::empty(),
            running: false,
            tick_rate: DEFAULT_TICK_RATE,
            accumulator: 0,
            ticks: 0,
            limit: None,
            elapsed: 0,
            origin,
            last_time: 0,
        }
    }

    /// The fixed step in nanoseconds, which follows the rate.
    pub open spec fn step(self) -> nat {
        step_of(self.tick_rate)
    }

    /// The state with another rate.
    pub open spec fn with_rate(self, rate: u64) -> Self {
        EngineState { tick_rate: rate, ..self }
    }

    /// The state with `entity` registered last.
    pub open spec fn with_entity(self, entity: E) -> Self {
        EngineState { entities: self.entities.push(entity), ..self }
    }

    /// The state after `steps` update passes of `dt` nanoseconds each.
    pub open spec fn stepped(self, dt: u64, steps: nat) -> Self {
        EngineState {
            entities: update_times(self.entities, dt, steps),
            ticks: if self.ticks + steps > u64::MAX { u64::MAX } else { (self.ticks + steps) as u64 },
            ..self
        }
    }

    /// The state after one render pass.
    pub open spec fn drawn(self) -> Self {
        EngineState { entities: render_each(self.entities), ..self }
    }

    /// The state after one explicit step: every entity updated by `dt`,
    /// then every entity rendered.
    pub open spec fn ticked(self, dt: u64) -> Self {
        self.stepped(dt, 1).drawn()
    }

    /// The state after a request to stop.
    pub open spec fn stopped(self) -> Self {
        EngineState { running: false, ..self }
    }

    /// The whole steps that are owed once `elapsed` nanoseconds are added
    /// to the accumulator.
    pub open spec fn due(self, elapsed: u64) -> nat {
        ((self.accumulator + elapsed) / (self.step() as int)) as nat
    }

    /// The steps that are dispatched of those owed.
    pub open spec fn taken(self, elapsed: u64) -> nat {
        if self.due(elapsed) > MAX_STEPS_PER_FRAME {
            MAX_STEPS_PER_FRAME as nat
        } else {
            self.due(elapsed)
        }
    }

    /// The state after `elapsed` nanoseconds of real time have been
    /// accounted for: the steps taken, each of the fixed size, and the rest
    /// of the time, less than a step, left in the accumulator.
    pub open spec fn advanced(self, elapsed: u64) -> Self {
        EngineState {
            accumulator: ((self.accumulator + elapsed) % (self.step() as int)) as u64,
            ..self.stepped(self.step() as u64, self.taken(elapsed))
        }
    }

    /// The time from the previous reading of the clock to the reading
    /// `now`; none where `now` is the earlier of the two.
    pub open spec fn delta_to(self, now: u64) -> u64 {
        if now > self.last_time {
            (now - self.last_time) as u64
        } else {
            0
        }
    }

    /// The state with `now` as the previous reading of the clock.
    pub open spec fn marked(self, now: u64) -> Self {
        EngineState { last_time: now, ..self }
    }

    /// The state on entering a run when the clock reads `now`. A run with a
    /// time limit owes its first step at once; a run without one starts with
    /// an empty accumulator.
    pub open spec fn started(self, limit: Option<u64>, rate: u64, now: u64) -> Self {
        EngineState {
            running: true,
            tick_rate: rate,
            accumulator: if limit is Some { step_of(rate) as u64 } else { 0 },
            limit,
            elapsed: 0,
            last_time: now,
            ..self
        }
    }

    /// The time since the run began, `delta` nanoseconds after the last
    /// look at the clock.
    pub open spec fn elapsed_after(self, delta: u64) -> u64 {
        if self.elapsed + delta > u64::MAX { u64::MAX } else { (self.elapsed + delta) as u64 }
    }

    /// Whether the run's time is up `delta` nanoseconds after the last look
    /// at the clock.
    pub open spec fn expired(self, delta: u64) -> bool {
        self.limit matches Some(limit) && self.elapsed_after(delta) >= limit
    }

    /// The state after one frame that begins `delta` nanoseconds after the
    /// previous one. An idle engine stays as it is. A run whose time is up
    /// ends before anything is dispatched. Otherwise the frame accounts for
    /// `delta` and renders once.
    pub open spec fn framed(self, delta: u64) -> Self {
        if !self.running {
            self
        } else if self.expired(delta) {
            EngineState { running: false, elapsed: self.elapsed_after(delta), ..self }
        } else {
            EngineState { elapsed: self.elapsed_after(delta), ..self.advanced(delta).drawn() }
        }
    }

    /// The state after one frame that begins when the clock reads `now`.
    /// An idle engine stays as it is. A running one takes the time since the
    /// previous reading as the frame's, and keeps `now` as the previous
    /// reading for the next frame.
    pub open spec fn framed_when(self, now: u64) -> Self {
        if !self.running {
            self
        } else {
            self.marked(now).framed(self.delta_to(now))
        }
    }

    /// The state after an event of a window's loop that comes when the
    /// clock reads `now`. An idle engine stays as it is. A running one stops
    /// on a request to close the window and on the escape key. When the
    /// events of an iteration are all handled, it accounts for the time
    /// since the previous reading and keeps `now` as the previous reading.
    /// Anything else leaves it alone.
    pub open spec fn handled(self, event: Event, now: u64) -> Self {
        if !self.running {
            self
        } else if ends_run(event) {
            self.stopped()
        } else if event == Event::MainEventsCleared {
            self.marked(now).advanced(self.delta_to(now))
        } else {
            self
        }
    }

    /// What the engine answers to an event: an idle engine that the loop
    /// should be left, a running one what the event calls for.
    pub open spec fn reply(self, event: Event) -> Action {
        if self.running {
            answer(event)
        } else {
            Action::Exit
        }
    }

    /// What a frame answers, when it began `delta` nanoseconds after the
    /// previous one and took `spent` nanoseconds itself.
    pub open spec fn frame_answer(self, delta: u64, spent: u64) -> Frame {
        if self.framed(delta).running {
            pause(self.step(), spent)
        } else {
            Frame::Finished
        }
    }
}

} // verus!
