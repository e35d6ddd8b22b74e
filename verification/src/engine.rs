//! The loop driver.

use vstd::prelude::*;
use instant::Instant;
use crate::clock::{nanos_between, now};
use crate::entity::{render_all, update_all, update_repeatedly, update_times, Entity};
use crate::event::{pause, Action, Event, Frame, Key};
use crate::state::{EngineState, MAX_STEPS_PER_FRAME};
use crate::rate::{rate_is_valid, step_for, step_of, DEFAULT_TICK_RATE};

verus! {

/// A rate together with the step that follows from it.
struct Cadence {
    rate: u64,
    step: u64,
}

impl Cadence {
    #[verifier::type_invariant]
    spec fn coherent(self) -> bool {
        rate_is_valid(self.rate) && self.step == step_of(self.rate)
    }

    fn of(rate: u64) -> (cadence: Cadence)
        requires
            rate_is_valid(rate),
        ensures
            cadence.rate == rate,
    {
        Cadence { rate, step: step_for(rate) }
    }
}

/// Drives updates and rendering for an ordered collection of entities.
///
/// Time is counted in whole nanoseconds. The engine owns its entities: they
/// are dispatched in the order of their registration and are never
/// reordered. All of them are of one type; entities of several kinds are
/// the variants of an enum, or the boxed objects of a trait of the
/// caller's, for which the caller implements [`Entity`].
pub struct Engine<E: Entity> {
    entities: Vec<E>,
    running: bool,
    cadence: Cadence,
    accumulator: u64,
    ticks: u64,
    limit: Option<u64>,
    elapsed: u64,
    origin: Instant,
    last_time: u64,
}

impl<E: Entity> View for Engine<E> {
    type V = EngineState<E>;

    closed spec fn view(&self) -> EngineState<E> {
        EngineState {
            entities: self.entities@,
            running: self.running,
            tick_rate: self.cadence.rate,
            accumulator: self.accumulator,
            ticks: self.ticks,
            limit: self.limit,
            elapsed: self.elapsed,
            origin: self.origin,
            last_time: self.last_time,
        }
    }
}

impl<E: Entity> Engine<E> {
    /// Creates an idle engine without entities, at 60 steps per second.
    /// The clock's reading at this moment is the engine's origin: the
    /// engine counts its readings from it.
    pub fn new() -> (engine: Self)
        ensures
            engine@ == EngineState::<E>::initial(engine@.origin),
    {
        Engine {
            entities: Vec::new(),
            running: false,
            cadence: Cadence::of(DEFAULT_TICK_RATE),
            accumulator: 0,
            ticks: 0,
            limit: None,
            elapsed: 0,
            origin: now(),
            last_time: 0,
        }
    }

    /// Sets the number of steps per second, and with it the fixed step.
    pub fn set_tick_rate(&mut self, rate: u64)
        requires
            rate_is_valid(rate),
        ensures
            final(self)@ == old(self)@.with_rate(rate),
    {
        self.cadence = Cadence::of(rate);
    }

    /// The configured number of steps per second.
    pub fn tick_rate(&self) -> (rate: u64)
        ensures
            rate == self@.tick_rate,
            rate_is_valid(rate),
    {
        proof {
            use_type_invariant(&self.cadence);
        }
        self.cadence.rate
    }

    /// The fixed step in nanoseconds.
    pub fn step(&self) -> (step: u64)
        ensures
            step == self@.step(),
            step >= 1,
    {
        proof {
            use_type_invariant(&self.cadence);
        }
        self.cadence.step
    }

    /// The nanoseconds of simulation time not yet consumed by a step.
    pub fn accumulator(&self) -> (nanos: u64)
        ensures
            nanos == self@.accumulator,
    {
        self.accumulator
    }

    /// The simulation steps dispatched so far.
    pub fn ticks(&self) -> (ticks: u64)
        ensures
            ticks == self@.ticks,
    {
        self.ticks
    }

    /// The nanoseconds since the run began, as the frames have measured
    /// them.
    pub fn elapsed(&self) -> (nanos: u64)
        ensures
            nanos == self@.elapsed,
    {
        self.elapsed
    }

    /// The previous reading of the clock, in nanoseconds since the engine
    /// was made.
    pub fn last_time(&self) -> (nanos: u64)
        ensures
            nanos == self@.last_time,
    {
        self.last_time
    }

    /// Takes `now` as a reading of the clock, in nanoseconds since the
    /// engine was made: returns the time since the previous reading, none
    /// where `now` is the earlier of the two, and keeps `now` as the
    /// previous reading from here on.
    pub fn mark(&mut self, now: u64) -> (delta: u64)
        ensures
            final(self)@ == old(self)@.marked(now),
            delta == old(self)@.delta_to(now),
    {
        let delta = if now > self.last_time {
            now - self.last_time
        } else {
            0
        };
        self.last_time = now;
        delta
    }

    /// The registered entities, in the order of their registration.
    pub fn entities(&self) -> (entities: &Vec<E>)
        ensures
            entities@ == self@.entities,
    {
        &self.entities
    }

    /// Registers `entity` after those registered before it.
    pub fn add_entity(&mut self, entity: E)
        ensures
            final(self)@ == old(self)@.with_entity(entity),
    {
        self.entities.push(entity);
    }

    /// Dispatches one simulation step of `dt` nanoseconds: updates every
    /// entity, first to last, then renders every entity, first to last.
    pub fn tick(&mut self, dt: u64)
        ensures
            final(self)@ == old(self)@.ticked(dt),
    {
        update_all(&mut self.entities, dt);
        render_all(&mut self.entities);
        self.ticks = self.ticks.saturating_add(1);
        proof {
            reveal_with_fuel(update_times, 2);
        }
    }

    /// Asks a run to end at the next frame. An idle engine stays idle.
    pub fn stop(&mut self)
        ensures
            final(self)@ == old(self)@.stopped(),
    {
        self.running = false;
    }

    /// Whether a run is under way.
    pub fn is_running(&self) -> (running: bool)
        ensures
            running == self@.running,
    {
        self.running
    }

    /// Accounts for `elapsed` nanoseconds of real time: adds them to the
    /// accumulator, dispatches the whole steps that it then holds, at most
    /// [`MAX_STEPS_PER_FRAME`] of them, and leaves less than a step in it.
    /// Returns the number of steps dispatched.
    pub fn advance(&mut self, elapsed: u64) -> (steps: u64)
        ensures
            final(self)@ == old(self)@.advanced(elapsed),
            steps == old(self)@.taken(elapsed),
            final(self)@.accumulator < old(self)@.step(),
    {
        proof {
            use_type_invariant(&self.cadence);
        }
        let step = self.cadence.step;
        let total: u128 = self.accumulator as u128 + elapsed as u128;
        let due: u128 = total / (step as u128);
        let steps: u64 = if due > MAX_STEPS_PER_FRAME as u128 {
            MAX_STEPS_PER_FRAME
        } else {
            due as u64
        };
        update_repeatedly(&mut self.entities, step, steps);
        self.accumulator = (total % (step as u128)) as u64;
        self.ticks = self.ticks.saturating_add(steps);
        steps
    }

    /// Renders every entity once, first to last.
    pub fn render(&mut self)
        ensures
            final(self)@ == old(self)@.drawn(),
    {
        render_all(&mut self.entities);
    }

    /// Enters a run of `duration` nanoseconds at `rate` steps per second,
    /// and takes a reading of the clock as the run's first.
    ///
    /// The run itself is a loop that the caller keeps: call [`Engine::frame`]
    /// until it answers [`Frame::Finished`], and sleep where it says so. The
    /// first frame dispatches a step at once.
    pub fn run_with_rate(&mut self, duration: u64, rate: u64)
        requires
            rate_is_valid(rate),
        ensures
            exists|now: u64| final(self)@ == #[trigger] old(self)@.started(Some(duration), rate, now),
    {
        let cadence = Cadence::of(rate);
        proof {
            use_type_invariant(&cadence);
        }
        self.accumulator = cadence.step;
        self.cadence = cadence;
        self.running = true;
        self.limit = Some(duration);
        self.elapsed = 0;
        let start = now();
        let reading = nanos_between(&start, &self.origin);
        self.mark(reading);
        assert(self@ == old(self)@.started(Some(duration), rate, reading));
    }

    /// Enters a run of `duration` nanoseconds at the configured rate.
    pub fn run_for(&mut self, duration: u64)
        ensures
            exists|now: u64| final(self)@ == #[trigger] old(self)@.started(
                Some(duration),
                old(self)@.tick_rate,
                now,
            ),
    {
        let rate = self.tick_rate();
        self.run_with_rate(duration, rate);
    }

    /// Enters a run without a time limit, at the configured rate, and takes
    /// a reading of the clock as the run's first. The run lasts until
    /// [`Engine::stop`]; its steps come from [`Engine::on_event`].
    pub fn run(&mut self)
        ensures
            exists|now: u64| final(self)@ == #[trigger] old(self)@.started(None, old(self)@.tick_rate, now),
    {
        self.running = true;
        self.accumulator = 0;
        self.limit = None;
        self.elapsed = 0;
        let start = now();
        let reading = nanos_between(&start, &self.origin);
        self.mark(reading);
        assert(self@ == old(self)@.started(None, old(self)@.tick_rate, reading));
    }

    /// Runs one frame that begins `delta` nanoseconds after the previous
    /// look at the clock, and tells whether the run goes on.
    ///
    /// An idle engine does nothing. A run whose time is up ends here,
    /// before anything is dispatched. Otherwise the frame accounts for
    /// `delta` as [`Engine::advance`] does and renders once.
    pub fn frame_at(&mut self, delta: u64) -> (running: bool)
        ensures
            final(self)@ == old(self)@.framed(delta),
            running == final(self)@.running,
    {
        if !self.running {
            return false;
        }
        let elapsed = self.elapsed.saturating_add(delta);
        let expired = match self.limit {
            Some(limit) => elapsed >= limit,
            None => false,
        };
        self.elapsed = elapsed;
        if expired {
            self.running = false;
            return false;
        }
        self.advance(delta);
        self.render();
        true
    }

    /// What is left of a frame's time budget after `spent` nanoseconds: the
    /// time to sleep, if the frame took less than a step.
    pub fn pace(&self, spent: u64) -> (frame: Frame)
        ensures
            frame == pause(self@.step(), spent),
    {
        let step = self.step();
        if spent < step {
            Frame::Sleep(step - spent)
        } else {
            Frame::Proceed
        }
    }

    /// Runs one frame by the clock. An idle engine does nothing and answers
    /// [`Frame::Finished`]. A running one reads the clock, takes the time
    /// since its previous reading with [`Engine::mark`], runs
    /// [`Engine::frame_at`] on it, reads the clock again for the time that
    /// took, and answers as [`Engine::pace`] does.
    ///
    /// Whatever the clock says, there is a reading for which the engine ends
    /// in the state of a frame at that reading.
    pub fn frame(&mut self) -> (frame: Frame)
        ensures
            exists|now: u64, spent: u64|
                final(self)@ == #[trigger] old(self)@.framed_when(now)
                    && frame == #[trigger] old(self)@.frame_answer(old(self)@.delta_to(now), spent),
    {
        if !self.running {
            assert(self@ == old(self)@.framed_when(0));
            assert(Frame::Finished == old(self)@.frame_answer(old(self)@.delta_to(0), 0));
            return Frame::Finished;
        }
        let start = now();
        let reading = nanos_between(&start, &self.origin);
        let delta = self.mark(reading);
        if self.frame_at(delta) {
            let end = now();
            let finish = nanos_between(&end, &self.origin);
            let spent = if finish > reading {
                finish - reading
            } else {
                0
            };
            let frame = self.pace(spent);
            assert(self@ == old(self)@.framed_when(reading));
            assert(frame == old(self)@.frame_answer(old(self)@.delta_to(reading), spent));
            frame
        } else {
            assert(self@ == old(self)@.framed_when(reading));
            assert(Frame::Finished == old(self)@.frame_answer(old(self)@.delta_to(reading), 0));
            Frame::Finished
        }
    }

    /// Answers one event of a window's loop.
    ///
    /// An idle engine changes nothing and answers [`Action::Exit`]. A
    /// running one stops on a request to close the window and on the escape
    /// key. When the events of an iteration are all handled, it reads the
    /// clock, takes the time since its previous reading with
    /// [`Engine::mark`], and accounts for it as [`Engine::advance`] does.
    /// Nothing else changes the engine.
    pub fn on_event(&mut self, event: Event) -> (action: Action)
        ensures
            action == old(self)@.reply(event),
            exists|now: u64| final(self)@ == #[trigger] old(self)@.handled(event, now),
    {
        if !self.running {
            assert(self@ == old(self)@.handled(event, 0));
            return Action::Exit;
        }
        let action = match event {
            Event::CloseRequested | Event::KeyboardInput(Some(Key::Escape)) => {
                self.stop();
                Action::Exit
            },
            Event::MainEventsCleared => {
                let start = now();
                let reading = nanos_between(&start, &self.origin);
                let delta = self.mark(reading);
                self.advance(delta);
                assert(self@ == old(self)@.handled(event, reading));
                Action::RequestRedraw
            },
            Event::RedrawRequested => Action::Redraw,
            Event::KeyboardInput(_) | Event::Other => Action::Wait,
        };
        assert(event != Event::MainEventsCleared ==> self@ == old(self)@.handled(event, 0));
        action
    }
}

impl<E: Entity> Default for Engine<E> {
    fn default() -> (engine: Self)
        ensures
            engine@ == EngineState::<E>::initial(engine@.origin),
    {
        Engine::new()
    }
}

} // verus!
