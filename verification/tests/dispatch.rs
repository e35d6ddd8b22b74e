use std::sync::{Arc, Mutex};

use coreria::entity::{render_all, update_all, update_repeatedly};
use coreria::{Engine, Entity, Player};

#[derive(Clone, Copy, Debug, PartialEq, Eq)]
enum Call {
    Update(usize, u64),
    Render(usize),
}

struct Probe {
    id: usize,
    calls: Arc<Mutex<Vec<Call>>>,
}

impl Entity for Probe {
    fn update(&mut self, dt: u64) {
        self.calls.lock().unwrap().push(Call::Update(self.id, dt));
    }

    fn render(&mut self) {
        self.calls.lock().unwrap().push(Call::Render(self.id));
    }
}

fn probes(count: usize) -> (Engine<Probe>, Arc<Mutex<Vec<Call>>>) {
    let calls = Arc::new(Mutex::new(Vec::new()));
    let mut engine = Engine::new();
    for id in 0..count {
        engine.add_entity(Probe { id, calls: calls.clone() });
    }
    (engine, calls)
}

fn taken(calls: &Arc<Mutex<Vec<Call>>>) -> Vec<Call> {
    std::mem::take(&mut *calls.lock().unwrap())
}

#[test]
fn new_engine_is_idle_and_empty() {
    let engine: Engine<Player> = Engine::new();
    assert!(!engine.is_running());
    assert!(engine.entities().is_empty());
    assert_eq!(engine.tick_rate(), 60.0_f64.to_bits());
    assert_eq!(f64::from_bits(engine.tick_rate()), 60.0);
    assert_eq!(engine.step(), 16_666_667);
    assert_eq!(engine.accumulator(), 0);
    assert_eq!(engine.ticks(), 0);
    assert_eq!(engine.elapsed(), 0);
}

#[test]
fn default_engine_is_a_new_engine() {
    let engine: Engine<Player> = Engine::default();
    assert!(!engine.is_running());
    assert!(engine.entities().is_empty());
    assert_eq!(engine.tick_rate(), 60.0_f64.to_bits());
    assert_eq!(engine.step(), 16_666_667);
}

#[test]
fn set_tick_rate_then_tick_rate_gives_the_rate_back() {
    let mut engine: Engine<Player> = Engine::new();
    for rate in [20.0_f64, 59.94, 0.001, 1e-200, 1e200, f64::MIN_POSITIVE, f64::MAX, 5e-324] {
        engine.set_tick_rate(rate.to_bits());
        assert_eq!(engine.tick_rate(), rate.to_bits());
        assert_eq!(f64::from_bits(engine.tick_rate()), rate);
    }
}

#[test]
fn set_tick_rate_sets_the_step() {
    let mut engine: Engine<Player> = Engine::new();
    engine.set_tick_rate(20.0_f64.to_bits());
    assert_eq!(engine.step(), 50_000_000);
    engine.set_tick_rate(1000.0_f64.to_bits());
    assert_eq!(engine.step(), 1_000_000);
    engine.set_tick_rate(60.0_f64.to_bits());
    assert_eq!(engine.step(), 16_666_667);
}

#[test]
fn set_tick_rate_changes_nothing_else() {
    let mut engine = Engine::new();
    engine.add_entity(Player { ticks: 3 });
    engine.advance(20_000_000);
    engine.set_tick_rate(20.0_f64.to_bits());
    assert!(!engine.is_running());
    assert_eq!(engine.entities().len(), 1);
    assert_eq!(engine.entities()[0].ticks, 4);
    assert_eq!(engine.accumulator(), 3_333_333);
    assert_eq!(engine.ticks(), 1);
}

#[test]
fn add_entity_keeps_registration_order() {
    let (mut engine, calls) = probes(4);
    engine.add_entity(Probe { id: 2, calls: calls.clone() });
    let ids: Vec<usize> = engine.entities().iter().map(|probe| probe.id).collect();
    assert_eq!(ids, vec![0, 1, 2, 3, 2]);
}

#[test]
fn tick_updates_every_entity_once_in_order_then_renders() {
    let (mut engine, calls) = probes(3);
    engine.tick(16_000_000);
    assert_eq!(
        taken(&calls),
        vec![
            Call::Update(0, 16_000_000),
            Call::Update(1, 16_000_000),
            Call::Update(2, 16_000_000),
            Call::Render(0),
            Call::Render(1),
            Call::Render(2),
        ]
    );
    assert_eq!(engine.ticks(), 1);
}

#[test]
fn tick_on_an_empty_engine_counts_a_step() {
    let mut engine: Engine<Player> = Engine::new();
    engine.tick(5);
    assert_eq!(engine.ticks(), 1);
    assert!(engine.entities().is_empty());
}

#[test]
fn ten_ticks_update_ten_times() {
    let (mut engine, calls) = probes(1);
    for _ in 0..10 {
        engine.tick(7);
    }
    let calls = taken(&calls);
    let updates = calls.iter().filter(|call| matches!(call, Call::Update(0, 7))).count();
    let renders = calls.iter().filter(|call| matches!(call, Call::Render(0))).count();
    assert_eq!(updates, 10);
    assert_eq!(renders, 10);
    assert_eq!(calls.len(), 20);
    assert_eq!(engine.ticks(), 10);
}

#[test]
fn tick_leaves_the_running_flag_alone() {
    let (mut engine, _calls) = probes(1);
    engine.tick(1);
    assert!(!engine.is_running());
    engine.run();
    engine.tick(1);
    assert!(engine.is_running());
}

#[test]
fn tick_leaves_the_accumulator_alone() {
    let (mut engine, _calls) = probes(1);
    engine.advance(1_000);
    engine.tick(16_666_666);
    assert_eq!(engine.accumulator(), 1_000);
}

#[test]
fn advance_dispatches_whole_steps_only() {
    let (mut engine, calls) = probes(2);
    assert_eq!(engine.advance(16_666_666), 0);
    assert_eq!(taken(&calls), vec![]);
    assert_eq!(engine.accumulator(), 16_666_666);
    assert_eq!(engine.advance(1), 1);
    assert_eq!(
        taken(&calls),
        vec![Call::Update(0, 16_666_667), Call::Update(1, 16_666_667)]
    );
    assert_eq!(engine.accumulator(), 0);
    assert_eq!(engine.ticks(), 1);
}

#[test]
fn advance_keeps_less_than_a_step() {
    let (mut engine, calls) = probes(1);
    assert_eq!(engine.advance(40_000_000), 2);
    assert_eq!(engine.accumulator(), 6_666_666);
    assert_eq!(engine.advance(10_000_000), 0);
    assert_eq!(engine.accumulator(), 16_666_666);
    assert_eq!(engine.advance(3), 1);
    assert_eq!(engine.accumulator(), 2);
    assert_eq!(taken(&calls), vec![Call::Update(0, 16_666_667); 3]);
    assert!(engine.accumulator() < engine.step());
}

#[test]
fn advance_runs_each_pass_to_its_end() {
    let (mut engine, calls) = probes(2);
    engine.set_tick_rate(1000.0_f64.to_bits());
    assert_eq!(engine.advance(2_500_000), 2);
    assert_eq!(
        taken(&calls),
        vec![
            Call::Update(0, 1_000_000),
            Call::Update(1, 1_000_000),
            Call::Update(0, 1_000_000),
            Call::Update(1, 1_000_000),
        ]
    );
    assert_eq!(engine.accumulator(), 500_000);
}

#[test]
fn advance_does_not_render() {
    let (mut engine, calls) = probes(1);
    engine.advance(100_000_000);
    assert!(taken(&calls).iter().all(|call| matches!(call, Call::Update(..))));
}

#[test]
fn advance_catches_up_by_eight_steps_at_most() {
    let (mut engine, calls) = probes(1);
    engine.set_tick_rate(1000.0_f64.to_bits());
    assert_eq!(engine.advance(8_000_000), 8);
    assert_eq!(taken(&calls).len(), 8);
    assert_eq!(engine.advance(9_000_000), 8);
    assert_eq!(taken(&calls).len(), 8);
    assert_eq!(engine.accumulator(), 0);
    assert_eq!(engine.advance(1_000_000_000_700), 8);
    assert_eq!(engine.accumulator(), 700);
    assert_eq!(engine.ticks(), 24);
}

#[test]
fn advance_by_the_longest_time() {
    let (mut engine, _calls) = probes(1);
    engine.advance(16_666_665);
    assert_eq!(engine.advance(u64::MAX), 8);
    let sum = 16_666_665_u128 + u128::from(u64::MAX);
    assert_eq!(u128::from(engine.accumulator()), sum % 16_666_667);
}

#[test]
fn advance_at_the_longest_step() {
    let (mut engine, calls) = probes(1);
    engine.set_tick_rate(5e-324_f64.to_bits());
    assert_eq!(engine.step(), u64::MAX);
    assert_eq!(engine.advance(u64::MAX - 1), 0);
    assert_eq!(engine.advance(u64::MAX), 1);
    assert_eq!(taken(&calls), vec![Call::Update(0, u64::MAX)]);
    assert_eq!(engine.accumulator(), u64::MAX - 1);
}

#[test]
fn render_draws_every_entity_once_in_order() {
    let (mut engine, calls) = probes(3);
    engine.render();
    assert_eq!(taken(&calls), vec![Call::Render(0), Call::Render(1), Call::Render(2)]);
    assert_eq!(engine.ticks(), 0);
}

#[test]
fn passes_over_a_plain_vector() {
    let calls = Arc::new(Mutex::new(Vec::new()));
    let mut entities = vec![
        Probe { id: 0, calls: calls.clone() },
        Probe { id: 1, calls: calls.clone() },
    ];
    update_all(&mut entities, 9);
    render_all(&mut entities);
    update_repeatedly(&mut entities, 4, 2);
    update_repeatedly(&mut entities, 4, 0);
    assert_eq!(
        taken(&calls),
        vec![
            Call::Update(0, 9),
            Call::Update(1, 9),
            Call::Render(0),
            Call::Render(1),
            Call::Update(0, 4),
            Call::Update(1, 4),
            Call::Update(0, 4),
            Call::Update(1, 4),
        ]
    );
}

#[test]
fn advance_at_the_shortest_step() {
    let mut engine: Engine<Player> = Engine::new();
    engine.set_tick_rate(1e9_f64.to_bits());
    assert_eq!(engine.step(), 1);
    for _ in 0..3 {
        engine.advance(8);
    }
    assert_eq!(engine.ticks(), 24);
}

trait Actor {
    fn act(&mut self, dt: u64);

    fn show(&mut self) {}
}

struct Walker {
    steps: Arc<Mutex<Vec<Call>>>,
}

struct Painter {
    strokes: Arc<Mutex<Vec<Call>>>,
}

impl Actor for Walker {
    fn act(&mut self, dt: u64) {
        self.steps.lock().unwrap().push(Call::Update(0, dt));
    }
}

impl Actor for Painter {
    fn act(&mut self, _dt: u64) {}

    fn show(&mut self) {
        self.strokes.lock().unwrap().push(Call::Render(1));
    }
}

impl Entity for Box<dyn Actor> {
    fn update(&mut self, dt: u64) {
        self.act(dt);
    }

    fn render(&mut self) {
        self.show();
    }
}

#[test]
fn engine_drives_entities_of_several_kinds() {
    let calls = Arc::new(Mutex::new(Vec::new()));
    let mut engine: Engine<Box<dyn Actor>> = Engine::new();
    engine.add_entity(Box::new(Walker { steps: calls.clone() }));
    engine.add_entity(Box::new(Painter { strokes: calls.clone() }));
    engine.tick(3);
    engine.tick(4);
    assert_eq!(
        taken(&calls),
        vec![Call::Update(0, 3), Call::Render(1), Call::Update(0, 4), Call::Render(1)]
    );
}
