//! What the engine drives.

use vstd::prelude::*;

verus! {

/// A stateful object that the engine advances in fixed steps and asks to
/// draw itself.
///
/// Each implementation says, as two specification functions, what `update`
/// and `render` make of a value; unless it says otherwise, both leave the
/// value as it is. What a method does beyond its own value (printing,
/// drawing through a handle that the entity holds) is the entity's own
/// affair. The engine's contracts are stated over the two functions, so
/// they hold of an entity as far as its methods meet them.
///
/// An entity's next state depends on its own state and on `dt` alone: no
/// entity sees another, updated or not.
pub trait Entity: Sized {
    /// The entity after its state has advanced by `dt` nanoseconds.
    open spec fn updated(self, dt: u64) -> Self {
        self
    }

    /// The entity after it has drawn its current state.
    open spec fn rendered(self) -> Self {
        self
    }

    /// Advances the entity's state by exactly `dt` nanoseconds.
    fn update(&mut self, dt: u64)
        ensures
            *final(self) == old(self).updated(dt),
    ;

    /// Draws the entity as it is now. Takes no time: drawing advances
    /// nothing.
    fn render(&mut self)
        ensures
            *final(self) == old(self).rendered(),
    ;
}

/// Every entity of `entities` after one update by `dt`, order kept.
pub open spec fn update_each<E: Entity>(entities: Seq<E>, dt: u64) -> Seq<E> {
    Seq::new(entities.len(), |i: int| entities[i].updated(dt))
}

/// Every entity of `entities` after one render, order kept.
pub open spec fn render_each<E: Entity>(entities: Seq<E>) -> Seq<E> {
    Seq::new(entities.len(), |i: int| entities[i].rendered())
}

/// The entities after `steps` successive updates by `dt`.
pub open spec fn update_times<E: Entity>(entities: Seq<E>, dt: u64, steps: nat) -> Seq<E>
    decreases steps,
{
    if steps == 0 {
        entities
    } else {
        update_each(update_times(entities, dt, (steps - 1) as nat), dt)
    }
}

/// Updates every entity once, first to last.
pub fn update_all<E: Entity>(entities: &mut Vec<E>, dt: u64)
    ensures
        final(entities)@ == update_each(old(entities)@, dt),
{
    let n = entities.len();
    let mut i: usize = 0;
    while i < n
        invariant
            i <= n,
            n == entities@.len(),
            n == old(entities)@.len(),
            forall|j: int| 0 <= j < i ==> entities@[j] == (#[trigger] old(entities)@[j]).updated(dt),
            forall|j: int| i <= j < n ==> entities@[j] == old(entities)@[j],
        decreases n - i,
    {
        entities[i].update(dt);
        i = i + 1;
    }
}

/// Renders every entity once, first to last.
pub fn render_all<E: Entity>(entities: &mut Vec<E>)
    ensures
        final(entities)@ == render_each(old(entities)@),
{
    let n = entities.len();
    let mut i: usize = 0;
    while i < n
        invariant
            i <= n,
            n == entities@.len(),
            n == old(entities)@.len(),
            forall|j: int| 0 <= j < i ==> entities@[j] == (#[trigger] old(entities)@[j]).rendered(),
            forall|j: int| i <= j < n ==> entities@[j] == old(entities)@[j],
        decreases n - i,
    {
        entities[i].render();
        i = i + 1;
    }
}

/// Updates every entity `steps` times over: each pass runs first to last,
/// and a pass ends before the next begins.
pub fn update_repeatedly<E: Entity>(entities: &mut Vec<E>, dt: u64, steps: u64)
    ensures
        final(entities)@ == update_times(old(entities)@, dt, steps as nat),
{
    let mut done: u64 = 0;
    while done < steps
        invariant
            done <= steps,
            entities@ == update_times(old(entities)@, dt, done as nat),
        decreases steps - done,
    {
        update_all(entities, dt);
        done = done + 1;
    }
}

} // verus!
