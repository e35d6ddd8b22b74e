//! A minimal fixed-timestep simulation driver.
//!
//! An [`Engine`] owns an ordered collection of [`Entity`] values and
//! advances them in steps of a fixed size, however unevenly real time
//! arrives. Time is counted in whole nanoseconds, and a rate is carried as
//! the bit pattern of a binary64 number: see [`rate`].
//!
//! The engine decides; its caller waits. A run is entered with
//! [`Engine::run_with_rate`], [`Engine::run_for`] or [`Engine::run`], and the
//! caller then keeps the loop: it calls [`Engine::frame`] (or hands window
//! events to [`Engine::on_event`]) and sleeps, draws or leaves as the answer
//! says.

pub mod rate;
pub mod clock;
pub mod entity;
pub mod player;
pub mod event;
pub mod state;
pub mod engine;
pub mod laws;

pub use engine::Engine;
pub use entity::Entity;
pub use event::{Action, Event, Frame, Key};
pub use player::Player;
