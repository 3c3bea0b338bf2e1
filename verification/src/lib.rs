//! Fixed-point simulation core of a small platformer.
//!
//! A single controllable entity, the dot, falls under gravity, lands on
//! static platforms and may jump twice before it has to land again. Every
//! quantity is an integer, so that a frame is an exact function of the state
//! before it, of the input and of the elapsed time:
//!
//! * time is counted in microseconds;
//! * a speed of one is [`units::SPEED_SCALE`] speed ticks;
//! * a length of one world unit is [`units::POSITION_SCALE`] position ticks.
//!
//! The scales are chosen so that gravity, the vertical step and the
//! horizontal step need no division: nothing is ever rounded. Only the
//! camera, which follows the dot by a share of the distance, drops the
//! fraction of a tick.
//!
//! [`model`] defines a frame as mathematics, stage by stage. [`systems`]
//! holds the stages as they run, [`game`] the frame as a whole, and each is
//! proved to compute what the model says. [`laws`] states what follows for
//! every frame. [`level`] reads a level from text, and [`input`] reads the
//! player's intent off the keyboard of bevy_input.
pub mod components;
pub mod game;
pub mod input;
pub mod laws;
pub mod level;
pub mod model;
pub mod systems;
pub mod units;
pub mod world;
