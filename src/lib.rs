//! A toroidal two-dimensional cellular automaton of the Life family: a rule
//! catalog, pattern generators, symmetric stroke drawing, a double-buffered
//! grid that advances one generation at a time, and the window model that
//! drives it.

pub mod config;
pub mod grid;
pub mod presets;
pub mod rules;
pub mod stroke;
pub mod world;

pub use config::Args;
pub use grid::{Grid, GridError};
pub use presets::{get, Preset, Presets};
pub use rules::{Rule, Rules, RULE_COUNT};
pub use world::{Action, Event, Key, Model, MouseButton};
