//! Sound for the Game Boy Advance under an entity-component-system engine.
//!
//! The engine schedules systems and keeps resources in a table keyed by type;
//! the hardware wants its controllers switched on once and its mixer serviced
//! once per frame. This crate decides what the sound plugin schedules and
//! which steps its setup takes, in which order, and proves what the table
//! holds afterwards.
//!
//! - [`plugin`]: the plugin's configuration, the script of its setup, and
//!   what the setup leaves behind.
//! - [`world`]: the engine's table and schedule as the setup sees them, and
//!   what each step does to them.
//! - [`hardware`]: plain values for what the hardware layer hands out.
//! - [`wrappers`]: the handles of the sound chip as resources.

pub mod hardware;
pub mod plugin;
pub mod world;
pub mod wrappers;

pub use hardware::{Chip, Controller, Frequency, Mixer};
pub use plugin::AgbSoundPlugin;
pub use world::{Held, Op, System, World, WorldView};
pub use wrappers::{Channel, Noise, Sound};
