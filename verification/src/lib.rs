//! Host-side core of a plugin-driven LED matrix display.
//!
//! A host drives a rectangular LED matrix by polling one plugin at a time
//! for frames. This crate holds what the host decides, with every decision
//! proved against a contract:
//!
//! - [`config`]: the matrix configuration handed to a plugin, and the tick
//!   timing that follows from its frame rate;
//! - [`update`]: what a plugin returns on every tick;
//! - [`wiring`]: the mapping from a logical frame to the order in which a
//!   straight or serpentine strip takes its pixels;
//! - [`lifecycle`]: the states a plugin passes through on the host;
//! - [`driver`]: what the driver loop does with each update.
//!
//! Calling plugins, rendering, logging, reading the clock and sleeping are
//! left to the caller.

pub mod config;
pub mod driver;
pub mod lifecycle;
pub mod update;
pub mod wiring;

pub use config::MatrixConfiguration;
pub use driver::{Driver, TickOutcome};
pub use lifecycle::{ActivationEnd, Lifecycle, LifecycleEvent, OutOfTurn};
pub use update::{Pixel, PluginUpdate};
pub use wiring::{FrameError, Wiring, WiringAxis};
