//! Digital-rain droplet lifecycle engine.
//!
//! The library owns the state of a "digital rain" effect: a fixed character
//! grid derived from the window size, a bounded counter of live glyphs, and
//! the lifecycle of every glyph from spawn through trailing to fade-out.
//! A host (windowing and rendering) drives the tick functions and mirrors
//! the glyph records on screen.

pub mod counter;
pub mod engine;
pub mod glyph;
pub mod grid;
pub mod rng;

use vstd::prelude::*;

verus! {

/// Width of the grid in columns; fixed for the whole run.
pub const AMOUNT_OF_COLUMNS: u16 = 60;

/// Global cap on live glyph entities.
pub const MAXIMUM_AMOUNT_OF_CHARACTERS: u64 = 750;

/// Window width in pixels before the host observes a real size.
pub const DEFAULT_SCREEN_WIDTH: u32 = 800;

/// Window height in pixels before the host observes a real size.
pub const DEFAULT_SCREEN_HEIGHT: u32 = 600;

/// Period of the droplet spawner's tick, in milliseconds.
pub const DROPLETS_SPAWN_PERIOD_MS: u64 = 3;

/// Period of the droplet animator's tick (the visual fall speed), in
/// milliseconds; the fade tick runs every rendered frame.
pub const DROPLETS_MOVE_PERIOD_MS: u64 = 90;

/// Frequency of the resize reactor's window-size poll, in Hz.
pub const MONITORING_WINDOW_SIZE_FREQUENCY_IN_HZ: u64 = 1;

} // verus!
