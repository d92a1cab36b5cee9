//! A verified model of a libretro-style plugin-host engine.
//!
//! The host drives third-party plugin modules ("cores") that implement a
//! fixed, versioned C calling-convention contract: it loads a module and
//! resolves its entry points, steps it one frame at a time, and mediates the
//! synchronous callback protocol between host and plugin (video delivery,
//! input queries, and the environment configuration channel).
//!
//! Everything here works on plain values: the unsafe foreign-function
//! boundary itself (module opening, symbol resolution, raw callback
//! pointers) lives in the surrounding shell, which hands the results of
//! those calls to this crate and performs the actions this crate decides on.

pub mod frontend;
pub mod input_devices;
pub mod libretro_abi;
pub mod libretro_callbacks;
pub mod libretro_core_variable;
pub mod loader;
pub mod result;
pub mod retro_core;
pub mod runner;
pub mod settings;
pub mod util;
pub mod video;
