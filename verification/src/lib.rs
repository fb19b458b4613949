//! Typed binding layer for the Windows Subsystem for Linux management API.
//!
//! The layer turns typed inputs into the raw inputs of the native entry
//! points, interprets what they return, and sees to it that every buffer
//! which the native side allocated is released. The calls themselves are
//! made by whoever drives an `operation::Operation`.

pub mod commands;
pub mod configuration;
pub mod error;
pub mod flags;
pub mod library;
pub mod narrow_chars;
pub mod native;
pub mod operation;
pub mod render;
pub mod runs;
pub mod strings;
pub mod wide_chars;
pub mod wslapi;

pub use configuration::DistroConfiguration;
pub use error::Error;
pub use flags::DistroFlags;
pub use wslapi::Wslapi;
