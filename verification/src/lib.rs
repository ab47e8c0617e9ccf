//! A safety layer over the libvips image engine.
//!
//! The engine is reached through raw handles, a generic property system and a
//! process-wide error buffer. This library holds the rules of that boundary:
//! which handles may be wrapped, how arguments become generic values, which
//! engine calls an operation consists of and in what order, and how an engine
//! failure becomes an error value. The calls themselves are made by the
//! program that links the engine; it hands the replies back as plain values.

pub mod error;
pub mod text;
pub mod engine;
pub mod image;
pub mod value;
pub mod operator;
pub mod operation;
pub mod arithmetic;
pub mod colour;
pub mod run;
pub mod vips;

pub use crate::error::{ErrorKind, VipsError};
pub use crate::engine::EngineCall;
pub use crate::image::VipsImage;
pub use crate::value::{GType, GValue, ToGValue, Value};
pub use crate::vips::{
    ensure_vips_init_or_exit, vips_init, vips_init_or_exit, vips_shutdown, InitOnce, VipsHandle,
};
