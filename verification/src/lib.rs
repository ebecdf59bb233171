//! Staging, orchestration and cost estimation around a native secure-computation toolchain.
//!
//! The crate decides and computes; it reads no file, sets no variable and calls no
//! toolchain. Where such work is needed, it says so as a value and is told what came of it.

pub mod analyze;
pub mod bundle;
pub mod ffi;
pub mod path;
pub mod relocate;
pub mod runner;
pub mod signature;
pub mod text;

pub use analyze::Analysis;
pub use runner::{CompileOptions, Syqure};
