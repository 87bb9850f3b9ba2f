//! Verified core of a toolchain version manager.
//!
//! The library resolves source-control references to stable toolchain
//! names, plans safe extraction of toolchain archives, and tracks the
//! set of installed toolchains together with the single active one.
//! All logic is stated in contracts and checked; calls into outside
//! crates stand behind small trusted wrappers.

pub mod archive;
pub mod deps;
pub mod digest;
pub mod errors;
pub mod gitref;
pub mod import;
pub mod paths;
pub mod platform;
pub mod registry;
pub mod shell;
pub mod strutil;
pub mod sync;
pub mod update;
