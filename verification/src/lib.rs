//! A minimal build-configuration driver: it turns a declarative package
//! manifest into preprocessor macro definitions and per-target compiler
//! argument lists, and sequences target builds fail-fast.
//!
//! The crate holds the configuration-to-invocation translation logic; reading
//! the manifest from disk and spawning the compiler are left to the caller.

mod strutil;

pub mod args;
pub mod config;
pub mod defs;
pub mod names;
pub mod orchestrator;
