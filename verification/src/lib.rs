//! Verified core of a game-client launcher.
//!
//! The library turns a version manifest (main class, libraries with
//! per-platform rules, templated argument strings) plus a target platform and
//! a snapshot of the relevant filesystem state into a classpath string, a
//! fully substituted argument string, and a complete JVM invocation line.
//! Reading the manifest off disk and spawning the process are left to the
//! surrounding application.

pub mod arguments;
pub mod classpath;
pub mod command;
pub mod model;
pub mod rules;
pub mod text;
