//! Configuration and orchestration of a single-entry JavaScript bundle build.
//!
//! The library turns a [`BundleRequest`] into a fully specified compiler
//! configuration, assembles the ordered plugin pipeline that the compilation
//! engine runs with it, and decides, event by event, what a single build or
//! a watch session does next. Running the engine, reading the file system
//! and watching files are left to the caller.
pub mod request;
pub mod config;
pub mod plugins;
pub mod session;
pub mod orchestrator;

pub use request::{entry_candidate, BundleRequest, WatchOptions};
pub use config::{build_config, CompilerConfiguration, ConfigError};
pub use plugins::{assemble, EntryRegistration, PipelinePlugin};
pub use session::{BuildOutcome, Decision, Phase, SessionState, Signal, StopReason};
pub use orchestrator::{Action, BundleError, BundleOrchestrator, Event};
