//! Decision core of a per-container telemetry collector.
//!
//! The collector attaches a watcher to every running container, turns the
//! statistics the runtime streams into records, and hands them to an
//! exporter. This library holds what is decided along the way, free of
//! input and output, and proves it:
//!
//! - [`orchestrator`] decides which containers get a watcher, from the
//!   allow-list and the [`registry`] of containers already watched;
//! - [`watcher`] is the life of one watcher: liveness check, streaming,
//!   re-attachment, deregistration;
//! - [`model`] makes a record of a raw sample, and [`enrichment`] attaches
//!   the energy drawn since the previous sample;
//! - [`population`] states what holds of all watchers together, whatever
//!   happens in whatever order;
//! - [`runtime`] names what is asked of the container runtime and what it
//!   answers, [`config`], [`exporter`] and [`format`] the settings and the
//!   shape of the output, [`text`] the string operations underneath.
//!
//! A driver around the library talks to the runtime, reads the energy
//! counter, and moves the records.

pub mod config;
pub mod enrichment;
pub mod error;
pub mod exporter;
pub mod format;
pub mod model;
pub mod orchestrator;
pub mod population;
pub mod registry;
pub mod runtime;
pub mod text;
pub mod watcher;
