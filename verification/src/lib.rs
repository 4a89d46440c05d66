//! Verified core of a periodic metrics sampler.
//!
//! Once per tick a node gathers the resource usage of its own process, the
//! state of its TCP connections and the timing samples recorded since the
//! previous tick, and publishes them to a telemetry stream and, where one is
//! configured, to a set of named gauges. This crate holds the part of that
//! work that is computation: classification, aggregation and the decision of
//! which gauge receives which value. Operating-system queries and the sinks
//! themselves belong to the caller, who hands in what was read and performs
//! what is returned.
//!
//! - [`series`]: the summary of the durations recorded under one key.
//! - [`connections`]: TCP states, their six categories and the counts of a
//!   process's connections.
//! - [`process`]: the sample of a process, with its descriptors by target.
//! - [`events`]: the buffer of timing events, its drain and the grouping of
//!   what was drained.
//! - [`status`]: the snapshots that other parts of the node supply.
//! - [`catalogue`]: the gauges of the metrics surface and their creation.
//! - [`gauges`]: the gauges that a tick sets, and their values.
//! - [`telemetry`]: the event that a tick sends.
//! - [`service`]: the sampler, with or without a sink, and its tick.
//! - [`text`]: prefixes and suffixes of names.

pub mod catalogue;
pub mod connections;
pub mod events;
pub mod gauges;
pub mod process;
pub mod series;
pub mod service;
pub mod status;
pub mod telemetry;
pub mod text;
