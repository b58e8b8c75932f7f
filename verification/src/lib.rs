//! Channel registry and type-directed payload marshaling for a debugging
//! telemetry bridge.
//!
//! Callers register named channels, each with a fixed kind (scalar, image,
//! point cloud, geometric primitives, ...), and push raw byte payloads into
//! them.  The library validates each payload against the channel's kind,
//! decodes it into typed records, and builds the schema-correct message that
//! an outside transport then encodes and publishes.  Floating-point fields
//! travel as their IEEE-754 bit patterns, so every structural decision is
//! made on plain integers and is verified.

#![allow(non_camel_case_types)]

pub mod codec;
pub mod dispatch;
pub mod image;
pub mod lifecycle;
pub mod messages;
pub mod registry;
pub mod types;
