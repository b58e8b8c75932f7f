//! The channel kinds and the fixed-layout value types that payloads decode
//! into.
//!
//! Every floating-point field of the externally defined binary layouts is
//! held here as its IEEE-754 bit pattern (`u32` for single precision, `u64`
//! for double precision): the marshaling logic never computes with the
//! numeric value, it only moves it, so the bits are all it needs.

use vstd::prelude::*;

verus! {

/// The closed set of channel kinds.  A channel's kind is fixed at creation
/// and selects the decoder/encoder pair for every later write.
#[derive(Debug, Clone, Copy, PartialEq, Eq, Structural)]
pub enum foxdbg_channel_type_t {
    FOXDBG_CHANNEL_TYPE_IMAGE,
    FOXDBG_CHANNEL_TYPE_POINTCLOUD,
    FOXDBG_CHANNEL_TYPE_CUBES,
    FOXDBG_CHANNEL_TYPE_LINES,
    FOXDBG_CHANNEL_TYPE_POSE,
    FOXDBG_CHANNEL_TYPE_TRANSFORM,
    FOXDBG_CHANNEL_TYPE_LOCATION,
    FOXDBG_CHANNEL_TYPE_FLOAT,
    FOXDBG_CHANNEL_TYPE_INTEGER,
    FOXDBG_CHANNEL_TYPE_BOOLEAN,
}

/// Image metadata set through the side-channel info write: dimensions and
/// channel count.  Mirrors a C struct of three 32-bit integers.
#[derive(Debug, Clone, Copy, PartialEq, Eq, Structural)]
pub struct foxdbg_image_info_t {
    pub width: i32,
    pub height: i32,
    pub channels: i32,
}

/// A 3-vector of single-precision components, each held as its bit pattern.
#[derive(Debug, Clone, Copy, PartialEq, Eq, Structural)]
pub struct Vec3Bits {
    pub x: u32,
    pub y: u32,
    pub z: u32,
}

/// An RGBA colour of single-precision components, each held as its bit
/// pattern.
#[derive(Debug, Clone, Copy, PartialEq, Eq, Structural)]
pub struct ColorBits {
    pub r: u32,
    pub g: u32,
    pub b: u32,
    pub a: u32,
}

/// A decoded pose record: 40 bytes on the wire
/// (position 12, orientation 12, colour 16).
#[derive(Debug, Clone, Copy, PartialEq, Eq, Structural)]
pub struct PoseRec {
    pub position: Vec3Bits,
    pub orientation: Vec3Bits,
    pub color: ColorBits,
}

/// A decoded cube record: 52 bytes on the wire
/// (position 12, size 12, orientation 12, colour 16).
#[derive(Debug, Clone, Copy, PartialEq, Eq, Structural)]
pub struct CubeRec {
    pub position: Vec3Bits,
    pub size: Vec3Bits,
    pub orientation: Vec3Bits,
    pub color: ColorBits,
}

/// A decoded line record: 44 bytes on the wire
/// (start 12, end 12, colour 16, thickness 4).
#[derive(Debug, Clone, Copy, PartialEq, Eq, Structural)]
pub struct LineRec {
    pub start: Vec3Bits,
    pub end: Vec3Bits,
    pub color: ColorBits,
    pub thickness: u32,
}

/// A decoded transform record: 40 bytes on the wire (two pointer-sized
/// string references, then position 12 and orientation 12).  The references
/// identify the child and parent coordinate frames; only the boundary layer
/// that owns the address space can resolve them to strings, so they pass
/// through as opaque 64-bit values.
#[derive(Debug, Clone, Copy, PartialEq, Eq, Structural)]
pub struct TransformRec {
    pub child_ref: u64,
    pub parent_ref: u64,
    pub position: Vec3Bits,
    pub orientation: Vec3Bits,
}

/// A decoded location record: 32 bytes on the wire (two 32-bit timestamp
/// fields, then latitude, longitude and altitude in double precision).
#[derive(Debug, Clone, Copy, PartialEq, Eq, Structural)]
pub struct LocationRec {
    pub timestamp_sec: u32,
    pub timestamp_nsec: u32,
    pub latitude: u64,
    pub longitude: u64,
    pub altitude: u64,
}

} // verus!
