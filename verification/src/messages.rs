//! The schema-correct message values that encoding produces, one shape per
//! channel kind.
//!
//! These mirror the wire schemas of the downstream visualization tooling:
//! field names, fixed constants and nesting are part of a stable contract.
//! Floating-point fields are carried as IEEE-754 bit patterns; fixed
//! double-precision constants are spelled as their bit patterns too, so the
//! whole message shape is decided and proved on integers.  Orientations are
//! carried as the decoded Euler triple together with the fixed yaw offset
//! that the downstream quaternion conversion must add.

use vstd::prelude::*;

use crate::types::{ColorBits, Vec3Bits, foxdbg_channel_type_t};

verus! {

/// Bit pattern of the double-precision constant 0.5: an arrow's shaft
/// length.
pub const ARROW_SHAFT_LENGTH_BITS: u64 = 0x3FE0000000000000;
/// Bit pattern of the double-precision constant 0.05: an arrow's shaft
/// diameter.
pub const ARROW_SHAFT_DIAMETER_BITS: u64 = 0x3FA999999999999A;
/// Bit pattern of the double-precision constant 0.15: an arrow's head
/// length.
pub const ARROW_HEAD_LENGTH_BITS: u64 = 0x3FC3333333333333;
/// Bit pattern of the double-precision constant 0.1: an arrow's head
/// diameter.
pub const ARROW_HEAD_DIAMETER_BITS: u64 = 0x3FB999999999999A;
/// Line primitive type tag for a list of separate line segments.
pub const LINE_KIND_LINE_LIST: u32 = 2;
/// Point-cloud field element type tag for a single-precision float.
pub const POINT_FIELD_FLOAT32: u32 = 7;
/// Position covariance type tag meaning "unknown".
pub const COVARIANCE_TYPE_UNKNOWN: u32 = 0;

/// A single scalar of single precision, carried as its bit pattern.
#[derive(Debug, Clone, Copy, PartialEq, Eq, Structural)]
pub struct FloatBits {
    pub value_bits: u32,
}

/// A single 32-bit signed integer sample.
#[derive(Debug, Clone, Copy, PartialEq, Eq, Structural)]
pub struct Integer {
    pub value: i32,
}

/// A single boolean sample.
#[derive(Debug, Clone, Copy, PartialEq, Eq, Structural)]
pub struct Bool {
    pub value: bool,
}

/// The fixed yaw offset that the downstream Euler-to-quaternion conversion
/// adds to a carried orientation.
#[derive(Debug, Clone, Copy, PartialEq, Eq, Structural)]
pub enum YawOffset {
    /// No offset: the orientation is used as decoded.
    Zero,
    /// A quarter turn around the Z axis, aligning the authoring convention
    /// to the world frame.
    QuarterTurnZ,
}

/// A geo-fix message.  The covariance is fixed to nine zeros with type
/// "unknown"; latitude, longitude and altitude are double-precision bit
/// patterns taken verbatim from the payload.
#[derive(Debug, Clone, PartialEq, Eq)]
pub struct LocationMsg {
    pub frame_id: String,
    pub timestamp_sec: u32,
    pub timestamp_nsec: u32,
    pub latitude_bits: u64,
    pub longitude_bits: u64,
    pub altitude_bits: u64,
    pub position_covariance_bits: Vec<u64>,
    pub position_covariance_type: u32,
}

/// A frame-transform message.  The child and parent frames are opaque
/// string references that only the boundary layer can resolve; the
/// rotation is the decoded Euler triple with no yaw offset.
#[derive(Debug, Clone, Copy, PartialEq, Eq, Structural)]
pub struct TransformMsg {
    pub child_ref: u64,
    pub parent_ref: u64,
    pub translation: Vec3Bits,
    pub rotation_euler: Vec3Bits,
    pub yaw_offset: YawOffset,
}

/// A single arrow primitive with fixed dimensions.
#[derive(Debug, Clone, Copy, PartialEq, Eq, Structural)]
pub struct ArrowPrim {
    pub position: Vec3Bits,
    pub orientation_euler: Vec3Bits,
    pub yaw_offset: YawOffset,
    pub color: ColorBits,
    pub shaft_length_bits: u64,
    pub shaft_diameter_bits: u64,
    pub head_length_bits: u64,
    pub head_diameter_bits: u64,
}

/// A single cube primitive.
#[derive(Debug, Clone, Copy, PartialEq, Eq, Structural)]
pub struct CubePrim {
    pub position: Vec3Bits,
    pub orientation_euler: Vec3Bits,
    pub yaw_offset: YawOffset,
    pub size: Vec3Bits,
    pub color: ColorBits,
}

/// A two-point line primitive with identity pose, rendered as a segment of
/// a line list.
#[derive(Debug, Clone, Copy, PartialEq, Eq, Structural)]
pub struct LinePrim {
    pub start: Vec3Bits,
    pub end: Vec3Bits,
    pub color: ColorBits,
    pub thickness_bits: u32,
    pub kind: u32,
}

/// A scene update carrying exactly one entity, identified by the channel's
/// topic, in the world frame.  At most one of the primitive lists is
/// non-empty.
#[derive(Debug, Clone, PartialEq, Eq)]
pub struct SceneUpdateMsg {
    pub entity_id: String,
    pub frame_id: String,
    pub arrows: Vec<ArrowPrim>,
    pub cubes: Vec<CubePrim>,
    pub lines: Vec<LinePrim>,
}

/// One field descriptor of a packed point-cloud layout.
#[derive(Debug, Clone, PartialEq, Eq)]
pub struct PointField {
    pub name: String,
    pub offset: u32,
    pub kind: u32,
}

/// A point-cloud message with the fixed four-field layout
/// (x, y, z, intensity as single-precision floats at offsets 0, 4, 8, 12)
/// and a 16-byte stride.  The payload bytes pass through unchanged.
#[derive(Debug, Clone, PartialEq, Eq)]
pub struct PointCloudMsg {
    pub frame_id: String,
    pub point_stride: u32,
    pub fields: Vec<PointField>,
    pub data: Vec<u8>,
}

/// A compressed-image message: the encoder's output tagged with its format.
#[derive(Debug, Clone, PartialEq, Eq)]
pub struct ImageMsg {
    pub frame_id: String,
    pub format: String,
    pub data: Vec<u8>,
}

/// One encoded message, ready for the transport to serialize and publish.
#[derive(Debug, Clone, PartialEq, Eq)]
pub enum Message {
    FloatValue(FloatBits),
    IntegerValue(Integer),
    BoolValue(Bool),
    Location(LocationMsg),
    Transform(TransformMsg),
    Scene(SceneUpdateMsg),
    PointCloud(PointCloudMsg),
    Image(ImageMsg),
}

/// The wire schema a channel advertises to the transport when it is
/// created.
#[derive(Debug, Clone, Copy, PartialEq, Eq, Structural)]
pub enum WireSchema {
    ScalarFloat,
    ScalarInteger,
    ScalarBool,
    CompressedImage,
    PointCloud,
    SceneUpdate,
    FrameTransform,
    LocationFix,
}

/// The wire schema that each channel kind publishes under: the three
/// geometric-primitive kinds share the scene-update schema, every other
/// kind has a schema of its own.
pub open spec fn wire_schema_of(t: foxdbg_channel_type_t) -> WireSchema {
    match t {
        foxdbg_channel_type_t::FOXDBG_CHANNEL_TYPE_FLOAT => WireSchema::ScalarFloat,
        foxdbg_channel_type_t::FOXDBG_CHANNEL_TYPE_INTEGER => WireSchema::ScalarInteger,
        foxdbg_channel_type_t::FOXDBG_CHANNEL_TYPE_BOOLEAN => WireSchema::ScalarBool,
        foxdbg_channel_type_t::FOXDBG_CHANNEL_TYPE_IMAGE => WireSchema::CompressedImage,
        foxdbg_channel_type_t::FOXDBG_CHANNEL_TYPE_POINTCLOUD => WireSchema::PointCloud,
        foxdbg_channel_type_t::FOXDBG_CHANNEL_TYPE_CUBES => WireSchema::SceneUpdate,
        foxdbg_channel_type_t::FOXDBG_CHANNEL_TYPE_LINES => WireSchema::SceneUpdate,
        foxdbg_channel_type_t::FOXDBG_CHANNEL_TYPE_POSE => WireSchema::SceneUpdate,
        foxdbg_channel_type_t::FOXDBG_CHANNEL_TYPE_TRANSFORM => WireSchema::FrameTransform,
        foxdbg_channel_type_t::FOXDBG_CHANNEL_TYPE_LOCATION => WireSchema::LocationFix,
    }
}

/// Returns the wire schema for a channel kind.
pub fn wire_schema(t: foxdbg_channel_type_t) -> (r: WireSchema)
    ensures
        r == wire_schema_of(t),
{
    match t {
        foxdbg_channel_type_t::FOXDBG_CHANNEL_TYPE_FLOAT => WireSchema::ScalarFloat,
        foxdbg_channel_type_t::FOXDBG_CHANNEL_TYPE_INTEGER => WireSchema::ScalarInteger,
        foxdbg_channel_type_t::FOXDBG_CHANNEL_TYPE_BOOLEAN => WireSchema::ScalarBool,
        foxdbg_channel_type_t::FOXDBG_CHANNEL_TYPE_IMAGE => WireSchema::CompressedImage,
        foxdbg_channel_type_t::FOXDBG_CHANNEL_TYPE_POINTCLOUD => WireSchema::PointCloud,
        foxdbg_channel_type_t::FOXDBG_CHANNEL_TYPE_CUBES => WireSchema::SceneUpdate,
        foxdbg_channel_type_t::FOXDBG_CHANNEL_TYPE_LINES => WireSchema::SceneUpdate,
        foxdbg_channel_type_t::FOXDBG_CHANNEL_TYPE_POSE => WireSchema::SceneUpdate,
        foxdbg_channel_type_t::FOXDBG_CHANNEL_TYPE_TRANSFORM => WireSchema::FrameTransform,
        foxdbg_channel_type_t::FOXDBG_CHANNEL_TYPE_LOCATION => WireSchema::LocationFix,
    }
}

} // verus!
