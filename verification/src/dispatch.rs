//! Type-directed encoding and the write dispatcher.
//!
//! One encoder per channel kind turns a raw payload into the kind's
//! schema-correct message; `write_channel` looks the channel up, routes the
//! payload to the matching encoder and classifies every outcome as publish,
//! silent skip, or an error of a fixed severity.

use vstd::prelude::*;

use crate::codec::{
    CUBE_BYTES, LINE_BYTES, LOCATION_BYTES, POINT_STRIDE_BYTES, POSE_BYTES, TRANSFORM_BYTES,
    cube_at, decode_bool, decode_cubes, decode_f32_bits, decode_integer, decode_lines,
    decode_location, decode_pose, decode_transform, int_payload_value, le32_at, line_at,
    location_at, pose_at, transform_at,
};
use crate::image::{ImageError, compress_request_of, layout_of_channels, prepare_compress};
use crate::messages::{
    ARROW_HEAD_DIAMETER_BITS, ARROW_HEAD_LENGTH_BITS, ARROW_SHAFT_DIAMETER_BITS,
    ARROW_SHAFT_LENGTH_BITS, ArrowPrim, Bool, COVARIANCE_TYPE_UNKNOWN, CubePrim, FloatBits,
    Integer, LINE_KIND_LINE_LIST, LinePrim, LocationMsg, Message, POINT_FIELD_FLOAT32,
    PointCloudMsg, PointField, SceneUpdateMsg, TransformMsg, YawOffset,
};
use crate::registry::{ChannelInfo, ChannelState, Registry, info_after_update};
use crate::types::{CubeRec, LineRec, PoseRec, foxdbg_channel_type_t};
use vstd::slice::slice_to_vec;
use vstd::string::StringExecFns;

verus! {

/// An error of a data write.  `is_fatal` separates broken host invariants
/// from recoverable configuration mistakes.
#[derive(Debug, Clone, Copy, PartialEq, Eq, Structural)]
pub enum WriteError {
    /// The channel identifier is not registered: a logic error by the
    /// host, fatal.
    UnknownChannel,
    /// An image write arrived before any metadata was set: a broken usage
    /// invariant, fatal.
    MissingImageInfo,
    /// The image metadata names an unsupported channel count:
    /// recoverable.
    UnsupportedChannelCount,
    /// The image metadata has a negative dimension: recoverable.
    InvalidImageDimensions,
}

impl WriteError {
    /// Whether the error indicates a broken invariant in the host rather
    /// than a configuration mistake it can correct.
    pub fn is_fatal(&self) -> (r: bool)
        ensures
            r == (*self == WriteError::UnknownChannel || *self
                == WriteError::MissingImageInfo),
    {
        match self {
            WriteError::UnknownChannel => true,
            WriteError::MissingImageInfo => true,
            WriteError::UnsupportedChannelCount => false,
            WriteError::InvalidImageDimensions => false,
        }
    }
}

/// What a data write asks the boundary layer to do next: publish a
/// finished message, run the external compressor on the payload with fixed
/// parameters, or do nothing.
#[derive(Debug, Clone, PartialEq, Eq)]
pub enum WriteAction {
    /// Serialize and publish this message on the channel's topic.
    Publish(Message),
    /// Compress the payload with these parameters, then wrap the result
    /// through `image_message_from_jpeg` and publish it.
    CompressImage(crate::image::CompressRequest),
    /// A tolerated mismatch (wrong scalar size, empty batch): log it and
    /// publish nothing.
    Skip,
}

/// The arrow primitive a pose record encodes to: fixed dimensions, the
/// decoded orientation carried with a quarter-turn yaw offset.
pub open spec fn arrow_of(p: PoseRec) -> ArrowPrim {
    ArrowPrim {
        position: p.position,
        orientation_euler: p.orientation,
        yaw_offset: YawOffset::QuarterTurnZ,
        color: p.color,
        shaft_length_bits: ARROW_SHAFT_LENGTH_BITS,
        shaft_diameter_bits: ARROW_SHAFT_DIAMETER_BITS,
        head_length_bits: ARROW_HEAD_LENGTH_BITS,
        head_diameter_bits: ARROW_HEAD_DIAMETER_BITS,
    }
}

/// The cube primitive a cube record encodes to.
pub open spec fn cube_prim_of(c: CubeRec) -> CubePrim {
    CubePrim {
        position: c.position,
        orientation_euler: c.orientation,
        yaw_offset: YawOffset::QuarterTurnZ,
        size: c.size,
        color: c.color,
    }
}

/// The line primitive a line record encodes to: a two-point segment of a
/// line list with identity pose.
pub open spec fn line_prim_of(l: LineRec) -> LinePrim {
    LinePrim {
        start: l.start,
        end: l.end,
        color: l.color,
        thickness_bits: l.thickness,
        kind: LINE_KIND_LINE_LIST,
    }
}

/// The transform message a transform record encodes to: no yaw offset.
pub open spec fn transform_msg_of(t: crate::types::TransformRec) -> TransformMsg {
    TransformMsg {
        child_ref: t.child_ref,
        parent_ref: t.parent_ref,
        translation: t.position,
        rotation_euler: t.orientation,
        yaw_offset: YawOffset::Zero,
    }
}

/// A scene update whose one entity carries the channel's topic in the
/// world frame.
pub open spec fn is_scene_envelope(m: SceneUpdateMsg, topic: Seq<char>) -> bool {
    m.entity_id@ == topic && m.frame_id@ == "world"@
}

/// The scene update a pose payload encodes to: exactly one arrow, nothing
/// else.
pub open spec fn is_pose_scene(m: SceneUpdateMsg, topic: Seq<char>, data: Seq<u8>) -> bool {
    &&& is_scene_envelope(m, topic)
    &&& m.arrows@ =~= seq![arrow_of(pose_at(data, 0))]
    &&& m.cubes@.len() == 0
    &&& m.lines@.len() == 0
}

/// The scene update a cubes payload encodes to: one cube primitive per
/// whole record, in payload order, nothing else.
pub open spec fn is_cubes_scene(m: SceneUpdateMsg, topic: Seq<char>, data: Seq<u8>) -> bool {
    &&& is_scene_envelope(m, topic)
    &&& m.arrows@.len() == 0
    &&& m.lines@.len() == 0
    &&& m.cubes@.len() == data.len() as int / (CUBE_BYTES as int)
    &&& forall|k: int|
        0 <= k < m.cubes@.len() ==> m.cubes@[k] == cube_prim_of(
            cube_at(data, k * (CUBE_BYTES as int)),
        )
}

/// The scene update a lines payload encodes to: one line primitive per
/// whole record, in payload order, nothing else.
pub open spec fn is_lines_scene(m: SceneUpdateMsg, topic: Seq<char>, data: Seq<u8>) -> bool {
    &&& is_scene_envelope(m, topic)
    &&& m.arrows@.len() == 0
    &&& m.cubes@.len() == 0
    &&& m.lines@.len() == data.len() as int / (LINE_BYTES as int)
    &&& forall|k: int|
        0 <= k < m.lines@.len() ==> m.lines@[k] == line_prim_of(
            line_at(data, k * (LINE_BYTES as int)),
        )
}

/// The geo-fix message a location payload encodes to: timestamps and
/// double-precision coordinates verbatim, covariance fixed to nine zeros
/// of type "unknown", in the world frame.
pub open spec fn is_location_msg(m: LocationMsg, data: Seq<u8>) -> bool {
    let rec = location_at(data, 0);
    &&& m.frame_id@ == "world"@
    &&& m.timestamp_sec == rec.timestamp_sec
    &&& m.timestamp_nsec == rec.timestamp_nsec
    &&& m.latitude_bits == rec.latitude
    &&& m.longitude_bits == rec.longitude
    &&& m.altitude_bits == rec.altitude
    &&& m.position_covariance_bits@ =~= Seq::new(9, |i: int| 0u64)
    &&& m.position_covariance_type == COVARIANCE_TYPE_UNKNOWN
}

/// The point-cloud message a payload encodes to: the fixed four-field
/// single-precision layout at offsets 0, 4, 8 and 12 with a 16-byte
/// stride, the payload bytes passed through unchanged, in the world frame.
pub open spec fn is_pointcloud_msg(m: PointCloudMsg, data: Seq<u8>) -> bool {
    &&& m.frame_id@ == "world"@
    &&& m.point_stride == POINT_STRIDE_BYTES
    &&& m.data@ == data
    &&& m.fields@.len() == 4
    &&& m.fields@[0].name@ == "x"@ && m.fields@[0].offset == 0
    &&& m.fields@[1].name@ == "y"@ && m.fields@[1].offset == 4
    &&& m.fields@[2].name@ == "z"@ && m.fields@[2].offset == 8
    &&& m.fields@[3].name@ == "intensity"@ && m.fields@[3].offset == 12
    &&& forall|k: int| 0 <= k < 4 ==> m.fields@[k].kind == POINT_FIELD_FLOAT32
}

/// Encodes a float payload: the four bytes are the bit pattern of the
/// single-precision value; any other length is absent.
pub fn encode_float(data: &[u8]) -> (r: Option<FloatBits>)
    ensures
        r matches Some(m) ==> data@.len() == 4 && m.value_bits == le32_at(data@, 0),
        r is None <==> data@.len() != 4,
{
    match decode_f32_bits(data) {
        Some(bits) => Some(FloatBits { value_bits: bits }),
        None => None,
    }
}

/// Encodes an integer payload: one, two or four bytes carrying a signed
/// value, sign-extended to 32 bits; any other length is absent.
pub fn encode_integer(data: &[u8]) -> (r: Option<Integer>)
    ensures
        r matches Some(m) ==> int_payload_value(data@) == Some(m.value as int),
        r is None <==> int_payload_value(data@) is None,
{
    match decode_integer(data) {
        Some(v) => Some(Integer { value: v }),
        None => None,
    }
}

/// Encodes a boolean payload: one byte, nonzero meaning true; any other
/// length is absent.
pub fn encode_bool(data: &[u8]) -> (r: Option<Bool>)
    ensures
        r matches Some(m) ==> data@.len() == 1 && m.value == (data@[0] != 0),
        r is None <==> data@.len() != 1,
{
    match decode_bool(data) {
        Some(v) => Some(Bool { value: v }),
        None => None,
    }
}

/// Encodes a location payload into a geo-fix message; absent unless the
/// payload is exactly one location record.
pub fn encode_location(data: &[u8]) -> (r: Option<LocationMsg>)
    ensures
        r matches Some(m) ==> data@.len() == LOCATION_BYTES && is_location_msg(m, data@),
        r is None <==> data@.len() != LOCATION_BYTES,
{
    let rec = match decode_location(data) {
        Some(rec) => rec,
        None => {
            return None;
        },
    };
    let mut covariance: Vec<u64> = Vec::new();
    let mut i: usize = 0;
    while i < 9
        invariant
            i <= 9,
            covariance@.len() == i,
            forall|k: int| 0 <= k < i ==> covariance@[k] == 0u64,
        decreases 9 - i,
    {
        covariance.push(0u64);
        i = i + 1;
    }
    Some(LocationMsg {
        frame_id: String::from_str("world"),
        timestamp_sec: rec.timestamp_sec,
        timestamp_nsec: rec.timestamp_nsec,
        latitude_bits: rec.latitude,
        longitude_bits: rec.longitude,
        altitude_bits: rec.altitude,
        position_covariance_bits: covariance,
        position_covariance_type: COVARIANCE_TYPE_UNKNOWN,
    })
}

/// Encodes a transform payload into a frame-transform message; absent
/// unless the payload is exactly one transform record.
pub fn encode_transform(data: &[u8]) -> (r: Option<TransformMsg>)
    ensures
        r matches Some(m) ==> data@.len() == TRANSFORM_BYTES && m == transform_msg_of(
            transform_at(data@, 0),
        ),
        r is None <==> data@.len() != TRANSFORM_BYTES,
{
    match decode_transform(data) {
        Some(rec) => Some(TransformMsg {
            child_ref: rec.child_ref,
            parent_ref: rec.parent_ref,
            translation: rec.position,
            rotation_euler: rec.orientation,
            yaw_offset: YawOffset::Zero,
        }),
        None => None,
    }
}

/// Encodes a pose payload into a single-arrow scene update; absent unless
/// the payload is exactly one pose record.
pub fn encode_pose(topic: &str, data: &[u8]) -> (r: Option<SceneUpdateMsg>)
    ensures
        r matches Some(m) ==> data@.len() == POSE_BYTES && is_pose_scene(m, topic@, data@),
        r is None <==> data@.len() != POSE_BYTES,
{
    let rec = match decode_pose(data) {
        Some(rec) => rec,
        None => {
            return None;
        },
    };
    let arrow = ArrowPrim {
        position: rec.position,
        orientation_euler: rec.orientation,
        yaw_offset: YawOffset::QuarterTurnZ,
        color: rec.color,
        shaft_length_bits: ARROW_SHAFT_LENGTH_BITS,
        shaft_diameter_bits: ARROW_SHAFT_DIAMETER_BITS,
        head_length_bits: ARROW_HEAD_LENGTH_BITS,
        head_diameter_bits: ARROW_HEAD_DIAMETER_BITS,
    };
    let mut arrows: Vec<ArrowPrim> = Vec::new();
    arrows.push(arrow);
    Some(SceneUpdateMsg {
        entity_id: String::from_str(topic),
        frame_id: String::from_str("world"),
        arrows,
        cubes: Vec::new(),
        lines: Vec::new(),
    })
}

/// Encodes a cubes payload into a multi-cube scene update; absent when no
/// whole cube record fits in the payload, which callers treat as a
/// legitimate no-op.
pub fn encode_cubes(topic: &str, data: &[u8]) -> (r: Option<SceneUpdateMsg>)
    ensures
        r matches Some(m) ==> is_cubes_scene(m, topic@, data@),
        r is None <==> data@.len() as int / (CUBE_BYTES as int) == 0,
{
    let recs = decode_cubes(data);
    if recs.len() == 0 {
        return None;
    }
    let mut cubes: Vec<CubePrim> = Vec::new();
    let n = recs.len();
    let mut i: usize = 0;
    while i < n
        invariant
            n == recs@.len(),
            i <= n,
            cubes@.len() == i,
            forall|k: int| 0 <= k < i ==> cubes@[k] == cube_prim_of(recs@[k]),
        decreases n - i,
    {
        let rec = &recs[i];
        cubes.push(CubePrim {
            position: rec.position,
            orientation_euler: rec.orientation,
            yaw_offset: YawOffset::QuarterTurnZ,
            size: rec.size,
            color: rec.color,
        });
        i = i + 1;
    }
    Some(SceneUpdateMsg {
        entity_id: String::from_str(topic),
        frame_id: String::from_str("world"),
        arrows: Vec::new(),
        cubes,
        lines: Vec::new(),
    })
}

/// Encodes a lines payload into a multi-line scene update; absent when no
/// whole line record fits in the payload, which callers treat as a
/// legitimate no-op.
pub fn encode_lines(topic: &str, data: &[u8]) -> (r: Option<SceneUpdateMsg>)
    ensures
        r matches Some(m) ==> is_lines_scene(m, topic@, data@),
        r is None <==> data@.len() as int / (LINE_BYTES as int) == 0,
{
    let recs = decode_lines(data);
    if recs.len() == 0 {
        return None;
    }
    let mut lines: Vec<LinePrim> = Vec::new();
    let n = recs.len();
    let mut i: usize = 0;
    while i < n
        invariant
            n == recs@.len(),
            i <= n,
            lines@.len() == i,
            forall|k: int| 0 <= k < i ==> lines@[k] == line_prim_of(recs@[k]),
        decreases n - i,
    {
        let rec = &recs[i];
        lines.push(LinePrim {
            start: rec.start,
            end: rec.end,
            color: rec.color,
            thickness_bits: rec.thickness,
            kind: LINE_KIND_LINE_LIST,
        });
        i = i + 1;
    }
    Some(SceneUpdateMsg {
        entity_id: String::from_str(topic),
        frame_id: String::from_str("world"),
        arrows: Vec::new(),
        cubes: Vec::new(),
        lines,
    })
}

/// Encodes a point-cloud payload: the bytes pass through unchanged under
/// the fixed four-field layout; the payload is trusted to match that
/// layout and its length is not validated.
pub fn encode_pointcloud(data: &[u8]) -> (r: PointCloudMsg)
    ensures
        is_pointcloud_msg(r, data@),
{
    let mut fields: Vec<PointField> = Vec::new();
    fields.push(PointField {
        name: String::from_str("x"),
        offset: 0,
        kind: POINT_FIELD_FLOAT32,
    });
    fields.push(PointField {
        name: String::from_str("y"),
        offset: 4,
        kind: POINT_FIELD_FLOAT32,
    });
    fields.push(PointField {
        name: String::from_str("z"),
        offset: 8,
        kind: POINT_FIELD_FLOAT32,
    });
    fields.push(PointField {
        name: String::from_str("intensity"),
        offset: 12,
        kind: POINT_FIELD_FLOAT32,
    });
    PointCloudMsg {
        frame_id: String::from_str("world"),
        point_stride: POINT_STRIDE_BYTES as u32,
        fields,
        data: slice_to_vec(data),
    }
}

/// Exactly the outcome `write_channel` owes for a payload written to a
/// channel in state `st`.
pub open spec fn write_outcome_ok(
    st: ChannelState,
    data: Seq<u8>,
    r: Result<WriteAction, WriteError>,
) -> bool {
    match st.channel_type {
        foxdbg_channel_type_t::FOXDBG_CHANNEL_TYPE_FLOAT => {
            if data.len() == 4 {
                r matches Ok(WriteAction::Publish(Message::FloatValue(m))) && m.value_bits
                    == le32_at(data, 0)
            } else {
                r matches Ok(WriteAction::Skip)
            }
        },
        foxdbg_channel_type_t::FOXDBG_CHANNEL_TYPE_INTEGER => {
            match int_payload_value(data) {
                Some(v) => r matches Ok(WriteAction::Publish(Message::IntegerValue(m)))
                    && m.value as int == v,
                None => r matches Ok(WriteAction::Skip),
            }
        },
        foxdbg_channel_type_t::FOXDBG_CHANNEL_TYPE_BOOLEAN => {
            if data.len() == 1 {
                r matches Ok(WriteAction::Publish(Message::BoolValue(m))) && m.value == (
                data[0] != 0)
            } else {
                r matches Ok(WriteAction::Skip)
            }
        },
        foxdbg_channel_type_t::FOXDBG_CHANNEL_TYPE_LOCATION => {
            if data.len() == LOCATION_BYTES {
                r matches Ok(WriteAction::Publish(Message::Location(m)))
                    && is_location_msg(m, data)
            } else {
                r matches Ok(WriteAction::Skip)
            }
        },
        foxdbg_channel_type_t::FOXDBG_CHANNEL_TYPE_TRANSFORM => {
            if data.len() == TRANSFORM_BYTES {
                r matches Ok(WriteAction::Publish(Message::Transform(m))) && m
                    == transform_msg_of(transform_at(data, 0))
            } else {
                r matches Ok(WriteAction::Skip)
            }
        },
        foxdbg_channel_type_t::FOXDBG_CHANNEL_TYPE_POSE => {
            if data.len() == POSE_BYTES {
                r matches Ok(WriteAction::Publish(Message::Scene(m))) && is_pose_scene(
                    m,
                    st.channel_topic@,
                    data,
                )
            } else {
                r matches Ok(WriteAction::Skip)
            }
        },
        foxdbg_channel_type_t::FOXDBG_CHANNEL_TYPE_CUBES => {
            if data.len() as int / (CUBE_BYTES as int) == 0 {
                r matches Ok(WriteAction::Skip)
            } else {
                r matches Ok(WriteAction::Publish(Message::Scene(m))) && is_cubes_scene(
                    m,
                    st.channel_topic@,
                    data,
                )
            }
        },
        foxdbg_channel_type_t::FOXDBG_CHANNEL_TYPE_LINES => {
            if data.len() as int / (LINE_BYTES as int) == 0 {
                r matches Ok(WriteAction::Skip)
            } else {
                r matches Ok(WriteAction::Publish(Message::Scene(m))) && is_lines_scene(
                    m,
                    st.channel_topic@,
                    data,
                )
            }
        },
        foxdbg_channel_type_t::FOXDBG_CHANNEL_TYPE_POINTCLOUD => {
            r matches Ok(WriteAction::Publish(Message::PointCloud(m)))
                && is_pointcloud_msg(m, data)
        },
        foxdbg_channel_type_t::FOXDBG_CHANNEL_TYPE_IMAGE => {
            match st.channel_info {
                ChannelInfo::NoInfo => r matches Err(WriteError::MissingImageInfo),
                ChannelInfo::CompressedImageInfo(info) => {
                    if layout_of_channels(info.channels as int) is None {
                        r matches Err(WriteError::UnsupportedChannelCount)
                    } else if info.width < 0 || info.height < 0 {
                        r matches Err(WriteError::InvalidImageDimensions)
                    } else {
                        r matches Ok(WriteAction::CompressImage(q)) && q
                            == compress_request_of(info)
                    }
                },
            }
        },
    }
}

/// A write to an image channel whose metadata was never set is exactly
/// the fatal missing-info error — never a default-dimension encode, a
/// skip, or a compression.
pub proof fn lemma_image_write_without_info_is_fatal(
    st: ChannelState,
    data: Seq<u8>,
    r: Result<WriteAction, WriteError>,
)
    requires
        st.channel_type == foxdbg_channel_type_t::FOXDBG_CHANNEL_TYPE_IMAGE,
        st.channel_info == ChannelInfo::NoInfo,
        write_outcome_ok(st, data, r),
    ensures
        r == Result::<WriteAction, WriteError>::Err(WriteError::MissingImageInfo),
{
}

/// A batch write that holds no whole geometric record is exactly a skip:
/// nothing is published for an empty batch.
pub proof fn lemma_empty_batch_publishes_nothing(
    st: ChannelState,
    data: Seq<u8>,
    r: Result<WriteAction, WriteError>,
)
    requires
        (st.channel_type == foxdbg_channel_type_t::FOXDBG_CHANNEL_TYPE_CUBES && data.len()
            < CUBE_BYTES) || (st.channel_type
            == foxdbg_channel_type_t::FOXDBG_CHANNEL_TYPE_LINES && data.len() < LINE_BYTES),
        write_outcome_ok(st, data, r),
    ensures
        r == Result::<WriteAction, WriteError>::Ok(WriteAction::Skip),
{
}

/// Routes a data write to the encoder selected by the channel's kind.
///
/// An unknown identifier is a fatal error.  A tolerated payload mismatch
/// is a skip, so one mis-sent sample never poisons the channel.  An image
/// write needs metadata first — without it the write is a fatal error,
/// never a default-dimension encode — and yields the parameters for the
/// external compression rather than a finished message.
pub fn write_channel(registry: &Registry, id: u64, data: &[u8]) -> (r: Result<
    WriteAction,
    WriteError,
>)
    requires
        registry.wf(),
    ensures
        r matches Err(WriteError::UnknownChannel) <==> !registry.as_map().contains_key(id),
        registry.as_map().contains_key(id) ==> write_outcome_ok(
            registry.as_map()[id],
            data@,
            r,
        ),
{
    match registry.lookup(id) {
        Some(st) => encode_for_channel(st, data),
        None => Err(WriteError::UnknownChannel),
    }
}

/// Encodes a payload for a channel whose state was already looked up and
/// copied out of the registry, so the expensive encoding runs outside the
/// registry's exclusion region.
pub fn encode_for_channel(st: &ChannelState, data: &[u8]) -> (r: Result<
    WriteAction,
    WriteError,
>)
    ensures
        write_outcome_ok(*st, data@, r),
{
    match st.channel_type {
        foxdbg_channel_type_t::FOXDBG_CHANNEL_TYPE_FLOAT => {
            match encode_float(data) {
                Some(m) => Ok(WriteAction::Publish(Message::FloatValue(m))),
                None => Ok(WriteAction::Skip),
            }
        },
        foxdbg_channel_type_t::FOXDBG_CHANNEL_TYPE_INTEGER => {
            match encode_integer(data) {
                Some(m) => Ok(WriteAction::Publish(Message::IntegerValue(m))),
                None => Ok(WriteAction::Skip),
            }
        },
        foxdbg_channel_type_t::FOXDBG_CHANNEL_TYPE_BOOLEAN => {
            match encode_bool(data) {
                Some(m) => Ok(WriteAction::Publish(Message::BoolValue(m))),
                None => Ok(WriteAction::Skip),
            }
        },
        foxdbg_channel_type_t::FOXDBG_CHANNEL_TYPE_LOCATION => {
            match encode_location(data) {
                Some(m) => Ok(WriteAction::Publish(Message::Location(m))),
                None => Ok(WriteAction::Skip),
            }
        },
        foxdbg_channel_type_t::FOXDBG_CHANNEL_TYPE_TRANSFORM => {
            match encode_transform(data) {
                Some(m) => Ok(WriteAction::Publish(Message::Transform(m))),
                None => Ok(WriteAction::Skip),
            }
        },
        foxdbg_channel_type_t::FOXDBG_CHANNEL_TYPE_POSE => {
            match encode_pose(st.channel_topic.as_str(), data) {
                Some(m) => Ok(WriteAction::Publish(Message::Scene(m))),
                None => Ok(WriteAction::Skip),
            }
        },
        foxdbg_channel_type_t::FOXDBG_CHANNEL_TYPE_CUBES => {
            match encode_cubes(st.channel_topic.as_str(), data) {
                Some(m) => Ok(WriteAction::Publish(Message::Scene(m))),
                None => Ok(WriteAction::Skip),
            }
        },
        foxdbg_channel_type_t::FOXDBG_CHANNEL_TYPE_LINES => {
            match encode_lines(st.channel_topic.as_str(), data) {
                Some(m) => Ok(WriteAction::Publish(Message::Scene(m))),
                None => Ok(WriteAction::Skip),
            }
        },
        foxdbg_channel_type_t::FOXDBG_CHANNEL_TYPE_POINTCLOUD => {
            Ok(WriteAction::Publish(Message::PointCloud(encode_pointcloud(data))))
        },
        foxdbg_channel_type_t::FOXDBG_CHANNEL_TYPE_IMAGE => {
            match &st.channel_info {
                ChannelInfo::NoInfo => Err(WriteError::MissingImageInfo),
                ChannelInfo::CompressedImageInfo(info) => {
                    match prepare_compress(info) {
                        Ok(q) => Ok(WriteAction::CompressImage(q)),
                        Err(ImageError::UnsupportedChannelCount) => Err(
                            WriteError::UnsupportedChannelCount,
                        ),
                        Err(ImageError::InvalidDimensions) => Err(
                            WriteError::InvalidImageDimensions,
                        ),
                    }
                },
            }
        },
    }
}

/// Replaces a channel's side metadata from a raw info payload; an unknown
/// identifier is a fatal error, every other input is safe (a malformed
/// payload or a non-image channel resets the metadata).
pub fn write_channel_info(registry: &mut Registry, id: u64, data: &[u8]) -> (r: Result<
    (),
    WriteError,
>)
    requires
        old(registry).wf(),
    ensures
        final(registry).wf(),
        r matches Ok(()) <==> old(registry).as_map().contains_key(id),
        r matches Ok(()) ==> final(registry).as_map() == old(registry).as_map().insert(
            id,
            ChannelState {
                channel_info: info_after_update(
                    old(registry).as_map()[id].channel_type,
                    data@,
                ),
                ..old(registry).as_map()[id]
            },
        ),
        r matches Err(e) ==> e == WriteError::UnknownChannel && final(registry).as_map()
            == old(registry).as_map(),
{
    if registry.update_channel_info(id, data) {
        Ok(())
    } else {
        Err(WriteError::UnknownChannel)
    }
}

} // verus!
