//! Bounds-checked decoding of raw byte payloads into the fixed-layout value
//! types.
//!
//! Every payload arrives as an untyped byte buffer.  A scalar decoder
//! succeeds exactly when the buffer length equals the type's wire size and
//! otherwise reports "absent"; a slice decoder splits the buffer into as
//! many whole records as fit, silently dropping a trailing partial record.
//! All multi-byte fields are little-endian.

use vstd::prelude::*;

use crate::types::{
    ColorBits, CubeRec, LineRec, LocationRec, PoseRec, TransformRec, Vec3Bits,
    foxdbg_image_info_t,
};

verus! {

/// Wire size of a pose record in bytes.
pub const POSE_BYTES: usize = 40;
/// Wire size of a cube record in bytes.
pub const CUBE_BYTES: usize = 52;
/// Wire size of a line record in bytes.
pub const LINE_BYTES: usize = 44;
/// Wire size of a transform record in bytes.
pub const TRANSFORM_BYTES: usize = 40;
/// Wire size of a location record in bytes.
pub const LOCATION_BYTES: usize = 32;
/// Wire size of an image-info record in bytes.
pub const IMAGE_INFO_BYTES: usize = 12;
/// Stride of one point in a point-cloud payload: four single-precision
/// fields of four bytes each.
pub const POINT_STRIDE_BYTES: usize = 16;

/// The 16-bit value stored little-endian at offset `i` of `s`.
pub open spec fn le16_at(s: Seq<u8>, i: int) -> u16 {
    (s[i] + s[i + 1] * 0x100) as u16
}

/// The 32-bit value stored little-endian at offset `i` of `s`.
pub open spec fn le32_at(s: Seq<u8>, i: int) -> u32 {
    (s[i] + s[i + 1] * 0x100 + s[i + 2] * 0x10000 + s[i + 3] * 0x1000000) as u32
}

/// The 64-bit value stored little-endian at offset `i` of `s`.
pub open spec fn le64_at(s: Seq<u8>, i: int) -> u64 {
    (s[i] + s[i + 1] * 0x100 + s[i + 2] * 0x10000 + s[i + 3] * 0x1000000
        + s[i + 4] * 0x100000000 + s[i + 5] * 0x10000000000
        + s[i + 6] * 0x1000000000000 + s[i + 7] * 0x100000000000000) as u64
}

/// The signed value that an 8-bit two's-complement pattern denotes.
pub open spec fn signed8(b: u8) -> int {
    if b < 0x80 { b as int } else { b as int - 0x100 }
}

/// The signed value that a 16-bit two's-complement pattern denotes.
pub open spec fn signed16(v: u16) -> int {
    if v < 0x8000 { v as int } else { v as int - 0x10000 }
}

/// The signed value that a 32-bit two's-complement pattern denotes.
pub open spec fn signed32(v: u32) -> int {
    if v < 0x80000000 { v as int } else { v as int - 0x100000000 }
}

/// The integer value carried by an integer-channel payload: one, two or
/// four bytes holding a signed little-endian value, anything else absent.
pub open spec fn int_payload_value(s: Seq<u8>) -> Option<int> {
    if s.len() == 1 {
        Some(signed8(s[0]))
    } else if s.len() == 2 {
        Some(signed16(le16_at(s, 0)))
    } else if s.len() == 4 {
        Some(signed32(le32_at(s, 0)))
    } else {
        None
    }
}

/// The 3-vector of single-precision bit patterns at offset `i` of `s`.
pub open spec fn vec3_at(s: Seq<u8>, i: int) -> Vec3Bits {
    Vec3Bits { x: le32_at(s, i), y: le32_at(s, i + 4), z: le32_at(s, i + 8) }
}

/// The RGBA colour of single-precision bit patterns at offset `i` of `s`.
pub open spec fn color_at(s: Seq<u8>, i: int) -> ColorBits {
    ColorBits {
        r: le32_at(s, i),
        g: le32_at(s, i + 4),
        b: le32_at(s, i + 8),
        a: le32_at(s, i + 12),
    }
}

/// The pose record at offset `i` of `s`.
pub open spec fn pose_at(s: Seq<u8>, i: int) -> PoseRec {
    PoseRec {
        position: vec3_at(s, i),
        orientation: vec3_at(s, i + 12),
        color: color_at(s, i + 24),
    }
}

/// The cube record at offset `i` of `s`.
pub open spec fn cube_at(s: Seq<u8>, i: int) -> CubeRec {
    CubeRec {
        position: vec3_at(s, i),
        size: vec3_at(s, i + 12),
        orientation: vec3_at(s, i + 24),
        color: color_at(s, i + 36),
    }
}

/// The line record at offset `i` of `s`.
pub open spec fn line_at(s: Seq<u8>, i: int) -> LineRec {
    LineRec {
        start: vec3_at(s, i),
        end: vec3_at(s, i + 12),
        color: color_at(s, i + 24),
        thickness: le32_at(s, i + 40),
    }
}

/// The transform record at offset `i` of `s`.
pub open spec fn transform_at(s: Seq<u8>, i: int) -> TransformRec {
    TransformRec {
        child_ref: le64_at(s, i),
        parent_ref: le64_at(s, i + 8),
        position: vec3_at(s, i + 16),
        orientation: vec3_at(s, i + 28),
    }
}

/// The location record at offset `i` of `s`.
pub open spec fn location_at(s: Seq<u8>, i: int) -> LocationRec {
    LocationRec {
        timestamp_sec: le32_at(s, i),
        timestamp_nsec: le32_at(s, i + 4),
        latitude: le64_at(s, i + 8),
        longitude: le64_at(s, i + 16),
        altitude: le64_at(s, i + 24),
    }
}

/// The image-info record at offset `i` of `s`.
pub open spec fn image_info_at(s: Seq<u8>, i: int) -> foxdbg_image_info_t {
    foxdbg_image_info_t {
        width: signed32(le32_at(s, i)) as i32,
        height: signed32(le32_at(s, i + 4)) as i32,
        channels: signed32(le32_at(s, i + 8)) as i32,
    }
}

/// The non-negative residue that a signed value leaves modulo `m`: the
/// two's-complement pattern of `v` in a word of that many values.
pub open spec fn two_complement(v: int, m: int) -> int {
    if v >= 0 {
        v
    } else {
        v + m
    }
}

/// The little-endian two's-complement encoding of `v` in `n` bytes, for
/// the supported scalar widths of one, two and four bytes.
pub open spec fn int_le_bytes(v: int, n: nat) -> Seq<u8> {
    if n == 1 {
        seq![two_complement(v, 0x100) as u8]
    } else if n == 2 {
        let u = two_complement(v, 0x10000);
        seq![(u % 0x100) as u8, (u / 0x100) as u8]
    } else if n == 4 {
        let u = two_complement(v, 0x100000000);
        seq![
            (u % 0x100) as u8,
            ((u / 0x100) % 0x100) as u8,
            ((u / 0x10000) % 0x100) as u8,
            (u / 0x1000000) as u8,
        ]
    } else {
        Seq::empty()
    }
}

/// For every supported scalar width, decoding the little-endian
/// two's-complement encoding of a value in range gives back exactly that
/// value, sign-extended: one mis-placed byte or sign would break this
/// round trip.
pub proof fn lemma_integer_round_trip(v: int, n: nat)
    requires
        (n == 1 && -0x80 <= v < 0x80) || (n == 2 && -0x8000 <= v < 0x8000) || (n == 4
            && -0x80000000 <= v < 0x80000000),
    ensures
        int_payload_value(int_le_bytes(v, n)) == Some(v),
{
    if n == 1 {
        let u = two_complement(v, 0x100);
        let s = int_le_bytes(v, n);
        assert(s[0] == u as u8);
        assert(signed8(s[0]) == v);
    } else if n == 2 {
        let u = two_complement(v, 0x10000);
        let s = int_le_bytes(v, n);
        vstd::arithmetic::div_mod::lemma_fundamental_div_mod(u, 0x100);
        assert(u / 0x100 < 0x100) by (nonlinear_arith)
            requires
                0 <= u < 0x10000,
        ;
        assert(s[0] as int + s[1] as int * 0x100 == u);
        assert(le16_at(s, 0) == u as u16);
        assert(signed16(u as u16) == v);
    } else {
        let u = two_complement(v, 0x100000000);
        let s = int_le_bytes(v, n);
        vstd::arithmetic::div_mod::lemma_fundamental_div_mod(u, 0x100);
        vstd::arithmetic::div_mod::lemma_fundamental_div_mod(u / 0x100, 0x100);
        vstd::arithmetic::div_mod::lemma_fundamental_div_mod(u / 0x10000, 0x100);
        assert(u / 0x100 / 0x100 == u / 0x10000) by (nonlinear_arith)
            requires
                u >= 0,
        ;
        assert(u / 0x10000 / 0x100 == u / 0x1000000) by (nonlinear_arith)
            requires
                u >= 0,
        ;
        assert(u / 0x1000000 < 0x100) by (nonlinear_arith)
            requires
                0 <= u < 0x100000000,
        ;
        assert(s[0] as int + s[1] as int * 0x100 + s[2] as int * 0x10000 + s[3] as int
            * 0x1000000 == u);
        assert(le32_at(s, 0) == u as u32);
        assert(signed32(u as u32) == v);
    }
}

/// A slice never holds more elements than a machine word can count.
proof fn lemma_slice_len_bounded(buf: &[u8])
    ensures
        buf@.len() <= usize::MAX,
{
    assert(buf@.len() == buf.len());
}

/// Reads the little-endian 16-bit value at `off`.
pub fn read_u16_le(buf: &[u8], off: usize) -> (r: u16)
    requires
        off + 2 <= buf@.len(),
    ensures
        r == le16_at(buf@, off as int),
{
    proof { lemma_slice_len_bounded(buf); }
    buf[off] as u16 + buf[off + 1] as u16 * 0x100
}

/// Reads the little-endian 32-bit value at `off`.
pub fn read_u32_le(buf: &[u8], off: usize) -> (r: u32)
    requires
        off + 4 <= buf@.len(),
    ensures
        r == le32_at(buf@, off as int),
{
    proof { lemma_slice_len_bounded(buf); }
    buf[off] as u32 + buf[off + 1] as u32 * 0x100 + buf[off + 2] as u32 * 0x10000
        + buf[off + 3] as u32 * 0x1000000
}

/// Reads the little-endian 64-bit value at `off`.
pub fn read_u64_le(buf: &[u8], off: usize) -> (r: u64)
    requires
        off + 8 <= buf@.len(),
    ensures
        r == le64_at(buf@, off as int),
{
    proof { lemma_slice_len_bounded(buf); }
    buf[off] as u64 + buf[off + 1] as u64 * 0x100 + buf[off + 2] as u64 * 0x10000
        + buf[off + 3] as u64 * 0x1000000 + buf[off + 4] as u64 * 0x100000000
        + buf[off + 5] as u64 * 0x10000000000 + buf[off + 6] as u64 * 0x1000000000000
        + buf[off + 7] as u64 * 0x100000000000000
}

/// Reinterprets a 32-bit pattern as the signed value it denotes in two's
/// complement.
pub fn to_signed32(v: u32) -> (r: i32)
    ensures
        r as int == signed32(v),
{
    if v < 0x80000000 {
        v as i32
    } else {
        ((v as i64) - 0x100000000i64) as i32
    }
}

/// Reads the 3-vector of bit patterns at `off`.
pub fn read_vec3(buf: &[u8], off: usize) -> (r: Vec3Bits)
    requires
        off + 12 <= buf@.len(),
    ensures
        r == vec3_at(buf@, off as int),
{
    proof { lemma_slice_len_bounded(buf); }
    Vec3Bits {
        x: read_u32_le(buf, off),
        y: read_u32_le(buf, off + 4),
        z: read_u32_le(buf, off + 8),
    }
}

/// Reads the RGBA colour of bit patterns at `off`.
pub fn read_color(buf: &[u8], off: usize) -> (r: ColorBits)
    requires
        off + 16 <= buf@.len(),
    ensures
        r == color_at(buf@, off as int),
{
    proof { lemma_slice_len_bounded(buf); }
    ColorBits {
        r: read_u32_le(buf, off),
        g: read_u32_le(buf, off + 4),
        b: read_u32_le(buf, off + 8),
        a: read_u32_le(buf, off + 12),
    }
}

/// Decodes an integer-channel payload.  One, two and four byte payloads
/// carry a signed value that is sign-extended to 32 bits; any other length
/// is absent, never a truncated or fabricated value.
pub fn decode_integer(data: &[u8]) -> (r: Option<i32>)
    ensures
        r matches Some(v) ==> int_payload_value(data@) == Some(v as int),
        r is None <==> int_payload_value(data@) is None,
        r is None <==> !(data@.len() == 1 || data@.len() == 2 || data@.len() == 4),
{
    if data.len() == 1 {
        let b = data[0];
        if b < 0x80 {
            Some(b as i32)
        } else {
            Some(b as i32 - 0x100)
        }
    } else if data.len() == 2 {
        let v = read_u16_le(data, 0);
        if v < 0x8000 {
            Some(v as i32)
        } else {
            Some(v as i32 - 0x10000)
        }
    } else if data.len() == 4 {
        Some(to_signed32(read_u32_le(data, 0)))
    } else {
        None
    }
}

/// Decodes a float-channel payload: exactly four bytes holding the bit
/// pattern of a single-precision value; any other length is absent.
pub fn decode_f32_bits(data: &[u8]) -> (r: Option<u32>)
    ensures
        r matches Some(v) ==> data@.len() == 4 && v == le32_at(data@, 0),
        r is None <==> data@.len() != 4,
{
    if data.len() == 4 {
        Some(read_u32_le(data, 0))
    } else {
        None
    }
}

/// Decodes a boolean-channel payload: exactly one byte, nonzero meaning
/// true; any other length is absent.
pub fn decode_bool(data: &[u8]) -> (r: Option<bool>)
    ensures
        r matches Some(v) ==> data@.len() == 1 && v == (data@[0] != 0),
        r is None <==> data@.len() != 1,
{
    if data.len() == 1 {
        Some(data[0] != 0)
    } else {
        None
    }
}

/// Decodes a pose payload: absent unless the length is exactly one pose
/// record.
pub fn decode_pose(data: &[u8]) -> (r: Option<PoseRec>)
    ensures
        r matches Some(p) ==> data@.len() == POSE_BYTES && p == pose_at(data@, 0),
        r is None <==> data@.len() != POSE_BYTES,
{
    if data.len() == POSE_BYTES {
        Some(PoseRec {
            position: read_vec3(data, 0),
            orientation: read_vec3(data, 12),
            color: read_color(data, 24),
        })
    } else {
        None
    }
}

/// Decodes a transform payload: absent unless the length is exactly one
/// transform record.
pub fn decode_transform(data: &[u8]) -> (r: Option<TransformRec>)
    ensures
        r matches Some(t) ==> data@.len() == TRANSFORM_BYTES && t == transform_at(data@, 0),
        r is None <==> data@.len() != TRANSFORM_BYTES,
{
    if data.len() == TRANSFORM_BYTES {
        Some(TransformRec {
            child_ref: read_u64_le(data, 0),
            parent_ref: read_u64_le(data, 8),
            position: read_vec3(data, 16),
            orientation: read_vec3(data, 28),
        })
    } else {
        None
    }
}

/// Decodes a location payload: absent unless the length is exactly one
/// location record.
pub fn decode_location(data: &[u8]) -> (r: Option<LocationRec>)
    ensures
        r matches Some(l) ==> data@.len() == LOCATION_BYTES && l == location_at(data@, 0),
        r is None <==> data@.len() != LOCATION_BYTES,
{
    if data.len() == LOCATION_BYTES {
        Some(LocationRec {
            timestamp_sec: read_u32_le(data, 0),
            timestamp_nsec: read_u32_le(data, 4),
            latitude: read_u64_le(data, 8),
            longitude: read_u64_le(data, 16),
            altitude: read_u64_le(data, 24),
        })
    } else {
        None
    }
}

/// Decodes an image-info payload: absent unless the length is exactly one
/// image-info record.
pub fn decode_image_info(data: &[u8]) -> (r: Option<foxdbg_image_info_t>)
    ensures
        r matches Some(info) ==> data@.len() == IMAGE_INFO_BYTES && info == image_info_at(data@, 0),
        r is None <==> data@.len() != IMAGE_INFO_BYTES,
{
    if data.len() == IMAGE_INFO_BYTES {
        Some(foxdbg_image_info_t {
            width: to_signed32(read_u32_le(data, 0)),
            height: to_signed32(read_u32_le(data, 4)),
            channels: to_signed32(read_u32_le(data, 8)),
        })
    } else {
        None
    }
}

/// Splits a payload into whole cube records.  The element count is the
/// buffer length divided by the record size; a trailing partial record is
/// dropped, not an error.
pub fn decode_cubes(data: &[u8]) -> (r: Vec<CubeRec>)
    ensures
        r@.len() == data@.len() as int / (CUBE_BYTES as int),
        forall|k: int|
            0 <= k < r@.len() ==> r@[k] == cube_at(data@, k * (CUBE_BYTES as int)),
{
    let count: usize = data.len() / CUBE_BYTES;
    proof {
        assert((count as int) * (CUBE_BYTES as int) <= data@.len() as int) by (nonlinear_arith)
            requires
                count as int == data@.len() as int / (CUBE_BYTES as int),
                CUBE_BYTES == 52usize,
                data@.len() >= 0;
        lemma_slice_len_bounded(data);
    }
    let mut out: Vec<CubeRec> = Vec::new();
    let mut i: usize = 0;
    while i < count
        invariant
            count == data@.len() as int / (CUBE_BYTES as int),
            data@.len() <= usize::MAX,
            i <= count,
            count * CUBE_BYTES <= data@.len(),
            out@.len() == i,
            forall|k: int|
                0 <= k < i ==> out@[k] == cube_at(data@, k * (CUBE_BYTES as int)),
        decreases count - i,
    {
        let off: usize = i * CUBE_BYTES;
        let rec = CubeRec {
            position: read_vec3(data, off),
            size: read_vec3(data, off + 12),
            orientation: read_vec3(data, off + 24),
            color: read_color(data, off + 36),
        };
        out.push(rec);
        i = i + 1;
    }
    out
}

/// Splits a payload into whole line records, dropping a trailing partial
/// record.
pub fn decode_lines(data: &[u8]) -> (r: Vec<LineRec>)
    ensures
        r@.len() == data@.len() as int / (LINE_BYTES as int),
        forall|k: int|
            0 <= k < r@.len() ==> r@[k] == line_at(data@, k * (LINE_BYTES as int)),
{
    let count: usize = data.len() / LINE_BYTES;
    proof {
        assert((count as int) * (LINE_BYTES as int) <= data@.len() as int) by (nonlinear_arith)
            requires
                count as int == data@.len() as int / (LINE_BYTES as int),
                LINE_BYTES == 44usize,
                data@.len() >= 0;
        lemma_slice_len_bounded(data);
    }
    let mut out: Vec<LineRec> = Vec::new();
    let mut i: usize = 0;
    while i < count
        invariant
            count == data@.len() as int / (LINE_BYTES as int),
            data@.len() <= usize::MAX,
            i <= count,
            count * LINE_BYTES <= data@.len(),
            out@.len() == i,
            forall|k: int|
                0 <= k < i ==> out@[k] == line_at(data@, k * (LINE_BYTES as int)),
        decreases count - i,
    {
        let off: usize = i * LINE_BYTES;
        let rec = LineRec {
            start: read_vec3(data, off),
            end: read_vec3(data, off + 12),
            color: read_color(data, off + 24),
            thickness: read_u32_le(data, off + 40),
        };
        out.push(rec);
        i = i + 1;
    }
    out
}

} // verus!
