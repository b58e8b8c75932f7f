//! End-to-end write scenarios through the dispatcher, and the error
//! severities.

use foxdbg::dispatch::{write_channel, write_channel_info, WriteAction, WriteError};
use foxdbg::image::{image_message_from_jpeg, PixelLayout, JPEG_QUALITY};
use foxdbg::messages::{Message, YawOffset, LINE_KIND_LINE_LIST};
use foxdbg::registry::Registry;
use foxdbg::types::foxdbg_channel_type_t;

fn info_bytes(width: i32, height: i32, channels: i32) -> Vec<u8> {
    let mut out = Vec::new();
    out.extend_from_slice(&width.to_le_bytes());
    out.extend_from_slice(&height.to_le_bytes());
    out.extend_from_slice(&channels.to_le_bytes());
    out
}

fn push_f32(out: &mut Vec<u8>, v: f32) {
    out.extend_from_slice(&v.to_le_bytes());
}

#[test]
fn scenario_float_write_roundtrips_value() {
    let mut registry = Registry::new();
    assert!(registry.add_channel(
        1,
        "temp".to_string(),
        foxdbg_channel_type_t::FOXDBG_CHANNEL_TYPE_FLOAT
    ));
    let r = write_channel(&registry, 1, &36.6f32.to_le_bytes());
    match r {
        Ok(WriteAction::Publish(Message::FloatValue(m))) => {
            assert_eq!(f32::from_bits(m.value_bits), 36.6f32);
        }
        other => panic!("expected a float publish, got {:?}", other),
    }
}

#[test]
fn scenario_empty_cubes_write_publishes_nothing() {
    let mut registry = Registry::new();
    assert!(registry.add_channel(
        2,
        "cubes".to_string(),
        foxdbg_channel_type_t::FOXDBG_CHANNEL_TYPE_CUBES
    ));
    let r = write_channel(&registry, 2, &[]);
    assert_eq!(r, Ok(WriteAction::Skip));
}

#[test]
fn scenario_image_write_with_metadata_compresses() {
    let mut registry = Registry::new();
    assert!(registry.add_channel(
        3,
        "cam".to_string(),
        foxdbg_channel_type_t::FOXDBG_CHANNEL_TYPE_IMAGE
    ));
    assert!(write_channel_info(&mut registry, 3, &info_bytes(64, 48, 3)).is_ok());
    let pixels = vec![0x7Fu8; 64 * 48 * 3];
    let r = write_channel(&registry, 3, &pixels);
    match r {
        Ok(WriteAction::CompressImage(q)) => {
            assert_eq!(q.width, 64);
            assert_eq!(q.height, 48);
            assert_eq!(q.pitch, 64 * 3);
            assert_eq!(q.layout, PixelLayout::Rgb);
            assert_eq!(q.quality, JPEG_QUALITY);
            assert!(q.subsample_2x2);
        }
        other => panic!("expected a compression request, got {:?}", other),
    }
    // The boundary layer wraps whatever the compressor returned.
    let msg = image_message_from_jpeg(vec![0xFF, 0xD8, 0xFF, 0xD9]);
    assert_eq!(msg.format, "JPEG");
    assert!(!msg.data.is_empty());
    assert_eq!(msg.frame_id, "");
}

#[test]
fn image_write_without_metadata_is_fatal() {
    let mut registry = Registry::new();
    assert!(registry.add_channel(
        4,
        "cam".to_string(),
        foxdbg_channel_type_t::FOXDBG_CHANNEL_TYPE_IMAGE
    ));
    let r = write_channel(&registry, 4, &[0u8; 16]);
    assert_eq!(r, Err(WriteError::MissingImageInfo));
    assert!(WriteError::MissingImageInfo.is_fatal());
}

#[test]
fn unknown_channel_is_fatal() {
    let registry = Registry::new();
    let r = write_channel(&registry, 99, &[0u8; 4]);
    assert_eq!(r, Err(WriteError::UnknownChannel));
    assert!(WriteError::UnknownChannel.is_fatal());
}

#[test]
fn unsupported_channel_count_is_recoverable() {
    let mut registry = Registry::new();
    assert!(registry.add_channel(
        5,
        "cam".to_string(),
        foxdbg_channel_type_t::FOXDBG_CHANNEL_TYPE_IMAGE
    ));
    assert!(write_channel_info(&mut registry, 5, &info_bytes(8, 8, 2)).is_ok());
    let r = write_channel(&registry, 5, &[0u8; 128]);
    assert_eq!(r, Err(WriteError::UnsupportedChannelCount));
    assert!(!WriteError::UnsupportedChannelCount.is_fatal());
}

#[test]
fn negative_image_dimension_is_recoverable() {
    let mut registry = Registry::new();
    assert!(registry.add_channel(
        6,
        "cam".to_string(),
        foxdbg_channel_type_t::FOXDBG_CHANNEL_TYPE_IMAGE
    ));
    assert!(write_channel_info(&mut registry, 6, &info_bytes(-64, 48, 3)).is_ok());
    let r = write_channel(&registry, 6, &[0u8; 128]);
    assert_eq!(r, Err(WriteError::InvalidImageDimensions));
    assert!(!WriteError::InvalidImageDimensions.is_fatal());
}

#[test]
fn info_write_to_unknown_channel_is_fatal() {
    let mut registry = Registry::new();
    let r = write_channel_info(&mut registry, 77, &info_bytes(1, 1, 1));
    assert_eq!(r, Err(WriteError::UnknownChannel));
}

#[test]
fn integer_writes_for_all_supported_widths() {
    let mut registry = Registry::new();
    assert!(registry.add_channel(
        7,
        "count".to_string(),
        foxdbg_channel_type_t::FOXDBG_CHANNEL_TYPE_INTEGER
    ));
    for (payload, expected) in [
        ((-5i8).to_le_bytes().to_vec(), -5i32),
        ((-300i16).to_le_bytes().to_vec(), -300i32),
        (123456i32.to_le_bytes().to_vec(), 123456i32),
    ] {
        match write_channel(&registry, 7, &payload) {
            Ok(WriteAction::Publish(Message::IntegerValue(m))) => {
                assert_eq!(m.value, expected);
            }
            other => panic!("expected an integer publish, got {:?}", other),
        }
    }
    // An unrecognized width encodes nothing.
    assert_eq!(
        write_channel(&registry, 7, &[1, 2, 3]),
        Ok(WriteAction::Skip)
    );
}

#[test]
fn bool_write_publishes_value() {
    let mut registry = Registry::new();
    assert!(registry.add_channel(
        8,
        "armed".to_string(),
        foxdbg_channel_type_t::FOXDBG_CHANNEL_TYPE_BOOLEAN
    ));
    match write_channel(&registry, 8, &[1]) {
        Ok(WriteAction::Publish(Message::BoolValue(m))) => assert!(m.value),
        other => panic!("expected a bool publish, got {:?}", other),
    }
    assert_eq!(write_channel(&registry, 8, &[]), Ok(WriteAction::Skip));
}

#[test]
fn pose_write_builds_single_arrow_scene() {
    let mut registry = Registry::new();
    assert!(registry.add_channel(
        10,
        "robot".to_string(),
        foxdbg_channel_type_t::FOXDBG_CHANNEL_TYPE_POSE
    ));
    let mut payload = Vec::new();
    for k in 0..10 {
        push_f32(&mut payload, k as f32);
    }
    match write_channel(&registry, 10, &payload) {
        Ok(WriteAction::Publish(Message::Scene(m))) => {
            assert_eq!(m.entity_id, "robot");
            assert_eq!(m.frame_id, "world");
            assert_eq!(m.arrows.len(), 1);
            assert!(m.cubes.is_empty());
            assert!(m.lines.is_empty());
            let arrow = &m.arrows[0];
            assert_eq!(f32::from_bits(arrow.position.z), 2.0);
            assert_eq!(f32::from_bits(arrow.orientation_euler.x), 3.0);
            assert_eq!(arrow.yaw_offset, YawOffset::QuarterTurnZ);
            assert_eq!(f64::from_bits(arrow.shaft_length_bits), 0.5);
            assert_eq!(f64::from_bits(arrow.shaft_diameter_bits), 0.05);
            assert_eq!(f64::from_bits(arrow.head_length_bits), 0.15);
            assert_eq!(f64::from_bits(arrow.head_diameter_bits), 0.1);
        }
        other => panic!("expected a scene publish, got {:?}", other),
    }
    // A truncated pose is skipped.
    assert_eq!(
        write_channel(&registry, 10, &payload[..39]),
        Ok(WriteAction::Skip)
    );
}

#[test]
fn cubes_write_builds_scene_per_record() {
    let mut registry = Registry::new();
    assert!(registry.add_channel(
        11,
        "boxes".to_string(),
        foxdbg_channel_type_t::FOXDBG_CHANNEL_TYPE_CUBES
    ));
    let mut payload = Vec::new();
    for k in 0..26 {
        push_f32(&mut payload, k as f32);
    }
    match write_channel(&registry, 11, &payload) {
        Ok(WriteAction::Publish(Message::Scene(m))) => {
            assert_eq!(m.entity_id, "boxes");
            assert_eq!(m.cubes.len(), 2);
            assert!(m.arrows.is_empty());
            assert!(m.lines.is_empty());
            assert_eq!(f32::from_bits(m.cubes[0].position.x), 0.0);
            assert_eq!(f32::from_bits(m.cubes[0].size.x), 3.0);
            assert_eq!(f32::from_bits(m.cubes[0].orientation_euler.x), 6.0);
            assert_eq!(f32::from_bits(m.cubes[0].color.r), 9.0);
            assert_eq!(m.cubes[0].yaw_offset, YawOffset::QuarterTurnZ);
            assert_eq!(f32::from_bits(m.cubes[1].position.x), 13.0);
        }
        other => panic!("expected a scene publish, got {:?}", other),
    }
}

#[test]
fn lines_write_builds_line_list() {
    let mut registry = Registry::new();
    assert!(registry.add_channel(
        12,
        "edges".to_string(),
        foxdbg_channel_type_t::FOXDBG_CHANNEL_TYPE_LINES
    ));
    let mut payload = Vec::new();
    for k in 0..11 {
        push_f32(&mut payload, k as f32);
    }
    match write_channel(&registry, 12, &payload) {
        Ok(WriteAction::Publish(Message::Scene(m))) => {
            assert_eq!(m.lines.len(), 1);
            let line = &m.lines[0];
            assert_eq!(f32::from_bits(line.start.x), 0.0);
            assert_eq!(f32::from_bits(line.end.x), 3.0);
            assert_eq!(f32::from_bits(line.color.r), 6.0);
            assert_eq!(f32::from_bits(line.thickness_bits), 10.0);
            assert_eq!(line.kind, LINE_KIND_LINE_LIST);
        }
        other => panic!("expected a scene publish, got {:?}", other),
    }
    // An empty batch of lines is a legitimate no-op.
    assert_eq!(write_channel(&registry, 12, &[]), Ok(WriteAction::Skip));
}

#[test]
fn transform_write_carries_refs_and_zero_offset() {
    let mut registry = Registry::new();
    assert!(registry.add_channel(
        13,
        "tf".to_string(),
        foxdbg_channel_type_t::FOXDBG_CHANNEL_TYPE_TRANSFORM
    ));
    let mut payload = Vec::new();
    payload.extend_from_slice(&11u64.to_le_bytes());
    payload.extend_from_slice(&22u64.to_le_bytes());
    for k in 0..6 {
        push_f32(&mut payload, k as f32);
    }
    match write_channel(&registry, 13, &payload) {
        Ok(WriteAction::Publish(Message::Transform(m))) => {
            assert_eq!(m.child_ref, 11);
            assert_eq!(m.parent_ref, 22);
            assert_eq!(f32::from_bits(m.translation.x), 0.0);
            assert_eq!(f32::from_bits(m.rotation_euler.z), 5.0);
            assert_eq!(m.yaw_offset, YawOffset::Zero);
        }
        other => panic!("expected a transform publish, got {:?}", other),
    }
}

#[test]
fn location_write_fixes_covariance() {
    let mut registry = Registry::new();
    assert!(registry.add_channel(
        14,
        "gps".to_string(),
        foxdbg_channel_type_t::FOXDBG_CHANNEL_TYPE_LOCATION
    ));
    let mut payload = Vec::new();
    payload.extend_from_slice(&1u32.to_le_bytes());
    payload.extend_from_slice(&2u32.to_le_bytes());
    payload.extend_from_slice(&48.85f64.to_le_bytes());
    payload.extend_from_slice(&2.35f64.to_le_bytes());
    payload.extend_from_slice(&35.0f64.to_le_bytes());
    match write_channel(&registry, 14, &payload) {
        Ok(WriteAction::Publish(Message::Location(m))) => {
            assert_eq!(m.frame_id, "world");
            assert_eq!(m.timestamp_sec, 1);
            assert_eq!(m.timestamp_nsec, 2);
            assert_eq!(f64::from_bits(m.latitude_bits), 48.85);
            assert_eq!(f64::from_bits(m.longitude_bits), 2.35);
            assert_eq!(f64::from_bits(m.altitude_bits), 35.0);
            assert_eq!(m.position_covariance_bits, vec![0u64; 9]);
            assert_eq!(m.position_covariance_type, 0);
        }
        other => panic!("expected a location publish, got {:?}", other),
    }
}

#[test]
fn pointcloud_write_passes_bytes_through() {
    let mut registry = Registry::new();
    assert!(registry.add_channel(
        15,
        "scan".to_string(),
        foxdbg_channel_type_t::FOXDBG_CHANNEL_TYPE_POINTCLOUD
    ));
    let payload: Vec<u8> = (0..32).collect();
    match write_channel(&registry, 15, &payload) {
        Ok(WriteAction::Publish(Message::PointCloud(m))) => {
            assert_eq!(m.frame_id, "world");
            assert_eq!(m.point_stride, 16);
            assert_eq!(m.data, payload);
            let names: Vec<&str> = m.fields.iter().map(|f| f.name.as_str()).collect();
            assert_eq!(names, ["x", "y", "z", "intensity"]);
            let offsets: Vec<u32> = m.fields.iter().map(|f| f.offset).collect();
            assert_eq!(offsets, [0, 4, 8, 12]);
            assert!(m.fields.iter().all(|f| f.kind == 7));
        }
        other => panic!("expected a point-cloud publish, got {:?}", other),
    }
}

#[test]
fn writes_to_two_channels_both_complete() {
    let mut registry = Registry::new();
    assert!(registry.add_channel(
        20,
        "left".to_string(),
        foxdbg_channel_type_t::FOXDBG_CHANNEL_TYPE_FLOAT
    ));
    assert!(registry.add_channel(
        21,
        "right".to_string(),
        foxdbg_channel_type_t::FOXDBG_CHANNEL_TYPE_FLOAT
    ));
    let a = write_channel(&registry, 20, &1.0f32.to_le_bytes());
    let b = write_channel(&registry, 21, &2.0f32.to_le_bytes());
    assert!(matches!(a, Ok(WriteAction::Publish(_))));
    assert!(matches!(b, Ok(WriteAction::Publish(_))));
}
