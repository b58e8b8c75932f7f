//! Image-pipeline parameter selection, wire-schema mapping, and recorder
//! lifecycle.

use foxdbg::image::{
    image_message_from_jpeg, layout_for_channels, prepare_compress, ImageError, PixelLayout,
};
use foxdbg::lifecycle::{init, shutdown, RecorderPhase};
use foxdbg::messages::{wire_schema, WireSchema};
use foxdbg::types::{foxdbg_channel_type_t, foxdbg_image_info_t};

#[test]
fn layout_selection_by_channel_count() {
    assert_eq!(layout_for_channels(1), Some(PixelLayout::Grey));
    assert_eq!(layout_for_channels(3), Some(PixelLayout::Rgb));
    assert_eq!(layout_for_channels(4), Some(PixelLayout::Rgba));
    assert_eq!(layout_for_channels(0), None);
    assert_eq!(layout_for_channels(2), None);
    assert_eq!(layout_for_channels(5), None);
    assert_eq!(layout_for_channels(-1), None);
}

#[test]
fn compress_request_fixes_all_parameters() {
    let info = foxdbg_image_info_t {
        width: 640,
        height: 480,
        channels: 4,
    };
    let q = prepare_compress(&info).unwrap();
    assert_eq!(q.width, 640);
    assert_eq!(q.height, 480);
    assert_eq!(q.pitch, 640 * 4);
    assert_eq!(q.layout, PixelLayout::Rgba);
    assert_eq!(q.quality, 25);
    assert!(q.subsample_2x2);
}

#[test]
fn compress_request_greyscale_stride_equals_width() {
    let info = foxdbg_image_info_t {
        width: 320,
        height: 200,
        channels: 1,
    };
    let q = prepare_compress(&info).unwrap();
    assert_eq!(q.pitch, 320);
    assert_eq!(q.layout, PixelLayout::Grey);
}

#[test]
fn compress_rejects_bad_metadata() {
    let two_channels = foxdbg_image_info_t {
        width: 8,
        height: 8,
        channels: 2,
    };
    assert_eq!(
        prepare_compress(&two_channels),
        Err(ImageError::UnsupportedChannelCount)
    );
    let negative = foxdbg_image_info_t {
        width: 8,
        height: -8,
        channels: 3,
    };
    assert_eq!(prepare_compress(&negative), Err(ImageError::InvalidDimensions));
}

#[test]
fn jpeg_envelope_is_tagged_and_verbatim() {
    let msg = image_message_from_jpeg(vec![9, 8, 7]);
    assert_eq!(msg.format, "JPEG");
    assert_eq!(msg.frame_id, "");
    assert_eq!(msg.data, vec![9, 8, 7]);
}

#[test]
fn wire_schema_per_kind() {
    let cases = [
        (foxdbg_channel_type_t::FOXDBG_CHANNEL_TYPE_FLOAT, WireSchema::ScalarFloat),
        (foxdbg_channel_type_t::FOXDBG_CHANNEL_TYPE_INTEGER, WireSchema::ScalarInteger),
        (foxdbg_channel_type_t::FOXDBG_CHANNEL_TYPE_BOOLEAN, WireSchema::ScalarBool),
        (foxdbg_channel_type_t::FOXDBG_CHANNEL_TYPE_IMAGE, WireSchema::CompressedImage),
        (foxdbg_channel_type_t::FOXDBG_CHANNEL_TYPE_POINTCLOUD, WireSchema::PointCloud),
        (foxdbg_channel_type_t::FOXDBG_CHANNEL_TYPE_CUBES, WireSchema::SceneUpdate),
        (foxdbg_channel_type_t::FOXDBG_CHANNEL_TYPE_LINES, WireSchema::SceneUpdate),
        (foxdbg_channel_type_t::FOXDBG_CHANNEL_TYPE_POSE, WireSchema::SceneUpdate),
        (foxdbg_channel_type_t::FOXDBG_CHANNEL_TYPE_TRANSFORM, WireSchema::FrameTransform),
        (foxdbg_channel_type_t::FOXDBG_CHANNEL_TYPE_LOCATION, WireSchema::LocationFix),
    ];
    for (kind, expected) in cases {
        assert_eq!(wire_schema(kind), expected);
    }
}

#[test]
fn recorder_initializes_once() {
    let mut phase = RecorderPhase::Inactive;
    assert!(init(&mut phase));
    assert_eq!(phase, RecorderPhase::Recording);
    assert!(!init(&mut phase));
    assert_eq!(phase, RecorderPhase::Recording);
}

#[test]
fn shutdown_closes_sink_exactly_once() {
    let mut phase = RecorderPhase::Inactive;
    assert!(init(&mut phase));
    assert!(shutdown(&mut phase));
    assert_eq!(phase, RecorderPhase::Stopped);
    // A second shutdown is a no-op: the sink is not closed twice.
    assert!(!shutdown(&mut phase));
    // A stopped recorder cannot be restarted.
    assert!(!init(&mut phase));
}

#[test]
fn shutdown_without_recording_closes_nothing() {
    let mut phase = RecorderPhase::Inactive;
    assert!(!shutdown(&mut phase));
    assert_eq!(phase, RecorderPhase::Stopped);
}
