use scap::format::{is_supported, video_frame_for, VideoFormat, SUPPORTED_VIDEO_FORMATS};
use scap::frame::VideoFrame;
use scap::offer::{format_offer, meta_offer, Fraction, Options, Rectangle};
use scap::listener::{MediaSubtype, MediaType};
use scap::meta::MetaType;
use std::time::SystemTime;

const W: i32 = 3;
const H: i32 = 2;

/// Bytes per pixel for a given negotiated format.
fn bytes_per_pixel(format: VideoFormat) -> usize {
    match format {
        VideoFormat::RGB => 3,
        VideoFormat::RGBA | VideoFormat::RGBx | VideoFormat::xBGR | VideoFormat::BGRx => 4,
        other => panic!("no test fixture size defined for {other:?}"),
    }
}

/// A correctly-sized sample buffer for `format`.
fn sample_data(format: VideoFormat) -> Vec<u8> {
    vec![7u8; (W * H) as usize * bytes_per_pixel(format)]
}

fn sample(format: VideoFormat) -> Option<VideoFrame> {
    video_frame_for(format, SystemTime::UNIX_EPOCH, W, H, sample_data(format))
}

#[test]
fn every_advertised_format_has_a_decode_arm() {
    for format in SUPPORTED_VIDEO_FORMATS {
        assert!(
            sample(format).is_some(),
            "advertised format {format:?} has no decode arm in video_frame_for"
        );
    }

    assert!(matches!(sample(VideoFormat::RGB), Some(VideoFrame::RGB(_))));
    assert!(matches!(
        sample(VideoFormat::RGBx),
        Some(VideoFrame::RGBx(_))
    ));
    assert!(matches!(
        sample(VideoFormat::xBGR),
        Some(VideoFrame::XBGR(_))
    ));
    assert!(matches!(
        sample(VideoFormat::BGRx),
        Some(VideoFrame::BGRx(_))
    ));
    assert!(matches!(
        sample(VideoFormat::RGBA),
        Some(VideoFrame::RGBx(_))
    ));
}

#[test]
fn bgrx_dispatch_preserves_dimensions_timestamp_and_data() {
    let Some(VideoFrame::BGRx(frame)) = sample(VideoFormat::BGRx) else {
        panic!("BGRx did not decode to a BGRx frame");
    };
    assert_eq!(frame.width, W);
    assert_eq!(frame.height, H);
    assert_eq!(frame.display_time, SystemTime::UNIX_EPOCH);
    assert_eq!(frame.data, sample_data(VideoFormat::BGRx));
}

#[test]
fn rgba_is_decodable_and_advertised_together() {
    assert_eq!(
        sample(VideoFormat::RGBA).is_some(),
        SUPPORTED_VIDEO_FORMATS.contains(&VideoFormat::RGBA),
        "RGBA decode support and RGBA advertisement must change together"
    );
    assert!(
        sample(VideoFormat::RGBA).is_some(),
        "RGBA support was removed -- this regresses COSMIC, see #153/#169"
    );
}

#[test]
fn xbgr_is_both_decodable_and_advertised() {
    assert!(sample(VideoFormat::xBGR).is_some());
    assert!(SUPPORTED_VIDEO_FORMATS.contains(&VideoFormat::xBGR));
}

#[test]
fn only_advertised_formats_are_decodable() {
    for code in 0..64u32 {
        let format = VideoFormat::Other(code);
        assert!(!is_supported(format));
        assert!(!SUPPORTED_VIDEO_FORMATS.contains(&format));
        assert!(video_frame_for(format, SystemTime::UNIX_EPOCH, W, H, vec![7u8; 24]).is_none());
    }
    for format in SUPPORTED_VIDEO_FORMATS {
        assert!(is_supported(format));
    }
}

#[test]
fn other_layouts_keep_their_payload() {
    let Some(VideoFrame::RGBx(frame)) = sample(VideoFormat::RGBA) else {
        panic!("RGBA did not decode to an RGBx frame");
    };
    assert_eq!((frame.width, frame.height), (W, H));
    assert_eq!(frame.data, sample_data(VideoFormat::RGBA));
    let Some(VideoFrame::RGB(frame)) = sample(VideoFormat::RGB) else {
        panic!("RGB did not decode to an RGB frame");
    };
    assert_eq!(frame.data.len(), 18);
    let Some(VideoFrame::XBGR(frame)) = sample(VideoFormat::xBGR) else {
        panic!("xBGR did not decode to an XBGR frame");
    };
    assert_eq!(frame.data.len(), 24);
}

#[test]
fn the_offer_names_every_supported_format() {
    let offer = format_offer(&Options { fps: 60, show_cursor: true });
    assert_eq!(offer.media_type, MediaType::Video);
    assert_eq!(offer.media_subtype, MediaSubtype::Raw);
    assert_eq!(offer.formats, SUPPORTED_VIDEO_FORMATS);
    assert_eq!(offer.formats[0], VideoFormat::RGB);
    assert_eq!(offer.default_size, Rectangle { width: 128, height: 128 });
    assert_eq!(offer.min_size, Rectangle { width: 1, height: 1 });
    assert_eq!(offer.max_size, Rectangle { width: 4096, height: 4096 });
    assert_eq!(offer.max_framerate, Fraction { num: 60, denom: 1 });
}

#[test]
fn the_header_is_asked_for() {
    let offer = meta_offer(32);
    assert_eq!(offer.meta_type, MetaType::Header);
    assert_eq!(offer.size, 32);
}
