//! Pixel formats: which ones a capture stream offers, and how their frames are decoded.
use crate::frame::{BGRxFrame, RGBFrame, RGBxFrame, VideoFrame, XBGRFrame};
use vstd::prelude::*;

verus! {

/// The pixel format of a raw video stream. Formats without a role of their own here are
/// told apart by their code only.
#[allow(non_camel_case_types)]
#[derive(Clone, Copy, Debug, PartialEq, Eq, Structural)]
pub enum VideoFormat {
    RGB,
    RGBA,
    RGBx,
    xBGR,
    BGRx,
    Other(u32),
}

/// The formats that a capture stream offers, the preferred one first. Each of them can be
/// decoded by [`video_frame_for`], and no other format can.
pub const SUPPORTED_VIDEO_FORMATS: [VideoFormat; 5] = [
    VideoFormat::RGB,
    VideoFormat::RGBA,
    VideoFormat::RGBx,
    VideoFormat::xBGR,
    VideoFormat::BGRx,
];

/// `format` is among the formats that a capture stream offers.
pub open spec fn supported(format: VideoFormat) -> bool {
    SUPPORTED_VIDEO_FORMATS@.contains(format)
}

/// Tests whether a capture stream offers `format`.
pub fn is_supported(format: VideoFormat) -> (found: bool)
    ensures
        found == supported(format),
{
    let formats: [VideoFormat; 5] = SUPPORTED_VIDEO_FORMATS;
    let mut i: usize = 0;
    while i < 5
        invariant
            i <= 5,
            formats@ == SUPPORTED_VIDEO_FORMATS@,
            forall|j: int| 0 <= j < i ==> formats@[j] != format,
        decreases 5 - i,
    {
        if formats[i] == format {
            assert(formats@[i as int] == format);
            return true;
        }
        i = i + 1;
    }
    false
}

/// The frame that `data` makes up in `format`, or `None` where the format has no decoding.
/// `RGBA` has the byte order of `RGBx`, and its fourth byte is treated as unused.
pub open spec fn decoded(
    format: VideoFormat,
    display_time: std::time::SystemTime,
    width: i32,
    height: i32,
    data: Vec<u8>,
) -> Option<VideoFrame> {
    match format {
        VideoFormat::RGB => Some(
            VideoFrame::RGB(RGBFrame { display_time, width, height, data }),
        ),
        VideoFormat::RGBA => Some(
            VideoFrame::RGBx(RGBxFrame { display_time, width, height, data }),
        ),
        VideoFormat::RGBx => Some(
            VideoFrame::RGBx(RGBxFrame { display_time, width, height, data }),
        ),
        VideoFormat::xBGR => Some(
            VideoFrame::XBGR(XBGRFrame { display_time, width, height, data }),
        ),
        VideoFormat::BGRx => Some(
            VideoFrame::BGRx(BGRxFrame { display_time, width, height, data }),
        ),
        VideoFormat::Other(_) => None,
    }
}

/// Builds the frame for a negotiated `format`, or `None` when the format has no decoding.
pub fn video_frame_for(
    format: VideoFormat,
    display_time: std::time::SystemTime,
    width: i32,
    height: i32,
    data: Vec<u8>,
) -> (frame: Option<VideoFrame>)
    ensures
        frame == decoded(format, display_time, width, height, data),
        frame is None <==> format is Other,
        format == VideoFormat::RGB ==> frame == Some(
            VideoFrame::RGB(RGBFrame { display_time, width, height, data }),
        ),
        format == VideoFormat::RGBA || format == VideoFormat::RGBx ==> frame == Some(
            VideoFrame::RGBx(RGBxFrame { display_time, width, height, data }),
        ),
        format == VideoFormat::xBGR ==> frame == Some(
            VideoFrame::XBGR(XBGRFrame { display_time, width, height, data }),
        ),
        format == VideoFormat::BGRx ==> frame == Some(
            VideoFrame::BGRx(BGRxFrame { display_time, width, height, data }),
        ),
{
    match format {
        VideoFormat::RGBx => Some(
            VideoFrame::RGBx(RGBxFrame { display_time, width, height, data }),
        ),
        VideoFormat::RGB => Some(VideoFrame::RGB(RGBFrame { display_time, width, height, data })),
        VideoFormat::RGBA => Some(
            VideoFrame::RGBx(RGBxFrame { display_time, width, height, data }),
        ),
        VideoFormat::xBGR => Some(
            VideoFrame::XBGR(XBGRFrame { display_time, width, height, data }),
        ),
        VideoFormat::BGRx => Some(
            VideoFrame::BGRx(BGRxFrame { display_time, width, height, data }),
        ),
        VideoFormat::Other(_) => None,
    }
}

/// A format is offered exactly when its frames can be decoded, whatever the frame holds.
pub proof fn law_offered_iff_decodable(
    format: VideoFormat,
    display_time: std::time::SystemTime,
    width: i32,
    height: i32,
    data: Vec<u8>,
)
    ensures
        supported(format) <==> decoded(format, display_time, width, height, data) is Some,
{
    let formats = SUPPORTED_VIDEO_FORMATS@;
    assert(formats[0] == VideoFormat::RGB);
    assert(formats[1] == VideoFormat::RGBA);
    assert(formats[2] == VideoFormat::RGBx);
    assert(formats[3] == VideoFormat::xBGR);
    assert(formats[4] == VideoFormat::BGRx);
}

/// A frame in `RGBA` is decoded as the same frame in `RGBx`.
pub proof fn law_rgba_decoded_as_rgbx(
    display_time: std::time::SystemTime,
    width: i32,
    height: i32,
    data: Vec<u8>,
)
    ensures
        decoded(VideoFormat::RGBA, display_time, width, height, data) == decoded(
            VideoFormat::RGBx,
            display_time,
            width,
            height,
            data,
        ),
        supported(VideoFormat::RGBA),
{
    law_offered_iff_decodable(VideoFormat::RGBA, display_time, width, height, data);
}

/// Decoding hands the time, the dimensions and the bytes of a frame on unchanged.
pub proof fn law_decoding_preserves_payload(
    format: VideoFormat,
    display_time: std::time::SystemTime,
    width: i32,
    height: i32,
    data: Vec<u8>,
)
    requires
        supported(format),
    ensures
        decoded(format, display_time, width, height, data) matches Some(frame) && {
            &&& frame.display_time() == display_time
            &&& frame.dimensions() == (width, height)
            &&& frame.data() == data
        },
        match decoded(format, display_time, width, height, data) {
            Some(VideoFrame::RGB(f)) => f.display_time == display_time && f.width == width
                && f.height == height && f.data == data,
            Some(VideoFrame::RGBx(f)) => f.display_time == display_time && f.width == width
                && f.height == height && f.data == data,
            Some(VideoFrame::XBGR(f)) => f.display_time == display_time && f.width == width
                && f.height == height && f.data == data,
            Some(VideoFrame::BGRx(f)) => f.display_time == display_time && f.width == width
                && f.height == height && f.data == data,
            None => false,
        },
{
    law_offered_iff_decodable(format, display_time, width, height, data);
}

/// The formats on offer are these five, in this order, and no format outside of them is
/// supported.
pub proof fn law_supported_formats(format: VideoFormat)
    ensures
        SUPPORTED_VIDEO_FORMATS@ == seq![
            VideoFormat::RGB,
            VideoFormat::RGBA,
            VideoFormat::RGBx,
            VideoFormat::xBGR,
            VideoFormat::BGRx,
        ],
        supported(format) <==> format !is Other,
{
    let formats = SUPPORTED_VIDEO_FORMATS@;
    assert(formats =~= seq![
        VideoFormat::RGB,
        VideoFormat::RGBA,
        VideoFormat::RGBx,
        VideoFormat::xBGR,
        VideoFormat::BGRx,
    ]);
    assert(formats[0] == VideoFormat::RGB);
    assert(formats[1] == VideoFormat::RGBA);
    assert(formats[2] == VideoFormat::RGBx);
    assert(formats[3] == VideoFormat::xBGR);
    assert(formats[4] == VideoFormat::BGRx);
}

/// The layout of a decoded frame is told by the format alone: for every time, size and
/// data, `RGB` is decoded to `RGB`, `RGBA` and `RGBx` to `RGBx`, `xBGR` to `XBGR`, `BGRx`
/// to `BGRx`, and each layout comes of no other format. Any other format has no decoding.
pub proof fn law_layout_follows_format(
    format: VideoFormat,
    display_time: std::time::SystemTime,
    width: i32,
    height: i32,
    data: Vec<u8>,
)
    ensures
        ({
            let frame = decoded(format, display_time, width, height, data);
            &&& frame is None <==> format is Other
            &&& (frame is Some && frame->0 is RGB) <==> format == VideoFormat::RGB
            &&& (frame is Some && frame->0 is RGBx) <==> (format == VideoFormat::RGBA || format
                == VideoFormat::RGBx)
            &&& (frame is Some && frame->0 is XBGR) <==> format == VideoFormat::xBGR
            &&& (frame is Some && frame->0 is BGRx) <==> format == VideoFormat::BGRx
        }),
{
}

/// Two frames in one format have one layout, however they differ otherwise.
pub proof fn law_layout_ignores_payload(
    format: VideoFormat,
    time1: std::time::SystemTime,
    width1: i32,
    height1: i32,
    data1: Vec<u8>,
    time2: std::time::SystemTime,
    width2: i32,
    height2: i32,
    data2: Vec<u8>,
)
    ensures
        ({
            let first = decoded(format, time1, width1, height1, data1);
            let second = decoded(format, time2, width2, height2, data2);
            &&& first is Some <==> second is Some
            &&& first is Some ==> {
                &&& first->0 is RGB <==> second->0 is RGB
                &&& first->0 is RGBx <==> second->0 is RGBx
                &&& first->0 is XBGR <==> second->0 is XBGR
                &&& first->0 is BGRx <==> second->0 is BGRx
            }
        }),
{
    law_layout_follows_format(format, time1, width1, height1, data1);
    law_layout_follows_format(format, time2, width2, height2, data2);
}

} // verus!
