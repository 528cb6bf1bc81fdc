//! The frames that a capturer delivers.
use vstd::prelude::*;

verus! {

/// `std::time::SystemTime`, carried through as an opaque value.
#[verifier::external_type_specification]
#[verifier::external_body]
pub struct ExSystemTime(std::time::SystemTime);

/// A frame of three bytes per pixel: red, green, blue.
#[derive(Debug)]
pub struct RGBFrame {
    pub display_time: std::time::SystemTime,
    pub width: i32,
    pub height: i32,
    pub data: Vec<u8>,
}

/// A frame of four bytes per pixel: red, green, blue, unused.
#[derive(Debug)]
pub struct RGBxFrame {
    pub display_time: std::time::SystemTime,
    pub width: i32,
    pub height: i32,
    pub data: Vec<u8>,
}

/// A frame of four bytes per pixel: unused, blue, green, red.
#[derive(Debug)]
pub struct XBGRFrame {
    pub display_time: std::time::SystemTime,
    pub width: i32,
    pub height: i32,
    pub data: Vec<u8>,
}

/// A frame of four bytes per pixel: blue, green, red, unused.
#[derive(Debug)]
pub struct BGRxFrame {
    pub display_time: std::time::SystemTime,
    pub width: i32,
    pub height: i32,
    pub data: Vec<u8>,
}

/// A frame whose luminance and chrominance stand in planes of their own. The
/// chrominance plane holds two bytes per pixel.
#[derive(Debug)]
pub struct YUVFrame {
    pub display_time: u64,
    pub width: i32,
    pub height: i32,
    pub luminance_bytes: Vec<u8>,
    pub luminance_stride: i32,
    pub chrominance_bytes: Vec<u8>,
    pub chrominance_stride: i32,
}

/// A frame of a video stream, by the layout of its pixels.
#[derive(Debug)]
pub enum VideoFrame {
    RGB(RGBFrame),
    RGBx(RGBxFrame),
    XBGR(XBGRFrame),
    BGRx(BGRxFrame),
}

impl VideoFrame {
    /// When the frame is to be shown.
    pub open spec fn display_time(self) -> std::time::SystemTime {
        match self {
            VideoFrame::RGB(f) => f.display_time,
            VideoFrame::RGBx(f) => f.display_time,
            VideoFrame::XBGR(f) => f.display_time,
            VideoFrame::BGRx(f) => f.display_time,
        }
    }

    /// The width and the height of the frame.
    pub open spec fn dimensions(self) -> (i32, i32) {
        match self {
            VideoFrame::RGB(f) => (f.width, f.height),
            VideoFrame::RGBx(f) => (f.width, f.height),
            VideoFrame::XBGR(f) => (f.width, f.height),
            VideoFrame::BGRx(f) => (f.width, f.height),
        }
    }

    /// The bytes of the frame.
    pub open spec fn data(self) -> Vec<u8> {
        match self {
            VideoFrame::RGB(f) => f.data,
            VideoFrame::RGBx(f) => f.data,
            VideoFrame::XBGR(f) => f.data,
            VideoFrame::BGRx(f) => f.data,
        }
    }
}

/// What a capturer sends to its user.
#[derive(Debug)]
pub enum Frame {
    /// A frame of a video stream.
    Video(VideoFrame),
    /// A frame that was converted to luminance and chrominance.
    YUVFrame(YUVFrame),
    /// The raw bytes of a frame, four per pixel.
    BGR0(Vec<u8>),
}

/// The signed reading of the 32 bits of `x`.
pub open spec fn signed(x: u32) -> int {
    if x <= i32::MAX {
        x as int
    } else {
        x - 0x1_0000_0000
    }
}

/// Reads an unsigned dimension as the signed one that frames carry.
pub fn signed_dimension(x: u32) -> (r: i32)
    ensures
        r == signed(x),
        r == x || r == x - 0x1_0000_0000,
{
    let r: i32 = x as i32;
    assert(x <= 0x7fff_ffff ==> x as i32 == x) by (bit_vector);
    assert(x > 0x7fff_ffff ==> x as i32 == x - 0x1_0000_0000) by (bit_vector);
    r
}

/// The signed reading of an unsigned number is the one number of the signed range that
/// differs from it by a multiple of `2^32`. What fits is kept as it is.
pub proof fn law_signed_is_congruent(x: u32)
    ensures
        i32::MIN <= signed(x) <= i32::MAX,
        signed(x) == x || signed(x) == x - 0x1_0000_0000,
        x <= i32::MAX ==> signed(x) == x,
        signed(x) >= 0 <==> x <= i32::MAX,
{
}

/// No two numbers have the same signed reading.
pub proof fn law_signed_is_injective(x: u32, y: u32)
    ensures
        signed(x) == signed(y) <==> x == y,
{
}

} // verus!
