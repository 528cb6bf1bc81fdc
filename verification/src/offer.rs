//! What a capture stream offers to the other end before a format is negotiated.
use crate::format::{supported, VideoFormat, SUPPORTED_VIDEO_FORMATS};
use crate::listener::{MediaSubtype, MediaType};
use crate::meta::MetaType;
use vstd::prelude::*;

verus! {

/// What the user asks of a capture.
#[derive(Clone, Copy, Debug, PartialEq, Eq, Structural)]
pub struct Options {
    /// Frames per second, at most.
    pub fps: u32,
    /// Whether the cursor is captured too.
    pub show_cursor: bool,
}

/// A size in pixels.
#[derive(Clone, Copy, Debug, PartialEq, Eq, Structural)]
pub struct Rectangle {
    pub width: u32,
    pub height: u32,
}

impl Rectangle {
    /// This size fits into `other`.
    pub open spec fn fits(self, other: Rectangle) -> bool {
        self.width <= other.width && self.height <= other.height
    }
}

/// A rate as a fraction.
#[derive(Clone, Copy, Debug, PartialEq, Eq, Structural)]
pub struct Fraction {
    pub num: u32,
    pub denom: u32,
}

/// The formats that a stream accepts.
#[derive(Clone, Copy, Debug)]
pub struct FormatOffer {
    pub media_type: MediaType,
    pub media_subtype: MediaSubtype,
    /// The pixel formats, the preferred one first.
    pub formats: [VideoFormat; 5],
    pub default_size: Rectangle,
    pub min_size: Rectangle,
    pub max_size: Rectangle,
    pub max_framerate: Fraction,
}

/// The metadata that a stream asks for with each buffer.
#[derive(Clone, Copy, Debug, PartialEq, Eq, Structural)]
pub struct MetaOffer {
    pub meta_type: MetaType,
    /// The size of the record in bytes.
    pub size: i32,
}

/// The formats that are offered for a capture with `options`: raw video in every
/// supported pixel format, of any size up to 4096 by 4096, at no more than the frame rate
/// that the user asks for.
pub fn format_offer(options: &Options) -> (offer: FormatOffer)
    ensures
        offer.media_type == MediaType::Video,
        offer.media_subtype == MediaSubtype::Raw,
        offer.formats@ == SUPPORTED_VIDEO_FORMATS@,
        offer.default_size == (Rectangle { width: 128, height: 128 }),
        offer.min_size == (Rectangle { width: 1, height: 1 }),
        offer.max_size == (Rectangle { width: 4096, height: 4096 }),
        offer.max_framerate == (Fraction { num: options.fps, denom: 1 }),
        offer.min_size.fits(offer.default_size),
        offer.default_size.fits(offer.max_size),
        forall|format: VideoFormat|
            offer.formats@.contains(format) <==> #[trigger] supported(format),
{
    FormatOffer {
        media_type: MediaType::Video,
        media_subtype: MediaSubtype::Raw,
        formats: SUPPORTED_VIDEO_FORMATS,
        default_size: Rectangle { width: 128, height: 128 },
        min_size: Rectangle { width: 1, height: 1 },
        max_size: Rectangle { width: 4096, height: 4096 },
        max_framerate: Fraction { num: options.fps, denom: 1 },
    }
}

/// The metadata that is asked for: the header, whose record has `header_size` bytes.
pub fn meta_offer(header_size: i32) -> (offer: MetaOffer)
    ensures
        offer == (MetaOffer { meta_type: MetaType::Header, size: header_size }),
{
    MetaOffer { meta_type: MetaType::Header, size: header_size }
}

} // verus!
