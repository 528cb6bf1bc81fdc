//! The capturer that is handed whole frames by the system.
use crate::frame::Frame;
use crate::yuv::{converts, covers, to_yuv};
use vstd::prelude::*;

verus! {

/// `std::sync::mpsc::Sender`, carried through as an opaque value.
#[verifier::external_type_specification]
#[verifier::external_body]
#[verifier::reject_recursive_types(T)]
pub struct ExSender<T>(std::sync::mpsc::Sender<T>);

/// A capturer, which sends its frames over a channel.
pub struct Capturer {
    pub tx: std::sync::mpsc::Sender<Frame>,
}

impl Capturer {
    /// A capturer that sends over `tx`.
    pub fn new(tx: std::sync::mpsc::Sender<Frame>) -> (capturer: Capturer)
        ensures
            capturer.tx == tx,
    {
        Capturer { tx }
    }

    /// The frames to send, in this order, when a frame of `width` by `height` pixels has
    /// arrived whose bytes are `raw`: its conversion, then its bytes as they are.
    pub fn on_frame_arrived(&self, raw: &[u8], width: u32, height: u32) -> (frames: Vec<Frame>)
        requires
            covers(raw@, width as nat * height as nat),
        ensures
            frames@.len() == 2,
            frames@[0] matches Frame::YUVFrame(frame) && converts(
                frame,
                raw@,
                width,
                height,
            ),
            frames@[1] matches Frame::BGR0(data) && data@ == raw@,
    {
        let mut data: Vec<u8> = Vec::new();
        data.extend_from_slice(raw);
        let yuv_data = to_yuv(raw, width, height);
        assert(data@ =~= raw@);

        let mut frames: Vec<Frame> = Vec::new();
        frames.push(Frame::YUVFrame(yuv_data));
        frames.push(Frame::BGR0(data));
        frames
    }
}

} // verus!
