# scap

The logic of a screen capturer, written in Rust and proved with Verus.

- `src/format.rs`: the pixel formats that a capture stream offers, and the decoding of
  their frames. A format is offered exactly when it can be decoded.
- `src/offer.rs`: what a stream offers before a format is negotiated.
- `src/listener.rs`: what the stream's callbacks remember, and what they make of a changed
  parameter.
- `src/process.rs`: the processing of a buffer, step by step. Every buffer is given back
  exactly once, and an unusable format is reported once per negotiation.
- `src/meta.rs`: the presentation time of a buffer.
- `src/control.rs`: starting and stopping, the loop in between, and the setup of the
  capturer's thread.
- `src/win.rs`: the capturer that is handed whole frames.
- `src/yuv.rs`: the conversion to luminance and chrominance, in binary64 arithmetic.
- `src/binary64.rs`: that arithmetic, on integers.
- `src/frame.rs`: the frames themselves.
- `app/`: the capture engines around the library, for PipeWire and for Windows.

A frame of `width` by `height` pixels is converted from the bytes at each pixel's number
and the two that follow it, so neighbouring pixels overlap.
