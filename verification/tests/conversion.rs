use scap::binary64::{byte_of, round, ONE};
use scap::frame::Frame;
use scap::win::Capturer;
use scap::yuv::{convert_pixel, to_yuv};

/// The conversion of a pixel in binary64 arithmetic.
fn convert_in_floats(r: u8, g: u8, b: u8) -> (u8, u8, u8) {
    let r = r as f64;
    let g = g as f64;
    let b = b as f64;
    let y = 0.299 * r + 0.587 * g + 0.114 * b;
    let u = -0.14713 * r + -0.28886 * g + 0.436 * b;
    let v = 0.615 * r + -0.51499 * g + -0.10001 * b;
    (y as u8, u as u8, v as u8)
}

/// Compares the conversion of every pixel whose red byte is in `reds`.
fn compare(reds: std::ops::RangeInclusive<u8>) {
    for r in reds {
        for g in 0..=255u8 {
            for b in 0..=255u8 {
                assert_eq!(convert_pixel(r, g, b), convert_in_floats(r, g, b), "{r} {g} {b}");
            }
        }
    }
}

#[test]
fn pixels_of_note() {
    assert_eq!(convert_pixel(0, 0, 0), (0, 0, 0));
    assert_eq!(convert_pixel(255, 255, 255), convert_in_floats(255, 255, 255));
    assert_eq!(convert_pixel(255, 0, 0), (76, 0, 156));
    assert_eq!(convert_pixel(0, 255, 0), (149, 0, 0));
    assert_eq!(convert_pixel(0, 0, 255), (29, 111, 0));
    // The exact luminance of a gray pixel is its gray, but the sum can fall short of it.
    assert_eq!(convert_pixel(1, 1, 1).0, 0);
    assert_eq!(convert_pixel(3, 3, 3).0, 3);
}

#[test]
fn luminance_is_near_the_exact_mean_and_in_order() {
    for r in (0..=255u8).step_by(5) {
        for g in (0..=255u8).step_by(3) {
            let mut last = 0u8;
            for b in 0..=255u8 {
                let (y, _, _) = convert_pixel(r, g, b);
                let sum = 299 * r as u32 + 587 * g as u32 + 114 * b as u32;
                assert!(y as u32 == sum / 1000 || (sum % 1000 == 0 && y as u32 + 1 == sum / 1000));
                assert!(y >= last);
                last = y;
            }
        }
    }
}

/// `byte` is the whole part of `sum / 100000`, or one less where that is a whole number.
fn near(byte: u8, sum: i32) -> bool {
    if sum <= 0 {
        return byte == 0;
    }
    let whole = sum / 100000;
    byte as i32 == whole || (sum % 100000 == 0 && byte as i32 == whole - 1)
}

#[test]
fn chrominance_is_near_the_exact_difference_and_in_order() {
    for r in (0..=255u8).step_by(5) {
        for g in (0..=255u8).step_by(3) {
            let (mut last_u, mut last_v) = (0u8, 255u8);
            for b in 0..=255u8 {
                let (_, u, v) = convert_pixel(r, g, b);
                let (ri, gi, bi) = (r as i32, g as i32, b as i32);
                assert!(near(u, 43600 * bi - 14713 * ri - 28886 * gi));
                assert!(near(v, 61500 * ri - 51499 * gi - 10001 * bi));
                assert!(u >= last_u && v <= last_v);
                last_u = u;
                last_v = v;
            }
        }
    }
}

#[test]
fn rounding_keeps_the_order() {
    let p = 1i128 << 53;
    for near in [0, p, 2 * p, 4 * p, 255 * ONE as i128] {
        let mut last = round(near - 40);
        for x in near - 40..near + 40 {
            let r = round(x);
            assert!(r >= last);
            assert!((r - x).abs() <= 0x2000);
            assert_eq!(round(-x), -r);
            last = r;
        }
    }
}

#[test]
fn numbers_round_to_the_nearest_even() {
    let p = 1i128 << 53;
    assert_eq!(round(p - 1), p - 1);
    assert_eq!(round(p + 1), p);
    assert_eq!(round(p + 2), p + 2);
    assert_eq!(round(p + 3), p + 4);
    assert_eq!(round(-(p + 1)), -p);
    assert_eq!(round(-(p + 3)), -(p + 4));
    assert_eq!(round(2 * p + 2), 2 * p);
    assert_eq!(round(2 * p + 3), 2 * p + 4);
    assert_eq!(round(2 * p - 1), 2 * p);
    assert_eq!(round(1i128 << 66), 1i128 << 66);
}

#[test]
fn numbers_become_bytes() {
    let one = ONE as i128;
    assert_eq!(byte_of(-1), 0);
    assert_eq!(byte_of(-300 * one), 0);
    assert_eq!(byte_of(one - 1), 0);
    assert_eq!(byte_of(one), 1);
    assert_eq!(byte_of(256 * one - 1), 255);
    assert_eq!(byte_of(256 * one), 255);
    assert_eq!(byte_of(1000 * one), 255);
}

#[test]
fn an_image_becomes_two_planes() {
    let img: Vec<u8> = vec![200, 10, 90, 255, 0, 31, 7, 128];
    let frame = to_yuv(&img, 3, 2);
    assert_eq!(frame.display_time, 0);
    assert_eq!((frame.width, frame.height), (3, 2));
    assert_eq!((frame.luminance_stride, frame.chrominance_stride), (3, 3));
    let mut luminance = Vec::new();
    let mut chrominance = Vec::new();
    for i in 0..6 {
        let (y, u, v) = convert_in_floats(img[i], img[i + 1], img[i + 2]);
        luminance.push(y);
        chrominance.push(u);
        chrominance.push(v);
    }
    assert_eq!(frame.luminance_bytes, luminance);
    assert_eq!(frame.chrominance_bytes, chrominance);
    assert_eq!(luminance[0], 75);
}

#[test]
fn an_image_without_pixels_needs_no_bytes() {
    let frame = to_yuv(&[], 0, 5);
    assert_eq!((frame.width, frame.height), (0, 5));
    assert!(frame.luminance_bytes.is_empty());
    assert!(frame.chrominance_bytes.is_empty());
    let wide = to_yuv(&[], u32::MAX, 0);
    assert_eq!((wide.width, wide.luminance_stride), (-1, -1));
}

#[test]
fn an_arrived_frame_is_sent_converted_and_raw() {
    let (tx, rx) = std::sync::mpsc::channel();
    let capturer = Capturer::new(tx);
    let raw: Vec<u8> = vec![1, 2, 3, 4, 50, 60, 70, 80];
    for frame in capturer.on_frame_arrived(&raw, 2, 1) {
        capturer.tx.send(frame).unwrap();
    }
    match rx.recv().unwrap() {
        Frame::YUVFrame(frame) => {
            let expected = to_yuv(&raw, 2, 1);
            assert_eq!(frame.luminance_bytes, expected.luminance_bytes);
            assert_eq!(frame.chrominance_bytes, expected.chrominance_bytes);
            assert_eq!((frame.width, frame.height), (2, 1));
        }
        other => panic!("{other:?}"),
    }
    match rx.recv().unwrap() {
        Frame::BGR0(data) => assert_eq!(data, raw),
        other => panic!("{other:?}"),
    }
    drop(capturer);
    assert!(rx.recv().is_err());
}

#[test]
fn pixels_agree_with_floats_from_red_0() {
    compare(0..=15);
}

#[test]
fn pixels_agree_with_floats_from_red_16() {
    compare(16..=31);
}

#[test]
fn pixels_agree_with_floats_from_red_32() {
    compare(32..=47);
}

#[test]
fn pixels_agree_with_floats_from_red_48() {
    compare(48..=63);
}

#[test]
fn pixels_agree_with_floats_from_red_64() {
    compare(64..=79);
}

#[test]
fn pixels_agree_with_floats_from_red_80() {
    compare(80..=95);
}

#[test]
fn pixels_agree_with_floats_from_red_96() {
    compare(96..=111);
}

#[test]
fn pixels_agree_with_floats_from_red_112() {
    compare(112..=127);
}

#[test]
fn pixels_agree_with_floats_from_red_128() {
    compare(128..=143);
}

#[test]
fn pixels_agree_with_floats_from_red_144() {
    compare(144..=159);
}

#[test]
fn pixels_agree_with_floats_from_red_160() {
    compare(160..=175);
}

#[test]
fn pixels_agree_with_floats_from_red_176() {
    compare(176..=191);
}

#[test]
fn pixels_agree_with_floats_from_red_192() {
    compare(192..=207);
}

#[test]
fn pixels_agree_with_floats_from_red_208() {
    compare(208..=223);
}

#[test]
fn pixels_agree_with_floats_from_red_224() {
    compare(224..=239);
}

#[test]
fn pixels_agree_with_floats_from_red_240() {
    compare(240..=255);
}
