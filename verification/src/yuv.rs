//! Conversion of interleaved bytes to luminance and chrominance.
use crate::binary64::{
    byte_of, decimal, lemma_decimal, lemma_rounding_error, lemma_rounding_order, round, rounded,
    spacing, to_byte, ONE,
};
use crate::frame::{signed, signed_dimension, YUVFrame};
use vstd::prelude::*;

verus! {

/// The binary64 number that `red_weight * r + green_weight * g + blue_weight * b`
/// evaluates to, from left to right and with every product and sum rounded, in units of
/// `2^-56`.
pub open spec fn weighted_sum(
    red_weight: int,
    green_weight: int,
    blue_weight: int,
    r: u8,
    g: u8,
    b: u8,
) -> int {
    let red = rounded(red_weight * r);
    let green = rounded(green_weight * g);
    let blue = rounded(blue_weight * b);
    rounded(rounded(red + green) + blue)
}

/// The luminance byte: `0.299 * r + 0.587 * g + 0.114 * b`.
pub open spec fn luminance(r: u8, g: u8, b: u8) -> u8 {
    to_byte(
        weighted_sum(
            decimal(299, 1000),
            decimal(587, 1000),
            decimal(114, 1000),
            r,
            g,
            b,
        ),
    )
}

/// The first chrominance byte: `-0.14713 * r + -0.28886 * g + 0.436 * b`.
pub open spec fn blue_chrominance(r: u8, g: u8, b: u8) -> u8 {
    to_byte(
        weighted_sum(
            -decimal(14713, 100000),
            -decimal(28886, 100000),
            decimal(436, 1000),
            r,
            g,
            b,
        ),
    )
}

/// The second chrominance byte: `0.615 * r + -0.51499 * g + -0.10001 * b`.
pub open spec fn red_chrominance(r: u8, g: u8, b: u8) -> u8 {
    to_byte(
        weighted_sum(
            decimal(615, 1000),
            -decimal(51499, 100000),
            -decimal(10001, 100000),
            r,
            g,
            b,
        ),
    )
}

/// `0.299` in units of `2^-56`.
const LUMINANCE_RED: i128 = 0x4c_8b43_9581_0624;

/// `0.587` in units of `2^-56`.
const LUMINANCE_GREEN: i128 = 0x96_45a1_cac0_8310;

/// `0.114` in units of `2^-56`.
const LUMINANCE_BLUE: i128 = 0x1d_2f1a_9fbe_76c9;

/// `-0.14713` in units of `2^-56`.
const BLUE_CHROMINANCE_RED: i128 = -0x25_aa4f_ca42_aed2;

/// `-0.28886` in units of `2^-56`.
const BLUE_CHROMINANCE_GREEN: i128 = -0x49_f2ba_9d1f_6018;

/// `0.436` in units of `2^-56`.
const BLUE_CHROMINANCE_BLUE: i128 = 0x6f_9db2_2d0e_5604;

/// `0.615` in units of `2^-56`.
const RED_CHROMINANCE_RED: i128 = 0x9d_70a3_d70a_3d70;

/// `-0.51499` in units of `2^-56`.
const RED_CHROMINANCE_GREEN: i128 = -0x83_d662_77c4_5cb8;

/// `-0.10001` in units of `2^-56`.
const RED_CHROMINANCE_BLUE: i128 = -0x19_9a41_5f45_e0b5;

/// The constants are the binary64 numbers nearest to the decimal weights.
proof fn lemma_weights()
    ensures
        LUMINANCE_RED == decimal(299, 1000),
        LUMINANCE_GREEN == decimal(587, 1000),
        LUMINANCE_BLUE == decimal(114, 1000),
        BLUE_CHROMINANCE_RED == -decimal(14713, 100000),
        BLUE_CHROMINANCE_GREEN == -decimal(28886, 100000),
        BLUE_CHROMINANCE_BLUE == decimal(436, 1000),
        RED_CHROMINANCE_RED == decimal(615, 1000),
        RED_CHROMINANCE_GREEN == -decimal(51499, 100000),
        RED_CHROMINANCE_BLUE == -decimal(10001, 100000),
{
    reveal_with_fuel(spacing, 6);
    lemma_decimal(299, 1000, 4, 0x1322d0e5604189);
    lemma_decimal(587, 1000, 8, 0x12c8b439581062);
    lemma_decimal(114, 1000, 1, 0x1d2f1a9fbe76c9);
    lemma_decimal(14713, 100000, 2, 0x12d527e5215769);
    lemma_decimal(28886, 100000, 4, 0x127caea747d806);
    lemma_decimal(436, 1000, 4, 0x1be76c8b439581);
    lemma_decimal(615, 1000, 8, 0x13ae147ae147ae);
    lemma_decimal(51499, 100000, 8, 0x107acc4ef88b97);
    lemma_decimal(10001, 100000, 1, 0x199a415f45e0b5);
}

/// A weight whose magnitude is below one.
spec fn is_weight(w: int) -> bool {
    -ONE < w < ONE
}

/// A product of a weight and a byte stays below 256 in magnitude.
proof fn lemma_product(w: int, x: u8)
    requires
        is_weight(w),
    ensures
        -256 * ONE < w * x < 256 * ONE,
{
    assert(-256 * ONE < w * x < 256 * ONE) by (nonlinear_arith)
        requires
            -ONE < w < ONE,
            0 <= x <= 255,
    ;
}

/// The rounding in a weighted sum moves it by fewer than `2^16` units in all.
proof fn lemma_weighted_sum_error(rw: int, gw: int, bw: int, r: u8, g: u8, b: u8)
    requires
        is_weight(rw),
        is_weight(gw),
        is_weight(bw),
    ensures
        -0x1_0000 < weighted_sum(rw, gw, bw, r, g, b) - (rw * r + gw * g + bw * b) < 0x1_0000,
{
    lemma_product(rw, r);
    lemma_product(gw, g);
    lemma_product(bw, b);
    let red = rounded(rw * r);
    let green = rounded(gw * g);
    let blue = rounded(bw * b);
    lemma_rounding_error(rw * r);
    lemma_rounding_error(gw * g);
    lemma_rounding_error(bw * b);
    lemma_rounding_error(red + green);
    lemma_rounding_error(rounded(red + green) + blue);
}

/// Evaluates a weighted sum of three bytes.
fn weigh(
    red_weight: i128,
    green_weight: i128,
    blue_weight: i128,
    r: u8,
    g: u8,
    b: u8,
) -> (sum: i128)
    requires
        is_weight(red_weight as int),
        is_weight(green_weight as int),
        is_weight(blue_weight as int),
    ensures
        sum == weighted_sum(
            red_weight as int,
            green_weight as int,
            blue_weight as int,
            r,
            g,
            b,
        ),
{
    proof {
        lemma_product(red_weight as int, r);
        lemma_product(green_weight as int, g);
        lemma_product(blue_weight as int, b);
        lemma_rounding_error(red_weight * r);
        lemma_rounding_error(green_weight * g);
        lemma_rounding_error(blue_weight * b);
    }
    let red: i128 = round(red_weight * r as i128);
    let green: i128 = round(green_weight * g as i128);
    let blue: i128 = round(blue_weight * b as i128);
    proof {
        lemma_rounding_error(red + green);
    }
    round(round(red + green) + blue)
}

/// The luminance byte and the two chrominance bytes of one pixel.
pub fn convert_pixel(r: u8, g: u8, b: u8) -> (yuv: (u8, u8, u8))
    ensures
        yuv.0 == luminance(r, g, b),
        yuv.1 == blue_chrominance(r, g, b),
        yuv.2 == red_chrominance(r, g, b),
{
    proof {
        lemma_weights();
    }
    let y: i128 = weigh(LUMINANCE_RED, LUMINANCE_GREEN, LUMINANCE_BLUE, r, g, b);
    let u: i128 = weigh(
        BLUE_CHROMINANCE_RED,
        BLUE_CHROMINANCE_GREEN,
        BLUE_CHROMINANCE_BLUE,
        r,
        g,
        b,
    );
    let v: i128 = weigh(
        RED_CHROMINANCE_RED,
        RED_CHROMINANCE_GREEN,
        RED_CHROMINANCE_BLUE,
        r,
        g,
        b,
    );
    (byte_of(y), byte_of(u), byte_of(v))
}

/// The luminance plane of `n` pixels. Pixel `i` takes its three bytes at `i`, `i + 1` and
/// `i + 2`: neighbouring pixels overlap.
pub open spec fn luminance_plane(img: Seq<u8>, n: nat) -> Seq<u8> {
    Seq::new(n, |i: int| luminance(img[i], img[i + 1], img[i + 2]))
}

/// The chrominance plane of `n` pixels, two bytes for each.
pub open spec fn chrominance_plane(img: Seq<u8>, n: nat) -> Seq<u8> {
    Seq::new(
        2 * n,
        |k: int|
            if k % 2 == 0 {
                blue_chrominance(img[k / 2], img[k / 2 + 1], img[k / 2 + 2])
            } else {
                red_chrominance(img[k / 2], img[k / 2 + 1], img[k / 2 + 2])
            },
    )
}

/// `img` is long enough for the conversion of `n` pixels.
pub open spec fn covers(img: Seq<u8>, n: nat) -> bool {
    n == 0 || n + 2 <= img.len()
}

/// `frame` is the conversion of `img`, an image of `width` by `height` pixels.
pub open spec fn converts(frame: YUVFrame, img: Seq<u8>, width: u32, height: u32) -> bool {
    let n = width as nat * height as nat;
    &&& frame.display_time == 0
    &&& frame.width == signed(width)
    &&& frame.height == signed(height)
    &&& frame.luminance_bytes@ == luminance_plane(img, n)
    &&& frame.luminance_stride == signed(width)
    &&& frame.chrominance_bytes@ == chrominance_plane(img, n)
    &&& frame.chrominance_stride == signed(width)
}

/// Converts the bytes of an image of `width` by `height` pixels to luminance and
/// chrominance. The display time is left at zero.
pub fn to_yuv(img: &[u8], width: u32, height: u32) -> (frame: YUVFrame)
    requires
        covers(img@, width as nat * height as nat),
    ensures
        converts(frame, img@, width, height),
        frame.luminance_bytes@.len() == width * height,
        frame.chrominance_bytes@.len() == 2 * (width * height),
        forall|i: int|
            #![trigger frame.luminance_bytes@[i]]
            0 <= i < width * height ==> frame.luminance_bytes@[i] == luminance(
                img@[i],
                img@[i + 1],
                img@[i + 2],
            ),
        forall|i: int|
            #![trigger frame.chrominance_bytes@[2 * i]]
            0 <= i < width * height ==> frame.chrominance_bytes@[2 * i] == blue_chrominance(
                img@[i],
                img@[i + 1],
                img@[i + 2],
            ),
        forall|i: int|
            #![trigger frame.chrominance_bytes@[2 * i + 1]]
            0 <= i < width * height ==> frame.chrominance_bytes@[2 * i + 1] == red_chrominance(
                img@[i],
                img@[i + 1],
                img@[i + 2],
            ),
{
    let mut luminance_bytes: Vec<u8> = Vec::new();
    let mut chrominance_bytes: Vec<u8> = Vec::new();
    let ghost n = width as nat * height as nat;

    let mut index: usize = 0;
    let mut y: u32 = 0;
    assert(0 * width == 0) by (nonlinear_arith);
    while y < height
        invariant
            y <= height,
            n == width as nat * height as nat,
            index == y * width,
            covers(img@, n),
            luminance_bytes@ == luminance_plane(img@, index as nat),
            chrominance_bytes@ == chrominance_plane(img@, index as nat),
        decreases height - y,
    {
        let mut x: u32 = 0;
        while x < width
            invariant
                x <= width,
                y < height,
                n == width as nat * height as nat,
                index == y * width + x,
                covers(img@, n),
                luminance_bytes@ == luminance_plane(img@, index as nat),
                chrominance_bytes@ == chrominance_plane(img@, index as nat),
            decreases width - x,
        {
            assert(y * width + x < n) by (nonlinear_arith)
                requires
                    y < height,
                    x < width,
                    n == width as nat * height as nat,
            ;
            let (luma, blue, red) = convert_pixel(img[index], img[index + 1], img[index + 2]);
            luminance_bytes.push(luma);
            chrominance_bytes.push(blue);
            chrominance_bytes.push(red);
            index = index + 1;
            x = x + 1;
            assert(luminance_bytes@ =~= luminance_plane(img@, index as nat));
            assert(chrominance_bytes@ =~= chrominance_plane(img@, index as nat));
        }
        assert((y + 1) * width == y * width + width) by (nonlinear_arith);
        y = y + 1;
    }
    assert(height * width == width * height) by (nonlinear_arith);

    YUVFrame {
        display_time: 0,
        width: signed_dimension(width),
        height: signed_dimension(height),
        luminance_bytes,
        luminance_stride: signed_dimension(width),
        chrominance_bytes,
        chrominance_stride: signed_dimension(width),
    }
}

/// `byte` is the whole part of `sum / scale`, brought up to zero where it is negative, or
/// one less where `sum / scale` is a whole number.
pub open spec fn is_near_floor(byte: u8, sum: int, scale: int) -> bool {
    if sum <= 0 {
        byte == 0
    } else {
        byte == sum / scale || (sum % scale == 0 && byte == sum / scale - 1)
    }
}

/// The luminance byte is the whole part of the weighted mean in exact arithmetic, and
/// only where that mean is itself a whole number can rounding make it one less.
pub proof fn law_luminance_near_exact(r: u8, g: u8, b: u8)
    ensures
        is_near_floor(luminance(r, g, b), 299 * r + 587 * g + 114 * b, 1000),
{
    lemma_weights();
    lemma_weighted_sum_error(
        LUMINANCE_RED as int,
        LUMINANCE_GREEN as int,
        LUMINANCE_BLUE as int,
        r,
        g,
        b,
    );
}

/// The first chrominance byte against exact arithmetic.
proof fn lemma_blue_chrominance_near_exact(r: u8, g: u8, b: u8)
    ensures
        is_near_floor(blue_chrominance(r, g, b), 43600 * b - 14713 * r - 28886 * g, 100000),
{
    lemma_weights();
    lemma_weighted_sum_error(
        BLUE_CHROMINANCE_RED as int,
        BLUE_CHROMINANCE_GREEN as int,
        BLUE_CHROMINANCE_BLUE as int,
        r,
        g,
        b,
    );
}

/// The second chrominance byte against exact arithmetic.
proof fn lemma_red_chrominance_near_exact(r: u8, g: u8, b: u8)
    ensures
        is_near_floor(red_chrominance(r, g, b), 61500 * r - 51499 * g - 10001 * b, 100000),
{
    lemma_weights();
    lemma_weighted_sum_error(
        RED_CHROMINANCE_RED as int,
        RED_CHROMINANCE_GREEN as int,
        RED_CHROMINANCE_BLUE as int,
        r,
        g,
        b,
    );
}

/// The chrominance bytes are the whole parts of the differences in exact arithmetic,
/// zero where a difference is negative, and only where a difference is a whole number
/// can rounding make its byte one less.
pub proof fn law_chrominance_near_exact(r: u8, g: u8, b: u8)
    ensures
        is_near_floor(blue_chrominance(r, g, b), 43600 * b - 14713 * r - 28886 * g, 100000),
        is_near_floor(red_chrominance(r, g, b), 61500 * r - 51499 * g - 10001 * b, 100000),
{
    lemma_blue_chrominance_near_exact(r, g, b);
    lemma_red_chrominance_near_exact(r, g, b);
}

/// A product does not shrink when its factor moves in the direction of the weight's sign.
proof fn lemma_product_order(w: int, x: u8, y: u8)
    requires
        w >= 0 ==> x <= y,
        w <= 0 ==> y <= x,
    ensures
        rounded(w * x) <= rounded(w * y),
{
    assert(w * x <= w * y) by (nonlinear_arith)
        requires
            w >= 0 ==> x <= y,
            w <= 0 ==> y <= x,
    ;
    lemma_rounding_order(w * x, w * y);
}

/// A weighted sum does not shrink when every byte moves in the direction of its weight's
/// sign.
proof fn lemma_weighted_sum_order(
    rw: int,
    gw: int,
    bw: int,
    r: u8,
    g: u8,
    b: u8,
    r2: u8,
    g2: u8,
    b2: u8,
)
    requires
        rw >= 0 ==> r <= r2,
        rw <= 0 ==> r2 <= r,
        gw >= 0 ==> g <= g2,
        gw <= 0 ==> g2 <= g,
        bw >= 0 ==> b <= b2,
        bw <= 0 ==> b2 <= b,
    ensures
        weighted_sum(rw, gw, bw, r, g, b) <= weighted_sum(rw, gw, bw, r2, g2, b2),
{
    lemma_product_order(rw, r, r2);
    lemma_product_order(gw, g, g2);
    lemma_product_order(bw, b, b2);
    let red = rounded(rw * r);
    let green = rounded(gw * g);
    let blue = rounded(bw * b);
    let red2 = rounded(rw * r2);
    let green2 = rounded(gw * g2);
    let blue2 = rounded(bw * b2);
    lemma_rounding_order(red + green, red2 + green2);
    lemma_rounding_order(
        rounded(red + green) + blue,
        rounded(red2 + green2) + blue2,
    );
}

/// A pixel that is at least as bright in every component has at least the luminance.
pub proof fn law_luminance_order(r: u8, g: u8, b: u8, r2: u8, g2: u8, b2: u8)
    requires
        r <= r2,
        g <= g2,
        b <= b2,
    ensures
        luminance(r, g, b) <= luminance(r2, g2, b2),
{
    lemma_weights();
    lemma_weighted_sum_order(
        LUMINANCE_RED as int,
        LUMINANCE_GREEN as int,
        LUMINANCE_BLUE as int,
        r,
        g,
        b,
        r2,
        g2,
        b2,
    );
}

/// The first chrominance byte does not fall as blue rises and red and green fall.
pub proof fn law_blue_chrominance_order(r: u8, g: u8, b: u8, r2: u8, g2: u8, b2: u8)
    requires
        r2 <= r,
        g2 <= g,
        b <= b2,
    ensures
        blue_chrominance(r, g, b) <= blue_chrominance(r2, g2, b2),
{
    lemma_weights();
    lemma_weighted_sum_order(
        BLUE_CHROMINANCE_RED as int,
        BLUE_CHROMINANCE_GREEN as int,
        BLUE_CHROMINANCE_BLUE as int,
        r,
        g,
        b,
        r2,
        g2,
        b2,
    );
}

/// The second chrominance byte does not fall as red rises and green and blue fall.
pub proof fn law_red_chrominance_order(r: u8, g: u8, b: u8, r2: u8, g2: u8, b2: u8)
    requires
        r <= r2,
        g2 <= g,
        b2 <= b,
    ensures
        red_chrominance(r, g, b) <= red_chrominance(r2, g2, b2),
{
    lemma_weights();
    lemma_weighted_sum_order(
        RED_CHROMINANCE_RED as int,
        RED_CHROMINANCE_GREEN as int,
        RED_CHROMINANCE_BLUE as int,
        r,
        g,
        b,
        r2,
        g2,
        b2,
    );
}

/// An image is long enough for its conversion when it has no pixels, or when two bytes
/// follow the first byte of its last pixel.
pub proof fn law_covers(img: Seq<u8>, n: nat, i: int)
    ensures
        covers(img, n) <==> n == 0 || img.len() >= n + 2,
        covers(img, n) && 0 <= i < n ==> i + 2 < img.len(),
{
}

/// Pixel by pixel, whatever the size of the image: the luminance plane holds one byte for
/// each pixel, the chrominance plane two, and those of pixel `i` are its luminance, its
/// first and its second chrominance, in the bytes of the image at `i`, `i + 1` and `i + 2`.
pub proof fn law_pixel_by_pixel(frame: YUVFrame, img: Seq<u8>, width: u32, height: u32, i: int)
    requires
        converts(frame, img, width, height),
        0 <= i < width * height,
    ensures
        frame.luminance_bytes@.len() == width * height,
        frame.chrominance_bytes@.len() == 2 * (width * height),
        frame.luminance_bytes@[i] == luminance(img[i], img[i + 1], img[i + 2]),
        frame.chrominance_bytes@[2 * i] == blue_chrominance(img[i], img[i + 1], img[i + 2]),
        frame.chrominance_bytes@[2 * i + 1] == red_chrominance(img[i], img[i + 1], img[i + 2]),
{
    assert((2 * i) % 2 == 0 && (2 * i) / 2 == i);
    assert((2 * i + 1) % 2 == 1 && (2 * i + 1) / 2 == i);
}

/// A converted frame has the size of its image, read as signed, its rows are as long as
/// the image is wide, it carries no time, and its planes hold exactly one and two bytes
/// per pixel.
pub proof fn law_converted_shape(frame: YUVFrame, img: Seq<u8>, width: u32, height: u32)
    requires
        converts(frame, img, width, height),
    ensures
        frame.display_time == 0,
        frame.width == signed(width),
        frame.height == signed(height),
        frame.luminance_stride == signed(width),
        frame.chrominance_stride == signed(width),
        frame.luminance_bytes@.len() == width * height,
        frame.chrominance_bytes@.len() == 2 * (width * height),
{
}

/// A pixel is converted by its three bytes alone: where two images agree on them, their
/// conversions agree on the pixel, whatever else the images hold and however large they
/// are.
pub proof fn law_pixel_is_local(
    first: YUVFrame,
    img1: Seq<u8>,
    width1: u32,
    height1: u32,
    i: int,
    second: YUVFrame,
    img2: Seq<u8>,
    width2: u32,
    height2: u32,
    j: int,
)
    requires
        converts(first, img1, width1, height1),
        converts(second, img2, width2, height2),
        0 <= i < width1 * height1,
        0 <= j < width2 * height2,
        img1[i] == img2[j],
        img1[i + 1] == img2[j + 1],
        img1[i + 2] == img2[j + 2],
    ensures
        first.luminance_bytes@[i] == second.luminance_bytes@[j],
        first.chrominance_bytes@[2 * i] == second.chrominance_bytes@[2 * j],
        first.chrominance_bytes@[2 * i + 1] == second.chrominance_bytes@[2 * j + 1],
{
    law_pixel_by_pixel(first, img1, width1, height1, i);
    law_pixel_by_pixel(second, img2, width2, height2, j);
}

/// The planes of a converted image against exact arithmetic: each byte is the whole part
/// of its weighted sum, or one less where that sum is a whole number.
pub proof fn law_planes_near_exact(frame: YUVFrame, img: Seq<u8>, width: u32, height: u32, i: int)
    requires
        converts(frame, img, width, height),
        0 <= i < width * height,
    ensures
        ({
            let (r, g, b) = (img[i], img[i + 1], img[i + 2]);
            &&& is_near_floor(frame.luminance_bytes@[i], 299 * r + 587 * g + 114 * b, 1000)
            &&& is_near_floor(
                frame.chrominance_bytes@[2 * i],
                43600 * b - 14713 * r - 28886 * g,
                100000,
            )
            &&& is_near_floor(
                frame.chrominance_bytes@[2 * i + 1],
                61500 * r - 51499 * g - 10001 * b,
                100000,
            )
        }),
{
    law_pixel_by_pixel(frame, img, width, height, i);
    law_luminance_near_exact(img[i], img[i + 1], img[i + 2]);
    law_chrominance_near_exact(img[i], img[i + 1], img[i + 2]);
}

} // verus!
