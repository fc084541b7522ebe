//! Crop geometry: from a face box and the crop parameters to a crop rectangle
//! that lies inside the image.
//!
//! Fractions (top padding, aspect ratio, proportion of face) are given in
//! millionths. The unclamped crop is computed exactly, as a rectangle of
//! rationals over one shared denominator; clamping and truncation to whole
//! pixels happen last.
use vstd::arithmetic::div_mod::{
    lemma_div_by_multiple, lemma_div_is_ordered, lemma_div_pos_is_pos, lemma_fundamental_div_mod,
    lemma_mod_multiples_basic,
};
use vstd::prelude::*;

verus! {

/// One whole, in the millionths that fractions are given in.
pub const SCALE: u32 = 1_000_000;

/// An axis-aligned rectangle in whole pixels.
#[derive(Clone, Copy, Debug, PartialEq, Eq, Structural)]
pub struct Rect {
    pub x: i64,
    pub y: i64,
    pub width: u32,
    pub height: u32,
}

/// A rectangle whose coordinates are rationals over the positive denominator
/// `den`: its left edge lies at `x / den`, its width is `width / den`, and so on.
#[derive(Clone, Copy, Debug, PartialEq, Eq, Structural)]
pub struct ScaledRect {
    pub x: i128,
    pub y: i128,
    pub width: i128,
    pub height: i128,
    pub den: i128,
}

/// The mathematical value of a `ScaledRect`: a rectangle with rational
/// coordinates, each given as a numerator over the shared denominator `den`.
pub struct Frame {
    pub x: int,
    pub y: int,
    pub width: int,
    pub height: int,
    pub den: int,
}

impl View for ScaledRect {
    type V = Frame;

    open spec fn view(&self) -> Frame {
        Frame {
            x: self.x as int,
            y: self.y as int,
            width: self.width as int,
            height: self.height as int,
            den: self.den as int,
        }
    }
}

/// A crop of a fixed size in pixels.
#[derive(Clone, Copy, Debug, PartialEq, Eq, Structural)]
pub struct AbsoluteCrop {
    pub height: u32,
    pub width: u32,
}

/// A crop sized from the face: the face takes up `proportion_of_face` of the
/// crop's height, and the crop's width is its height times `aspect_ratio`.
/// Both are in millionths.
#[derive(Clone, Copy, Debug, PartialEq, Eq, Structural)]
pub struct RelativeCrop {
    pub aspect_ratio: u64,
    pub proportion_of_face: u32,
}

#[derive(Clone, Copy, Debug, PartialEq, Eq, Structural)]
pub enum CropParamsKind {
    Absolute(AbsoluteCrop),
    Relative(RelativeCrop),
}

/// How to place a crop around a face. `top_padding` (in millionths) is the
/// share of the crop's height that lies above the face's top edge.
#[derive(Clone, Copy, Debug, PartialEq, Eq, Structural)]
pub struct CropParams {
    pub top_padding: u32,
    pub kind: CropParamsKind,
}

impl CropParams {
    /// Top padding within [0, 1]; a relative crop has an aspect ratio above 0
    /// and a proportion of face within (0, 1].
    pub open spec fn wf(self) -> bool {
        &&& self.top_padding <= SCALE
        &&& match self.kind {
            CropParamsKind::Absolute(_) => true,
            CropParamsKind::Relative(r) => 0 < r.aspect_ratio && 0 < r.proportion_of_face
                && r.proportion_of_face <= SCALE,
        }
    }
}

/// The denominator of the unclamped crop: `2 * SCALE * q`, with `q` the
/// proportion of face for a relative crop and 1 for an absolute one.
pub open spec fn crop_den(params: CropParams) -> int {
    match params.kind {
        CropParamsKind::Absolute(_) => 2 * SCALE * 1,
        CropParamsKind::Relative(r) => 2 * SCALE * r.proportion_of_face,
    }
}

/// The unclamped crop height, over `crop_den`.
pub open spec fn crop_height_num(face: Rect, params: CropParams) -> int {
    match params.kind {
        CropParamsKind::Absolute(a) => 2 * SCALE * a.height,
        CropParamsKind::Relative(_) => 2 * SCALE * SCALE * face.height,
    }
}

/// The unclamped crop width, over `crop_den`.
pub open spec fn crop_width_num(face: Rect, params: CropParams) -> int {
    match params.kind {
        CropParamsKind::Absolute(a) => 2 * SCALE * a.width,
        CropParamsKind::Relative(r) => 2 * SCALE * face.height * r.aspect_ratio,
    }
}

/// The crop before clamping: centred horizontally on the face, with its top
/// edge `top_padding` of its height above the face's top edge.
pub open spec fn crop_frame(face: Rect, params: CropParams) -> Frame {
    let den = crop_den(params);
    let h = crop_height_num(face, params);
    let w = crop_width_num(face, params);
    Frame {
        x: face.x * den + face.width * (den / 2) - w / 2,
        y: face.y * den - h * params.top_padding / (SCALE as int),
        width: w,
        height: h,
        den,
    }
}

/// `v` limited to the interval [lo, hi].
pub open spec fn clamp(v: int, lo: int, hi: int) -> int {
    if v < lo {
        lo
    } else if v > hi {
        hi
    } else {
        v
    }
}

/// The part of `frame` that lies in the image `[0, image_width] x [0, image_height]`,
/// truncated to whole pixels. Where the two do not overlap, the result is a
/// rectangle of zero width or height on the image's border.
pub open spec fn clamp_to_image(frame: Frame, image_width: int, image_height: int) -> Rect {
    let den = frame.den;
    let left = clamp(frame.x, 0, image_width * den);
    let right = clamp(frame.x + frame.width, 0, image_width * den);
    let top = clamp(frame.y, 0, image_height * den);
    let bottom = clamp(frame.y + frame.height, 0, image_height * den);
    Rect {
        x: (left / den) as i64,
        y: (top / den) as i64,
        width: ((right - left) / den) as u32,
        height: ((bottom - top) / den) as u32,
    }
}

/// The crop of `face` in an image of the given size.
pub open spec fn face_crop(face: Rect, image_width: int, image_height: int, params: CropParams) -> Rect {
    clamp_to_image(crop_frame(face, params), image_width, image_height)
}

/// Height and width of a relative crop, and the denominator they are over,
/// `2 * SCALE * proportion_of_face`: the height is `face.height /
/// proportion_of_face`, the width that height times `aspect_ratio`.
pub fn calculate_crop_dimensions_by_ratios(face: &Rect, aspect_ratio: u64, proportion_of_face: u32)
    -> (r: (i128, i128, i128))
    requires
        0 < proportion_of_face <= SCALE,
    ensures
        r.0 == 2 * SCALE * SCALE * face.height,
        r.1 == 2 * SCALE * face.height * aspect_ratio,
        r.2 == 2 * SCALE * proportion_of_face,
        0 < r.2 <= 2 * SCALE * SCALE,
{
    let s = SCALE as i128;
    let fh = face.height as i128;
    assert(0 <= s * s * fh <= 1_000_000_000_000 * 0x1_0000_0000) by (nonlinear_arith)
        requires s == 1_000_000, 0 <= fh <= 0xffff_ffff;
    assert(0 <= s * fh * (aspect_ratio as i128) <= 1_000_000 * 0x1_0000_0000 * 0x1_0000_0000_0000_0000)
        by (nonlinear_arith)
        requires s == 1_000_000, 0 <= fh <= 0xffff_ffff, 0 <= aspect_ratio <= 0xffff_ffff_ffff_ffff;
    let crop_height = 2 * (s * s * fh);
    let crop_width = 2 * (s * fh * (aspect_ratio as i128));
    assert(crop_height == 2 * SCALE * SCALE * face.height) by (nonlinear_arith)
        requires crop_height == 2 * (s * s * fh), s == SCALE, fh == face.height;
    assert(crop_width == 2 * SCALE * face.height * aspect_ratio) by (nonlinear_arith)
        requires crop_width == 2 * (s * fh * (aspect_ratio as i128)), s == SCALE, fh == face.height;
    assert(0 < 2 * s * (proportion_of_face as i128) <= 2 * s * s) by (nonlinear_arith)
        requires s == 1_000_000, 0 < proportion_of_face <= 1_000_000;
    let den = 2 * s * (proportion_of_face as i128);
    (crop_height, crop_width, den)
}

/// Bounds on the products that place a crop, so that they fit in `i128`.
proof fn lemma_position_bounds(face: Rect, crop_height: int, top_padding: int, den: int)
    requires
        0 < den <= 2 * SCALE * SCALE,
        0 <= crop_height <= 2 * SCALE * SCALE * 0xffff_ffff,
        0 <= top_padding <= SCALE,
    ensures
        -0x8000_0000_0000_0000 * 2_000_000_000_000 <= face.x * den <= 0x8000_0000_0000_0000 * 2_000_000_000_000,
        -0x8000_0000_0000_0000 * 2_000_000_000_000 <= face.y * den <= 0x8000_0000_0000_0000 * 2_000_000_000_000,
        0 <= face.width * (den / 2) <= 0x1_0000_0000 * 2_000_000_000_000,
        0 <= crop_height * top_padding <= 2_000_000_000_000 * 0x1_0000_0000 * 1_000_000,
        0 <= crop_height * top_padding / (SCALE as int) <= 2_000_000_000_000 * 0x1_0000_0000,
{
    let fx = face.x as int;
    let fy = face.y as int;
    let fw = face.width as int;
    assert(-0x8000_0000_0000_0000 * 2_000_000_000_000 <= fx * den <= 0x8000_0000_0000_0000 * 2_000_000_000_000)
        by (nonlinear_arith)
        requires -0x8000_0000_0000_0000 <= fx <= 0x8000_0000_0000_0000, 0 < den <= 2_000_000_000_000;
    assert(-0x8000_0000_0000_0000 * 2_000_000_000_000 <= fy * den <= 0x8000_0000_0000_0000 * 2_000_000_000_000)
        by (nonlinear_arith)
        requires -0x8000_0000_0000_0000 <= fy <= 0x8000_0000_0000_0000, 0 < den <= 2_000_000_000_000;
    assert(0 <= fw * (den / 2) <= 0x1_0000_0000 * 2_000_000_000_000) by (nonlinear_arith)
        requires 0 <= fw <= 0x1_0000_0000, 0 <= den / 2 <= 2_000_000_000_000;
    assert(0 <= crop_height * top_padding <= 2_000_000_000_000 * 0x1_0000_0000 * 1_000_000) by (nonlinear_arith)
        requires 0 <= crop_height <= 2_000_000_000_000 * 0x1_0000_0000, 0 <= top_padding <= 1_000_000;
    lemma_div_pos_is_pos(crop_height * top_padding, SCALE as int);
    lemma_div_is_ordered(
        crop_height * top_padding,
        (2_000_000_000_000 * 0x1_0000_0000 * 1_000_000) as int,
        SCALE as int,
    );
}

/// Top-left corner of a crop of the given height and width (both over `den`),
/// over `den` as well: centred horizontally on the face, and `top_padding`
/// (in millionths) of the crop's height above the face's top edge. The
/// inputs are such that both are whole numerators: `den` and `crop_width` are
/// even, and `crop_height` is a multiple of `SCALE`.
pub fn calculate_crop_position(
    face: &Rect,
    crop_height: i128,
    crop_width: i128,
    top_padding: u32,
    den: i128,
) -> (r: (i128, i128))
    requires
        0 < den <= 2 * SCALE * SCALE,
        0 <= crop_height <= 2 * SCALE * SCALE * 0xffff_ffff,
        0 <= crop_width <= 2 * SCALE * 0xffff_ffff * 0xffff_ffff_ffff_ffff,
        top_padding <= SCALE,
        den % 2 == 0,
        crop_width % 2 == 0,
        crop_height as int % (SCALE as int) == 0,
    ensures
        2 * r.0 + crop_width == (2 * face.x + face.width) * den,
        r.1 * SCALE == face.y * den * SCALE - crop_height * top_padding,
        r.0 == face.x * den + face.width * (den / 2) - crop_width / 2,
        r.1 == face.y * den - crop_height * top_padding / (SCALE as int),
        -0x100_0000_0000_0000_0000_0000_0000_0000 <= r.0 <= 0x100_0000_0000_0000_0000_0000_0000_0000,
        -0x100_0000_0000_0000_0000_0000_0000_0000 <= r.1 <= 0x100_0000_0000_0000_0000_0000_0000_0000,
{
    proof {
        lemma_position_bounds(*face, crop_height as int, top_padding as int, den as int);
    }
    let x = face.x as i128;
    let y = face.y as i128;
    let fw = face.width as i128;
    let t = top_padding as i128;
    let half = den / 2;
    let crop_x = x * den + fw * half - crop_width / 2;
    let crop_y = y * den - crop_height * t / (SCALE as i128);
    proof {
        let k = crop_height as int / (SCALE as int);
        lemma_fundamental_div_mod(crop_height as int, SCALE as int);
        assert(crop_height == SCALE * k);
        assert(crop_height * t == (k * t) * SCALE) by (nonlinear_arith)
            requires crop_height == SCALE * k;
        lemma_div_by_multiple(k * t, SCALE as int);
        assert(crop_y * SCALE == face.y * den * SCALE - crop_height * t) by (nonlinear_arith)
            requires crop_y == y * den - k * t, crop_height * t == (k * t) * SCALE, y == face.y;
        assert(2 * crop_x + crop_width == (2 * face.x + face.width) * den) by (nonlinear_arith)
            requires
                crop_x == x * den + fw * half - crop_width / 2,
                den == 2 * half,
                crop_width == 2 * (crop_width / 2),
                x == face.x,
                fw == face.width;
    }
    (crop_x, crop_y)
}

/// The crop of `face` before clamping, exactly, over the denominator `crop_den(params)`.
pub fn calculate_crop_frame(face: &Rect, params: &CropParams) -> (r: ScaledRect)
    requires
        params.wf(),
    ensures
        r@ == crop_frame(*face, *params),
        0 < r.den <= 2 * SCALE * SCALE,
        -0x100_0000_0000_0000_0000_0000_0000_0000 <= r.x <= 0x100_0000_0000_0000_0000_0000_0000_0000,
        -0x100_0000_0000_0000_0000_0000_0000_0000 <= r.y <= 0x100_0000_0000_0000_0000_0000_0000_0000,
        0 <= r.width <= 2 * SCALE * 0xffff_ffff * 0xffff_ffff_ffff_ffff,
        0 <= r.height <= 2 * SCALE * SCALE * 0xffff_ffff,
{
    let s = SCALE as i128;
    let (crop_height, crop_width, den) = match params.kind {
        CropParamsKind::Absolute(a) => {
            assert(0 <= 2 * s * (a.height as i128) <= 2 * s * 0xffff_ffff) by (nonlinear_arith)
                requires s == 1_000_000, a.height <= 0xffff_ffff;
            assert(0 <= 2 * s * (a.width as i128) <= 2 * s * 0xffff_ffff) by (nonlinear_arith)
                requires s == 1_000_000, a.width <= 0xffff_ffff;
            let h = 2 * s * (a.height as i128);
            let w = 2 * s * (a.width as i128);
            (h, w, 2 * s)
        },
        CropParamsKind::Relative(r) => {
            calculate_crop_dimensions_by_ratios(face, r.aspect_ratio, r.proportion_of_face)
        },
    };
    proof {
        let fh = face.height as int;
        let a = match params.kind {
            CropParamsKind::Relative(r) => r.aspect_ratio as int,
            _ => 0,
        };
        assert(0 <= 2 * SCALE * SCALE * fh <= 2 * SCALE * SCALE * 0xffff_ffff) by (nonlinear_arith)
            requires 0 <= fh <= 0xffff_ffff;
        assert(0 <= 2 * SCALE * fh * a <= 2 * SCALE * 0xffff_ffff * 0xffff_ffff_ffff_ffff) by (nonlinear_arith)
            requires 0 <= fh <= 0xffff_ffff, 0 <= a <= 0xffff_ffff_ffff_ffff;
        let (hk, wk, dk): (int, int, int) = match params.kind {
            CropParamsKind::Absolute(ab) => (2 * ab.height, SCALE * ab.width, SCALE * 1),
            CropParamsKind::Relative(r) => (2 * SCALE * fh, SCALE * fh * a, SCALE * r.proportion_of_face),
        };
        assert(crop_height == hk * SCALE && crop_width == wk * 2 && den == dk * 2) by (nonlinear_arith)
            requires
                (params.kind is Absolute && crop_height == 2 * SCALE * params.kind->Absolute_0.height
                    && crop_width == 2 * SCALE * params.kind->Absolute_0.width && den == 2 * SCALE
                    && hk == 2 * params.kind->Absolute_0.height && wk == SCALE * params.kind->Absolute_0.width
                    && dk == SCALE * 1)
                || (params.kind is Relative && crop_height == 2 * SCALE * SCALE * fh
                    && crop_width == 2 * SCALE * fh * a && den == 2 * SCALE * params.kind->Relative_0.proportion_of_face
                    && hk == 2 * SCALE * fh && wk == SCALE * fh * a
                    && dk == SCALE * params.kind->Relative_0.proportion_of_face);
        lemma_mod_multiples_basic(hk, SCALE as int);
        lemma_mod_multiples_basic(wk, 2);
        lemma_mod_multiples_basic(dk, 2);
    }
    let (x, y) = calculate_crop_position(face, crop_height, crop_width, params.top_padding, den);
    ScaledRect { x, y, width: crop_width, height: crop_height, den }
}

fn clamp_i128(v: i128, lo: i128, hi: i128) -> (r: i128)
    requires
        lo <= hi,
    ensures
        r == clamp(v as int, lo as int, hi as int),
{
    if v < lo {
        lo
    } else if v > hi {
        hi
    } else {
        v
    }
}

/// Two spans cut from `[0, limit * den]` at `left` and `right`, each truncated
/// to whole units of `den`, still fit in `[0, limit]`.
proof fn lemma_truncated_span(left: int, right: int, limit: int, den: int)
    requires
        0 <= left <= right <= limit * den,
        0 < den,
    ensures
        0 <= left / den,
        0 <= (right - left) / den,
        left / den + (right - left) / den <= limit,
{
    lemma_div_pos_is_pos(left, den);
    lemma_div_pos_is_pos(right - left, den);
    lemma_fundamental_div_mod(left, den);
    lemma_fundamental_div_mod(right - left, den);
    let q1 = left / den;
    let q2 = (right - left) / den;
    assert(0 <= left % den && 0 <= (right - left) % den);
    assert(den * (q1 + q2) <= right) by (nonlinear_arith)
        requires left == den * q1 + left % den, right - left == den * q2 + (right - left) % den,
            0 <= left % den, 0 <= (right - left) % den;
    assert(q1 + q2 <= limit) by (nonlinear_arith)
        requires den * (q1 + q2) <= right, right <= limit * den, 0 < den;
}

/// The part of `frame` inside an image of the given size, truncated to whole pixels.
pub fn clamp_to_image_bounds(frame: &ScaledRect, image_width: u32, image_height: u32) -> (r: Rect)
    requires
        frame.den > 0,
        frame.den <= 2 * SCALE * SCALE,
        0 <= frame.width <= 2 * SCALE * 0xffff_ffff * 0xffff_ffff_ffff_ffff,
        0 <= frame.height <= 2 * SCALE * SCALE * 0xffff_ffff,
        -0x100_0000_0000_0000_0000_0000_0000_0000 <= frame.x <= 0x100_0000_0000_0000_0000_0000_0000_0000,
        -0x100_0000_0000_0000_0000_0000_0000_0000 <= frame.y <= 0x100_0000_0000_0000_0000_0000_0000_0000,
    ensures
        r == clamp_to_image(frame@, image_width as int, image_height as int),
        0 <= r.x,
        0 <= r.y,
        r.x + r.width <= image_width,
        r.y + r.height <= image_height,
{
    let den = frame.den;
    assert(0 <= (image_width as i128) * den <= 0x1_0000_0000 * 2_000_000_000_000) by (nonlinear_arith)
        requires 0 <= image_width <= 0xffff_ffff, 0 < den <= 2_000_000_000_000;
    assert(0 <= (image_height as i128) * den <= 0x1_0000_0000 * 2_000_000_000_000) by (nonlinear_arith)
        requires 0 <= image_height <= 0xffff_ffff, 0 < den <= 2_000_000_000_000;
    let w_lim = (image_width as i128) * den;
    let h_lim = (image_height as i128) * den;
    let left = clamp_i128(frame.x, 0, w_lim);
    let right = clamp_i128(frame.x + frame.width, 0, w_lim);
    let top = clamp_i128(frame.y, 0, h_lim);
    let bottom = clamp_i128(frame.y + frame.height, 0, h_lim);
    proof {
        lemma_truncated_span(left as int, right as int, image_width as int, den as int);
        lemma_truncated_span(top as int, bottom as int, image_height as int, den as int);
    }
    let x = (left / den) as i64;
    let y = (top / den) as i64;
    let width = ((right - left) / den) as u32;
    let height = ((bottom - top) / den) as u32;
    Rect { x, y, width, height }
}

/// The crop of `face` in an image of the given size: the unclamped crop cut
/// to the image and truncated to whole pixels. It always lies inside the image.
pub fn calculate_face_crop(face: &Rect, image_width: u32, image_height: u32, params: &CropParams) -> (r: Rect)
    requires
        params.wf(),
    ensures
        r == face_crop(*face, image_width as int, image_height as int, *params),
        0 <= r.x,
        0 <= r.y,
        r.x + r.width <= image_width,
        r.y + r.height <= image_height,
{
    let frame = calculate_crop_frame(face, params);
    clamp_to_image_bounds(&frame, image_width, image_height)
}

/// An absolute crop has exactly the height and width it names, whatever the
/// size of the face.
pub proof fn lemma_absolute_crop_size(face: Rect, params: CropParams, size: AbsoluteCrop)
    requires
        params.wf(),
        params.kind == CropParamsKind::Absolute(size),
    ensures
        crop_frame(face, params).den > 0,
        crop_frame(face, params).width == size.width * crop_frame(face, params).den,
        crop_frame(face, params).height == size.height * crop_frame(face, params).den,
{
    let f = crop_frame(face, params);
    assert(f.width == size.width * f.den) by (nonlinear_arith)
        requires f.width == 2 * SCALE * size.width, f.den == 2 * SCALE * 1;
    assert(f.height == size.height * f.den) by (nonlinear_arith)
        requires f.height == 2 * SCALE * size.height, f.den == 2 * SCALE * 1;
}

/// A relative crop is `face.height / proportion_of_face` high and its height
/// times `aspect_ratio` wide (fractions in millionths; the equations are
/// cross-multiplied).
pub proof fn lemma_relative_crop_size(face: Rect, params: CropParams, ratios: RelativeCrop)
    requires
        params.wf(),
        params.kind == CropParamsKind::Relative(ratios),
    ensures
        crop_frame(face, params).den > 0,
        crop_frame(face, params).height * ratios.proportion_of_face
            == face.height * SCALE * crop_frame(face, params).den,
        crop_frame(face, params).width * SCALE == crop_frame(face, params).height * ratios.aspect_ratio,
{
    let f = crop_frame(face, params);
    let p = ratios.proportion_of_face as int;
    let a = ratios.aspect_ratio as int;
    let fh = face.height as int;
    assert(f.den > 0) by (nonlinear_arith)
        requires f.den == 2 * SCALE * p, p > 0;
    assert(f.height * p == fh * SCALE * f.den) by (nonlinear_arith)
        requires f.height == 2 * SCALE * SCALE * fh, f.den == 2 * SCALE * p;
    assert(f.width * SCALE == f.height * a) by (nonlinear_arith)
        requires f.width == 2 * SCALE * fh * a, f.height == 2 * SCALE * SCALE * fh;
}

/// The crop's horizontal centre is the face's horizontal centre (both sides
/// doubled and over the crop's denominator).
pub proof fn lemma_crop_centred_on_face(face: Rect, params: CropParams)
    requires
        params.wf(),
    ensures
        2 * crop_frame(face, params).x + crop_frame(face, params).width
            == (2 * face.x + face.width) * crop_frame(face, params).den,
{
    let f = crop_frame(face, params);
    let fh = face.height as int;
    let q: int = match params.kind {
        CropParamsKind::Absolute(_) => 1,
        CropParamsKind::Relative(r) => r.proportion_of_face as int,
    };
    let k: int = match params.kind {
        CropParamsKind::Absolute(a) => a.width as int,
        CropParamsKind::Relative(r) => fh * r.aspect_ratio,
    };
    assert(f.den == 2 * (SCALE * q)) by (nonlinear_arith)
        requires f.den == 2 * SCALE * q;
    match params.kind {
        CropParamsKind::Absolute(a) => {},
        CropParamsKind::Relative(r) => {
            assert(f.width == 2 * SCALE * (fh * r.aspect_ratio)) by (nonlinear_arith)
                requires f.width == 2 * SCALE * fh * r.aspect_ratio;
        },
    }
    assert(f.width == 2 * (SCALE * k)) by (nonlinear_arith)
        requires f.width == 2 * SCALE * k;
    assert(f.den / 2 == SCALE * q);
    assert(f.width / 2 == SCALE * k);
    assert(2 * f.x + f.width == (2 * face.x + face.width) * f.den) by (nonlinear_arith)
        requires
            f.x == face.x * f.den + face.width * (SCALE * q) - SCALE * k,
            f.width == 2 * (SCALE * k),
            f.den == 2 * (SCALE * q);
}

/// The crop's top edge lies `top_padding` of the crop's height above the
/// face's top edge (all over the crop's denominator, times `SCALE`); with no
/// padding the two top edges meet.
pub proof fn lemma_crop_top_padding(face: Rect, params: CropParams)
    requires
        params.wf(),
    ensures
        crop_frame(face, params).y * SCALE
            == face.y * crop_frame(face, params).den * SCALE - crop_frame(face, params).height * params.top_padding,
        params.top_padding == 0 ==> crop_frame(face, params).y == face.y * crop_frame(face, params).den,
{
    let f = crop_frame(face, params);
    let t = params.top_padding as int;
    let m: int = match params.kind {
        CropParamsKind::Absolute(a) => 2 * a.height,
        CropParamsKind::Relative(_) => 2 * SCALE * face.height,
    };
    match params.kind {
        CropParamsKind::Absolute(a) => {
            assert(f.height == SCALE * m) by (nonlinear_arith)
                requires f.height == 2 * SCALE * a.height, m == 2 * a.height;
        },
        CropParamsKind::Relative(_) => {
            assert(f.height == SCALE * m) by (nonlinear_arith)
                requires f.height == 2 * SCALE * SCALE * face.height, m == 2 * SCALE * face.height;
        },
    }
    assert(f.height * t == (m * t) * SCALE) by (nonlinear_arith)
        requires f.height == SCALE * m;
    vstd::arithmetic::div_mod::lemma_div_by_multiple(m * t, SCALE as int);
}

/// A crop always lies inside the image `[0, image_width] x [0, image_height]`.
pub proof fn lemma_crop_inside_image(face: Rect, image_width: u32, image_height: u32, params: CropParams)
    requires
        params.wf(),
    ensures
        0 <= face_crop(face, image_width as int, image_height as int, params).x,
        0 <= face_crop(face, image_width as int, image_height as int, params).y,
        face_crop(face, image_width as int, image_height as int, params).x
            + face_crop(face, image_width as int, image_height as int, params).width <= image_width,
        face_crop(face, image_width as int, image_height as int, params).y
            + face_crop(face, image_width as int, image_height as int, params).height <= image_height,
{
    let f = crop_frame(face, params);
    let q: int = match params.kind {
        CropParamsKind::Absolute(_) => 1,
        CropParamsKind::Relative(r) => r.proportion_of_face as int,
    };
    assert(f.den > 0) by (nonlinear_arith)
        requires f.den == 2 * SCALE * q, q > 0;
    assert(f.width >= 0 && f.height >= 0);
    let iw = image_width as int;
    let ih = image_height as int;
    let left = clamp(f.x, 0, iw * f.den);
    let right = clamp(f.x + f.width, 0, iw * f.den);
    let top = clamp(f.y, 0, ih * f.den);
    let bottom = clamp(f.y + f.height, 0, ih * f.den);
    assert(iw * f.den >= 0 && ih * f.den >= 0) by (nonlinear_arith)
        requires iw >= 0, ih >= 0, f.den > 0;
    lemma_truncated_span(left, right, iw, f.den);
    lemma_truncated_span(top, bottom, ih, f.den);
}

} // verus!
