use vstd::prelude::*;

use crate::raster::{buffer_len, Picture, RawImage};

verus! {

/// How a source image is brought to the size of the window.
#[derive(Clone, Copy, Debug, PartialEq, Eq, Structural)]
pub enum FitMode {
    /// Shrink, keeping the aspect ratio, until the image fits; never enlarge.
    Scale,
    /// Keep the top-left part that fits; never resample.
    Crop,
}

/// The source already fits: no axis is larger than the destination.
pub open spec fn fits_within(sw: nat, sh: nat, dw: nat, dh: nat) -> bool {
    sw <= dw && sh <= dh
}

/// The width ratio `sw / dw` is at least the height ratio `sh / dh`
/// (compared without division, so that a zero side is no special case).
pub open spec fn width_dominates(sw: nat, sh: nat, dw: nat, dh: nat) -> bool {
    sw > 0 && sw * dh >= sh * dw
}

/// Size of a `sw` by `sh` image scaled to fit a `dw` by `dh` window: unchanged
/// when it fits, else divided by the larger of the two ratios, rounded down.
pub open spec fn scaled_size(sw: nat, sh: nat, dw: nat, dh: nat) -> (nat, nat) {
    if fits_within(sw, sh, dw, dh) {
        (sw, sh)
    } else if width_dominates(sw, sh, dw, dh) {
        (dw, sh * dw / sw)
    } else {
        (sw * dh / sh, dh)
    }
}

/// Pixels of a `width` by `height` RGBA buffer resampled to `new_width` by
/// `new_height` with the nearest-neighbour filter of the `image` crate.
pub uninterp spec fn nearest_resampled(
    data: Seq<u8>,
    width: nat,
    height: nat,
    new_width: nat,
    new_height: nat,
) -> Seq<u8>;

/// The first `rows` rows of the top-left `width`-pixel-wide strip of an RGBA
/// buffer whose rows are `src_width` pixels long.
pub open spec fn cropped_rows(data: Seq<u8>, src_width: nat, width: nat, rows: nat) -> Seq<u8>
    decreases rows,
{
    if rows == 0 {
        Seq::empty()
    } else {
        let start = ((rows - 1) * src_width * 4) as int;
        cropped_rows(data, src_width, width, (rows - 1) as nat) + data.subrange(
            start,
            start + width * 4,
        )
    }
}

/// The top-left part of `src` that fits a `dw` by `dh` window.
pub open spec fn cropped(src: Picture, dw: nat, dh: nat) -> Picture {
    let w = if src.width <= dw { src.width } else { dw };
    let h = if src.height <= dh { src.height } else { dh };
    Picture { width: w, height: h, data: cropped_rows(src.data, src.width, w, h) }
}

/// `src` scaled to fit a `dw` by `dh` window.
pub open spec fn scaled(src: Picture, dw: nat, dh: nat) -> Picture {
    let (w, h) = scaled_size(src.width, src.height, dw, dh);
    Picture {
        width: w,
        height: h,
        data: if fits_within(src.width, src.height, dw, dh) {
            src.data
        } else {
            nearest_resampled(src.data, src.width, src.height, w, h)
        },
    }
}

/// `src` fitted to a `dw` by `dh` window under `mode`.
pub open spec fn fitted(src: Picture, dw: nat, dh: nat, mode: FitMode) -> Picture {
    match mode {
        FitMode::Scale => scaled(src, dw, dh),
        FitMode::Crop => cropped(src, dw, dh),
    }
}

/// Relies on `image::imageops::resize` with `FilterType::Nearest`: on a
/// non-empty source it returns a buffer of `new_width * new_height` RGBA
/// pixels whose content depends on the arguments alone.
#[verifier::external_body]
fn resize_nearest(data: Vec<u8>, width: u32, height: u32, new_width: u32, new_height: u32) -> (r:
    Vec<u8>)
    requires
        data@.len() == buffer_len(width as nat, height as nat),
        width <= 65535,
        height <= 65535,
        new_width <= width,
        new_height <= height,
    ensures
        r@.len() == buffer_len(new_width as nat, new_height as nat),
        r@ == nearest_resampled(data@, width as nat, height as nat, new_width as nat, new_height as nat),
{
    let src = image::RgbaImage::from_raw(width, height, data).unwrap();
    image::imageops::resize(&src, new_width, new_height, image::imageops::FilterType::Nearest).into_raw()
}

proof fn lemma_scaled_size_bounds(sw: nat, sh: nat, dw: nat, dh: nat)
    ensures
        scaled_size(sw, sh, dw, dh).0 <= sw,
        scaled_size(sw, sh, dw, dh).1 <= sh,
        !fits_within(sw, sh, dw, dh) ==> scaled_size(sw, sh, dw, dh).0 <= dw
            && scaled_size(sw, sh, dw, dh).1 <= dh,
{
    if !fits_within(sw, sh, dw, dh) {
        if width_dominates(sw, sh, dw, dh) {
            assert(dw < sw) by (nonlinear_arith)
                requires
                    sw > 0,
                    sw * dh >= sh * dw,
                    sw > dw || sh > dh,
            ;
            assert(sh * dw / sw <= sh) by (nonlinear_arith)
                requires
                    sw > 0,
                    dw < sw,
            ;
            assert(sh * dw / sw <= dh) by (nonlinear_arith)
                requires
                    sw > 0,
                    sw * dh >= sh * dw,
            ;
        } else {
            assert(sh > 0 && dh < sh) by (nonlinear_arith)
                requires
                    !(sw > 0 && sw * dh >= sh * dw),
                    sw > dw || sh > dh,
            ;
            assert(sw * dh / sh <= sw) by (nonlinear_arith)
                requires
                    sh > 0,
                    dh < sh,
            ;
            assert(sw * dh / sh <= dw) by (nonlinear_arith)
                requires
                    sh > 0,
                    sw * dh < sh * dw || sw == 0,
            ;
        }
    }
}

/// Scales `src` down, keeping its aspect ratio, until it fits a `dw` by `dh`
/// window; an image that already fits is returned unchanged.
pub fn scale_to_fit(src: &RawImage, dw: u16, dh: u16) -> (r: RawImage)
    requires
        src.wf(),
    ensures
        r.wf(),
        r@ == scaled(src@, dw as nat, dh as nat),
        fits_within(src.width as nat, src.height as nat, dw as nat, dh as nat) ==> r@ == src@,
{
    let sw: u64 = src.width as u64;
    let sh: u64 = src.height as u64;
    let w: u64 = dw as u64;
    let h: u64 = dh as u64;
    if sw <= w && sh <= h {
        return RawImage { data: src.data.clone(), width: src.width, height: src.height };
    }
    proof {
        lemma_scaled_size_bounds(sw as nat, sh as nat, w as nat, h as nat);
    }
    assert(sw * h <= 65535 * 65535 && sh * w <= 65535 * 65535) by (nonlinear_arith)
        requires
            sw <= 65535,
            sh <= 65535,
            w <= 65535,
            h <= 65535,
    ;
    let new_w: u64;
    let new_h: u64;
    if sw > 0 && sw * h >= sh * w {
        new_w = w;
        new_h = sh * w / sw;
    } else {
        assert(sh > 0) by (nonlinear_arith)
            requires
                !(sw > 0 && sw * h >= sh * w),
                sw > w || sh > h,
        ;
        new_w = sw * h / sh;
        new_h = h;
    }
    let data = resize_nearest(
        src.data.clone(),
        src.width as u32,
        src.height as u32,
        new_w as u32,
        new_h as u32,
    );
    RawImage { data, width: new_w as u16, height: new_h as u16 }
}

/// Keeps the top-left part of `src` that fits a `dw` by `dh` window, bounded
/// by the source's own size.
pub fn crop_to_fit(src: &RawImage, dw: u16, dh: u16) -> (r: RawImage)
    requires
        src.wf(),
    ensures
        r.wf(),
        r@ == cropped(src@, dw as nat, dh as nat),
{
    let w: u16 = if src.width <= dw { src.width } else { dw };
    let h: u16 = if src.height <= dh { src.height } else { dh };
    let sw: usize = src.width as usize;
    let row_len: usize = w as usize * 4;
    let len: usize = src.data.len();
    let mut out: Vec<u8> = Vec::new();
    let mut y: usize = 0;
    while y < h as usize
        invariant
            src.wf(),
            w <= src.width,
            h <= src.height,
            sw == src.width,
            len == src.data@.len(),
            row_len == w * 4,
            y <= h,
            out@ == cropped_rows(src.data@, sw as nat, w as nat, y as nat),
            out@.len() == y * row_len,
        decreases h - y,
    {
        assert(y * sw * 4 + row_len <= src.data@.len()) by (nonlinear_arith)
            requires
                y < h,
                h <= src.height,
                src.height <= 65535,
                sw <= 65535,
                w <= sw,
                row_len == w * 4,
                src.data@.len() == sw * src.height * 4,
        ;
        let start: usize = y * sw * 4;
        let mut i: usize = 0;
        while i < row_len
            invariant
                src.wf(),
                len == src.data@.len(),
                start + row_len <= len,
                i <= row_len,
                out@ == cropped_rows(src.data@, sw as nat, w as nat, y as nat) + src.data@.subrange(
                    start as int,
                    start + i,
                ),
            decreases row_len - i,
        {
            out.push(src.data[start + i]);
            assert(src.data@.subrange(start as int, start + i + 1) =~= src.data@.subrange(
                start as int,
                start + i,
            ).push(src.data@[start + i]));
            i = i + 1;
        }
        assert(out@.len() == (y + 1) * row_len) by (nonlinear_arith)
            requires
                out@.len() == y * row_len + row_len,
        ;
        y = y + 1;
    }
    assert(out@.len() == buffer_len(w as nat, h as nat)) by (nonlinear_arith)
        requires
            out@.len() == h * row_len,
            row_len == w * 4,
    ;
    RawImage { data: out, width: w, height: h }
}

/// Fits `src` to a `dw` by `dh` window under `mode`.
pub fn fit(src: &RawImage, dw: u16, dh: u16, mode: FitMode) -> (r: RawImage)
    requires
        src.wf(),
    ensures
        r.wf(),
        r@ == fitted(src@, dw as nat, dh as nat, mode),
        r.width <= dw,
        r.height <= dh,
{
    proof {
        lemma_fitted_within_window(src@, dw as nat, dh as nat, mode);
    }
    match mode {
        FitMode::Scale => scale_to_fit(src, dw, dh),
        FitMode::Crop => crop_to_fit(src, dw, dh),
    }
}

/// A source that already fits the window is scaled to itself: ratio one, no
/// resampling.
pub proof fn lemma_scale_keeps_fitting_source(src: Picture, dw: nat, dh: nat)
    requires
        src.wf(),
        fits_within(src.width, src.height, dw, dh),
    ensures
        scaled(src, dw, dh) == src,
{
}

/// A source larger than the window on some axis is scaled to a size within
/// the window. One side of the result is a side of the window, and the other
/// keeps the source's aspect ratio up to less than one pixel of rounding down.
pub proof fn lemma_scale_shrinks_into_window(sw: nat, sh: nat, dw: nat, dh: nat)
    requires
        sw > dw || sh > dh,
    ensures
        scaled_size(sw, sh, dw, dh).0 <= dw,
        scaled_size(sw, sh, dw, dh).1 <= dh,
        ({
            let (w, h) = scaled_size(sw, sh, dw, dh);
            ||| (w == dw && h * sw <= sh * w < (h + 1) * sw)
            ||| (h == dh && w * sh <= sw * h < (w + 1) * sh)
        }),
{
    lemma_scaled_size_bounds(sw, sh, dw, dh);
    let (w, h) = scaled_size(sw, sh, dw, dh);
    if width_dominates(sw, sh, dw, dh) {
        assert(h * sw <= sh * w < (h + 1) * sw) by (nonlinear_arith)
            requires
                sw > 0,
                w == dw,
                h == sh * dw / sw,
        ;
    } else {
        assert(sh > 0) by (nonlinear_arith)
            requires
                !(sw > 0 && sw * dh >= sh * dw),
                sw > dw || sh > dh,
        ;
        assert(w * sh <= sw * h < (w + 1) * sh) by (nonlinear_arith)
            requires
                sh > 0,
                h == dh,
                w == sw * dh / sh,
        ;
    }
}

proof fn lemma_cropped_rows_content(data: Seq<u8>, sw: nat, w: nat, rows: nat)
    requires
        w <= sw,
        rows * sw * 4 <= data.len(),
    ensures
        cropped_rows(data, sw, w, rows).len() == rows * w * 4,
        forall|y: nat, x: nat, k: nat|
            #![trigger cropped_rows(data, sw, w, rows)[((y * w + x) * 4 + k) as int], data[((y * sw + x) * 4 + k) as int]]
            y < rows && x < w && k < 4 ==> cropped_rows(data, sw, w, rows)[((y * w + x) * 4 + k) as int]
                == data[((y * sw + x) * 4 + k) as int],
    decreases rows,
{
    if rows > 0 {
        let r = (rows - 1) as nat;
        assert(r * sw * 4 <= data.len()) by (nonlinear_arith)
            requires
                rows * sw * 4 <= data.len(),
                r == rows - 1,
        ;
        lemma_cropped_rows_content(data, sw, w, r);
        let prefix = cropped_rows(data, sw, w, r);
        let start = (r * sw * 4) as int;
        assert(start + w * 4 <= data.len()) by (nonlinear_arith)
            requires
                rows * sw * 4 <= data.len(),
                r == rows - 1,
                start == r * sw * 4,
                w <= sw,
        ;
        assert(rows * w * 4 == r * w * 4 + w * 4) by (nonlinear_arith)
            requires
                r == rows - 1,
        ;
        assert forall|y: nat, x: nat, k: nat|
            y < rows && x < w && k < 4 implies #[trigger] cropped_rows(data, sw, w, rows)[((y * w + x) * 4 + k) as int]
                == #[trigger] data[((y * sw + x) * 4 + k) as int] by {
            let i = ((y * w + x) * 4 + k) as int;
            if y < r {
                assert(i < r * w * 4) by (nonlinear_arith)
                    requires
                        y < r,
                        x < w,
                        k < 4,
                        i == (y * w + x) * 4 + k,
                ;
            } else {
                assert(i == r * w * 4 + x * 4 + k && start + x * 4 + k == (y * sw + x) * 4 + k) by (nonlinear_arith)
                    requires
                        y == r,
                        i == (y * w + x) * 4 + k,
                        start == r * sw * 4,
                ;
            }
        }
    }
}

/// Cropping yields exactly `min(sw, dw)` by `min(sh, dh)` pixels, and pixel
/// `(x, y)` of the result is pixel `(x, y)` of the source.
pub proof fn lemma_crop_is_top_left(src: Picture, dw: nat, dh: nat)
    requires
        src.wf(),
    ensures
        ({
            let c = cropped(src, dw, dh);
            &&& c.width == if src.width <= dw { src.width } else { dw }
            &&& c.height == if src.height <= dh { src.height } else { dh }
            &&& c.wf()
            &&& forall|x: nat, y: nat, k: nat|
                x < c.width && y < c.height && k < 4 ==> #[trigger] c.data[((y * c.width + x) * 4 + k) as int]
                    == src.data[((y * src.width + x) * 4 + k) as int]
        }),
{
    let c = cropped(src, dw, dh);
    assert(c.height * src.width * 4 <= src.data.len()) by (nonlinear_arith)
        requires
            c.height <= src.height,
            src.data.len() == src.width * src.height * 4,
    ;
    lemma_cropped_rows_content(src.data, src.width, c.width, c.height);
    assert forall|x: nat, y: nat, k: nat|
        x < c.width && y < c.height && k < 4 implies #[trigger] c.data[((y * c.width + x) * 4 + k) as int]
            == src.data[((y * src.width + x) * 4 + k) as int] by {
        assert(cropped_rows(src.data, src.width, c.width, c.height)[((y * c.width + x) * 4 + k) as int]
            == src.data[((y * src.width + x) * 4 + k) as int]);
    }
}

/// Whatever the mode, the fitted image is no larger than the window, nor
/// than the source.
pub proof fn lemma_fitted_within_window(src: Picture, dw: nat, dh: nat, mode: FitMode)
    requires
        src.wf(),
    ensures
        fitted(src, dw, dh, mode).width <= src.width,
        fitted(src, dw, dh, mode).height <= src.height,
        fitted(src, dw, dh, mode).width <= dw,
        fitted(src, dw, dh, mode).height <= dh,
{
    match mode {
        FitMode::Scale => {
            lemma_scaled_size_bounds(src.width, src.height, dw, dh);
        },
        FitMode::Crop => {
            lemma_crop_is_top_left(src, dw, dh);
        },
    }
}

proof fn lemma_cropped_rows_full_width(data: Seq<u8>, w: nat, rows: nat)
    requires
        rows * w * 4 <= data.len(),
    ensures
        cropped_rows(data, w, w, rows) == data.subrange(0, (rows * w * 4) as int),
    decreases rows,
{
    if rows > 0 {
        let r = (rows - 1) as nat;
        assert(r * w * 4 + w * 4 == rows * w * 4) by (nonlinear_arith)
            requires
                r == rows - 1,
        ;
        lemma_cropped_rows_full_width(data, w, r);
        assert(cropped_rows(data, w, w, rows) =~= data.subrange(0, (rows * w * 4) as int));
    } else {
        assert(rows * w * 4 == 0) by (nonlinear_arith)
            requires
                rows == 0,
        ;
        assert(data.subrange(0, 0) =~= Seq::<u8>::empty());
    }
}

/// Fitting an image that has already been fitted to the window leaves it as
/// it is, in either mode.
pub proof fn lemma_refit_is_identity(src: Picture, dw: nat, dh: nat, mode: FitMode)
    requires
        src.wf(),
        fitted(src, dw, dh, mode).wf(),
    ensures
        fitted(fitted(src, dw, dh, mode), dw, dh, mode) == fitted(src, dw, dh, mode),
{
    lemma_fitted_within_window(src, dw, dh, mode);
    let f = fitted(src, dw, dh, mode);
    if mode == FitMode::Crop {
        lemma_cropped_rows_full_width(f.data, f.width, f.height);
        assert(f.data.subrange(0, (f.height * f.width * 4) as int) =~= f.data) by {
            assert(f.height * f.width * 4 == f.width * f.height * 4) by (nonlinear_arith);
        }
    }
}

/// Fitting has no hidden state: two fits of the same image to the same
/// window under the same mode give the same buffer.
pub proof fn lemma_fit_deterministic(a: Picture, b: Picture, dw: nat, dh: nat, mode: FitMode)
    requires
        a == b,
    ensures
        fitted(a, dw, dh, mode) == fitted(b, dw, dh, mode),
{
}

} // verus!
