use img::{fit, FitMode, ImageError, RawImage};

fn solid(width: u16, height: u16, px: [u8; 4]) -> RawImage {
    let mut data = Vec::new();
    for _ in 0..(width as usize * height as usize) {
        data.extend_from_slice(&px);
    }
    RawImage::from_rgba(width as u32, height as u32, data).unwrap()
}

/// Every byte differs by position, so a wrong offset shows.
fn pattern(width: u16, height: u16) -> RawImage {
    let mut data = Vec::new();
    for y in 0..height as usize {
        for x in 0..width as usize {
            for k in 0..4usize {
                data.push(((y * 31 + x * 7 + k * 3) % 251) as u8);
            }
        }
    }
    RawImage::from_rgba(width as u32, height as u32, data).unwrap()
}

fn top_left(src: &RawImage, w: usize, h: usize) -> Vec<u8> {
    let sw = src.width as usize;
    let mut out = Vec::new();
    for y in 0..h {
        out.extend_from_slice(&src.data[y * sw * 4..(y * sw + w) * 4]);
    }
    out
}

#[test]
fn solid_red_that_fits_is_kept_by_both_modes() {
    let src = solid(100, 50, [255, 0, 0, 255]);
    let scaled = fit::scale_to_fit(&src, 100, 50);
    assert_eq!((scaled.width, scaled.height), (100, 50));
    assert_eq!(scaled.data, src.data);
    assert!(scaled.data.chunks(4).all(|p| p == [255, 0, 0, 255]));
    let cropped = fit::crop_to_fit(&src, 100, 50);
    assert_eq!((cropped.width, cropped.height), (100, 50));
    assert_eq!(cropped.data, scaled.data);
}

#[test]
fn wide_source_in_square_window() {
    let src = pattern(200, 100);
    let scaled = fit::scale_to_fit(&src, 50, 50);
    assert_eq!((scaled.width, scaled.height), (50, 25));
    assert_eq!(scaled.data.len(), 50 * 25 * 4);
    let cropped = fit::crop_to_fit(&src, 50, 50);
    assert_eq!((cropped.width, cropped.height), (50, 50));
    assert_eq!(cropped.data, top_left(&src, 50, 50));
}

#[test]
fn scaling_resamples_source_pixels() {
    let src = pattern(40, 20);
    let scaled = fit::scale_to_fit(&src, 10, 10);
    assert_eq!((scaled.width, scaled.height), (10, 5));
    assert_eq!(scaled.data.len(), 10 * 5 * 4);
    assert_ne!(scaled.data, src.data[..200].to_vec());
    let source_pixels: Vec<&[u8]> = src.data.chunks(4).collect();
    assert!(scaled.data.chunks(4).all(|p| source_pixels.contains(&p)));
}

#[test]
fn solid_image_scales_to_solid_image() {
    let src = solid(64, 64, [10, 20, 30, 40]);
    let scaled = fit::scale_to_fit(&src, 16, 32);
    assert_eq!((scaled.width, scaled.height), (16, 16));
    assert!(scaled.data.chunks(4).all(|p| p == [10, 20, 30, 40]));
}

#[test]
fn tall_source_is_bounded_by_height() {
    let src = pattern(30, 90);
    let scaled = fit::scale_to_fit(&src, 20, 20);
    assert_eq!((scaled.width, scaled.height), (6, 20));
}

#[test]
fn scaling_rounds_down_and_stays_within_window() {
    let src = pattern(300, 100);
    let scaled = fit::scale_to_fit(&src, 100, 100);
    assert_eq!((scaled.width, scaled.height), (100, 33));
    let src = pattern(100, 301);
    let scaled = fit::scale_to_fit(&src, 200, 100);
    assert_eq!((scaled.width, scaled.height), (33, 100));
    assert!(scaled.width * 301 <= 100 * scaled.height + 301);
}

#[test]
fn scaling_never_enlarges() {
    let src = pattern(10, 5);
    let scaled = fit::scale_to_fit(&src, 400, 300);
    assert_eq!((scaled.width, scaled.height), (10, 5));
    assert_eq!(scaled.data, src.data);
}

#[test]
fn zero_sized_window_gives_empty_image() {
    let src = pattern(10, 10);
    let scaled = fit::scale_to_fit(&src, 0, 5);
    assert_eq!((scaled.width, scaled.height), (0, 0));
    assert!(scaled.data.is_empty());
    let cropped = fit::crop_to_fit(&src, 0, 5);
    assert_eq!((cropped.width, cropped.height), (0, 5));
    assert!(cropped.data.is_empty());
}

#[test]
fn crop_is_bounded_by_source() {
    let src = pattern(30, 20);
    let cropped = fit::crop_to_fit(&src, 50, 10);
    assert_eq!((cropped.width, cropped.height), (30, 10));
    assert_eq!(cropped.data, top_left(&src, 30, 10));
    let cropped = fit::crop_to_fit(&src, 7, 50);
    assert_eq!((cropped.width, cropped.height), (7, 20));
    assert_eq!(cropped.data, top_left(&src, 7, 20));
}

#[test]
fn fit_follows_mode_and_is_repeatable() {
    let src = pattern(120, 80);
    let a = fit::fit(&src, 60, 60, FitMode::Scale);
    let b = fit::fit(&src, 60, 60, FitMode::Scale);
    assert_eq!((a.width, a.height), (60, 40));
    assert_eq!(a.data, b.data);
    let c = fit::fit(&src, 60, 60, FitMode::Crop);
    let d = fit::fit(&src, 60, 60, FitMode::Crop);
    assert_eq!((c.width, c.height), (60, 60));
    assert_eq!(c.data, d.data);
    assert_eq!(c.data, top_left(&src, 60, 60));
}

#[test]
fn raw_image_length_matches_size() {
    for (w, h) in [(0u16, 0u16), (1, 1), (3, 7), (200, 100)] {
        let img = pattern(w, h);
        assert_eq!(img.data.len(), w as usize * h as usize * 4);
        for mode in [FitMode::Scale, FitMode::Crop] {
            let out = fit::fit(&img, 2, 5, mode);
            assert_eq!(out.data.len(), out.width as usize * out.height as usize * 4);
            assert!(out.width <= 2 && out.height <= 5);
        }
    }
}

#[test]
fn from_rgba_rejects_oversized_dimensions() {
    assert_eq!(RawImage::from_rgba(65536, 1, vec![]).unwrap_err(), ImageError::TooLarge);
    assert_eq!(RawImage::from_rgba(1, 70000, vec![]).unwrap_err(), ImageError::TooLarge);
}

#[test]
fn from_rgba_rejects_wrong_length() {
    assert_eq!(RawImage::from_rgba(2, 2, vec![0; 15]).unwrap_err(), ImageError::BadLength);
    assert_eq!(RawImage::from_rgba(2, 2, vec![0; 17]).unwrap_err(), ImageError::BadLength);
}

#[test]
fn from_rgba_keeps_buffer() {
    let img = RawImage::from_rgba(65535, 0, vec![]).unwrap();
    assert_eq!((img.width, img.height), (65535, 0));
    let img = RawImage::from_rgba(1, 2, vec![1, 2, 3, 4, 5, 6, 7, 8]).unwrap();
    assert_eq!((img.width, img.height), (1, 2));
    assert_eq!(img.data, vec![1, 2, 3, 4, 5, 6, 7, 8]);
}

#[test]
fn refitting_a_fitted_image_changes_nothing() {
    let src = pattern(90, 40);
    for mode in [FitMode::Scale, FitMode::Crop] {
        let once = fit::fit(&src, 30, 30, mode);
        let twice = fit::fit(&once, 30, 30, mode);
        assert_eq!((twice.width, twice.height), (once.width, once.height));
        assert_eq!(twice.data, once.data);
    }
}
