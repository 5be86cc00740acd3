use vstd::prelude::*;

verus! {

/// Bytes per pixel of a `RawImage` (red, green, blue, alpha).
pub const BYTES_PER_PIXEL: u64 = 4;

/// The largest width or height a `RawImage` can have.
pub const MAX_SIDE: u32 = 65535;

/// An opaque color, used to clear the canvas before an image is drawn.
#[derive(Clone, Copy, Debug, PartialEq, Eq, Structural)]
pub struct Color {
    pub r: u8,
    pub g: u8,
    pub b: u8,
}

/// The canvas color behind every frame: white.
pub open spec fn background_color() -> Color {
    Color { r: 255, g: 255, b: 255 }
}

/// The mathematical content of a `RawImage`.
pub ghost struct Picture {
    pub width: nat,
    pub height: nat,
    pub data: Seq<u8>,
}

/// Byte length of a tightly packed RGBA buffer of the given size.
pub open spec fn buffer_len(width: nat, height: nat) -> nat {
    width * height * 4
}

impl Picture {
    pub open spec fn wf(self) -> bool {
        &&& self.width <= MAX_SIDE
        &&& self.height <= MAX_SIDE
        &&& self.data.len() == buffer_len(self.width, self.height)
    }
}

/// A backend-neutral RGBA pixel buffer, row-major, without padding.
#[derive(Debug)]
pub struct RawImage {
    pub data: Vec<u8>,
    pub width: u16,
    pub height: u16,
}

impl View for RawImage {
    type V = Picture;

    open spec fn view(&self) -> Picture {
        Picture { width: self.width as nat, height: self.height as nat, data: self.data@ }
    }
}

impl RawImage {
    /// The buffer holds exactly `width * height` pixels of four bytes.
    pub open spec fn wf(&self) -> bool {
        self@.wf()
    }
}

/// Why a decoded pixel grid cannot become a `RawImage`.
#[derive(Clone, Copy, Debug, PartialEq, Eq, Structural)]
pub enum ImageError {
    /// The width or the height exceeds 65535.
    TooLarge,
    /// The buffer does not hold four bytes for each pixel.
    BadLength,
}

impl RawImage {
    /// Takes over a decoded RGBA grid of `width` by `height` pixels.
    pub fn from_rgba(width: u32, height: u32, data: Vec<u8>) -> (r: Result<RawImage, ImageError>)
        ensures
            width > MAX_SIDE || height > MAX_SIDE ==> r == Err::<RawImage, ImageError>(
                ImageError::TooLarge,
            ),
            width <= MAX_SIDE && height <= MAX_SIDE && data@.len() != buffer_len(
                width as nat,
                height as nat,
            ) ==> r == Err::<RawImage, ImageError>(ImageError::BadLength),
            r is Ok <==> (width <= MAX_SIDE && height <= MAX_SIDE && data@.len() == buffer_len(width as nat, height as nat)),
            r matches Ok(img) ==> img.wf() && img.width == width && img.height == height && img.data@ == data@,
    {
        if width > MAX_SIDE || height > MAX_SIDE {
            return Err(ImageError::TooLarge);
        }
        assert(width as u64 * height as u64 <= 65535 * 65535) by (nonlinear_arith)
            requires
                width <= 65535,
                height <= 65535,
        ;
        let expected: u64 = width as u64 * height as u64 * BYTES_PER_PIXEL;
        if data.len() as u64 != expected {
            return Err(ImageError::BadLength);
        }
        Ok(RawImage { data, width: width as u16, height: height as u16 })
    }
}

/// What a backend draws in one tick: a background and an image on top of it.
#[derive(Debug)]
pub struct Frame {
    pub background: Color,
    pub image: RawImage,
}

/// Packages the fitted image with the fixed background color.
pub fn build_frame(image: RawImage) -> (r: Frame)
    ensures
        r.background == background_color(),
        r.image@ == image@,
{
    Frame { background: Color { r: 255, g: 255, b: 255 }, image }
}

} // verus!
