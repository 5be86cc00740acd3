//! A single-image viewer's frame pipeline: fitting a source picture into a
//! fixed-size window, packaging it as a frame, and the per-tick decisions of
//! the render loop.

pub mod app;
pub mod args;
pub mod fit;
pub mod raster;
pub mod window;

pub use app::{Application, LoopState};
pub use args::Args;
pub use fit::FitMode;
pub use raster::{Color, Frame, ImageError, RawImage};
pub use window::{Input, Window};
