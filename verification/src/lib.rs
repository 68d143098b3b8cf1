//! A software drawing surface: a row-major grid of RGB pixels that is painted
//! one pixel at a time with a current draw colour, cleared as a whole, and
//! handed to a renderer or an image encoder as packed bytes.

pub mod error;
pub mod laws;
pub mod model;
pub mod pixel;
mod raw;
pub mod screen;

pub use error::{IndexError, InitError, PresentationError, SaveImageError};
pub use pixel::Pixel;
pub use model::Surface;
pub use screen::{frame_fits, ScreenContextManager};
