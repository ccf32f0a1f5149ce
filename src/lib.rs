//! A layout engine that places text runs and raster images on a page.
//!
//! Positions are authored with the origin at the top-left corner of the page
//! and y growing downward; the engine turns them into the bottom-left-origin
//! coordinates of page-description output. All lengths are fixed-point
//! integers: one page unit is `geometry::SCALE` steps.
use vstd::prelude::*;

pub mod geometry;
pub mod document;
pub mod error;
pub mod layer;
pub mod placement;
pub mod text;

pub use document::{generate_pdf, Doc, ImageSource, PdfBlock};
pub use error::{PdfingError, RenderError};
pub use layer::{DrawOp, Layer};
pub use placement::{place_image, Placement};
pub use text::TextNode;

verus! {

} // verus!
