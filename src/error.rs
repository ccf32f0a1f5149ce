use vstd::prelude::*;

verus! {

/// Why a block could not be rendered.
#[derive(Debug)]
pub enum RenderError {
    /// A resolution, font size or line height is not strictly positive.
    InvalidParameter,
    /// The image source could not be read or decoded.
    Decode { source: String, cause: String },
    /// A computed position leaves the fixed-point range.
    OutOfRange,
}

/// The mathematical content of a `RenderError`.
pub enum Fault {
    InvalidParameter,
    Decode { source: Seq<char>, cause: Seq<char> },
    OutOfRange,
}

impl View for RenderError {
    type V = Fault;

    open spec fn view(&self) -> Fault {
        match self {
            RenderError::InvalidParameter => Fault::InvalidParameter,
            RenderError::Decode { source, cause } => Fault::Decode {
                source: source@,
                cause: cause@,
            },
            RenderError::OutOfRange => Fault::OutOfRange,
        }
    }
}

/// The first block of a document that failed, and why.
#[derive(Debug)]
pub struct PdfingError {
    /// Position of the failing block in the caller's order.
    pub index: usize,
    pub cause: RenderError,
}

} // verus!
