use vstd::prelude::*;

use crate::error::{Fault, PdfingError, RenderError};
use crate::geometry::{fits_i64, output_y, to_output_x, to_output_y};
use crate::layer::{marks, DrawOp, Layer, Mark};
use crate::placement::{place_image, placement_of};
use crate::text::{flow_section, section_advance, section_marks, TextNode};

verus! {

/// The page that every block is drawn on. Fixed once built.
pub struct Doc {
    width: i64,
    height: i64,
}

impl Doc {
    /// Both sides of the page are positive.
    #[verifier::type_invariant]
    spec fn inv(&self) -> bool {
        self.width > 0 && self.height > 0
    }

    /// Page width, in fixed-point page units.
    pub closed spec fn page_width(&self) -> int {
        self.width as int
    }

    /// Page height, in fixed-point page units.
    pub closed spec fn page_height(&self) -> int {
        self.height as int
    }

    /// A page of the given positive size.
    pub fn new(width: i64, height: i64) -> (r: Doc)
        requires
            width > 0,
            height > 0,
        ensures
            r.page_width() == width,
            r.page_height() == height,
    {
        Doc { width, height }
    }

    pub fn width(&self) -> (r: i64)
        ensures
            r == self.page_width(),
            r > 0,
    {
        proof {
            use_type_invariant(self);
        }
        self.width
    }

    pub fn height(&self) -> (r: i64)
        ensures
            r == self.page_height(),
            r > 0,
    {
        proof {
            use_type_invariant(self);
        }
        self.height
    }

    /// A fresh drawing surface for one block.
    pub fn add_layer(&self) -> (r: Layer)
        ensures
            r@ == Seq::<Mark>::empty(),
    {
        Layer::new()
    }
}

/// What the image decoder made of an image source.
pub enum ImageSource {
    /// The source decoded to an image of this many pixels.
    Pixels { width: u32, height: u32 },
    /// The source could not be read or decoded.
    Unreadable { source: String, cause: String },
}

/// A unit of content, placed by its authored anchor (origin top-left).
pub enum PdfBlock {
    /// Text nodes stacked downward from the anchor.
    TextSection { nodes: Vec<TextNode>, pos: (i64, i64) },
    /// An image whose top-right corner is the anchor.
    Image { image: ImageSource, dpi: i64, pos: (i64, i64) },
}

/// What rendering `block` on `doc` draws, or why it fails.
pub open spec fn render_outcome(block: PdfBlock, doc: Doc) -> Result<Seq<Mark>, Fault> {
    match block {
        PdfBlock::TextSection { nodes, pos } => {
            let y = output_y(pos.1 as int, doc.page_height());
            if exists|k: int| 0 <= k < nodes.len() && !(#[trigger] nodes[k].valid()) {
                Err(Fault::InvalidParameter)
            } else if !fits_i64(y) || !fits_i64(y - section_advance(nodes@)) {
                Err(Fault::OutOfRange)
            } else {
                Ok(section_marks(nodes@, pos.0 as int, y))
            }
        },
        PdfBlock::Image { image, dpi, pos } => match image {
            ImageSource::Unreadable { source, cause } => Err(
                Fault::Decode { source: source@, cause: cause@ },
            ),
            ImageSource::Pixels { width, height } => match placement_of(
                width as int,
                height as int,
                dpi as int,
                pos.0 as int,
                pos.1 as int,
                doc.page_height(),
            ) {
                Ok(p) => Ok(
                    seq![Mark::Image { x: p.0, y: p.1, width: p.2, height: p.3, dpi: dpi as int }],
                ),
                Err(f) => Err(f),
            },
        },
    }
}

impl PdfBlock {
    /// Draws this block on `layer`. On failure nothing is drawn.
    #[verifier::loop_isolation(false)]
    pub fn render(&self, layer: &mut Layer, doc: &Doc) -> (r: Result<(), RenderError>)
        ensures
            r is Ok <==> render_outcome(*self, *doc) is Ok,
            r is Ok ==> final(layer)@ == old(layer)@ + render_outcome(*self, *doc)->Ok_0,
            r is Err ==> final(layer)@ == old(layer)@ && render_outcome(*self, *doc) == Err::<
                Seq<Mark>,
                Fault,
            >(r->Err_0@),
    {
        let drawn = match self {
            PdfBlock::TextSection { nodes, pos } => {
                let mut i: usize = 0;
                while i < nodes.len()
                    invariant
                        i <= nodes.len(),
                        forall|k: int| 0 <= k < i ==> #[trigger] nodes[k].valid(),
                    decreases nodes.len() - i,
                {
                    if !nodes[i].is_valid() {
                        return Err(RenderError::InvalidParameter);
                    }
                    i = i + 1;
                }
                let y = match to_output_y(pos.1, doc.height) {
                    Some(y) => y,
                    None => {
                        return Err(RenderError::OutOfRange);
                    },
                };
                match flow_section(nodes, to_output_x(pos.0), y) {
                    Some(ops) => ops,
                    None => {
                        return Err(RenderError::OutOfRange);
                    },
                }
            },
            PdfBlock::Image { image, dpi, pos } => match image {
                ImageSource::Unreadable { source, cause } => {
                    return Err(RenderError::Decode { source: source.clone(), cause: cause.clone() });
                },
                ImageSource::Pixels { width, height } => {
                    let p = match place_image(*width, *height, *dpi, *pos, doc.height) {
                        Ok(p) => p,
                        Err(e) => {
                            return Err(e);
                        },
                    };
                    let mut ops: Vec<DrawOp> = Vec::new();
                    ops.push(
                        DrawOp::Image {
                            x: p.x,
                            y: p.y,
                            width: p.width,
                            height: p.height,
                            dpi: *dpi,
                        },
                    );
                    proof {
                        assert(marks(ops@) =~= render_outcome(*self, *doc)->Ok_0);
                    }
                    ops
                },
            },
        };
        let mut ops = drawn;
        let ghost before = layer.ops@;
        let ghost added = ops@;
        layer.ops.append(&mut ops);
        proof {
            assert(layer@ =~= marks(before) + marks(added));
        }
        Ok(())
    }
}

/// Renders `blocks` in order, one fresh layer each, and stops at the first
/// block that fails. On success the layers are returned in block order; on
/// failure the error names the first failing block, and no later block is
/// rendered.
pub fn generate_pdf(doc: &Doc, blocks: Vec<PdfBlock>) -> (r: Result<Vec<Layer>, PdfingError>)
    ensures
        r is Ok <==> forall|i: int|
            0 <= i < blocks.len() ==> (#[trigger] render_outcome(blocks[i], *doc)) is Ok,
        r is Ok ==> r->Ok_0.len() == blocks.len() && forall|i: int|
            0 <= i < blocks.len() ==> #[trigger] r->Ok_0[i]@ == render_outcome(
                blocks[i],
                *doc,
            )->Ok_0,
        r is Err ==> r->Err_0.index < blocks.len() && render_outcome(
            blocks[r->Err_0.index as int],
            *doc,
        ) == Err::<Seq<Mark>, Fault>(r->Err_0.cause@) && forall|j: int|
            0 <= j < r->Err_0.index ==> (#[trigger] render_outcome(blocks[j], *doc)) is Ok,
{
    let mut layers: Vec<Layer> = Vec::new();
    let mut i: usize = 0;
    while i < blocks.len()
        invariant
            i <= blocks.len(),
            layers.len() == i,
            forall|j: int| 0 <= j < i ==> (#[trigger] render_outcome(blocks[j], *doc)) is Ok,
            forall|j: int|
                0 <= j < i ==> #[trigger] layers[j]@ == render_outcome(blocks[j], *doc)->Ok_0,
        decreases blocks.len() - i,
    {
        let mut layer = doc.add_layer();
        match blocks[i].render(&mut layer, doc) {
            Ok(()) => {
                assert(layer@ =~= render_outcome(blocks[i as int], *doc)->Ok_0);
                layers.push(layer);
            },
            Err(cause) => {
                return Err(PdfingError { index: i, cause });
            },
        }
        i = i + 1;
    }
    Ok(layers)
}

} // verus!
