use vstd::prelude::*;

verus! {

/// One drawing primitive, in output coordinates (origin at the bottom-left).
#[derive(Debug)]
pub enum DrawOp {
    /// One line of text whose baseline starts at `(x, y)`.
    Text { x: i64, y: i64, font_size: i64, line: String },
    /// A raster image whose lower-left corner is at `(x, y)`, drawn at the
    /// given size and resolution.
    Image { x: i64, y: i64, width: i64, height: i64, dpi: i64 },
}

/// The mathematical content of a `DrawOp`.
pub enum Mark {
    Text { x: int, y: int, font_size: int, line: Seq<char> },
    Image { x: int, y: int, width: int, height: int, dpi: int },
}

impl View for DrawOp {
    type V = Mark;

    open spec fn view(&self) -> Mark {
        match self {
            DrawOp::Text { x, y, font_size, line } => Mark::Text {
                x: *x as int,
                y: *y as int,
                font_size: *font_size as int,
                line: line@,
            },
            DrawOp::Image { x, y, width, height, dpi } => Mark::Image {
                x: *x as int,
                y: *y as int,
                width: *width as int,
                height: *height as int,
                dpi: *dpi as int,
            },
        }
    }
}

/// The marks that a sequence of drawing primitives makes, in order.
pub open spec fn marks(ops: Seq<DrawOp>) -> Seq<Mark> {
    ops.map_values(|o: DrawOp| o@)
}

/// A drawing surface: the primitives drawn on it, in z-order.
#[derive(Debug)]
pub struct Layer {
    pub ops: Vec<DrawOp>,
}

impl View for Layer {
    type V = Seq<Mark>;

    open spec fn view(&self) -> Seq<Mark> {
        marks(self.ops@)
    }
}

impl Layer {
    /// A surface with nothing drawn on it.
    pub fn new() -> (r: Layer)
        ensures
            r@ == Seq::<Mark>::empty(),
    {
        let r = Layer { ops: Vec::new() };
        assert(r@ =~= Seq::<Mark>::empty());
        r
    }
}

} // verus!
