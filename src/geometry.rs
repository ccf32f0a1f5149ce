use vstd::prelude::*;

verus! {

/// Number of fixed-point steps in one page unit (a millimetre for positions,
/// a point for font sizes and line heights, one dot per inch for a resolution).
pub const SCALE: i64 = 1000;

/// The output y of an authored y on a page of height `page_height`.
pub open spec fn output_y(y: int, page_height: int) -> int {
    page_height - y
}

/// Whether an integer fits the fixed-point representation.
pub open spec fn fits_i64(v: int) -> bool {
    i64::MIN <= v <= i64::MAX
}

/// Maps an authored y (origin at the top, growing downward) to the output y
/// (origin at the bottom, growing upward). `None` when the result does not
/// fit the representation.
pub fn to_output_y(y: i64, page_height: i64) -> (r: Option<i64>)
    ensures
        fits_i64(output_y(y as int, page_height as int)) ==> r == Some(
            output_y(y as int, page_height as int) as i64,
        ),
        !fits_i64(output_y(y as int, page_height as int)) ==> r is None,
{
    page_height.checked_sub(y)
}

/// The horizontal coordinate is not flipped.
pub fn to_output_x(x: i64) -> (r: i64)
    ensures
        r == x,
{
    x
}

/// Flipping twice gives back the authored y: the mapping is an involution,
/// and its result is the page height minus the authored y.
pub proof fn lemma_flip_involution(y: int, page_height: int)
    ensures
        output_y(y, page_height) == page_height - y,
        output_y(output_y(y, page_height), page_height) == y,
{
}

/// At the representation level the flip is an involution too: whenever
/// `to_output_y` gives a value, flipping that value gives back `y`.
pub proof fn lemma_to_output_y_involution(y: i64, page_height: i64)
    requires
        fits_i64(output_y(y as int, page_height as int)),
    ensures
        fits_i64(output_y(output_y(y as int, page_height as int), page_height as int)),
        output_y(output_y(y as int, page_height as int), page_height as int) == y,
{
}

} // verus!
