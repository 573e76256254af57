use vstd::prelude::*;

verus! {

/// Row `r` of a 4x4 matrix stored column-major as 16 cells (cell
/// `4 * c + r` holds row `r`, column `c`), restricted to its first three
/// columns.
pub open spec fn row3<T>(m: Seq<T>, r: int) -> Seq<T> {
    seq![m[r], m[4 + r], m[8 + r]]
}

/// The camera basis read out of a view matrix's rotation block. The front
/// vector is the negation of `back`.
#[derive(Debug)]
pub struct ViewBasis<T> {
    pub right: [T; 3],
    pub up: [T; 3],
    pub back: [T; 3],
}

/// Reads the basis from a view matrix stored column-major: `right`, `up`
/// and `back` are the first three rows of its rotation block.
pub fn basis_of<T: Copy>(m: &[T; 16]) -> (r: ViewBasis<T>)
    ensures
        r.right@ == row3(m@, 0),
        r.up@ == row3(m@, 1),
        r.back@ == row3(m@, 2),
{
    let r = ViewBasis {
        right: [m[0], m[4], m[8]],
        up: [m[1], m[5], m[9]],
        back: [m[2], m[6], m[10]],
    };
    assert(r.right@ =~= row3(m@, 0));
    assert(r.up@ =~= row3(m@, 1));
    assert(r.back@ =~= row3(m@, 2));
    r
}

} // verus!
