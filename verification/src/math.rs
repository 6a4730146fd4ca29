use vstd::prelude::*;
use vstd::arithmetic::div_mod::lemma_div_pos_is_pos;
use vstd::arithmetic::div_mod::lemma_fundamental_div_mod;
use vstd::arithmetic::div_mod::lemma_fundamental_div_mod_converse;
use vstd::arithmetic::mul::lemma_mul_inequality;
use vstd::arithmetic::mul::lemma_mul_is_commutative;
use vstd::arithmetic::mul::lemma_mul_nonnegative;

verus! {

/// The linear storage offset of the cell in column `x` of row `y`, for rows
/// of `side` cells: row-major order.
pub open spec fn index_of(side: int, x: int, y: int) -> int {
    y * side + x
}

/// The coordinates `(x, y)` packed at linear offset `index`, for rows of
/// `side` cells.
pub open spec fn coords_of(side: int, index: int) -> (int, int) {
    (index % side, index / side)
}

/// index = side * y + x
pub fn index2d_to_index(side: u32, x: u32, y: u32) -> (index: usize)
    requires
        index_of(side as int, x as int, y as int) <= usize::MAX,
    ensures
        index as int == index_of(side as int, x as int, y as int),
{
    proof {
        lemma_mul_is_commutative(side as int, y as int);
    }
    side as usize * y as usize + x as usize
}

/// x = index % side
///
/// y = (index - x) / side
pub fn index_to_index2d(side: u32, index: usize) -> (coords: (u32, u32))
    requires
        side > 0,
        index as int / side as int <= u32::MAX,
    ensures
        (coords.0 as int, coords.1 as int) == coords_of(side as int, index as int),
{
    let x = index % side as usize;
    proof {
        lemma_fundamental_div_mod(index as int, side as int);
        lemma_div_pos_is_pos(index as int, side as int);
        lemma_mul_nonnegative(side as int, index as int / side as int);
        lemma_mul_is_commutative(side as int, index as int / side as int);
        lemma_fundamental_div_mod_converse(
            index as int - x as int,
            side as int,
            index as int / side as int,
            0,
        );
    }
    let y = (index - x) / side as usize;
    (x as u32, y as u32)
}

/// Law: packing coordinates into a linear offset and unpacking the offset
/// returns the same coordinates, for every column `x < side`.
pub proof fn lemma_index_coords_roundtrip(side: int, x: int, y: int)
    requires
        0 <= x < side,
        0 <= y,
    ensures
        coords_of(side, index_of(side, x, y)) == (x, y),
{
    lemma_fundamental_div_mod_converse(y * side + x, side, y, x);
}

/// Bounds the packed offset: every valid coordinate pair lands strictly
/// inside a `side`-by-`height` grid's storage.
pub proof fn lemma_index_in_bounds(side: int, height: int, x: int, y: int)
    requires
        0 <= x < side,
        0 <= y < height,
    ensures
        0 <= index_of(side, x, y) < side * height,
{
    lemma_mul_inequality(y + 1, height, side);
    assert((y + 1) * side == y * side + side) by (nonlinear_arith);
}

} // verus!
