use crate::buffer::Buffer;
use crate::buffer::capacity_fits;
use crate::color::BGR;
use crate::color::RGB;
use crate::color::bgr_components;
use crate::color::rgb_components;
use crate::display::ComponentsRaw;
use crate::error::IncorrectData;
use crate::math::coords_of;
use crate::math::lemma_index_coords_roundtrip;
use crate::math::lemma_index_in_bounds;
use crate::transpose::transpose;
use crate::transpose::transpose_square;
use crate::transpose::transposed;
use vstd::prelude::*;
use vstd::arithmetic::div_mod::lemma_fundamental_div_mod;
use vstd::arithmetic::div_mod::lemma_mod_bound;
use vstd::arithmetic::mul::lemma_mul_inequality;
use vstd::arithmetic::mul::lemma_mul_is_commutative;
use vstd::pervasive::VecAdditionalExecFns;

verus! {

/// A pixel grid that owns its buffer and offers the in-place layout
/// transforms: row reversal, top-bottom mirroring, and rotation by a
/// quarter turn.
pub struct Image<T: Copy> {
    buffer: Buffer<T>,
}

impl<T: Copy> Image<T> {
    /// The grid width, as specifications see it.
    pub closed spec fn spec_width(&self) -> u32 {
        self.buffer.width
    }

    /// The grid height, as specifications see it.
    pub closed spec fn spec_height(&self) -> u32 {
        self.buffer.height
    }

    /// The pixels in row-major storage order.
    pub closed spec fn pixels(&self) -> Seq<T> {
        self.buffer.data@
    }

    /// The structural invariant: one stored value per grid cell.
    pub open spec fn wf(&self) -> bool {
        self.pixels().len() == self.spec_width() as int * self.spec_height() as int
    }

    /// An image of the given dimensions with every cell set to `color`.
    /// Fails with `Overflow` exactly when the grid cannot be addressed on
    /// this platform.
    pub fn new(width: u32, height: u32, color: T) -> (out: Result<Self, IncorrectData>)
        ensures
            out is Ok <==> capacity_fits::<T>(width as int, height as int),
            match out {
                Ok(img) => img.wf() && img.spec_width() == width && img.spec_height() == height
                    && forall|i: int| 0 <= i < img.pixels().len() ==> img.pixels()[i] == color,
                Err(e) => e == IncorrectData::Overflow,
            },
    {
        match Buffer::new(width, height, color) {
            Ok(buffer) => Ok(Self { buffer }),
            Err(e) => Err(e),
        }
    }

    /// An image of the given dimensions over the given storage.  Fails
    /// with `Size` when `data` does not hold exactly one value per cell,
    /// and with `Overflow` when the element count exceeds what the
    /// platform can address.
    pub fn from_vec(width: u32, height: u32, data: Vec<T>) -> (out: Result<Self, IncorrectData>)
        requires
            width as int * height as int <= usize::MAX,
        ensures
            out is Ok <==> (data@.len() == width as int * height as int && data@.len()
                <= isize::MAX),
            match out {
                Ok(img) => img.wf() && img.spec_width() == width && img.spec_height() == height
                    && img.pixels() == data@,
                Err(e) => e == (if data@.len() != width as int * height as int {
                    IncorrectData::Size {
                        expected: (width as int * height as int) as usize,
                        got: data@.len() as usize,
                    }
                } else {
                    IncorrectData::Overflow
                }),
            },
    {
        match Buffer::from_vec(width, height, data) {
            Ok(buffer) => Ok(Self { buffer }),
            Err(e) => Err(e),
        }
    }

    /// Consumes the image and hands out its storage.
    #[inline]
    pub fn as_vec(self) -> (out: Vec<T>)
        ensures
            out@ == self.pixels(),
    {
        self.buffer.data
    }

    #[inline]
    pub fn width(&self) -> (w: u32)
        ensures
            w == self.spec_width(),
    {
        self.buffer.width
    }

    #[inline]
    pub fn height(&self) -> (h: u32)
        ensures
            h == self.spec_height(),
    {
        self.buffer.height
    }

    /// How many pixels the image stores.
    #[inline]
    pub fn len(&self) -> (n: usize)
        ensures
            n == self.pixels().len(),
    {
        self.buffer.data.len()
    }

    /// The pixel stored at linear position `index`.
    #[inline]
    pub fn get(&self, index: usize) -> (p: T)
        requires
            index < self.pixels().len(),
        ensures
            p == self.pixels()[index as int],
    {
        self.buffer.data[index]
    }

    /// Overwrites the pixel stored at linear position `index`.
    #[inline]
    pub fn set(&mut self, index: usize, value: T)
        requires
            index < old(self).pixels().len(),
        ensures
            final(self).pixels() == old(self).pixels().update(index as int, value),
            final(self).spec_width() == old(self).spec_width(),
            final(self).spec_height() == old(self).spec_height(),
    {
        self.buffer.data.set(index, value);
    }

    /// The linear storage offset of column `x` in row `y`.
    #[inline]
    pub fn index2d_to_index(&self, x: u32, y: u32) -> (index: usize)
        requires
            self.wf(),
            x < self.spec_width(),
            y < self.spec_height(),
        ensures
            index as int == y as int * self.spec_width() as int + x as int,
            index < self.pixels().len(),
    {
        let n: usize = self.buffer.data.len();
        proof {
            crate::math::lemma_index_in_bounds(
                self.spec_width() as int,
                self.spec_height() as int,
                x as int,
                y as int,
            );
            assert(n == self.pixels().len());
        }
        crate::math::index2d_to_index(self.buffer.width, x, y)
    }

    /// The coordinates whose pixel is stored at linear offset `index`.
    #[inline]
    pub fn index_to_index2d(&self, index: usize) -> (coords: (u32, u32))
        requires
            self.wf(),
            index < self.pixels().len(),
        ensures
            (coords.0 as int, coords.1 as int) == coords_of(self.spec_width() as int, index as int),
            coords.0 < self.spec_width(),
            coords.1 < self.spec_height(),
    {
        let ghost w: int = self.spec_width() as int;
        let ghost h: int = self.spec_height() as int;
        let ghost ix: int = index as int;
        proof {
            assert(w > 0) by (nonlinear_arith)
                requires
                    0 <= w,
                    0 <= ix,
                    ix < w * h,
            ;
            lemma_fundamental_div_mod(ix, w);
            lemma_mod_bound(ix, w);
            assert(ix / w < h) by (nonlinear_arith)
                requires
                    ix == w * (ix / w) + ix % w,
                    0 <= ix % w < w,
                    ix < w * h,
                    0 < w,
            ;
            assert(h <= u32::MAX);
        }
        crate::math::index_to_index2d(self.buffer.width, index)
    }
}

/// The storage after each row is reversed in place: the cell in column `x`
/// of a row moves to column `width - 1 - x` of the same row.
pub open spec fn reversed_within_rows<T>(s: Seq<T>, width: int) -> Seq<T> {
    Seq::new(s.len(), |j: int| s[(j / width) * width + (width - 1 - j % width)])
}

/// The storage after the rows trade places top to bottom: row `y` moves to
/// row `height - 1 - y`, each row keeping its pixel order.
pub open spec fn reversed_row_order<T>(s: Seq<T>, width: int, height: int) -> Seq<T> {
    Seq::new(s.len(), |j: int| s[(height - 1 - j / width) * width + j % width])
}

/// The storage after a quarter turn clockwise.  The result is laid out
/// with `height` cells per row; its cell in column `height - 1 - y` of row
/// `x` holds the cell of `s` from column `x` of row `y`.
pub open spec fn rotated<T>(s: Seq<T>, width: int, height: int) -> Seq<T> {
    Seq::new(s.len(), |j: int| s[(height - 1 - j % height) * width + j / height])
}

/// Swaps the cells at positions `i` and `j`.
fn swap_cells<T: Copy>(data: &mut Vec<T>, i: usize, j: usize)
    requires
        i < old(data)@.len(),
        j < old(data)@.len(),
    ensures
        final(data)@ == old(data)@.update(i as int, old(data)@[j as int]).update(
            j as int,
            old(data)@[i as int],
        ),
{
    let vi = data[i];
    let vj = data[j];
    data.set(i, vj);
    data.set(j, vi);
}

/// Reverses the whole storage in place.
fn reverse_vec<T: Copy>(data: &mut Vec<T>)
    ensures
        final(data)@ == old(data)@.reverse(),
{
    let ghost d0 = data@;
    let n: usize = data.len();
    let mut k: usize = 0;
    while k < n / 2
        invariant
            data@.len() == n,
            d0.len() == n,
            k <= n / 2,
            forall|j: int|
                0 <= j < n ==> data@[j] == (if j < k as int || j >= n - k as int {
                    d0[n - 1 - j]
                } else {
                    d0[j]
                }),
        decreases n / 2 - k,
    {
        proof {
            lemma_fundamental_div_mod(n as int, 2);
            lemma_mod_bound(n as int, 2);
        }
        swap_cells(data, k, n - 1 - k);
        k = k + 1;
    }
    proof {
        lemma_fundamental_div_mod(n as int, 2);
        lemma_mod_bound(n as int, 2);
        assert forall|j: int| 0 <= j < n implies data@[j] == d0[n - 1 - j] by {
            if !(j < n as int / 2 || j >= n - n as int / 2) {
                assert(n - 1 - j == j);
            }
        }
        assert(data@ =~= d0.reverse());
    }
}

impl<T: Copy> Image<T> {
    /// Reverses each row in place: the pixel order within every row is
    /// reversed, while the rows keep their positions.
    pub fn flip_vertically(&mut self)
        requires
            old(self).wf(),
        ensures
            final(self).wf(),
            final(self).spec_width() == old(self).spec_width(),
            final(self).spec_height() == old(self).spec_height(),
            final(self).pixels() == reversed_within_rows(
                old(self).pixels(),
                old(self).spec_width() as int,
            ),
    {
        let ghost d0 = self.pixels();
        let ghost w: int = self.buffer.width as int;
        let ghost h: int = self.buffer.height as int;
        let width = self.buffer.width;
        let height = self.buffer.height;
        let n: usize = self.buffer.data.len();
        let mut y: u32 = 0;
        while y < height
            invariant
                w == width as int,
                h == height as int,
                self.buffer.width == width,
                self.buffer.height == height,
                self.buffer.data@.len() == n,
                d0.len() == n,
                n as int == w * h,
                y <= height,
                forall|j: int|
                    0 <= j < n ==> self.buffer.data@[j] == (if j / w < y as int {
                        d0[(j / w) * w + (w - 1 - j % w)]
                    } else {
                        d0[j]
                    }),
            decreases h - y,
        {
            proof {
                lemma_mul_inequality(y as int + 1, h, w);
                assert((y as int + 1) * w == y as int * w + w) by (nonlinear_arith);
                assert(h * w == w * h) by (nonlinear_arith);
            }
            let start: usize = crate::math::index2d_to_index(width, 0, y);
            let half: u32 = width / 2;
            proof {
                lemma_fundamental_div_mod(w, 2);
                lemma_mod_bound(w, 2);
            }
            let mut k: u32 = 0;
            while k < half
                invariant
                    w == width as int,
                    h == height as int,
                    half as int == w / 2,
                    self.buffer.width == width,
                    self.buffer.height == height,
                    self.buffer.data@.len() == n,
                    d0.len() == n,
                    n as int == w * h,
                    y < height,
                    start as int == y as int * w,
                    start as int + w <= n,
                    k <= half,
                    forall|j: int|
                        0 <= j < n ==> self.buffer.data@[j] == (if j / w < y as int || (j / w
                            == y as int && (j % w < k as int || j % w >= w - k as int)) {
                            d0[(j / w) * w + (w - 1 - j % w)]
                        } else {
                            d0[j]
                        }),
                decreases half - k,
            {
                proof {
                    lemma_fundamental_div_mod(w, 2);
                    lemma_mod_bound(w, 2);
                    crate::math::lemma_index_coords_roundtrip(w, k as int, y as int);
                    crate::math::lemma_index_coords_roundtrip(w, w - 1 - (k as int), y as int);
                }
                let p1: usize = start + k as usize;
                let p2: usize = start + (width as usize - 1 - k as usize);
                swap_cells(&mut self.buffer.data, p1, p2);
                proof {
                    assert forall|j: int|
                        0 <= j < n implies self.buffer.data@[j] == (if j / w < y as int || (j / w
                        == y as int && (j % w < k as int + 1 || j % w >= w - (k as int + 1))) {
                        d0[(j / w) * w + (w - 1 - j % w)]
                    } else {
                        d0[j]
                    }) by {
                        lemma_fundamental_div_mod(j, w);
                        lemma_mul_is_commutative(w, j / w);
                        if j == p1 as int {
                            assert(p1 as int / w == y as int && p1 as int % w == k as int);
                            assert((p1 as int / w) * w + (w - 1 - p1 as int % w) == p2 as int);
                        } else if j == p2 as int {
                            assert(p2 as int / w == y as int && p2 as int % w == w - 1 - (
                            k as int));
                            assert((p2 as int / w) * w + (w - 1 - p2 as int % w) == p1 as int);
                        } else {
                            assert(j / w == y as int && j % w == k as int ==> j == p1 as int);
                            assert(j / w == y as int && j % w == w - 1 - (k as int) ==> j
                                == p2 as int);
                        }
                    }
                }
                k = k + 1;
            }
            proof {
                lemma_fundamental_div_mod(w, 2);
                lemma_mod_bound(w, 2);
                assert forall|j: int|
                    0 <= j < n implies self.buffer.data@[j] == (if j / w < y as int + 1 {
                    d0[(j / w) * w + (w - 1 - j % w)]
                } else {
                    d0[j]
                }) by {
                    if j / w == y as int {
                        if !(j % w < half as int || j % w >= w - half as int) {
                            lemma_fundamental_div_mod(j, w);
                            lemma_mod_bound(j, w);
                            lemma_mul_is_commutative(w, j / w);
                            assert(w - 1 - j % w == j % w);
                            assert((j / w) * w + (w - 1 - j % w) == j);
                        }
                    }
                }
            }
            y = y + 1;
        }
        proof {
            assert forall|j: int| 0 <= j < n implies #[trigger] (j / w) < h by {
                lemma_fundamental_div_mod(j, w);
                lemma_mod_bound(j, w);
                assert(j / w < h) by (nonlinear_arith)
                    requires
                        j == w * (j / w) + j % w,
                        0 <= j % w < w,
                        0 <= j,
                        j < w * h,
                        0 < w,
                ;
            }
            assert(self.buffer.data@ =~= reversed_within_rows(d0, w));
        }
    }
}

/// Reversing the storage and then reversing every row of the result
/// reorders whole rows: exactly the top-bottom mirror.
proof fn lemma_reverse_then_rows_mirrors<T>(s: Seq<T>, width: int, height: int)
    requires
        s.len() == width * height,
        0 <= width,
        0 <= height,
    ensures
        reversed_within_rows(s.reverse(), width) == reversed_row_order(s, width, height),
{
    let n = s.len() as int;
    assert forall|j: int|
        0 <= j < n implies reversed_within_rows(s.reverse(), width)[j] == reversed_row_order(
        s,
        width,
        height,
    )[j] by {
        assert(0 < width) by (nonlinear_arith)
            requires
                0 <= width,
                0 <= height,
                0 <= j,
                j < width * height,
        ;
        lemma_fundamental_div_mod(j, width);
        lemma_mod_bound(j, width);
        let q = j / width;
        let r = j % width;
        assert(q < height) by (nonlinear_arith)
            requires
                j == width * q + r,
                0 <= r < width,
                j < width * height,
                0 < width,
        ;
        lemma_index_in_bounds(width, height, width - 1 - r, q);
        lemma_index_in_bounds(width, height, r, height - 1 - q);
        assert(n - 1 - (q * width + (width - 1 - r)) == (height - 1 - q) * width + r)
            by (nonlinear_arith)
            requires
                n == width * height,
        ;
    }
    assert(reversed_within_rows(s.reverse(), width) =~= reversed_row_order(s, width, height));
}

/// Reversing every row of the transposed storage is exactly the quarter
/// turn clockwise.
proof fn lemma_rows_of_transposed_rotate<T>(s: Seq<T>, width: int, height: int)
    requires
        s.len() == width * height,
        0 <= width,
        0 <= height,
    ensures
        reversed_within_rows(transposed(s, width, height), height) == rotated(s, width, height),
{
    let n = s.len() as int;
    assert forall|j: int|
        0 <= j < n implies reversed_within_rows(transposed(s, width, height), height)[j]
        == rotated(s, width, height)[j] by {
        assert(0 < width && 0 < height) by (nonlinear_arith)
            requires
                0 <= width,
                0 <= height,
                0 <= j,
                j < width * height,
        ;
        lemma_fundamental_div_mod(j, height);
        lemma_mod_bound(j, height);
        let q = j / height;
        let r = j % height;
        assert(q < width) by (nonlinear_arith)
            requires
                j == height * q + r,
                0 <= r < height,
                j < width * height,
                0 < height,
        ;
        let i = q * height + (height - 1 - r);
        lemma_index_coords_roundtrip(height, height - 1 - r, q);
        assert(i < n) by (nonlinear_arith)
            requires
                i == q * height + (height - 1 - r),
                0 <= height - 1 - r < height,
                0 <= q < width,
                n == width * height,
        ;
    }
    assert(reversed_within_rows(transposed(s, width, height), height) =~= rotated(
        s,
        width,
        height,
    ));
}

impl<T: Copy> Image<T> {
    /// Mirrors the image top to bottom: the whole storage is reversed and
    /// every row of the result is reversed again, so the rows trade places
    /// while each keeps its pixel order.  This exact composition realizes
    /// the mirror; reversing rows individually would mirror left to right
    /// instead.
    pub fn flip_horizontally(&mut self)
        requires
            old(self).wf(),
        ensures
            final(self).wf(),
            final(self).spec_width() == old(self).spec_width(),
            final(self).spec_height() == old(self).spec_height(),
            final(self).pixels() == reversed_row_order(
                old(self).pixels(),
                old(self).spec_width() as int,
                old(self).spec_height() as int,
            ),
    {
        let ghost d0 = self.pixels();
        let ghost w: int = self.spec_width() as int;
        let ghost h: int = self.spec_height() as int;
        reverse_vec(&mut self.buffer.data);
        self.flip_vertically();
        proof {
            lemma_reverse_then_rows_mirrors(d0, w, h);
        }
    }

    /// Rotates the image a quarter turn clockwise: the grid is transposed
    /// in place, then every row of the result is reversed.  Transposing
    /// first and reversing second realizes the clockwise turn; the other
    /// order would turn the image the opposite way.
    pub fn rotate90(&mut self)
        requires
            old(self).wf(),
        ensures
            final(self).wf(),
            final(self).spec_width() == old(self).spec_height(),
            final(self).spec_height() == old(self).spec_width(),
            final(self).pixels() == rotated(
                old(self).pixels(),
                old(self).spec_width() as int,
                old(self).spec_height() as int,
            ),
    {
        let ghost d0 = self.pixels();
        let ghost w: int = self.spec_width() as int;
        let ghost h: int = self.spec_height() as int;
        if self.buffer.width == self.buffer.height {
            transpose_square(self.buffer.width, &mut self.buffer.data);
        } else {
            transpose(self.buffer.width, self.buffer.height, &mut self.buffer.data);
            let side = self.buffer.width;
            self.buffer.width = self.buffer.height;
            self.buffer.height = side;
        }
        proof {
            lemma_mul_is_commutative(w, h);
        }
        self.flip_vertically();
        proof {
            lemma_rows_of_transposed_rotate(d0, w, h);
        }
    }
}

/// Law: reversing every row twice restores the storage.
pub proof fn lemma_flip_vertical_involutive<T>(s: Seq<T>, width: int, height: int)
    requires
        s.len() == width * height,
        0 <= width,
        0 <= height,
    ensures
        reversed_within_rows(reversed_within_rows(s, width), width) == s,
{
    let n = s.len() as int;
    assert forall|j: int|
        0 <= j < n implies reversed_within_rows(reversed_within_rows(s, width), width)[j]
        == s[j] by {
        assert(0 < width) by (nonlinear_arith)
            requires
                0 <= width,
                0 <= height,
                0 <= j,
                j < width * height,
        ;
        lemma_fundamental_div_mod(j, width);
        lemma_mod_bound(j, width);
        lemma_mul_is_commutative(width, j / width);
        let q = j / width;
        let r = j % width;
        assert(q < height) by (nonlinear_arith)
            requires
                j == width * q + r,
                0 <= r < width,
                j < width * height,
                0 < width,
        ;
        lemma_index_coords_roundtrip(width, width - 1 - r, q);
        lemma_index_in_bounds(width, height, width - 1 - r, q);
    }
    assert(reversed_within_rows(reversed_within_rows(s, width), width) =~= s);
}

/// Law: mirroring the rows top to bottom twice restores the storage.
pub proof fn lemma_flip_horizontal_involutive<T>(s: Seq<T>, width: int, height: int)
    requires
        s.len() == width * height,
        0 <= width,
        0 <= height,
    ensures
        reversed_row_order(reversed_row_order(s, width, height), width, height) == s,
{
    let n = s.len() as int;
    assert forall|j: int|
        0 <= j < n implies reversed_row_order(reversed_row_order(s, width, height), width, height)[j]
        == s[j] by {
        assert(0 < width) by (nonlinear_arith)
            requires
                0 <= width,
                0 <= height,
                0 <= j,
                j < width * height,
        ;
        lemma_fundamental_div_mod(j, width);
        lemma_mod_bound(j, width);
        lemma_mul_is_commutative(width, j / width);
        let q = j / width;
        let r = j % width;
        assert(q < height) by (nonlinear_arith)
            requires
                j == width * q + r,
                0 <= r < width,
                j < width * height,
                0 < width,
        ;
        lemma_index_coords_roundtrip(width, r, height - 1 - q);
        lemma_index_in_bounds(width, height, r, height - 1 - q);
    }
    assert(reversed_row_order(reversed_row_order(s, width, height), width, height) =~= s);
}

/// Two quarter turns reverse the storage outright: the half turn maps each
/// cell to the opposite end.
proof fn lemma_rotated_twice_reverses<T>(s: Seq<T>, width: int, height: int)
    requires
        s.len() == width * height,
        0 <= width,
        0 <= height,
    ensures
        rotated(rotated(s, width, height), height, width) == s.reverse(),
{
    let n = s.len() as int;
    assert forall|j: int|
        0 <= j < n implies rotated(rotated(s, width, height), height, width)[j] == s.reverse()[j]
        by {
        assert(0 < width && 0 < height) by (nonlinear_arith)
            requires
                0 <= width,
                0 <= height,
                0 <= j,
                j < width * height,
        ;
        lemma_fundamental_div_mod(j, width);
        lemma_mod_bound(j, width);
        lemma_mul_is_commutative(width, j / width);
        let q = j / width;
        let r = j % width;
        assert(q < height) by (nonlinear_arith)
            requires
                j == width * q + r,
                0 <= r < width,
                j < width * height,
                0 < width,
        ;
        let i = (width - 1 - r) * height + q;
        lemma_index_coords_roundtrip(height, q, width - 1 - r);
        assert(i < n) by (nonlinear_arith)
            requires
                i == (width - 1 - r) * height + q,
                0 <= width - 1 - r < width,
                0 <= q < height,
                n == width * height,
        ;
        lemma_index_in_bounds(width, height, width - 1 - r, height - 1 - q);
        assert((height - 1 - q) * width + (width - 1 - r) == n - 1 - j) by (nonlinear_arith)
            requires
                n == width * height,
                j == q * width + r,
        ;
    }
    assert(rotated(rotated(s, width, height), height, width) =~= s.reverse());
}

/// Law: four quarter turns restore the storage, so rotation has order
/// four on content, width and height alike.
pub proof fn lemma_rotate_four_times_identity<T>(s: Seq<T>, width: int, height: int)
    requires
        s.len() == width * height,
        0 <= width,
        0 <= height,
    ensures
        rotated(
            rotated(rotated(rotated(s, width, height), height, width), width, height),
            height,
            width,
        ) == s,
{
    let r2 = rotated(rotated(s, width, height), height, width);
    lemma_rotated_twice_reverses(s, width, height);
    lemma_rotated_twice_reverses(s.reverse(), width, height);
    assert(r2.len() == width * height);
    assert(rotated(rotated(r2, width, height), height, width) == r2.reverse());
    assert(s.reverse().reverse() =~= s);
}

impl<T: Copy> ComponentsRaw for Image<RGB<T>> {
    type Output = T;

    open spec fn spec_raw(&self) -> Seq<T> {
        rgb_components(self.pixels())
    }

    fn raw(&self) -> (out: Vec<T>) {
        self.buffer.raw()
    }

    fn raw_into_vec(self) -> (out: Vec<T>) {
        self.buffer.raw_into_vec()
    }
}

impl<T: Copy> ComponentsRaw for Image<BGR<T>> {
    type Output = T;

    open spec fn spec_raw(&self) -> Seq<T> {
        bgr_components(self.pixels())
    }

    fn raw(&self) -> (out: Vec<T>) {
        self.buffer.raw()
    }

    fn raw_into_vec(self) -> (out: Vec<T>) {
        self.buffer.raw_into_vec()
    }
}

} // verus!
