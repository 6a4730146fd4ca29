use crate::math::index2d_to_index;
use crate::math::lemma_index_in_bounds;
use vstd::prelude::*;
use vstd::pervasive::VecAdditionalExecFns;
use vstd::set_lib::lemma_int_range;
use vstd::set_lib::lemma_len_subset;
use vstd::set_lib::set_int_range;
use vstd::arithmetic::div_mod::lemma_fundamental_div_mod;
use vstd::arithmetic::div_mod::lemma_fundamental_div_mod_converse;
use vstd::arithmetic::div_mod::lemma_mod_bound;
use vstd::arithmetic::div_mod::lemma_mod_multiples_vanish;
use vstd::arithmetic::div_mod::lemma_mul_mod_noop_right;
use vstd::arithmetic::div_mod::lemma_small_mod;

verus! {

/// The storage of a `width`-by-`height` grid after transposition.  The
/// result is laid out with `height` cells per row; its cell in row `x`,
/// column `y` (linear position `x * height + y`) holds the cell of `s` from
/// row `y`, column `x` (linear position `y * width + x`).
pub open spec fn transposed<T>(s: Seq<T>, width: int, height: int) -> Seq<T>
    recommends
        s.len() == width * height,
{
    Seq::new(s.len(), |j: int| s[(j % height) * width + j / height])
}

/// The linear position that the cell at position `a` moves to when a grid
/// with `height` rows stored in `len` cells is transposed: the last cell is
/// fixed, every other cell `a` moves to `height * a` modulo `len - 1`.
pub open spec fn transpose_target(height: int, len: int, a: int) -> int {
    if a == len - 1 {
        a
    } else {
        (height * a) % (len - 1)
    }
}

/// The linear position whose cell moves to position `j` under the same
/// permutation: the inverse walk, with the roles of the dimensions swapped.
pub open spec fn transpose_source(width: int, len: int, j: int) -> int {
    if j == len - 1 {
        j
    } else {
        (width * j) % (len - 1)
    }
}

/// The target of every valid position is a valid position, and only the
/// last position targets the last position.
proof fn lemma_target_in_range(height: int, len: int, a: int)
    requires
        0 <= height,
        1 <= len,
        0 <= a < len,
    ensures
        0 <= transpose_target(height, len, a) < len,
        a < len - 1 ==> transpose_target(height, len, a) < len - 1,
{
    if a < len - 1 {
        lemma_mod_bound(height * a, len - 1);
    }
}

/// Walking a position forward and then backward returns to it: the two
/// walks are mutually inverse, so the permutation is a bijection.
proof fn lemma_source_target_roundtrip(width: int, height: int, len: int, a: int)
    requires
        1 <= width,
        1 <= height,
        len == width * height,
        0 <= a < len,
    ensures
        transpose_source(width, len, transpose_target(height, len, a)) == a,
{
    if a < len - 1 {
        let m = len - 1;
        let t = (height * a) % m;
        lemma_mod_bound(height * a, m);
        assert(transpose_source(width, len, t) == (width * t) % m);
        lemma_mul_mod_noop_right(width, height * a, m);
        assert(width * (height * a) == m * a + a) by (nonlinear_arith)
            requires
                m == width * height - 1,
        ;
        lemma_mod_multiples_vanish(a, a, m);
        lemma_small_mod(a as nat, m as nat);
    }
}

/// The backward walk lands on the classical transpose coordinates: the cell
/// that moves to position `j` is the one in row `j % height`, column
/// `j / height` of the original grid.
proof fn lemma_source_is_coords(width: int, height: int, len: int, j: int)
    requires
        1 <= width,
        1 <= height,
        len == width * height,
        0 <= j < len,
    ensures
        transpose_source(width, len, j) == (j % height) * width + j / height,
{
    let q = j / height;
    let r = j % height;
    lemma_fundamental_div_mod(j, height);
    lemma_mod_bound(j, height);
    assert(q < width) by (nonlinear_arith)
        requires
            j == height * q + r,
            0 <= r < height,
            j < width * height,
            1 <= width,
            1 <= height,
    ;
    assert(0 <= q) by (nonlinear_arith)
        requires
            j == height * q + r,
            0 <= j,
            r < height,
            1 <= height,
    ;
    if j == len - 1 {
        assert(len - 1 == (width - 1) * height + (height - 1)) by (nonlinear_arith)
            requires
                len == width * height,
        ;
        lemma_fundamental_div_mod_converse(j, height, width - 1, height - 1);
        assert((height - 1) * width + (width - 1) == len - 1) by (nonlinear_arith)
            requires
                len == width * height,
        ;
    } else {
        let m = len - 1;
        assert(width * j == m * q + (q + width * r)) by (nonlinear_arith)
            requires
                j == height * q + r,
                m == width * height - 1,
        ;
        assert(q + width * r < m) by (nonlinear_arith)
            requires
                0 <= q < width,
                0 <= r < height,
                m == width * height - 1,
                j == height * q + r,
                j < m,
        ;
        assert(0 <= q + width * r) by (nonlinear_arith)
            requires
                0 <= q,
                0 <= r,
                1 <= width,
        ;
        lemma_mod_multiples_vanish(q, q + width * r, m);
        lemma_small_mod((q + width * r) as nat, m as nat);
        assert(transpose_source(width, len, j) == (width * j) % m);
        assert((width * j) % m == (q + width * r) % m);
        assert(r * width + q == q + width * r) by (nonlinear_arith);
    }
}

/// A sequence of distinct positions of a grid of `len` cells, none of them
/// equal to `i`, holds fewer than `len` entries.
proof fn lemma_trail_bound(trail: Seq<int>, len: int, i: int)
    requires
        trail.no_duplicates(),
        forall|s: int| 0 <= s < trail.len() ==> 0 <= #[trigger] trail[s] < len,
        forall|s: int| 0 <= s < trail.len() ==> #[trigger] trail[s] != i,
        0 <= i < len,
    ensures
        trail.len() < len,
{
    broadcast use vstd::set::group_set_axioms;

    trail.unique_seq_to_set();
    lemma_int_range(0, len);
    let full = set_int_range(0, len).remove(i);
    assert(trail.to_set().subset_of(full));
    lemma_len_subset(trail.to_set(), full);
}

/// In-place transposition of a `width`-by-`height` grid held in row-major
/// order.  Walks the cycles of the transposition permutation: each unvisited
/// position starts a cycle, whose elements are swapped into place until the
/// cycle closes, while a bitmap keeps every position from being moved twice.
#[verifier::rlimit(100)]
pub fn transpose<T: Copy>(width: u32, height: u32, buffer: &mut Vec<T>)
    requires
        old(buffer)@.len() == width as int * height as int,
    ensures
        final(buffer)@ == transposed(old(buffer)@, width as int, height as int),
{
    let ghost d0 = buffer@;
    let ghost w: int = width as int;
    let ghost h: int = height as int;
    let ghost glen: int = d0.len() as int;
    if buffer.len() == 0 {
        proof {
            assert(buffer@ =~= transposed(d0, w, h));
        }
        return;
    }
    proof {
        assert(1 <= w && 1 <= h) by (nonlinear_arith)
            requires
                glen == w * h,
                0 <= w,
                0 <= h,
                1 <= glen,
        ;
    }
    let len: usize = buffer.len();
    let mut visited: Vec<bool> = Vec::new();
    while visited.len() < len
        invariant
            visited@.len() <= len,
            forall|j: int| 0 <= j < visited@.len() ==> !visited@[j],
        decreases len - visited@.len(),
    {
        visited.push(false);
    }
    let mn1: usize = len - 1;
    let hh: usize = height as usize;
    let mut i: usize = 0;
    while i < len
        invariant
            glen == w * h,
            1 <= w,
            1 <= h,
            len == glen,
            mn1 == glen - 1,
            hh == h,
            h <= u32::MAX,
            i <= len,
            buffer@.len() == glen,
            visited@.len() == glen,
            d0.len() == glen,
            forall|j: int| 0 <= j < i ==> visited@[j],
            forall|j: int|
                0 <= j < glen && visited@[j] ==> buffer@[j] == d0[transpose_source(w, glen, j)],
            forall|j: int| 0 <= j < glen && !visited@[j] ==> buffer@[j] == d0[j],
            forall|j: int|
                0 <= j < glen && visited@[j] ==> visited@[transpose_source(w, glen, j)],
        decreases len - i,
    {
        if !visited[i] {
            let ghost b0 = buffer@;
            let ghost vis0 = visited@;
            let mut a: usize = i;
            let ghost mut trail: Seq<int> = Seq::empty();
            loop
                invariant_except_break
                    glen == w * h,
                    1 <= w,
                    1 <= h,
                    len == glen,
                    mn1 == glen - 1,
                    hh == h,
                    h <= u32::MAX,
                    0 <= i < glen,
                    buffer@.len() == glen,
                    visited@.len() == glen,
                    d0.len() == glen,
                    b0.len() == glen,
                    vis0.len() == glen,
                    !vis0[i as int],
                    forall|j: int| 0 <= j < i ==> vis0[j],
                    forall|j: int|
                        0 <= j < glen && vis0[j] ==> b0[j] == d0[transpose_source(w, glen, j)],
                    forall|j: int| 0 <= j < glen && !vis0[j] ==> b0[j] == d0[j],
                    forall|j: int|
                        0 <= j < glen && vis0[j] ==> vis0[transpose_source(w, glen, j)],
                    a as int == (if trail.len() == 0 { i as int } else { trail.last() }),
                    a < glen,
                    forall|s: int| 0 <= s < trail.len() ==> 0 <= #[trigger] trail[s] < glen,
                    trail.len() > 0 ==> trail[0] == transpose_target(h, glen, i as int),
                    forall|s: int|
                        1 <= s < trail.len() ==> #[trigger] trail[s] == transpose_target(
                            h,
                            glen,
                            trail[s - 1],
                        ),
                    forall|s: int| 0 <= s < trail.len() ==> #[trigger] trail[s] != i,
                    forall|s: int| 0 <= s < trail.len() ==> !vis0[#[trigger] trail[s]],
                    trail.no_duplicates(),
                    forall|j: int|
                        0 <= j < glen ==> visited@[j] == (vis0[j] || trail.contains(j)),
                    buffer@[i as int] == d0[a as int],
                    forall|s: int|
                        0 <= s < trail.len() ==> buffer@[#[trigger] trail[s]] == d0[
                            transpose_source(w, glen, trail[s])
                        ],
                    forall|j: int|
                        0 <= j < glen && j != i && !trail.contains(j) ==> buffer@[j] == b0[j],
                ensures
                    buffer@.len() == glen,
                    visited@.len() == glen,
                    forall|j: int|
                        0 <= j < glen && visited@[j] ==> buffer@[j] == d0[
                            transpose_source(w, glen, j)
                        ],
                    forall|j: int| 0 <= j < glen && !visited@[j] ==> buffer@[j] == d0[j],
                    forall|j: int|
                        0 <= j < glen && visited@[j] ==> visited@[transpose_source(w, glen, j)],
                    forall|j: int| 0 <= j < glen && vis0[j] ==> visited@[j],
                    forall|j: int| 0 <= j < i ==> vis0[j],
                    visited@[i as int],
                decreases glen - trail.len(),
            {
                let ghost a_prev: int = a as int;
                if a != mn1 {
                    proof {
                        assert(h * a_prev < 0x10000000000000000000000000000) by (nonlinear_arith)
                            requires
                                0 <= h < 0x100000000,
                                0 <= a_prev < 0x10000000000000000,
                        ;
                    }
                    let big: u128 = (hh as u128) * (a as u128);
                    proof {
                        lemma_mod_bound(h * a_prev, glen - 1);
                    }
                    a = (big % (mn1 as u128)) as usize;
                }
                proof {
                    lemma_target_in_range(h, glen, a_prev);
                    assert(a as int == transpose_target(h, glen, a_prev));
                    lemma_source_target_roundtrip(w, h, glen, a_prev);
                }
                visited.set(a, true);
                if i == a {
                    proof {
                        assert(transpose_source(w, glen, i as int) == a_prev);
                        assert(buffer@[i as int] == d0[a_prev]);
                        assert forall|j: int|
                            0 <= j < glen && visited@[j] implies buffer@[j] == d0[
                            transpose_source(w, glen, j)
                        ] by {
                            if j == i as int {
                            } else if trail.contains(j) {
                                let s = choose|s: int| 0 <= s < trail.len() && trail[s] == j;
                                assert(buffer@[trail[s]] == d0[
                                    transpose_source(w, glen, trail[s])
                                ]);
                            } else {
                                assert(vis0[j]);
                                assert(buffer@[j] == b0[j]);
                            }
                        }
                        assert forall|j: int|
                            0 <= j < glen && !visited@[j] implies buffer@[j] == d0[j] by {
                            assert(!vis0[j]);
                            assert(!trail.contains(j));
                            assert(buffer@[j] == b0[j]);
                        }
                        assert forall|j: int|
                            0 <= j < glen && visited@[j] implies visited@[transpose_source(
                            w,
                            glen,
                            j,
                        )] by {
                            if vis0[j] {
                            } else if j == i as int {
                            } else {
                                let s = choose|s: int|
                                    0 <= s < trail.len() && trail[s] == j;
                                if s == 0 {
                                    lemma_source_target_roundtrip(w, h, glen, i as int);
                                } else {
                                    lemma_source_target_roundtrip(w, h, glen, trail[s - 1]);
                                }
                            }
                        }
                    }
                    break ;
                }
                proof {
                    assert forall|s: int| 0 <= s < trail.len() implies #[trigger] trail[s]
                        != a as int by {
                        if trail[s] == a as int {
                            if s == 0 {
                                lemma_source_target_roundtrip(w, h, glen, i as int);
                            } else {
                                lemma_source_target_roundtrip(w, h, glen, trail[s - 1]);
                            }
                        }
                    }
                    assert(!trail.contains(a as int));
                    assert(!vis0[a as int]) by {
                        if vis0[a as int] {
                            assert(vis0[transpose_source(w, glen, a as int)]);
                        }
                    }
                }
                let tmp_a = buffer[a];
                let tmp_i = buffer[i];
                buffer.set(a, tmp_i);
                buffer.set(i, tmp_a);
                proof {
                    let trail_new = trail.push(a as int);
                    assert forall|j: int| trail_new.contains(j) implies trail.contains(j) || j
                        == a as int by {
                        let s = choose|s: int|
                            0 <= s < trail_new.len() && trail_new[s] == j;
                        if s < trail.len() {
                            assert(trail[s] == j);
                        }
                    }
                    assert forall|j: int|
                        trail.contains(j) || j == a as int implies trail_new.contains(j) by {
                        if trail.contains(j) {
                            let s = choose|s: int| 0 <= s < trail.len() && trail[s] == j;
                            assert(trail_new[s] == j);
                        } else {
                            assert(trail_new[trail.len() as int] == j);
                        }
                    }
                    trail = trail_new;
                    lemma_trail_bound(trail, glen, i as int);
                }
            }
        }
        proof {
            assert(visited@[i as int]);
            assert(forall|j: int| 0 <= j < i ==> visited@[j]);
        }
        i = i + 1;
    }
    proof {
        assert forall|j: int| 0 <= j < glen implies buffer@[j] == transposed(d0, w, h)[j] by {
            lemma_source_is_coords(w, h, glen, j);
        }
        assert(buffer@ =~= transposed(d0, w, h));
    }
}

/// The position holding the mirrored cell of position `j` in a square grid
/// of `side` cells per row: row and column exchanged.
spec fn square_mirror(side: int, j: int) -> int {
    (j % side) * side + j / side
}

/// Whether the pair of cells mirrored at position `j` has already been
/// swapped once the row-by-row sweep has fully handled every row before
/// `yy` and, within row `yy`, every column before `xx`.
spec fn square_pair_done(side: int, yy: int, xx: int, j: int) -> bool {
    let cx = j % side;
    let cy = j / side;
    let lo = if cx < cy { cx } else { cy };
    let hi = if cx < cy { cy } else { cx };
    cx != cy && (lo < yy || (lo == yy && hi < xx))
}

/// In-place transposition of a square grid: the classic sweep that swaps
/// each cell above the diagonal with its mirror below it, row by row.
#[verifier::rlimit(100)]
pub fn transpose_square<T: Copy>(side: u32, buffer: &mut Vec<T>)
    requires
        old(buffer)@.len() == side as int * side as int,
    ensures
        final(buffer)@ == transposed(old(buffer)@, side as int, side as int),
{
    let ghost d0 = buffer@;
    let ghost s: int = side as int;
    let ghost glen: int = d0.len() as int;
    if side == 0 {
        proof {
            assert(buffer@ =~= transposed(d0, s, s));
        }
        return;
    }
    let total: usize = buffer.len();
    proof {
        assert(glen == total as int);
    }
    let mut y: u32 = 0;
    while y < side - 1
        invariant
            glen == s * s,
            glen <= usize::MAX,
            1 <= s,
            side == s,
            y <= s - 1,
            buffer@.len() == glen,
            d0.len() == glen,
            forall|j: int|
                0 <= j < glen ==> buffer@[j] == (if square_pair_done(s, y as int, y as int + 1, j) {
                    d0[square_mirror(s, j)]
                } else {
                    d0[j]
                }),
        decreases s - y,
    {
        let mut x: u32 = y + 1;
        while x < side
            invariant
                glen == s * s,
                glen <= usize::MAX,
                1 <= s,
                side == s,
                y < s - 1,
                y < x <= s,
                buffer@.len() == glen,
                d0.len() == glen,
                forall|j: int|
                    0 <= j < glen ==> buffer@[j] == (if square_pair_done(s, y as int, x as int, j) {
                        d0[square_mirror(s, j)]
                    } else {
                        d0[j]
                    }),
            decreases s - x,
        {
            proof {
                lemma_index_in_bounds(s, s, x as int, y as int);
                lemma_index_in_bounds(s, s, y as int, x as int);
            }
            let xy = index2d_to_index(side, x, y);
            let yx = index2d_to_index(side, y, x);
            proof {
                lemma_fundamental_div_mod_converse(xy as int, s, y as int, x as int);
                lemma_fundamental_div_mod_converse(yx as int, s, x as int, y as int);
                assert(xy != yx) by (nonlinear_arith)
                    requires
                        xy == y * s + x,
                        yx == x * s + y,
                        0 <= y < x < s,
                ;
                assert(square_mirror(s, xy as int) == yx as int);
                assert(square_mirror(s, yx as int) == xy as int);
                assert(!square_pair_done(s, y as int, x as int, xy as int));
                assert(!square_pair_done(s, y as int, x as int, yx as int));
            }
            let tmp_xy = buffer[xy];
            let tmp_yx = buffer[yx];
            buffer.set(xy, tmp_yx);
            buffer.set(yx, tmp_xy);
            proof {
                assert forall|j: int| 0 <= j < glen implies buffer@[j] == (if square_pair_done(
                    s,
                    y as int,
                    x as int + 1,
                    j,
                ) {
                    d0[square_mirror(s, j)]
                } else {
                    d0[j]
                }) by {
                    lemma_fundamental_div_mod(j, s);
                    lemma_mod_bound(j, s);
                    let cx = j % s;
                    let cy = j / s;
                    if j != xy as int && j != yx as int {
                        assert(!(cy == y as int && cx == x as int)) by {
                            if cy == y as int && cx == x as int {
                                assert(s * cy == cy * s) by (nonlinear_arith);
                            }
                        }
                        assert(!(cy == x as int && cx == y as int)) by {
                            if cy == x as int && cx == y as int {
                                assert(s * cy == cy * s) by (nonlinear_arith);
                            }
                        }
                        assert(square_pair_done(s, y as int, x as int + 1, j)
                            == square_pair_done(s, y as int, x as int, j));
                    }
                }
            }
            x = x + 1;
        }
        proof {
            assert forall|j: int| 0 <= j < glen implies square_pair_done(s, y as int, s, j)
                == square_pair_done(s, y as int + 1, y as int + 2, j) by {
                lemma_fundamental_div_mod(j, s);
                lemma_mod_bound(j, s);
                assert(j / s < s) by (nonlinear_arith)
                    requires
                        j == s * (j / s) + j % s,
                        0 <= j % s < s,
                        0 <= j < s * s,
                ;
            }
        }
        y = y + 1;
    }
    proof {
        assert forall|j: int| 0 <= j < glen implies buffer@[j] == transposed(d0, s, s)[j] by {
            lemma_fundamental_div_mod(j, s);
            lemma_mod_bound(j, s);
            assert(j / s < s) by (nonlinear_arith)
                requires
                    j == s * (j / s) + j % s,
                    0 <= j % s < s,
                    0 <= j < s * s,
            ;
            if j % s == j / s {
                assert(square_mirror(s, j) == j) by (nonlinear_arith)
                    requires
                        j == s * (j / s) + j % s,
                        j % s == j / s,
                ;
            }
        }
        assert(buffer@ =~= transposed(d0, s, s));
    }
}

} // verus!
