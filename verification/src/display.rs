use crate::buffer::Buffer;
use crate::color::BGR;
use crate::color::RGB;
use crate::color::bgr_components;
use crate::color::rgb_components;
use crate::math::index2d_to_index;
use crate::math::lemma_index_in_bounds;
use vstd::arithmetic::mul::lemma_mul_inequality;
use vstd::prelude::*;
use vstd::arithmetic::div_mod::lemma_fundamental_div_mod_converse;
use vstd::slice::slice_subrange;

verus! {

/// A rectangular grid of pixels with bounds-aware access to single pixels
/// and whole rows.
pub trait Frame {
    type Pixel;

    /// The grid width, as specifications see it.
    spec fn spec_width(&self) -> u32;

    /// The grid height, as specifications see it.
    spec fn spec_height(&self) -> u32;

    /// The pixels in row-major storage order.
    spec fn pixels(&self) -> Seq<Self::Pixel>;

    /// The storage holds exactly one pixel per cell.
    spec fn frame_wf(&self) -> bool;

    fn width(&self) -> (w: u32)
        ensures
            w == self.spec_width(),
    ;

    fn height(&self) -> (h: u32)
        ensures
            h == self.spec_height(),
    ;

    /// The pixel in column `x` of row `y`.
    fn pixel(&self, x: u32, y: u32) -> (p: &Self::Pixel)
        requires
            self.frame_wf(),
            x < self.spec_width(),
            y < self.spec_height(),
        ensures
            *p == self.pixels()[y as int * self.spec_width() as int + x as int],
    ;

    /// Mutable access to the pixel in column `x` of row `y`: the grid keeps
    /// its shape, and only that cell takes whatever the caller writes.
    fn pixel_mut(&mut self, x: u32, y: u32) -> (p: &mut Self::Pixel)
        requires
            old(self).frame_wf(),
            x < old(self).spec_width(),
            y < old(self).spec_height(),
        ensures
            *p == old(self).pixels()[y as int * old(self).spec_width() as int + x as int],
            final(self).pixels() == old(self).pixels().update(
                y as int * old(self).spec_width() as int + x as int,
                *final(p),
            ),
            final(self).spec_width() == old(self).spec_width(),
            final(self).spec_height() == old(self).spec_height(),
            final(self).frame_wf(),
    ;

    /// The contiguous slice of pixels forming row `y`.
    fn row(&self, y: u32) -> (r: &[Self::Pixel])
        requires
            self.frame_wf(),
            y < self.spec_height(),
        ensures
            r@ == self.pixels().subrange(
                y as int * self.spec_width() as int,
                y as int * self.spec_width() as int + self.spec_width() as int,
            ),
    ;
}

impl<T: Copy> Frame for Buffer<T> {
    type Pixel = T;

    open spec fn spec_width(&self) -> u32 {
        self.width
    }

    open spec fn spec_height(&self) -> u32 {
        self.height
    }

    open spec fn pixels(&self) -> Seq<T> {
        self.data@
    }

    open spec fn frame_wf(&self) -> bool {
        self.wf()
    }

    #[inline]
    fn width(&self) -> (w: u32) {
        self.width
    }

    #[inline]
    fn height(&self) -> (h: u32) {
        self.height
    }

    #[inline]
    fn pixel(&self, x: u32, y: u32) -> (p: &T) {
        let n: usize = self.data.len();
        proof {
            lemma_index_in_bounds(self.width as int, self.height as int, x as int, y as int);
            assert(n == self.data@.len());
        }
        let idx = index2d_to_index(self.width, x, y);
        &self.data[idx]
    }

    #[inline]
    fn pixel_mut(&mut self, x: u32, y: u32) -> (p: &mut T) {
        let n: usize = self.data.len();
        proof {
            lemma_index_in_bounds(self.width as int, self.height as int, x as int, y as int);
            assert(n == self.data@.len());
        }
        let idx = index2d_to_index(self.width, x, y);
        &mut self.data[idx]
    }

    #[inline]
    fn row(&self, y: u32) -> (r: &[T]) {
        let n: usize = self.data.len();
        proof {
            lemma_mul_inequality(y as int + 1, self.height as int, self.width as int);
            assert((y as int + 1) * (self.width as int) == y as int * (self.width as int)
                + self.width as int) by (nonlinear_arith);
            assert((self.height as int) * (self.width as int) == (self.width as int) * (
            self.height as int)) by (nonlinear_arith);
            assert(n == self.data@.len());
        }
        let start = index2d_to_index(self.width, 0, y);
        slice_subrange(self.data.as_slice(), start, start + self.width as usize)
    }
}

/// The flat per-channel reading of a pixel container: the scalar channels
/// of every pixel, in storage order, for hand-off to an encoder.
pub trait ComponentsRaw {
    type Output;

    /// The flattened channel sequence, as specifications see it.
    spec fn spec_raw(&self) -> Seq<Self::Output>;

    /// The channels of all pixels, flattened into one vector.
    fn raw(&self) -> (out: Vec<Self::Output>)
        ensures
            out@ == self.spec_raw(),
    ;

    /// Consumes the container and returns the same flattened channels.
    fn raw_into_vec(self) -> (out: Vec<Self::Output>) where Self: Sized
        ensures
            out@ == self.spec_raw(),
    ;
}

impl<T: Copy> ComponentsRaw for Buffer<RGB<T>> {
    type Output = T;

    open spec fn spec_raw(&self) -> Seq<T> {
        rgb_components(self.data@)
    }

    fn raw(&self) -> (out: Vec<T>) {
        let mut out: Vec<T> = Vec::new();
        let mut idx: usize = 0;
        while idx < self.data.len()
            invariant
                idx <= self.data@.len(),
                out@.len() == 3 * idx,
                forall|k: int|
                    0 <= k < out@.len() ==> out@[k] == rgb_components(self.data@)[k],
            decreases self.data@.len() - idx,
        {
            let px = self.data[idx];
            out.push(px.r);
            out.push(px.g);
            out.push(px.b);
            proof {
                lemma_fundamental_div_mod_converse(3 * idx, 3, idx as int, 0);
                lemma_fundamental_div_mod_converse(3 * idx + 1, 3, idx as int, 1);
                lemma_fundamental_div_mod_converse(3 * idx + 2, 3, idx as int, 2);
            }
            idx = idx + 1;
        }
        proof {
            assert(out@ =~= rgb_components(self.data@));
        }
        out
    }

    fn raw_into_vec(self) -> (out: Vec<T>) {
        self.raw()
    }
}

impl<T: Copy> ComponentsRaw for Buffer<BGR<T>> {
    type Output = T;

    open spec fn spec_raw(&self) -> Seq<T> {
        bgr_components(self.data@)
    }

    fn raw(&self) -> (out: Vec<T>) {
        let mut out: Vec<T> = Vec::new();
        let mut idx: usize = 0;
        while idx < self.data.len()
            invariant
                idx <= self.data@.len(),
                out@.len() == 3 * idx,
                forall|k: int|
                    0 <= k < out@.len() ==> out@[k] == bgr_components(self.data@)[k],
            decreases self.data@.len() - idx,
        {
            let px = self.data[idx];
            out.push(px.b);
            out.push(px.g);
            out.push(px.r);
            proof {
                lemma_fundamental_div_mod_converse(3 * idx, 3, idx as int, 0);
                lemma_fundamental_div_mod_converse(3 * idx + 1, 3, idx as int, 1);
                lemma_fundamental_div_mod_converse(3 * idx + 2, 3, idx as int, 2);
            }
            idx = idx + 1;
        }
        proof {
            assert(out@ =~= bgr_components(self.data@));
        }
        out
    }

    fn raw_into_vec(self) -> (out: Vec<T>) {
        self.raw()
    }
}

} // verus!
