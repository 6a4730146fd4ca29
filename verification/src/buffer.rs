use crate::error::IncorrectData;
use vstd::prelude::*;

verus! {

/// Whether a `width`-by-`height` grid of pixels of type `T` can be
/// addressed on this platform: the element count stays within `isize`,
/// and the byte count within `usize`.
pub open spec fn capacity_fits<T>(width: int, height: int) -> bool {
    width * height <= isize::MAX && width * height * vstd::layout::size_of::<T>() <= usize::MAX
}

/// A rectangular grid of pixel values, stored row-major in a flat vector.
pub struct Buffer<T: Copy> {
    pub width: u32,
    pub height: u32,
    pub data: Vec<T>,
}

impl<T: Copy> Buffer<T> {
    /// The structural invariant: the storage holds exactly one value per
    /// grid cell.
    pub open spec fn wf(&self) -> bool {
        self.data@.len() == self.width as int * self.height as int
    }

    /// A buffer of the given dimensions with every cell set to `color`.
    /// Fails with `Overflow` exactly when the requested grid cannot be
    /// addressed on this platform.
    pub fn new(width: u32, height: u32, color: T) -> (out: Result<Self, IncorrectData>)
        ensures
            out is Ok <==> capacity_fits::<T>(width as int, height as int),
            match out {
                Ok(b) => b.wf() && b.width == width && b.height == height && forall|i: int|
                    0 <= i < b.data@.len() ==> b.data@[i] == color,
                Err(e) => e == IncorrectData::Overflow,
            },
    {
        let ghost w: int = width as int;
        let ghost h: int = height as int;
        proof {
            assert(w * h < 0x10000000000000000) by (nonlinear_arith)
                requires
                    0 <= w < 0x100000000,
                    0 <= h < 0x100000000,
            ;
        }
        let capacity_wide: u64 = width as u64 * height as u64;
        if capacity_wide > isize::MAX as u64 {
            proof {
                assert(!capacity_fits::<T>(width as int, height as int));
            }
            return Err(IncorrectData::Overflow);
        }
        let capacity: usize = capacity_wide as usize;
        if capacity.checked_mul(core::mem::size_of::<T>()).is_none() {
            proof {
                assert(capacity as int * vstd::layout::size_of::<T>() > usize::MAX);
            }
            return Err(IncorrectData::Overflow);
        }
        let mut data: Vec<T> = Vec::new();
        while data.len() < capacity
            invariant
                data@.len() <= capacity,
                forall|i: int| 0 <= i < data@.len() ==> data@[i] == color,
            decreases capacity - data@.len(),
        {
            data.push(color);
        }
        Ok(Buffer { width, height, data })
    }

    /// A buffer of the given dimensions that takes ownership of `data`.
    /// Fails with `Size` when `data` does not hold exactly one value per
    /// cell, and with `Overflow` when the element count exceeds what the
    /// platform can address.
    pub fn from_vec(width: u32, height: u32, data: Vec<T>) -> (out: Result<Self, IncorrectData>)
        requires
            width as int * height as int <= usize::MAX,
        ensures
            out is Ok <==> (data@.len() == width as int * height as int && data@.len()
                <= isize::MAX),
            match out {
                Ok(b) => b.wf() && b.width == width && b.height == height && b.data@ == data@,
                Err(e) => e == (if data@.len() != width as int * height as int {
                    IncorrectData::Size {
                        expected: (width as int * height as int) as usize,
                        got: data@.len() as usize,
                    }
                } else {
                    IncorrectData::Overflow
                }),
            },
    {
        let ghost w: int = width as int;
        let ghost h: int = height as int;
        proof {
            assert(w * h < 0x10000000000000000) by (nonlinear_arith)
                requires
                    0 <= w < 0x100000000,
                    0 <= h < 0x100000000,
            ;
        }
        let expected: usize = (width as u64 * height as u64) as usize;
        let got: usize = data.len();
        if expected != got {
            return Err(IncorrectData::Size { expected, got });
        }
        if got > isize::MAX as usize {
            return Err(IncorrectData::Overflow);
        }
        Ok(Buffer { width, height, data })
    }
}

} // verus!
