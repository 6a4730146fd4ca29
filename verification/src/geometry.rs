use vstd::prelude::*;

verus! {

/// A two-component vector of plain values.
#[derive(Default, Debug, Clone, Copy, PartialEq, Eq, Structural)]
pub struct Vec2<T: Copy> {
    pub x: T,
    pub y: T,
}

/// A three-component vector of plain values.
#[derive(Default, Debug, Clone, Copy, PartialEq, Eq, Structural)]
pub struct Vec3<T: Copy> {
    pub x: T,
    pub y: T,
    pub z: T,
}

impl Vec2<u8> {
    /// The component-wise smaller of the two vectors.
    pub fn min(self, oth: Self) -> (out: Self)
        ensures
            out.x == (if self.x < oth.x { self.x } else { oth.x }),
            out.y == (if self.y < oth.y { self.y } else { oth.y }),
    {
        Self {
            x: if self.x < oth.x { self.x } else { oth.x },
            y: if self.y < oth.y { self.y } else { oth.y },
        }
    }

    /// The component-wise larger of the two vectors.
    pub fn max(self, oth: Self) -> (out: Self)
        ensures
            out.x == (if self.x > oth.x { self.x } else { oth.x }),
            out.y == (if self.y > oth.y { self.y } else { oth.y }),
    {
        Self {
            x: if self.x > oth.x { self.x } else { oth.x },
            y: if self.y > oth.y { self.y } else { oth.y },
        }
    }
}

impl Vec2<i8> {
    /// The component-wise smaller of the two vectors.
    pub fn min(self, oth: Self) -> (out: Self)
        ensures
            out.x == (if self.x < oth.x { self.x } else { oth.x }),
            out.y == (if self.y < oth.y { self.y } else { oth.y }),
    {
        Self {
            x: if self.x < oth.x { self.x } else { oth.x },
            y: if self.y < oth.y { self.y } else { oth.y },
        }
    }

    /// The component-wise larger of the two vectors.
    pub fn max(self, oth: Self) -> (out: Self)
        ensures
            out.x == (if self.x > oth.x { self.x } else { oth.x }),
            out.y == (if self.y > oth.y { self.y } else { oth.y }),
    {
        Self {
            x: if self.x > oth.x { self.x } else { oth.x },
            y: if self.y > oth.y { self.y } else { oth.y },
        }
    }
}

impl Vec2<u16> {
    /// The component-wise smaller of the two vectors.
    pub fn min(self, oth: Self) -> (out: Self)
        ensures
            out.x == (if self.x < oth.x { self.x } else { oth.x }),
            out.y == (if self.y < oth.y { self.y } else { oth.y }),
    {
        Self {
            x: if self.x < oth.x { self.x } else { oth.x },
            y: if self.y < oth.y { self.y } else { oth.y },
        }
    }

    /// The component-wise larger of the two vectors.
    pub fn max(self, oth: Self) -> (out: Self)
        ensures
            out.x == (if self.x > oth.x { self.x } else { oth.x }),
            out.y == (if self.y > oth.y { self.y } else { oth.y }),
    {
        Self {
            x: if self.x > oth.x { self.x } else { oth.x },
            y: if self.y > oth.y { self.y } else { oth.y },
        }
    }
}

impl Vec2<i16> {
    /// The component-wise smaller of the two vectors.
    pub fn min(self, oth: Self) -> (out: Self)
        ensures
            out.x == (if self.x < oth.x { self.x } else { oth.x }),
            out.y == (if self.y < oth.y { self.y } else { oth.y }),
    {
        Self {
            x: if self.x < oth.x { self.x } else { oth.x },
            y: if self.y < oth.y { self.y } else { oth.y },
        }
    }

    /// The component-wise larger of the two vectors.
    pub fn max(self, oth: Self) -> (out: Self)
        ensures
            out.x == (if self.x > oth.x { self.x } else { oth.x }),
            out.y == (if self.y > oth.y { self.y } else { oth.y }),
    {
        Self {
            x: if self.x > oth.x { self.x } else { oth.x },
            y: if self.y > oth.y { self.y } else { oth.y },
        }
    }
}

impl Vec2<u32> {
    /// The component-wise smaller of the two vectors.
    pub fn min(self, oth: Self) -> (out: Self)
        ensures
            out.x == (if self.x < oth.x { self.x } else { oth.x }),
            out.y == (if self.y < oth.y { self.y } else { oth.y }),
    {
        Self {
            x: if self.x < oth.x { self.x } else { oth.x },
            y: if self.y < oth.y { self.y } else { oth.y },
        }
    }

    /// The component-wise larger of the two vectors.
    pub fn max(self, oth: Self) -> (out: Self)
        ensures
            out.x == (if self.x > oth.x { self.x } else { oth.x }),
            out.y == (if self.y > oth.y { self.y } else { oth.y }),
    {
        Self {
            x: if self.x > oth.x { self.x } else { oth.x },
            y: if self.y > oth.y { self.y } else { oth.y },
        }
    }
}

impl Vec2<i32> {
    /// The component-wise smaller of the two vectors.
    pub fn min(self, oth: Self) -> (out: Self)
        ensures
            out.x == (if self.x < oth.x { self.x } else { oth.x }),
            out.y == (if self.y < oth.y { self.y } else { oth.y }),
    {
        Self {
            x: if self.x < oth.x { self.x } else { oth.x },
            y: if self.y < oth.y { self.y } else { oth.y },
        }
    }

    /// The component-wise larger of the two vectors.
    pub fn max(self, oth: Self) -> (out: Self)
        ensures
            out.x == (if self.x > oth.x { self.x } else { oth.x }),
            out.y == (if self.y > oth.y { self.y } else { oth.y }),
    {
        Self {
            x: if self.x > oth.x { self.x } else { oth.x },
            y: if self.y > oth.y { self.y } else { oth.y },
        }
    }
}

impl Vec2<u64> {
    /// The component-wise smaller of the two vectors.
    pub fn min(self, oth: Self) -> (out: Self)
        ensures
            out.x == (if self.x < oth.x { self.x } else { oth.x }),
            out.y == (if self.y < oth.y { self.y } else { oth.y }),
    {
        Self {
            x: if self.x < oth.x { self.x } else { oth.x },
            y: if self.y < oth.y { self.y } else { oth.y },
        }
    }

    /// The component-wise larger of the two vectors.
    pub fn max(self, oth: Self) -> (out: Self)
        ensures
            out.x == (if self.x > oth.x { self.x } else { oth.x }),
            out.y == (if self.y > oth.y { self.y } else { oth.y }),
    {
        Self {
            x: if self.x > oth.x { self.x } else { oth.x },
            y: if self.y > oth.y { self.y } else { oth.y },
        }
    }
}

impl Vec2<i64> {
    /// The component-wise smaller of the two vectors.
    pub fn min(self, oth: Self) -> (out: Self)
        ensures
            out.x == (if self.x < oth.x { self.x } else { oth.x }),
            out.y == (if self.y < oth.y { self.y } else { oth.y }),
    {
        Self {
            x: if self.x < oth.x { self.x } else { oth.x },
            y: if self.y < oth.y { self.y } else { oth.y },
        }
    }

    /// The component-wise larger of the two vectors.
    pub fn max(self, oth: Self) -> (out: Self)
        ensures
            out.x == (if self.x > oth.x { self.x } else { oth.x }),
            out.y == (if self.y > oth.y { self.y } else { oth.y }),
    {
        Self {
            x: if self.x > oth.x { self.x } else { oth.x },
            y: if self.y > oth.y { self.y } else { oth.y },
        }
    }
}

impl Vec2<u128> {
    /// The component-wise smaller of the two vectors.
    pub fn min(self, oth: Self) -> (out: Self)
        ensures
            out.x == (if self.x < oth.x { self.x } else { oth.x }),
            out.y == (if self.y < oth.y { self.y } else { oth.y }),
    {
        Self {
            x: if self.x < oth.x { self.x } else { oth.x },
            y: if self.y < oth.y { self.y } else { oth.y },
        }
    }

    /// The component-wise larger of the two vectors.
    pub fn max(self, oth: Self) -> (out: Self)
        ensures
            out.x == (if self.x > oth.x { self.x } else { oth.x }),
            out.y == (if self.y > oth.y { self.y } else { oth.y }),
    {
        Self {
            x: if self.x > oth.x { self.x } else { oth.x },
            y: if self.y > oth.y { self.y } else { oth.y },
        }
    }
}

impl Vec2<i128> {
    /// The component-wise smaller of the two vectors.
    pub fn min(self, oth: Self) -> (out: Self)
        ensures
            out.x == (if self.x < oth.x { self.x } else { oth.x }),
            out.y == (if self.y < oth.y { self.y } else { oth.y }),
    {
        Self {
            x: if self.x < oth.x { self.x } else { oth.x },
            y: if self.y < oth.y { self.y } else { oth.y },
        }
    }

    /// The component-wise larger of the two vectors.
    pub fn max(self, oth: Self) -> (out: Self)
        ensures
            out.x == (if self.x > oth.x { self.x } else { oth.x }),
            out.y == (if self.y > oth.y { self.y } else { oth.y }),
    {
        Self {
            x: if self.x > oth.x { self.x } else { oth.x },
            y: if self.y > oth.y { self.y } else { oth.y },
        }
    }
}

impl Vec3<u8> {
    /// The component-wise smaller of the two vectors.
    pub fn min(self, oth: Self) -> (out: Self)
        ensures
            out.x == (if self.x < oth.x { self.x } else { oth.x }),
            out.y == (if self.y < oth.y { self.y } else { oth.y }),
            out.z == (if self.z < oth.z { self.z } else { oth.z }),
    {
        Self {
            x: if self.x < oth.x { self.x } else { oth.x },
            y: if self.y < oth.y { self.y } else { oth.y },
            z: if self.z < oth.z { self.z } else { oth.z },
        }
    }

    /// The component-wise larger of the two vectors.
    pub fn max(self, oth: Self) -> (out: Self)
        ensures
            out.x == (if self.x > oth.x { self.x } else { oth.x }),
            out.y == (if self.y > oth.y { self.y } else { oth.y }),
            out.z == (if self.z > oth.z { self.z } else { oth.z }),
    {
        Self {
            x: if self.x > oth.x { self.x } else { oth.x },
            y: if self.y > oth.y { self.y } else { oth.y },
            z: if self.z > oth.z { self.z } else { oth.z },
        }
    }
}

impl Vec3<i8> {
    /// The component-wise smaller of the two vectors.
    pub fn min(self, oth: Self) -> (out: Self)
        ensures
            out.x == (if self.x < oth.x { self.x } else { oth.x }),
            out.y == (if self.y < oth.y { self.y } else { oth.y }),
            out.z == (if self.z < oth.z { self.z } else { oth.z }),
    {
        Self {
            x: if self.x < oth.x { self.x } else { oth.x },
            y: if self.y < oth.y { self.y } else { oth.y },
            z: if self.z < oth.z { self.z } else { oth.z },
        }
    }

    /// The component-wise larger of the two vectors.
    pub fn max(self, oth: Self) -> (out: Self)
        ensures
            out.x == (if self.x > oth.x { self.x } else { oth.x }),
            out.y == (if self.y > oth.y { self.y } else { oth.y }),
            out.z == (if self.z > oth.z { self.z } else { oth.z }),
    {
        Self {
            x: if self.x > oth.x { self.x } else { oth.x },
            y: if self.y > oth.y { self.y } else { oth.y },
            z: if self.z > oth.z { self.z } else { oth.z },
        }
    }
}

impl Vec3<u16> {
    /// The component-wise smaller of the two vectors.
    pub fn min(self, oth: Self) -> (out: Self)
        ensures
            out.x == (if self.x < oth.x { self.x } else { oth.x }),
            out.y == (if self.y < oth.y { self.y } else { oth.y }),
            out.z == (if self.z < oth.z { self.z } else { oth.z }),
    {
        Self {
            x: if self.x < oth.x { self.x } else { oth.x },
            y: if self.y < oth.y { self.y } else { oth.y },
            z: if self.z < oth.z { self.z } else { oth.z },
        }
    }

    /// The component-wise larger of the two vectors.
    pub fn max(self, oth: Self) -> (out: Self)
        ensures
            out.x == (if self.x > oth.x { self.x } else { oth.x }),
            out.y == (if self.y > oth.y { self.y } else { oth.y }),
            out.z == (if self.z > oth.z { self.z } else { oth.z }),
    {
        Self {
            x: if self.x > oth.x { self.x } else { oth.x },
            y: if self.y > oth.y { self.y } else { oth.y },
            z: if self.z > oth.z { self.z } else { oth.z },
        }
    }
}

impl Vec3<i16> {
    /// The component-wise smaller of the two vectors.
    pub fn min(self, oth: Self) -> (out: Self)
        ensures
            out.x == (if self.x < oth.x { self.x } else { oth.x }),
            out.y == (if self.y < oth.y { self.y } else { oth.y }),
            out.z == (if self.z < oth.z { self.z } else { oth.z }),
    {
        Self {
            x: if self.x < oth.x { self.x } else { oth.x },
            y: if self.y < oth.y { self.y } else { oth.y },
            z: if self.z < oth.z { self.z } else { oth.z },
        }
    }

    /// The component-wise larger of the two vectors.
    pub fn max(self, oth: Self) -> (out: Self)
        ensures
            out.x == (if self.x > oth.x { self.x } else { oth.x }),
            out.y == (if self.y > oth.y { self.y } else { oth.y }),
            out.z == (if self.z > oth.z { self.z } else { oth.z }),
    {
        Self {
            x: if self.x > oth.x { self.x } else { oth.x },
            y: if self.y > oth.y { self.y } else { oth.y },
            z: if self.z > oth.z { self.z } else { oth.z },
        }
    }
}

impl Vec3<u32> {
    /// The component-wise smaller of the two vectors.
    pub fn min(self, oth: Self) -> (out: Self)
        ensures
            out.x == (if self.x < oth.x { self.x } else { oth.x }),
            out.y == (if self.y < oth.y { self.y } else { oth.y }),
            out.z == (if self.z < oth.z { self.z } else { oth.z }),
    {
        Self {
            x: if self.x < oth.x { self.x } else { oth.x },
            y: if self.y < oth.y { self.y } else { oth.y },
            z: if self.z < oth.z { self.z } else { oth.z },
        }
    }

    /// The component-wise larger of the two vectors.
    pub fn max(self, oth: Self) -> (out: Self)
        ensures
            out.x == (if self.x > oth.x { self.x } else { oth.x }),
            out.y == (if self.y > oth.y { self.y } else { oth.y }),
            out.z == (if self.z > oth.z { self.z } else { oth.z }),
    {
        Self {
            x: if self.x > oth.x { self.x } else { oth.x },
            y: if self.y > oth.y { self.y } else { oth.y },
            z: if self.z > oth.z { self.z } else { oth.z },
        }
    }
}

impl Vec3<i32> {
    /// The component-wise smaller of the two vectors.
    pub fn min(self, oth: Self) -> (out: Self)
        ensures
            out.x == (if self.x < oth.x { self.x } else { oth.x }),
            out.y == (if self.y < oth.y { self.y } else { oth.y }),
            out.z == (if self.z < oth.z { self.z } else { oth.z }),
    {
        Self {
            x: if self.x < oth.x { self.x } else { oth.x },
            y: if self.y < oth.y { self.y } else { oth.y },
            z: if self.z < oth.z { self.z } else { oth.z },
        }
    }

    /// The component-wise larger of the two vectors.
    pub fn max(self, oth: Self) -> (out: Self)
        ensures
            out.x == (if self.x > oth.x { self.x } else { oth.x }),
            out.y == (if self.y > oth.y { self.y } else { oth.y }),
            out.z == (if self.z > oth.z { self.z } else { oth.z }),
    {
        Self {
            x: if self.x > oth.x { self.x } else { oth.x },
            y: if self.y > oth.y { self.y } else { oth.y },
            z: if self.z > oth.z { self.z } else { oth.z },
        }
    }
}

impl Vec3<u64> {
    /// The component-wise smaller of the two vectors.
    pub fn min(self, oth: Self) -> (out: Self)
        ensures
            out.x == (if self.x < oth.x { self.x } else { oth.x }),
            out.y == (if self.y < oth.y { self.y } else { oth.y }),
            out.z == (if self.z < oth.z { self.z } else { oth.z }),
    {
        Self {
            x: if self.x < oth.x { self.x } else { oth.x },
            y: if self.y < oth.y { self.y } else { oth.y },
            z: if self.z < oth.z { self.z } else { oth.z },
        }
    }

    /// The component-wise larger of the two vectors.
    pub fn max(self, oth: Self) -> (out: Self)
        ensures
            out.x == (if self.x > oth.x { self.x } else { oth.x }),
            out.y == (if self.y > oth.y { self.y } else { oth.y }),
            out.z == (if self.z > oth.z { self.z } else { oth.z }),
    {
        Self {
            x: if self.x > oth.x { self.x } else { oth.x },
            y: if self.y > oth.y { self.y } else { oth.y },
            z: if self.z > oth.z { self.z } else { oth.z },
        }
    }
}

impl Vec3<i64> {
    /// The component-wise smaller of the two vectors.
    pub fn min(self, oth: Self) -> (out: Self)
        ensures
            out.x == (if self.x < oth.x { self.x } else { oth.x }),
            out.y == (if self.y < oth.y { self.y } else { oth.y }),
            out.z == (if self.z < oth.z { self.z } else { oth.z }),
    {
        Self {
            x: if self.x < oth.x { self.x } else { oth.x },
            y: if self.y < oth.y { self.y } else { oth.y },
            z: if self.z < oth.z { self.z } else { oth.z },
        }
    }

    /// The component-wise larger of the two vectors.
    pub fn max(self, oth: Self) -> (out: Self)
        ensures
            out.x == (if self.x > oth.x { self.x } else { oth.x }),
            out.y == (if self.y > oth.y { self.y } else { oth.y }),
            out.z == (if self.z > oth.z { self.z } else { oth.z }),
    {
        Self {
            x: if self.x > oth.x { self.x } else { oth.x },
            y: if self.y > oth.y { self.y } else { oth.y },
            z: if self.z > oth.z { self.z } else { oth.z },
        }
    }
}

impl Vec3<u128> {
    /// The component-wise smaller of the two vectors.
    pub fn min(self, oth: Self) -> (out: Self)
        ensures
            out.x == (if self.x < oth.x { self.x } else { oth.x }),
            out.y == (if self.y < oth.y { self.y } else { oth.y }),
            out.z == (if self.z < oth.z { self.z } else { oth.z }),
    {
        Self {
            x: if self.x < oth.x { self.x } else { oth.x },
            y: if self.y < oth.y { self.y } else { oth.y },
            z: if self.z < oth.z { self.z } else { oth.z },
        }
    }

    /// The component-wise larger of the two vectors.
    pub fn max(self, oth: Self) -> (out: Self)
        ensures
            out.x == (if self.x > oth.x { self.x } else { oth.x }),
            out.y == (if self.y > oth.y { self.y } else { oth.y }),
            out.z == (if self.z > oth.z { self.z } else { oth.z }),
    {
        Self {
            x: if self.x > oth.x { self.x } else { oth.x },
            y: if self.y > oth.y { self.y } else { oth.y },
            z: if self.z > oth.z { self.z } else { oth.z },
        }
    }
}

impl Vec3<i128> {
    /// The component-wise smaller of the two vectors.
    pub fn min(self, oth: Self) -> (out: Self)
        ensures
            out.x == (if self.x < oth.x { self.x } else { oth.x }),
            out.y == (if self.y < oth.y { self.y } else { oth.y }),
            out.z == (if self.z < oth.z { self.z } else { oth.z }),
    {
        Self {
            x: if self.x < oth.x { self.x } else { oth.x },
            y: if self.y < oth.y { self.y } else { oth.y },
            z: if self.z < oth.z { self.z } else { oth.z },
        }
    }

    /// The component-wise larger of the two vectors.
    pub fn max(self, oth: Self) -> (out: Self)
        ensures
            out.x == (if self.x > oth.x { self.x } else { oth.x }),
            out.y == (if self.y > oth.y { self.y } else { oth.y }),
            out.z == (if self.z > oth.z { self.z } else { oth.z }),
    {
        Self {
            x: if self.x > oth.x { self.x } else { oth.x },
            y: if self.y > oth.y { self.y } else { oth.y },
            z: if self.z > oth.z { self.z } else { oth.z },
        }
    }
}

} // verus!
