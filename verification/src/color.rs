use vstd::prelude::*;
use vstd::arithmetic::div_mod::lemma_fundamental_div_mod_converse;
use vstd::std_specs::ops::AddSpec;
use vstd::std_specs::ops::DivSpec;
use vstd::std_specs::ops::MulSpec;

verus! {

/// How many scalar channels one pixel value packs, and their scalar type.
pub trait ComponentsCount {
    type Component;

    /// The channel count, as specifications see it.
    spec fn spec_components_count() -> int;

    /// Number of scalar channels of one pixel value.
    fn components_count() -> (n: usize)
        ensures
            n as int == Self::spec_components_count(),
    ;
}

/// A pixel whose channels are stored in red, green, blue order.
#[derive(Default, Debug, Clone, Copy, PartialEq, Eq, Structural)]
pub struct RGB<T: Copy> {
    /// Red
    pub r: T,
    /// Green
    pub g: T,
    /// Blue
    pub b: T,
}

/// A pixel whose channels are stored in blue, green, red order.
#[derive(Default, Debug, Clone, Copy, PartialEq, Eq, Structural)]
pub struct BGR<T> {
    /// Blue
    pub b: T,
    /// Green
    pub g: T,
    /// Red
    pub r: T,
}

/// 8-bit RGB pixel: each channel is a byte in [0, 255].
pub type RGB8 = RGB<u8>;

/// 8-bit BGR pixel: each channel is a byte in [0, 255].
pub type BGR8 = BGR<u8>;

impl<T: Copy> ComponentsCount for RGB<T> {
    type Component = T;

    open spec fn spec_components_count() -> int {
        3
    }

    fn components_count() -> (n: usize) {
        3
    }
}

impl<T: Copy> ComponentsCount for BGR<T> {
    type Component = T;

    open spec fn spec_components_count() -> int {
        3
    }

    fn components_count() -> (n: usize) {
        3
    }
}

impl<T: Copy> core::convert::From<[T; 3]> for RGB<T> {
    /// Reads the array as red, green, blue.
    fn from(src: [T; 3]) -> (out: Self) {
        RGB { r: src[0], g: src[1], b: src[2] }
    }
}

impl<T: Copy> vstd::std_specs::convert::FromSpecImpl<[T; 3]> for RGB<T> {
    open spec fn obeys_from_spec() -> bool {
        true
    }

    open spec fn from_spec(src: [T; 3]) -> Self {
        RGB { r: src@[0], g: src@[1], b: src@[2] }
    }
}

impl<T: Copy> core::convert::From<[T; 3]> for BGR<T> {
    /// Reads the array as blue, green, red.
    fn from(src: [T; 3]) -> (out: Self) {
        BGR { b: src[0], g: src[1], r: src[2] }
    }
}

impl<T: Copy> vstd::std_specs::convert::FromSpecImpl<[T; 3]> for BGR<T> {
    open spec fn obeys_from_spec() -> bool {
        true
    }

    open spec fn from_spec(src: [T; 3]) -> Self {
        BGR { b: src@[0], g: src@[1], r: src@[2] }
    }
}

impl RGB<u8> {
    /// The same color with the channels read from blue-green-red order.
    pub fn from_bgr8(src: BGR<u8>) -> (out: RGB<u8>)
        ensures
            out == (RGB { r: src.r, g: src.g, b: src.b }),
    {
        RGB { r: src.r, g: src.g, b: src.b }
    }
}

impl BGR<u8> {
    /// The same color with the channels read from red-green-blue order.
    pub fn from_rgb8(src: RGB<u8>) -> (out: BGR<u8>)
        ensures
            out == (BGR { b: src.b, g: src.g, r: src.r }),
    {
        BGR { b: src.b, g: src.g, r: src.r }
    }
}

/// The channels of a sequence of RGB pixels, flattened in storage order:
/// red, green, blue of pixel 0, then of pixel 1, and so on.
pub open spec fn rgb_components<T: Copy>(s: Seq<RGB<T>>) -> Seq<T> {
    Seq::new(
        3 * s.len(),
        |k: int|
            if k % 3 == 0 {
                s[k / 3].r
            } else if k % 3 == 1 {
                s[k / 3].g
            } else {
                s[k / 3].b
            },
    )
}

/// The channels of a sequence of BGR pixels, flattened in storage order:
/// blue, green, red of pixel 0, then of pixel 1, and so on.
pub open spec fn bgr_components<T>(s: Seq<BGR<T>>) -> Seq<T> {
    Seq::new(
        3 * s.len(),
        |k: int|
            if k % 3 == 0 {
                s[k / 3].b
            } else if k % 3 == 1 {
                s[k / 3].g
            } else {
                s[k / 3].r
            },
    )
}

/// Law: the flat channel sequence of RGB pixels holds three channels per
/// pixel, and the pixels can be read back from it unchanged.
pub proof fn lemma_rgb_components_roundtrip<T: Copy>(s: Seq<RGB<T>>)
    ensures
        rgb_components(s).len() == 3 * s.len(),
        forall|p: int|
            0 <= p < s.len() ==> s[p] == (RGB {
                r: rgb_components(s)[3 * p],
                g: rgb_components(s)[3 * p + 1],
                b: rgb_components(s)[3 * p + 2],
            }),
{
    assert forall|p: int| 0 <= p < s.len() implies s[p] == (RGB {
        r: rgb_components(s)[3 * p],
        g: rgb_components(s)[3 * p + 1],
        b: rgb_components(s)[3 * p + 2],
    }) by {
        lemma_fundamental_div_mod_converse(3 * p, 3, p, 0);
        lemma_fundamental_div_mod_converse(3 * p + 1, 3, p, 1);
        lemma_fundamental_div_mod_converse(3 * p + 2, 3, p, 2);
    }
}

/// Law: the flat channel sequence of BGR pixels holds three channels per
/// pixel, and the pixels can be read back from it unchanged.
pub proof fn lemma_bgr_components_roundtrip<T>(s: Seq<BGR<T>>)
    ensures
        bgr_components(s).len() == 3 * s.len(),
        forall|p: int|
            0 <= p < s.len() ==> s[p] == (BGR {
                b: bgr_components(s)[3 * p],
                g: bgr_components(s)[3 * p + 1],
                r: bgr_components(s)[3 * p + 2],
            }),
{
    assert forall|p: int| 0 <= p < s.len() implies s[p] == (BGR {
        b: bgr_components(s)[3 * p],
        g: bgr_components(s)[3 * p + 1],
        r: bgr_components(s)[3 * p + 2],
    }) by {
        lemma_fundamental_div_mod_converse(3 * p, 3, p, 0);
        lemma_fundamental_div_mod_converse(3 * p + 1, 3, p, 1);
        lemma_fundamental_div_mod_converse(3 * p + 2, 3, p, 2);
    }
}

impl<T: Copy + core::ops::Add<Output = T>> core::ops::Add for RGB<T> {
    type Output = RGB<T>;

    /// Channel-wise addition of two pixels.
    fn add(self, rhs: RGB<T>) -> (out: RGB<T>) {
        RGB { r: self.r + rhs.r, g: self.g + rhs.g, b: self.b + rhs.b }
    }
}

impl<T: Copy + core::ops::Add<Output = T>> vstd::std_specs::ops::AddSpecImpl for RGB<T> {
    open spec fn obeys_add_spec() -> bool {
        T::obeys_add_spec()
    }

    open spec fn add_req(self, rhs: RGB<T>) -> bool {
        self.r.add_req(rhs.r) && self.g.add_req(rhs.g) && self.b.add_req(rhs.b)
    }

    open spec fn add_spec(self, rhs: RGB<T>) -> RGB<T> {
        RGB { r: self.r.add_spec(rhs.r), g: self.g.add_spec(rhs.g), b: self.b.add_spec(rhs.b) }
    }
}

impl<T: Copy + core::ops::Add<Output = T>> core::ops::Add<T> for RGB<T> {
    type Output = RGB<T>;

    /// Adds one scalar to every channel.
    fn add(self, rhs: T) -> (out: RGB<T>) {
        RGB { r: self.r + rhs, g: self.g + rhs, b: self.b + rhs }
    }
}

impl<T: Copy + core::ops::Add<Output = T>> vstd::std_specs::ops::AddSpecImpl<T> for RGB<T> {
    open spec fn obeys_add_spec() -> bool {
        T::obeys_add_spec()
    }

    open spec fn add_req(self, rhs: T) -> bool {
        self.r.add_req(rhs) && self.g.add_req(rhs) && self.b.add_req(rhs)
    }

    open spec fn add_spec(self, rhs: T) -> RGB<T> {
        RGB { r: self.r.add_spec(rhs), g: self.g.add_spec(rhs), b: self.b.add_spec(rhs) }
    }
}

impl<T: Copy + core::ops::Mul<Output = T>> core::ops::Mul for RGB<T> {
    type Output = RGB<T>;

    /// Channel-wise multiplication of two pixels.
    fn mul(self, rhs: RGB<T>) -> (out: RGB<T>) {
        RGB { r: self.r * rhs.r, g: self.g * rhs.g, b: self.b * rhs.b }
    }
}

impl<T: Copy + core::ops::Mul<Output = T>> vstd::std_specs::ops::MulSpecImpl for RGB<T> {
    open spec fn obeys_mul_spec() -> bool {
        T::obeys_mul_spec()
    }

    open spec fn mul_req(self, rhs: RGB<T>) -> bool {
        self.r.mul_req(rhs.r) && self.g.mul_req(rhs.g) && self.b.mul_req(rhs.b)
    }

    open spec fn mul_spec(self, rhs: RGB<T>) -> RGB<T> {
        RGB { r: self.r.mul_spec(rhs.r), g: self.g.mul_spec(rhs.g), b: self.b.mul_spec(rhs.b) }
    }
}

impl<T: Copy + core::ops::Mul<Output = T>> core::ops::Mul<T> for RGB<T> {
    type Output = RGB<T>;

    /// Multiplies every channel by one scalar.
    fn mul(self, rhs: T) -> (out: RGB<T>) {
        RGB { r: self.r * rhs, g: self.g * rhs, b: self.b * rhs }
    }
}

impl<T: Copy + core::ops::Mul<Output = T>> vstd::std_specs::ops::MulSpecImpl<T> for RGB<T> {
    open spec fn obeys_mul_spec() -> bool {
        T::obeys_mul_spec()
    }

    open spec fn mul_req(self, rhs: T) -> bool {
        self.r.mul_req(rhs) && self.g.mul_req(rhs) && self.b.mul_req(rhs)
    }

    open spec fn mul_spec(self, rhs: T) -> RGB<T> {
        RGB { r: self.r.mul_spec(rhs), g: self.g.mul_spec(rhs), b: self.b.mul_spec(rhs) }
    }
}

impl<T: Copy + core::ops::Div<Output = T>> core::ops::Div for RGB<T> {
    type Output = RGB<T>;

    /// Channel-wise division of two pixels.
    fn div(self, rhs: RGB<T>) -> (out: RGB<T>) {
        RGB { r: self.r / rhs.r, g: self.g / rhs.g, b: self.b / rhs.b }
    }
}

impl<T: Copy + core::ops::Div<Output = T>> vstd::std_specs::ops::DivSpecImpl for RGB<T> {
    open spec fn obeys_div_spec() -> bool {
        T::obeys_div_spec()
    }

    open spec fn div_req(self, rhs: RGB<T>) -> bool {
        self.r.div_req(rhs.r) && self.g.div_req(rhs.g) && self.b.div_req(rhs.b)
    }

    open spec fn div_spec(self, rhs: RGB<T>) -> RGB<T> {
        RGB { r: self.r.div_spec(rhs.r), g: self.g.div_spec(rhs.g), b: self.b.div_spec(rhs.b) }
    }
}

impl<T: Copy + core::ops::Div<Output = T>> core::ops::Div<T> for RGB<T> {
    type Output = RGB<T>;

    /// Divides every channel by one scalar.
    fn div(self, rhs: T) -> (out: RGB<T>) {
        RGB { r: self.r / rhs, g: self.g / rhs, b: self.b / rhs }
    }
}

impl<T: Copy + core::ops::Div<Output = T>> vstd::std_specs::ops::DivSpecImpl<T> for RGB<T> {
    open spec fn obeys_div_spec() -> bool {
        T::obeys_div_spec()
    }

    open spec fn div_req(self, rhs: T) -> bool {
        self.r.div_req(rhs) && self.g.div_req(rhs) && self.b.div_req(rhs)
    }

    open spec fn div_spec(self, rhs: T) -> RGB<T> {
        RGB { r: self.r.div_spec(rhs), g: self.g.div_spec(rhs), b: self.b.div_spec(rhs) }
    }
}

} // verus!
