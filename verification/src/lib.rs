//! A small 2D pixel-buffer engine: a rectangular grid of pixel values with
//! in-place layout transforms (rotation via transpose, flips), a flat
//! per-channel view of the storage for hand-off to encoders, and pixel types
//! for the RGB and BGR channel orders.

mod buffer;
mod color;
mod display;
mod error;
mod geometry;
mod image;
mod transpose;
mod math;

pub use buffer::Buffer;
pub use buffer::capacity_fits;
pub use color::BGR;
pub use color::BGR8;
pub use color::ComponentsCount;
pub use color::RGB;
pub use color::RGB8;
pub use color::bgr_components;
pub use color::lemma_bgr_components_roundtrip;
pub use color::lemma_rgb_components_roundtrip;
pub use color::rgb_components;
pub use display::ComponentsRaw;
pub use display::Frame;
pub use error::Error;
pub use geometry::Vec2;
pub use geometry::Vec3;
pub use image::Image;
pub use error::IncorrectData;
pub use image::lemma_flip_horizontal_involutive;
pub use image::lemma_flip_vertical_involutive;
pub use image::lemma_rotate_four_times_identity;
pub use image::reversed_row_order;
pub use image::reversed_within_rows;
pub use image::rotated;
pub use math::coords_of;
pub use math::index2d_to_index;
pub use math::index_of;
pub use math::index_to_index2d;
pub use math::lemma_index_coords_roundtrip;
pub use transpose::transpose;
pub use transpose::transpose_square;
pub use transpose::transposed;
