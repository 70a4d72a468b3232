//! A software rasterizer for triangulated 3D meshes.
//!
//! The whole pipeline works on exact fixed-point coordinates: a world
//! coordinate is an `i64` counting units of `1 / SCALE`, and interpolated
//! depth and shading values are exact rationals.  Mesh file parsing, the
//! trigonometry that turns an angle into a (cosine, sine) pair, and the
//! terminal / file output sinks are external collaborators that live outside
//! this library and exchange plain integer data with it.
//!
//! Conventions, chosen once and used throughout:
//! - the depth merge keeps the cell with the strictly largest depth, so
//!   the first triangle processed wins a tie;
//! - the background sentinel is a finite depth of -9999 world units with
//!   a white shading value, and the "outside this triangle" result is the
//!   same sentinel, so one comparison rule serves every cell
//!   (`lemma_sentinel_loses` shows no real surface ever loses to it);
//! - a degenerate (zero-area) triangle contributes the sentinel as well,
//!   so it never wins a merge;
//! - interpolated depth and shading keep the extra division by 3 applied
//!   on top of the barycentric weighting;
//! - every fixed-point rescale rounds toward zero (`tdiv`).

mod camera;
mod color;
mod math;
mod raster;
mod render;
mod triangle;
mod vec3;

pub use math::SCALE;
pub use math::COORD_LIMIT;
pub use math::MESH_LIMIT;
pub use vec3::V3d;
pub use vec3::Vec3M;
pub use triangle::Triangle;
pub use triangle::TriM;
pub use triangle::TriangleGeometry;
pub use triangle::MeshError;
pub use triangle::build_triangles;
pub use raster::Depthpixel;
pub use raster::PixM;
pub use raster::clockwise;
pub use raster::pixel_in_triangle;
pub use raster::barymetric;
pub use raster::DEPTH_FLOOR;
pub use camera::Camera;
pub use camera::Display;
pub use camera::camera_fits;
pub use camera::world_point;
pub use render::render_frame;
pub use raster::tri_interpolate;
pub use color::Color;
pub use color::pixel_color;
pub use color::flatten_buffer_to_color_frame;
pub use color::ppm_encode;

pub use math::tdiv;
pub use math::isqrt_u64;
pub use vec3::lemma_rotation_preserves_norm_sq;
pub use vec3::lemma_rotation_identity;
pub use raster::background;
pub use raster::cross2d;
pub use raster::is_clockwise;
pub use raster::inside;
pub use raster::bary_den;
pub use raster::bary1;
pub use raster::bary2;
pub use raster::bary3;
pub use raster::interpolate;
pub use raster::merge;
pub use raster::lemma_orientation_flips;
pub use raster::lemma_barycentric_weights;
pub use raster::lemma_sentinel_loses;
pub use raster::NUM_LIMIT;
pub use raster::DEN_LIMIT;
pub use camera::world_x;
pub use camera::world_y;
pub use camera::maps_into_range;
pub use render::renderable;
pub use render::cell_render;
pub use render::frame_rendered;
pub use render::lemma_render_deterministic;
pub use render::lemma_full_turn_is_identity;
pub use color::shade_channel;
pub use color::ppm_channel;
pub use color::web_color_chars;
pub use color::cell_web_chars;
pub use color::dec_chars;
pub use color::ppm_chars;
