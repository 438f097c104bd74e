//! The discrete core of an offline ray tracer with photon mapping.
//!
//! Everything here is exact: crossings of a ray with a surface are ordered by
//! integer depth keys, solids are composed by rewriting ordered crossing
//! lists, and the recursive light-transport loops are driven by small decision
//! functions. The numeric layer (vectors, colours, spatial indices) lives
//! with the caller and identifies its records to this library by tags.

pub mod constants;
pub mod csg;
pub mod csg_laws;
pub mod frame_buffer;
pub mod hit;
pub mod light;
pub mod line_drawer;
pub mod material;
pub mod mesh_file;
pub mod object;
pub mod object_laws;
pub mod photon;
pub mod poly_mesh;
pub mod sampling;
pub mod scene;
pub mod sorting;
