//! Texture-atlas mapping and face-mesh generation for cube-shaped voxels.
//!
//! A voxel is a cube whose six faces are textured from one shared atlas.
//! This crate holds the parts of that job that are pure computation:
//!
//! * [`face`] and [`kind`]: the closed enumerations of cube sides and of
//!   voxel archetypes;
//! * [`atlas`]: atlas cells and the per-face cell set of one kind;
//! * [`geometry`]: the quad of one face (corner positions, normal, texture
//!   corners, strip order), in exact integer units;
//! * [`mapping`]: the table from kind and face to atlas cell, with its
//!   fallback policy;
//! * [`text`], [`format`] and [`parser`]: the line-oriented mapping file;
//! * [`record`]: how a record is spelled, and the proof that every record
//!   so spelled is read back;
//! * [`voxel`]: the metadata bundle and the six-face voxel built from it;
//! * [`placement`]: the random draws made when a voxel is dropped into the
//!   world.
//!
//! Everything that needs floating point (scaling the unit geometry by the
//! voxel size and by the atlas cell size) is left to the caller.

pub mod atlas;
pub mod face;
pub mod format;
pub mod geometry;
pub mod kind;
pub mod mapping;
pub mod parser;
pub mod placement;
pub mod record;
pub mod text;
pub mod voxel;

