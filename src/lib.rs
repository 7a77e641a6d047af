//! Isosurface extraction on a sampled grid: the cube-configuration mesher
//! with shared, flat and per-cell output, the dual-vertex (surface nets)
//! mesher, and the index lattice of a cube-sphere. The grid is given by which
//! lattice points lie inside the surface; positions and normals are placed
//! by the caller from the sample values.
pub mod cube_sphere;
pub mod fan;
pub mod grid;
pub mod marching;
pub mod surface_nets;
pub mod tables;
