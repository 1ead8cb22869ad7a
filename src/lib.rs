//! A wireframe renderer's verified core: meshes and their edge lists, the
//! built-in solids with exact coordinates, the order in which a frame's
//! points and segments are produced, the turning of meshes from frame to
//! frame, and the decisions of the animation loop.

pub mod instance;
pub mod mesh;
pub mod render;
pub mod shapes;
