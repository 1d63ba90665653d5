pub mod bits;
pub mod doc;
pub mod error;
pub mod laws;
pub mod math;
pub mod mesh;
pub mod model;
pub mod node;
pub mod texture;
