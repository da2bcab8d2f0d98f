pub mod batch;
pub mod column;
pub mod model;
mod text;
pub mod laws;
