pub mod camera;
pub mod input;
pub mod instances;
pub mod mesh;
pub mod model;
pub mod pipeline;
pub mod renderer;
