pub mod error;
pub mod frame;
pub mod ids;
pub mod pipeline;
pub mod resources;
pub mod surface;
pub mod window;
