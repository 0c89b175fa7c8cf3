pub mod color;
pub mod frame;
pub mod input;
pub mod render;
