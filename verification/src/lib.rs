pub mod progress;
pub mod render;
pub mod source;
