pub mod colors;
pub mod json;
pub mod spec;
