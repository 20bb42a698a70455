pub mod handle;
pub mod node;
pub mod payload;
