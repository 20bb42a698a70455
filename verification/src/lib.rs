pub mod graph;
pub mod tensor;

pub use tensor::data::Data;
pub use tensor::shape::Shape;
