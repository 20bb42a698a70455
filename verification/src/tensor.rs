pub mod data;
pub mod shape;
pub mod tensor;
