pub mod codec;
pub mod shapes;
