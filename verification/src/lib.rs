pub mod codec;
pub mod paths;
pub mod tree;
