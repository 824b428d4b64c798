pub mod popups;
pub mod input_box;
pub mod tree;
