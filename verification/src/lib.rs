//! Command-line barcode reading, split into verified pieces: argument
//! parsing, classification of a decode attempt, and rendering of the one
//! line that the program prints. The image decoding itself is delegated to
//! the `rxing` crate behind a trusted wrapper.

pub mod args;
pub mod decode;
pub mod laws;
pub mod outcome;
pub mod render;
