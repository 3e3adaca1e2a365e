//! Decoding of captured link-layer frames into one summary line and a
//! hex/ASCII dump of the innermost payload.
pub mod text;
pub mod labels;
pub mod dump;
pub mod decode;
pub mod line;
pub mod clock;
pub mod frame;
