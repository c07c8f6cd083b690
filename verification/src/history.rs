//! Records of what was played.

pub mod play;
pub mod transmission;
