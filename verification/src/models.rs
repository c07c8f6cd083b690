//! The records the bot keeps.

pub mod guild;
pub mod queue;
pub mod source;
pub mod transmission;
