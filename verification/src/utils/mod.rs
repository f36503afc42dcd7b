//! Presentation helpers and the voice-channel rule.

pub mod embed;
pub mod voice;
