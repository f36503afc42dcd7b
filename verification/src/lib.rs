//! Queue management, source resolution and presentation logic of a
//! Discord music bot, with its contracts proved by Verus.

pub mod text;
pub mod track;
pub mod queue;
pub mod utils;
pub mod source;
pub mod commands;
