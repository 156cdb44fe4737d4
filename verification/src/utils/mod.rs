//! Time values, written forms of values, and the level of the log.

pub mod decimal;
pub mod duration_fmt;
pub mod json;
pub mod log;
pub mod time;
