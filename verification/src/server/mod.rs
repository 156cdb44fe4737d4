//! The lookup of an account's name history and the replies it can give.

pub mod data;
pub mod model;
pub mod namehistory;
