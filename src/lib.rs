//! A population of autonomous actors on a graph of pages, advanced by a
//! partial-tick scheduler, with the time-of-day model that conditions them.

pub mod actor;
pub mod environment;
pub mod error;
pub mod pages;
pub mod session;
