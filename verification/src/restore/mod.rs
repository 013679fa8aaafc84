//! Bringing a window back to where it was.

pub mod attempt;
pub mod settle;
pub mod strategy;
pub mod target;
