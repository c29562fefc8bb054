//! A value shared between handles through a lock-protected cell, where each
//! handle keeps its own copy of the value and may force another on its readers.

pub mod cache;
mod cell;
pub mod model;
