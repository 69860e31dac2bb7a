//! Audio processing unit channel machinery.

pub mod components;
pub mod pulse;
