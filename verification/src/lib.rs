//! Core of a real-time application runtime: identifier allocation,
//! a GPU frame-in-flight pipeline modelled as a verified state machine,
//! and the cooperative shutdown protocol of its background loops.

pub mod identifier;
pub mod pipeline;
pub mod supervisor;
