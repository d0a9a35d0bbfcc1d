//! A small rule-based text assistant: the request model, the rule-based brain,
//! the decision state machine that drives the listen/think/execute/inform cycle,
//! and the decisions and reports of the local executor and the microphone
//! recorder.

pub mod text;
pub mod order;
pub mod types;
pub mod interfaces;
pub mod brain;
pub mod assistant;
pub mod audio;
pub mod executor;
pub mod console;
pub mod platform;
