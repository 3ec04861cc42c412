//! Planning flow: perspective data model, fragment parsing, plan reduction
//! and plan revision.

pub mod orchestrator;
pub mod parser;
pub mod reducer;
pub mod types;
