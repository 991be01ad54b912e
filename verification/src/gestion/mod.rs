//! Workflow extensions that institutions wrap in a descriptive section.
pub mod star;
pub mod step;
