//! Decision core of a small package-manager front end: it works out which
//! registry URL to query, which version label to install, which installer
//! command to run and which status line to show, and tracks every install
//! target from creation to its terminal state. All input and output is left
//! to the caller, which performs the requested actions and reports back.

pub mod initializer;
pub mod installer;
pub mod json;
pub mod orchestrator;
pub mod paint;
pub mod progress;
pub mod registry;
pub mod status;
pub mod task;
pub mod views;
