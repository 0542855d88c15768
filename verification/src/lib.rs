//! Supervision of a locally installed inference engine: where its executable
//! may live, how it is started, how its health is judged, and how a failed
//! start is diagnosed and repaired.
//!
//! The library decides and describes; it runs nothing. Wherever a command
//! has to be run, a port dialled or some time waited for, the library names
//! the step and is told its result, so that every decision it takes is a
//! function of what it was told.

// Text and numbers.
pub mod text;
pub mod words;
pub mod decimal;

// What is asked of other crates.
pub mod json;
pub mod pattern;
pub mod version;

// The machine and its configuration.
pub mod platform;
pub mod port;
pub mod paths;
pub mod environment;
pub mod command;

// Failures and reports.
pub mod errors;
pub mod report;

// The supervisor and its parts.
pub mod launch;
pub mod engine;
pub mod health;
pub mod supervisor;
pub mod repair;
pub mod diagnosis;

// The engine's models and answers.
pub mod inventory;
pub mod models;
pub mod chat;

// Around the engine: installing it, updating the application, searching
// the web.
pub mod install;
pub mod update;
pub mod search;
pub mod results;
