//! A verified core for a command-line client of a project-scaffolding
//! service: dependency validation against a fixed allow-list, request-URL
//! construction, the run's state machine, and report formatting.

pub mod deps;
pub mod report;
pub mod request;
pub mod run;
pub mod strutil;
