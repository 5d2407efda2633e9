//! Decision logic for a media downloader that drives an external fetcher
//! tool and an external converter tool.
//!
//! The library does no input or output. Its state machines (`provision`,
//! `orchestrator`) hand out actions and take back events; a driver around
//! them runs processes and touches files. Everything else is a function
//! from values to values: where tools lie (`locator`), how they are called
//! (`command`), what their output means (`metadata`, `progress`), how
//! artifacts are named (`naming`), and what is reported and kept
//! (`dependencies`, `settings`).

pub mod command;
pub mod dependencies;
pub mod locator;
pub mod metadata;
pub mod naming;
pub mod orchestrator;
pub mod progress;
pub mod provision;
pub mod settings;
pub mod text;
