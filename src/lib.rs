//! Decision logic of a content-directory watcher that scaffolds new posts and
//! runs a build, publish and sync pipeline on substantive changes.

pub mod classify;
pub mod command;
pub mod config;
pub mod front_matter;
pub mod notify;
pub mod path;
pub mod pipeline;
pub mod publish;
pub mod retry;
