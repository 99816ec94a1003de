//! A container management API over podman, as a verified library: each
//! request handler is a function from the request and what its earlier
//! steps brought back to the next step (run a program, probe, write or
//! remove a file) or the reply, with the reply and the log record stated
//! exactly over mathematical models of text, output and replies.
pub mod auth;
pub mod checks;
pub mod common;
pub mod config;
pub mod containers;
pub mod create;
pub mod effect;
pub mod files;
pub mod logs;
pub mod models;
pub mod networks;
pub mod number;
pub mod output;
pub mod pods;
pub mod properties;
pub mod reply;
pub mod text;
