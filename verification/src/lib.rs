//! Configuration resolution and launch-descriptor construction for the
//! GitLab Model Context Protocol server.
//!
//! The library turns a raw, untyped configuration section into validated
//! [`config::Settings`], decides whether the backing npm package needs an
//! install, assembles the process launch descriptor (executable path,
//! arguments, environment variables), and renders the user-facing
//! configuration description with the resolved settings substituted into
//! the default-settings template.

pub mod config;
pub mod describe;
pub mod launch;
pub mod text;
