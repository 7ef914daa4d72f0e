//! A password vault kept as a SOPS-encrypted YAML map, and the command
//! sessions, setup steps and helpers around it.
mod text;

pub mod vault;
pub mod paths;
pub mod yaml;
pub mod backend;
pub mod session;
pub mod keyfile;
pub mod setup;
pub mod two_factor;
pub mod password;
pub mod cli;
