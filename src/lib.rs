//! Declarative deployment: check out a git repository, inject resource files
//! into the working copy, run a deployment tool there, and clean up.
//!
//! The library holds the decisions; a driver performs the outside work that
//! each decision asks for and reports back what happened.

pub mod config;
pub mod paths;
pub mod pipeline;
pub mod workdir;

pub use config::{Config, ConfigError, ReleaseConfig, Resource, ToolConfig};
pub use paths::{check_relative, is_within, join};
pub use pipeline::{Action, DeployError, Deployment, Event, GitStep, Phase};
pub use workdir::{resolve_working_directory, working_directory};
