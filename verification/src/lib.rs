//! Local install agent core: task orchestration for software installs and
//! configuration-file deployments.
//!
//! The crate models the agent's decision logic: a task registry with a
//! verified status state machine, a path resolver for environment-variable
//! placeholders, a backup manager, and the install/deploy engines. Process
//! spawning and real filesystem traffic live outside the library; the library
//! computes the plans and interprets the outcomes.

pub mod command;
pub mod config;
pub mod config_file;
pub mod config_files;
pub mod error;
pub mod fs_model;
mod ids;
pub mod orchestrator;
pub mod path;
pub mod registry;
pub mod software;
pub mod software_service;
pub mod text;
pub mod time;
