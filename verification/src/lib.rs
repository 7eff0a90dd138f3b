//! Ruby Butler: discovery, selection and composition of Ruby environments.
//!
//! The library holds the decisions of the `rb` tool (which Ruby to use, which
//! gem and binary directories make up an environment, how configuration sources
//! take precedence, how project scripts and version files are read); the
//! program around it performs the file-system and process work.
pub mod text;
pub mod path;

pub mod version;
pub mod config;
pub mod gems;
pub mod ruby;
pub mod discovery;
pub mod version_detector;
mod user;
pub mod gem_paths;
pub mod search;
pub mod bundler;
pub mod butler;
pub mod provider;
pub mod kdl_doc;
pub mod project;
pub mod command;
pub mod cli;
