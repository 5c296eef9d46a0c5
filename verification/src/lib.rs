//! From a word on the command line to the page of a repository on its hosting service.
//!
//! `page` decides what the arguments of a run name: an issue, a file or directory, a diff,
//! a tag or a commit. `service` decides which hosting service a repository lives on and
//! writes the URL that the service gives that page. `url` joins the two.
//!
//! The library runs no process and opens no connection. What it needs to know of Git, of
//! the disk and of GitHub it asks for, as `exchange` describes; `git`, `github_api` and
//! `pull_request` say which questions are asked and what the answers mean.

pub mod argv;
pub mod config;
pub mod error;
pub mod exchange;
pub mod git;
pub mod github_api;
pub mod page;
pub mod pull_request;
pub mod service;
pub mod text;
pub mod url;
