//! What one run is asked to do: the repository, the arguments and the settings.

use crate::git::{Git, GitView};
use vstd::prelude::*;

verus! {

/// The settings that come from the environment.
#[derive(Debug, PartialEq, Clone, Eq)]
pub struct EnvConfig {
    pub git_command: String,
    pub ghe_ssh_port: Option<u16>,
    pub ghe_url_host: Option<String>,
    pub gitlab_url_host: Option<String>,
    pub gitlab_ssh_port: Option<u16>,
    pub github_token: Option<String>,
    pub ghe_token: Option<String>,
    pub https_proxy: Option<String>,
    pub browse_command: Option<String>,
    pub short_commit_hash: bool,
}

impl EnvConfig {
    /// The settings with the proxy and the GitHub token that hold for every program filled
    /// in where these settings name none of their own.
    pub fn with_global_env(self, https_proxy: Option<String>, github_token: Option<String>) -> (r:
        EnvConfig)
        ensures
            r.https_proxy == (if self.https_proxy is None {
                https_proxy
            } else {
                self.https_proxy
            }),
            r.github_token == (if self.github_token is None {
                github_token
            } else {
                self.github_token
            }),
            r.git_command == self.git_command,
            r.ghe_ssh_port == self.ghe_ssh_port,
            r.ghe_url_host == self.ghe_url_host,
            r.gitlab_url_host == self.gitlab_url_host,
            r.gitlab_ssh_port == self.gitlab_ssh_port,
            r.ghe_token == self.ghe_token,
            r.browse_command == self.browse_command,
            r.short_commit_hash == self.short_commit_hash,
    {
        let mut env = self;
        if env.https_proxy.is_none() {
            env.https_proxy = https_proxy;
        }
        if env.github_token.is_none() {
            env.github_token = github_token;
        }
        env
    }
}

/// One run: the repository's URL, the free arguments and the flags.
#[derive(Debug, Clone)]
pub struct Config {
    pub repo_url: String,
    pub branch: Option<String>,
    /// The directory in which Git runs.
    pub cwd: String,
    pub args: Vec<String>,
    pub stdout: bool,
    pub pull_request: bool,
    pub website: bool,
    pub blame: bool,
    pub remote: Option<String>,
    pub env: EnvConfig,
}

impl Config {
    /// Git as this run calls it: the configured command, in the configured directory.
    pub open spec fn spec_git(&self) -> GitView {
        GitView { command: self.env.git_command@, cwd: self.cwd@ }
    }

    pub fn git(&self) -> (git: Git<'_>)
        ensures
            git@ == self.spec_git(),
    {
        Git::new(self.cwd.as_str(), self.env.git_command.as_str())
    }
}

} // verus!
