use git_brws::config::{Config, EnvConfig};

fn empty_env() -> EnvConfig {
    EnvConfig {
        git_command: "git".to_string(),
        ghe_ssh_port: None,
        ghe_url_host: None,
        gitlab_url_host: None,
        gitlab_ssh_port: None,
        github_token: None,
        ghe_token: None,
        https_proxy: None,
        browse_command: None,
        short_commit_hash: false,
    }
}

#[test]
fn with_global_env() {
    let mut env = empty_env();
    env.ghe_token = Some("token for ghe".to_string());
    env.github_token = Some("token for github".to_string());
    env.short_commit_hash = true;
    let global_proxy = Some("https://proxy.example.com:8080".to_string());
    let env = env.with_global_env(global_proxy.clone(), Some("global token".to_string()));

    assert_eq!(env.git_command, "git");
    assert_eq!(env.gitlab_ssh_port, None);
    assert_eq!(env.ghe_token.unwrap(), "token for ghe");
    assert!(env.short_commit_hash);

    // The global token is never used since the one of these settings is prioritized
    assert_eq!(env.github_token.unwrap(), "token for github");

    assert_eq!(env.https_proxy, global_proxy);
}

#[test]
fn with_global_env_updates_none_values() {
    let https_proxy = Some("https://proxy.example.com:8080".to_string());
    let github_token = Some("global token".to_string());
    let env = empty_env().with_global_env(https_proxy.clone(), github_token.clone());
    assert_eq!(env.https_proxy, https_proxy);
    assert_eq!(env.github_token, github_token);

    let env = empty_env().with_global_env(None, None);
    assert_eq!(env, empty_env());

    let mut own = empty_env();
    own.https_proxy = Some("https://own.example.com".to_string());
    let env = own.clone().with_global_env(https_proxy, None);
    assert_eq!(env, own);
}

#[test]
fn git_runs_where_the_config_says() {
    let mut env = empty_env();
    env.git_command = "/usr/local/bin/git".to_string();
    let c = Config {
        repo_url: "https://github.com/user/repo.git".to_string(),
        branch: None,
        cwd: "/home/user/repo".to_string(),
        args: vec![],
        stdout: false,
        pull_request: false,
        website: false,
        blame: false,
        remote: None,
        env,
    };
    let git = c.git();
    assert_eq!(git.command, "/usr/local/bin/git");
    assert_eq!(git.cwd, "/home/user/repo");
}
