use git_brws::config::{Config, EnvConfig};
use git_brws::error::{Error, ErrorKind};
use git_brws::exchange::{Failure, Reply, Request, Step, Transcript};
use git_brws::github_api::{
    popular_query, pull_request_query, repo_endpoint, search_issues_endpoint,
    search_repositories_endpoint, ParentRepo, ParentRepoOwner, Repo,
};
use git_brws::pull_request::{find_page, Page};

fn env() -> EnvConfig {
    EnvConfig {
        git_command: "git".to_string(),
        ghe_ssh_port: None,
        ghe_url_host: None,
        gitlab_url_host: None,
        gitlab_ssh_port: None,
        github_token: Some("token for github".to_string()),
        ghe_token: None,
        https_proxy: None,
        browse_command: None,
        short_commit_hash: false,
    }
}

fn config(branch: Option<&str>, env: EnvConfig) -> Config {
    Config {
        repo_url: "dummy url not used".to_string(),
        branch: branch.map(|s| s.to_string()),
        cwd: "/home/user/git-brws".to_string(),
        args: vec![],        // Unused
        stdout: false,       // Unused
        pull_request: false, // Unused
        website: false,      // Unused
        blame: false,        // Unused
        remote: None,        // Unused
        env,
    }
}

// What GitHub knows in these tests.
fn answer(request: &Request) -> Reply {
    match request {
        Request::PullRequest { endpoint, token, branch, owner, repo, author } => {
            assert_eq!(endpoint, "api.github.com");
            assert!(token.is_some());
            match (branch.as_str(), owner.as_str(), repo.as_str(), author.as_deref()) {
                ("async-eventloop", "rhysd", "vim.wasm", None) => {
                    Reply::Link(Some("https://github.com/rhysd/vim.wasm/pull/10".to_string()))
                }
                ("async-contextual-keyword", "rust-lang", "rust.vim", None)
                | ("async-contextual-keyword", "rust-lang", "rust.vim", Some("rhysd")) => Reply::Link(
                    Some("https://github.com/rust-lang/rust.vim/pull/290".to_string()),
                ),
                _ => Reply::Link(None),
            }
        }
        Request::Repo { owner, repo, .. } => match (owner.as_str(), repo.as_str()) {
            ("rhysd", "rust.vim") => Reply::Repo(Repo {
                parent: Some(ParentRepo {
                    name: "rust.vim".to_string(),
                    owner: ParentRepoOwner { login: "rust-lang".to_string() },
                    default_branch: "master".to_string(),
                }),
                default_branch: "main".to_string(),
            }),
            ("nobody", _) => {
                Reply::Failed(Failure::Status {
                    status: 404,
                    reason: "Not Found".to_string(),
                    msg: "{\"message\":\"Not Found\"}".to_string(),
                })
            }
            ("offline", _) => {
                Reply::Failed(Failure::Http { msg: "connection refused".to_string() })
            }
            _ => Reply::Repo(Repo { parent: None, default_branch: "master".to_string() }),
        },
        r => panic!("Unexpected request: {:?}", r),
    }
}

fn find(endpoint: &str, author: &str, repo: &str, cfg: &Config) -> Result<Page, Box<Error>> {
    let mut t = Transcript::new();
    for _ in 0..8 {
        match find_page(endpoint, author, repo, cfg, &t) {
            Step::Done(page) => return Ok(page),
            Step::Failed(e) => return Err(e),
            Step::Ask(requests) => {
                for request in requests {
                    let reply = answer(&request);
                    t.record(request, reply);
                }
            }
        }
    }
    panic!("the search keeps asking");
}

#[test]
fn test_find_pr_within_orig_repo() {
    let cfg = config(Some("async-eventloop"), env());
    let page = find("api.github.com", "rhysd", "vim.wasm", &cfg).unwrap();
    assert_eq!(
        page,
        Page::Existing {
            url: "https://github.com/rhysd/vim.wasm/pull/10".to_string(),
        },
    );
}

#[test]
fn test_find_pr_from_fork_repo_url() {
    let cfg = config(Some("async-contextual-keyword"), env());
    let page = find("api.github.com", "rhysd", "rust.vim", &cfg).unwrap();
    assert_eq!(
        page,
        Page::Existing {
            url: "https://github.com/rust-lang/rust.vim/pull/290".to_string(),
        },
    );
}

#[test]
fn test_find_pr_from_original_repo_url() {
    let cfg = config(Some("async-contextual-keyword"), env());
    let page = find("api.github.com", "rust-lang", "rust.vim", &cfg).unwrap();
    assert_eq!(
        page,
        Page::Existing {
            url: "https://github.com/rust-lang/rust.vim/pull/290".to_string(),
        },
    );
}

#[test]
fn test_no_pr_found_at_own_repo() {
    let cfg = config(Some("unknown-branch-which-does-not-exist-for-test"), env());
    match find("api.github.com", "rhysd", "git-brws", &cfg).unwrap() {
        Page::New {
            author,
            repo,
            default_branch,
            branch,
        } => {
            assert_eq!(author, "rhysd");
            assert_eq!(repo, "git-brws");
            assert_eq!(default_branch, "master");
            assert_eq!(branch, "unknown-branch-which-does-not-exist-for-test")
        }
        p => panic!("{:?}", p),
    }
}

#[test]
fn test_no_pr_found_at_parent_repo() {
    let cfg = config(Some("unknown-branch-which-does-not-exist-for-test"), env());
    match find("api.github.com", "rhysd", "rust.vim", &cfg).unwrap() {
        Page::NewAtParent {
            author,
            repo,
            fork_author,
            default_branch,
            branch,
        } => {
            assert_eq!(author, "rust-lang");
            assert_eq!(repo, "rust.vim");
            assert_eq!(fork_author, "rhysd");
            assert_eq!(default_branch, "master");
            assert_eq!(branch, "unknown-branch-which-does-not-exist-for-test")
        }
        p => panic!("{:?}", p),
    }
}

#[test]
fn enterprise_needs_its_token() {
    let cfg = config(Some("dev"), env());
    match find("github.example.com/api/v3", "foo", "bar", &cfg).unwrap_err().kind() {
        ErrorKind::GheTokenRequired => {}
        e => panic!("Unexpected error: {:?}", e),
    }
}

#[test]
fn failed_request_is_the_error() {
    let cfg = config(Some("dev"), env());
    match find("api.github.com", "nobody", "nothing", &cfg).unwrap_err().kind() {
        ErrorKind::GitHubStatusFailure { status, reason, msg } => {
            assert_eq!(*status, 404);
            assert_eq!(reason, "Not Found");
            assert_eq!(msg, "{\"message\":\"Not Found\"}");
        }
        e => panic!("Unexpected error: {:?}", e),
    }
}

#[test]
fn api_addresses_and_queries() {
    assert_eq!(
        repo_endpoint("api.github.com", "rhysd", "git-brws"),
        "https://api.github.com/repos/rhysd/git-brws"
    );
    assert_eq!(
        search_issues_endpoint("github.example.com/api/v3"),
        "https://github.example.com/api/v3/search/issues"
    );
    assert_eq!(
        search_repositories_endpoint("api.github.com"),
        "https://api.github.com/search/repositories"
    );
    assert_eq!(
        pull_request_query("dev", "rust-lang", "rust.vim", None),
        "type:pr head:dev repo:rust-lang/rust.vim"
    );
    assert_eq!(
        pull_request_query("dev", "rust-lang", "rust.vim", Some("rhysd")),
        "type:pr head:dev author:rhysd repo:rust-lang/rust.vim"
    );
    assert_eq!(popular_query("react"), "react in:name");
}

#[test]
fn failed_connection_is_the_error() {
    let cfg = config(Some("dev"), env());
    match find("api.github.com", "offline", "nothing", &cfg).unwrap_err().kind() {
        ErrorKind::HttpClientError { msg } => assert_eq!(msg, "connection refused"),
        e => panic!("Unexpected error: {:?}", e),
    }
}
