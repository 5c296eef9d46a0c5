use git_brws::config::{Config, EnvConfig};
use git_brws::error::{Error, ErrorKind};
use git_brws::exchange::{Failure, Reply, Request, Step, Transcript};
use git_brws::github_api::{ParentRepo, ParentRepoOwner, Repo};
use git_brws::page::{DiffOp, Line, Page};
use git_brws::service::{
    azure_devops_slug_from_path, build_page_url, classify, first_available_url, route,
    slug_from_path, Provider,
};

const OPEN: Page = Page::Open {
    website: false,
    pull_request: false,
};
const OPEN_WEBSITE: Page = Page::Open {
    website: true,
    pull_request: true,
};
const OPEN_PR: Page = Page::Open {
    website: false,
    pull_request: true,
};

fn empty_env() -> EnvConfig {
    EnvConfig {
        git_command: "git".to_string(),
        ghe_ssh_port: None,
        ghe_url_host: None,
        gitlab_url_host: None,
        gitlab_ssh_port: None,
        github_token: None,
        ghe_token: None,
        https_proxy: None,
        browse_command: None,
        short_commit_hash: false,
    }
}

fn config(repo: &str, branch: Option<&str>, env: Option<EnvConfig>) -> Config {
    Config {
        repo_url: repo.to_string(),
        branch: branch.map(|s| s.to_string()),
        cwd: "/home/user/git-brws".to_string(),
        args: vec![],
        stdout: false,
        pull_request: false,
        website: false,
        blame: false,
        remote: None,
        env: env.unwrap_or_else(empty_env),
    }
}

fn config_for_pr(token: Option<String>, repo: &str, branch: Option<&str>) -> Config {
    let mut env = empty_env();
    env.github_token = token;
    let mut c = config(repo, branch, Some(env));
    c.pull_request = true;
    c
}

fn token() -> Option<String> {
    Some("token for github".to_string())
}

// What GitHub, Bitbucket and Git answer in these tests.
fn answer(request: &Request) -> Reply {
    match request {
        Request::Homepage { endpoint, owner, repo, .. } => {
            assert_eq!(endpoint, "api.github.com");
            match (owner.as_str(), repo.as_str()) {
                ("rhysd", "git-brws") => {
                    Reply::Link(Some("https://rhysd.github.io/git-brws/".to_string()))
                }
                ("rhysd", "dogfiles") => Reply::Link(Some("https://rhysd.github.io".to_string())),
                ("rhysd", "filter-with-state") => Reply::Link(None),
                _ => Reply::Failed(Failure::Status {
                    status: 404,
                    reason: "Not Found".to_string(),
                    msg: String::new(),
                }),
            }
        }
        Request::Head { url } => match url.as_str() {
            "https://rhysd.bitbucket.io/bb-cloud-test" => Reply::Status(200),
            "https://rhysd.bitbucket.io/bar" => Reply::Status(404),
            _ => Reply::Failed(Failure::Http { msg: "could not resolve host".to_string() }),
        },
        Request::PullRequest { branch, owner, repo, author, .. } => {
            match (branch.as_str(), owner.as_str(), repo.as_str(), author.as_deref()) {
                ("async-contextual-keyword", "rust-lang", "rust.vim", _) => Reply::Link(Some(
                    "https://github.com/rust-lang/rust.vim/pull/290".to_string(),
                )),
                _ => Reply::Link(None),
            }
        }
        Request::Repo { owner, repo, .. } => match (owner.as_str(), repo.as_str()) {
            ("rhysd", "rust.vim") => Reply::Repo(Repo {
                parent: Some(ParentRepo {
                    name: "rust.vim".to_string(),
                    owner: ParentRepoOwner { login: "rust-lang".to_string() },
                    default_branch: "master".to_string(),
                }),
                default_branch: "master".to_string(),
            }),
            _ => Reply::Repo(Repo { parent: None, default_branch: "master".to_string() }),
        },
        Request::Git { args, .. } => {
            let args: Vec<&str> = args.iter().map(|a| a.as_str()).collect();
            match args.as_slice() {
                ["rev-parse", "--abbrev-ref", "--symbolic", "HEAD"] => {
                    Reply::Text("master".to_string())
                }
                _ => Reply::Failed(Failure::Exit { stderr: "unknown command".to_string() }),
            }
        }
        _ => Reply::Failed(Failure::Io { msg: "not found".to_string() }),
    }
}

fn url_with(page: &Page, c: &Config, answer: fn(&Request) -> Reply) -> Result<String, Box<Error>> {
    let mut t = Transcript::new();
    for _ in 0..32 {
        match build_page_url(page, c, &t) {
            Step::Done(url) => return Ok(url),
            Step::Failed(e) => return Err(e),
            Step::Ask(requests) => {
                for request in requests {
                    let reply = answer(&request);
                    t.record(request, reply);
                }
            }
        }
    }
    panic!("the service keeps asking");
}

fn url(page: &Page, c: &Config) -> Result<String, Box<Error>> {
    url_with(page, c, answer)
}

// Note:
// git@ -> ssh://git@ conversion is done before a Config is made.
#[test]
fn convert_ssh_url() {
    for &(repo, expected) in &[
        (
            "ssh://git@github.com:22/user/repo.git",
            "https://github.com/user/repo",
        ),
        (
            "ssh://git@bitbucket.org:22/user/repo.git",
            "https://bitbucket.org/user/repo",
        ),
    ] {
        let c = config(repo, None, None);
        assert_eq!(url(&OPEN, &c).unwrap(), expected);
    }
}

#[test]
fn open_page_url() {
    for &(repo, expected) in &[
        (
            "https://github.com/user/repo.git",
            "https://github.com/user/repo",
        ),
        (
            "https://bitbucket.org/user/repo.git",
            "https://bitbucket.org/user/repo",
        ),
        (
            "https://github.somewhere.com/user/repo.git",
            "https://github.somewhere.com/user/repo",
        ),
        (
            "https://gitlab.com/user/repo.git",
            "https://gitlab.com/user/repo",
        ),
    ] {
        let c = config(repo, None, None);
        assert_eq!(url(&OPEN, &c).unwrap(), expected);
    }
}

#[test]
fn open_branch_page_url() {
    for &(repo, expected) in &[
        (
            "https://github.com/user/repo.git",
            "https://github.com/user/repo/tree/dev",
        ),
        (
            "https://bitbucket.org/user/repo.git",
            "https://bitbucket.org/user/repo/branch/dev",
        ),
        (
            "https://github.somewhere.com/user/repo.git",
            "https://github.somewhere.com/user/repo/tree/dev",
        ),
        (
            "https://gitlab.com/user/repo.git",
            "https://gitlab.com/user/repo/tree/dev",
        ),
        (
            "https://gitlab.somewhere.com/user/repo.git",
            "https://gitlab.somewhere.com/user/repo/tree/dev",
        ),
    ] {
        let c = config(repo, Some("dev"), None);
        assert_eq!(url(&OPEN, &c).unwrap(), expected);
    }
}

#[test]
fn commit_page_url() {
    let p = Page::Commit {
        hash: "90601f1037142605a32426f9ece0c07d479b9cc5".to_string(),
    };
    for &(repo, expected) in &[
        (
            "https://github.com/user/repo.git",
            "https://github.com/user/repo/commit/90601f1037142605a32426f9ece0c07d479b9cc5",
        ),
        (
            "https://bitbucket.org/user/repo.git",
            "https://bitbucket.org/user/repo/commits/90601f1037142605a32426f9ece0c07d479b9cc5",
        ),
        (
            "https://github.somewhere.com/user/repo.git",
            "https://github.somewhere.com/user/repo/commit/90601f1037142605a32426f9ece0c07d479b9cc5",
        ),
        (
            "https://gitlab.com/user/repo.git",
            "https://gitlab.com/user/repo/commit/90601f1037142605a32426f9ece0c07d479b9cc5",
        ),
    ] {
        let c = config(repo, None, None);
        assert_eq!(url(&p, &c).unwrap(), expected);
    }
}

#[test]
fn diff_page_url() {
    for (ref op, ref opstr) in &[(DiffOp::TwoDots, ".."), (DiffOp::ThreeDots, "...")] {
        let p = Page::Diff {
            lhs: "561848bad7164d7568658456088b107ec9efd9f3".to_string(),
            rhs: "90601f1037142605a32426f9ece0c07d479b9cc5".to_string(),
            op: *op,
        };

        // github-like
        for &(repo, expected) in &[
            (
                "https://github.com/user/repo.git",
                format!("https://github.com/user/repo/compare/561848bad7164d7568658456088b107ec9efd9f3{}90601f1037142605a32426f9ece0c07d479b9cc5", opstr).as_str(),
            ),
            (
                "https://github.somewhere.com/user/repo.git",
                format!("https://github.somewhere.com/user/repo/compare/561848bad7164d7568658456088b107ec9efd9f3{}90601f1037142605a32426f9ece0c07d479b9cc5", opstr).as_str(),
            ),
        ] {
            let c = config(repo, None, None);
            assert_eq!(url(&p, &c).unwrap(), expected, "for {:?}", op);
        }
    }
}

#[test]
fn diff_page_for_gitlab_url() {
    fn page(op: DiffOp) -> Page {
        Page::Diff {
            lhs: "561848bad7164d7568658456088b107ec9efd9f3".to_string(),
            rhs: "90601f1037142605a32426f9ece0c07d479b9cc5".to_string(),
            op,
        }
    }

    let p = page(DiffOp::TwoDots);
    let u = "https://gitlab.com/user/repo.git";
    let c = config(u, None, None);
    assert!(
        url(&p, &c).is_err(),
        "GitLab does not support '..' but error did not occur"
    );
    assert!(matches!(
        url(&p, &c).unwrap_err().kind(),
        ErrorKind::GitLabDiffNotSupported
    ));

    let p = page(DiffOp::ThreeDots);
    let u = "https://gitlab.com/user/repo.git";
    let c = config(u, None, None);
    assert_eq!(
        url(&p, &c).unwrap(),
        "https://gitlab.com/user/repo/compare/561848bad7164d7568658456088b107ec9efd9f3...90601f1037142605a32426f9ece0c07d479b9cc5",
    );
}

#[test]
fn diff_page_for_bitbucket_url() {
    let p = Page::Diff {
        lhs: "561848bad7164d7568658456088b107ec9efd9f3".to_string(),
        rhs: "90601f1037142605a32426f9ece0c07d479b9cc5".to_string(),
        op: DiffOp::ThreeDots,
    };
    let c = config("https://bitbucket.org/user/repo", None, None);
    assert!(
        url(&p, &c).is_err(),
        "bitbucket does not support diff page"
    );
}

#[test]
fn file_page_url() {
    let p = Page::FileOrDir {
        relative_path: "src/main.rs".to_string(),
        hash: "561848bad7164d7568658456088b107ec9efd9f3".to_string(),
        line: None,
        blame: false,
        is_dir: false,
    };
    for &(repo, expected) in &[
        (
            "https://github.com/user/repo.git",
            "https://github.com/user/repo/blob/561848bad7164d7568658456088b107ec9efd9f3/src/main.rs",
        ),
        (
            "https://bitbucket.org/user/repo.git",
            "https://bitbucket.org/user/repo/src/561848bad7164d7568658456088b107ec9efd9f3/src/main.rs",
        ),
        (
            "https://github.somewhere.com/user/repo.git",
            "https://github.somewhere.com/user/repo/blob/561848bad7164d7568658456088b107ec9efd9f3/src/main.rs",
        ),
        (
            "https://gitlab.com/user/repo.git",
            "https://gitlab.com/user/repo/blob/561848bad7164d7568658456088b107ec9efd9f3/src/main.rs",
        ),
    ] {
        let c = config(repo, None, None);
        assert_eq!(url(&p, &c).unwrap(), expected);
    }
}

#[test]
fn file_page_with_line_number_url() {
    let p = Page::FileOrDir {
        relative_path: "src/main.rs".to_string(),
        hash: "561848bad7164d7568658456088b107ec9efd9f3".to_string(),
        line: Some(Line::At(12)),
        blame: false,
        is_dir: false,
    };
    for &(repo, expected) in &[
        (
            "https://github.com/user/repo.git",
            "https://github.com/user/repo/blob/561848bad7164d7568658456088b107ec9efd9f3/src/main.rs#L12",
        ),
        (
            "https://bitbucket.org/user/repo.git",
            "https://bitbucket.org/user/repo/src/561848bad7164d7568658456088b107ec9efd9f3/src/main.rs#lines-12",
        ),
        (
            "https://github.somewhere.com/user/repo.git",
            "https://github.somewhere.com/user/repo/blob/561848bad7164d7568658456088b107ec9efd9f3/src/main.rs#L12",
        ),
        (
            "https://gitlab.com/user/repo.git",
            "https://gitlab.com/user/repo/blob/561848bad7164d7568658456088b107ec9efd9f3/src/main.rs#L12",
        ),
    ] {
        let c = config(repo, None, None);
        assert_eq!(url(&p, &c).unwrap(), expected);
    }
}

#[test]
fn file_page_with_line_range_url() {
    let p = Page::FileOrDir {
        relative_path: "src/main.rs".to_string(),
        hash: "561848bad7164d7568658456088b107ec9efd9f3".to_string(),
        line: Some(Line::Range(1, 2)),
        blame: false,
        is_dir: false,
    };
    for &(repo, expected) in &[
        (
            "https://github.com/user/repo.git",
            "https://github.com/user/repo/blob/561848bad7164d7568658456088b107ec9efd9f3/src/main.rs#L1-L2",
        ),
        (
            "https://bitbucket.org/user/repo.git",
            "https://bitbucket.org/user/repo/src/561848bad7164d7568658456088b107ec9efd9f3/src/main.rs#lines-1:2",
        ),
        (
            "https://github.somewhere.com/user/repo.git",
            "https://github.somewhere.com/user/repo/blob/561848bad7164d7568658456088b107ec9efd9f3/src/main.rs#L1-L2",
        ),
        (
            "https://gitlab.com/user/repo.git",
            "https://gitlab.com/user/repo/blob/561848bad7164d7568658456088b107ec9efd9f3/src/main.rs#L1-L2",
        ),
    ] {
        let c = config(repo, None, None);
        assert_eq!(url(&p, &c).unwrap(), expected);
    }
}

#[test]
fn invalid_repo_url() {
    for repo in &[
        "https://github.com.git",
        "https://github.com/user.git",
        "https://unknown.hosting_service.com/user/repo.git",
    ] {
        let c = config(repo, None, None);
        assert!(url(&OPEN, &c).is_err(), "{} must be invalid", repo);
    }
}

#[test]
fn customized_ssh_port() {
    let mut env = empty_env();
    env.ghe_ssh_port = Some(10022);
    env.gitlab_ssh_port = Some(10022);

    for &(repo, expected) in &[
        (
            "https://github.com/user/repo.git",
            "https://github.com/user/repo",
        ),
        (
            "https://github.somewhere.com/user/repo.git",
            "https://github.somewhere.com:10022/user/repo",
        ),
        (
            "https://gitlab.com/user/repo.git",
            "https://gitlab.com/user/repo",
        ),
        (
            "https://gitlab.somewhere.com/user/repo.git",
            "https://gitlab.somewhere.com:10022/user/repo",
        ),
    ] {
        let c = config(repo, None, Some(env.clone()));
        assert_eq!(url(&OPEN, &c).unwrap(), expected.to_string(),);
    }
}

#[test]
fn customized_ghe_host() {
    let mut env = empty_env();
    env.ghe_url_host = Some("my-original-ghe.org".to_string());

    for (port, expected) in &[
        (None, "https://my-original-ghe.org/user/repo"),
        (Some(10022), "https://my-original-ghe.org:10022/user/repo"),
    ] {
        env.ghe_ssh_port = port.clone();
        let c = config(
            "https://my-original-ghe.org/user/repo.git",
            None,
            Some(env.clone()),
        );
        assert_eq!(url(&OPEN, &c).unwrap(), expected.to_string(),);
    }
}

#[test]
fn broken_repo_url() {
    let env = &empty_env();
    for &u in &[
        "https://foo@/foo.bar", // empty host
        "https://foo bar",      // invalid domain character
    ] {
        let c = config(u, None, Some(env.clone()));
        match url(&OPEN, &c) {
            Err(e) => match e.kind() {
                ErrorKind::BrokenUrl { url, msg } => {
                    assert_eq!(url, u);
                    assert!(!msg.is_empty());
                    assert_ne!(msg, u);
                }
                e => panic!("Unexpected error: {:?}", e),
            },
            v => panic!("Unexpected success: {:?}", v),
        }
    }
}

#[test]
fn issue_number_url() {
    let p = Page::Issue { number: 123 };
    for &(repo, expected) in &[
        (
            "https://github.com/user/repo.git",
            "https://github.com/user/repo/issues/123",
        ),
        (
            "https://bitbucket.org/user/repo.git",
            "https://bitbucket.org/user/repo/issues/123",
        ),
        (
            "https://github.somewhere.com/user/repo.git",
            "https://github.somewhere.com/user/repo/issues/123",
        ),
        (
            "https://gitlab.com/user/repo.git",
            "https://gitlab.com/user/repo/issues/123",
        ),
    ] {
        let c = config(repo, None, None);
        assert_eq!(url(&p, &c).unwrap(), expected);
    }
}

#[test]
fn unknown_github_enterprise_url() {
    let mut env = empty_env();
    env.ghe_url_host = Some("github-yourcompany.com".to_string());
    let c = config(
        "https://github-othercompany.com/foo/bar.git",
        None,
        Some(env),
    );
    match url(&OPEN, &c).unwrap_err().kind() {
        ErrorKind::UnknownHostingService { url } => {
            assert_eq!(url, "https://github-othercompany.com/foo/bar.git")
        }
        err => panic!("Unexpected error: {}", err.message()),
    }

    let mut c = config_for_pr(None, "https://github-othercompany.com/foo/bar.git", None);
    c.env.ghe_url_host = Some("github-yourcompany.com".to_string());
    match url(&OPEN_PR, &c).unwrap_err().kind() {
        ErrorKind::UnknownHostingService { .. } => { /* OK */ }
        err => panic!("Unexpected error: {}", err.message()),
    }
}

#[test]
fn website_github_pages() {
    let mut env = empty_env();
    env.github_token = token();
    let env = env;
    let testcases = &[
        (
            "https://github.com/rhysd/git-brws.git", // With gh-pages
            "https://rhysd.github.io/git-brws/",
        ),
        (
            "https://github.com/rhysd/dogfiles", // Without gh-pages, but with homepage
            "https://rhysd.github.io",
        ),
        (
            "https://github.com/rhysd/filter-with-state", // Without homepage
            "https://rhysd.github.io/filter-with-state",
        ),
    ];
    for (u, expected) in testcases {
        let c = config(u, None, Some(env.clone()));
        let actual = url(&OPEN_WEBSITE, &c).unwrap();
        assert_eq!(*expected, &actual);
    }
}

#[test]
fn website_github_enterprise_pages() {
    let mut env = empty_env();
    env.ghe_url_host = Some("yourcompany-github.com".to_string());
    let env = env;

    let testcases = &[
        (
            "https://github.yourcompany.com/foo/bar.git",
            "https://github.yourcompany.com/pages/foo/bar",
        ),
        (
            "https://yourcompany-github.com/foo/bar.git",
            "https://yourcompany-github.com/pages/foo/bar",
        ),
    ];
    for (u, expected) in testcases {
        let c = config(u, None, Some(env.clone()));
        let actual = url(&OPEN_WEBSITE, &c).unwrap();
        assert_eq!(*expected, &actual);
    }
}

#[test]
fn website_gitlab_pages() {
    let env = empty_env();
    let testcases = &[
        (
            "https://gitlab.com/foo/bar.git",
            "https://foo.gitlab.io/bar",
        ),
        (
            "https://gitlab.example.com/foo/bar.git",
            "https://foo.gitlab.example.com/bar",
        ),
    ];
    for (u, expected) in testcases {
        let c = config(u, None, Some(env.clone()));
        let actual = url(&OPEN_WEBSITE, &c).unwrap();
        assert_eq!(*expected, &actual);
    }
}

#[test]
fn website_bitbucket_cloud() {
    let env = empty_env();
    let testcases = &[
        (
            "https://bitbucket.org/rhysd/bar.git", // Fall back to user page
            "https://rhysd.bitbucket.io",
        ),
        (
            "https://bitbucket.org/rhysd/bb-cloud-test.git",
            "https://rhysd.bitbucket.io/bb-cloud-test",
        ),
    ];
    for (u, expected) in testcases {
        let c = config(u, None, Some(env.clone()));
        let actual = url(&OPEN_WEBSITE, &c).unwrap();
        assert_eq!(*expected, &actual);
    }
}

#[test]
fn pull_request_page_url_with_branch() {
    let cfg = config_for_pr(
        token(),
        "https://github.com/rust-lang/rust.vim.git",
        Some("async-contextual-keyword"),
    );

    let url = url(&OPEN_PR, &cfg).unwrap();
    assert_eq!(&url, "https://github.com/rust-lang/rust.vim/pull/290");
}

#[test]
fn pull_request_create_page_url_at_own_repo() {
    let cfg = config_for_pr(
        token(),
        "https://github.com/rhysd/git-brws.git",
        Some("this-branch-never-existing"),
    );

    let url = url(&OPEN_PR, &cfg).unwrap();
    assert_eq!(
        &url,
        "https://github.com/rhysd/git-brws/compare/master...this-branch-never-existing"
    );
}

#[test]
fn pull_request_create_page_url_at_parent_repo() {
    let cfg = config_for_pr(
        token(),
        "https://github.com/rhysd/rust.vim.git",
        Some("this-branch-never-existing"),
    );

    // The branch of a fork is named together with the fork's owner.
    let url = url(&OPEN_PR, &cfg).unwrap();
    assert_eq!(
        &url,
        "https://github.com/rust-lang/rust.vim/compare/master...rhysd:this-branch-never-existing"
    );
}

#[test]
fn pull_request_page_url_retrieving_branch_from_git_dir() {
    let cfg = config_for_pr(token(), "https://github.com/rhysd/git-brws.git", None);

    match url(&OPEN_PR, &cfg) {
        Ok(url) => {
            assert!(
                url.contains("git-brws"),
                "URL is not for git-brws repo: {}",
                url
            );
            assert_eq!(url, "https://github.com/rhysd/git-brws/compare/master...master");
        }
        result => panic!("Unexpected result: {:?}", result),
    }
}

#[test]
fn pull_request_unsupported_services() {
    let urls = &[
        "https://gitlab.com/foo/bar.git",
        "https://gitlab.yourcompany.com/foo/bar.git",
        "https://bitbucket.org/foo/bar.git",
        "ssh://git@gitlab.com:22/foo/bar.git",
        "ssh://git@gitlab.yourcompany.com:22/foo/bar.git",
        "ssh://git@bitbucket.org:22/foo/bar.git",
    ];
    for u in urls {
        let cfg = config_for_pr(None, u, None);
        match url(&OPEN_PR, &cfg).unwrap_err().kind() {
            ErrorKind::PullReqNotSupported { .. } => { /* OK */ }
            err => panic!("Unexpected error for URL {}: {}", u, err.message()),
        }
    }
}

#[test]
fn pull_request_github_enterprise_with_no_token() {
    let cfg = config_for_pr(None, "https://github.yourcompany.com/foo/bar.git", None);
    match url(&OPEN_PR, &cfg).unwrap_err().kind() {
        ErrorKind::GheTokenRequired => { /* OK */ }
        err => panic!("Unexpected error: {}", err.message()),
    }
}

#[test]
fn tab_page_for_github_and_gitlab() {
    let hosts = &[
        "github.com",
        "github.yourcompany.com",
        "gitlab.com",
        "gitlab.yourcompany.com",
    ];
    let page = Page::Tag {
        tagname: "tag".to_string(),
        commit: "01234cdef".to_string(),
    };
    for host in hosts {
        let expected = format!("https://{}/foo/bar/tree/tag", host);
        for u in &[
            format!("https://{}/foo/bar.git", host),
            format!("ssh://git@{}:22/foo/bar.git", host),
        ] {
            let c = config(u, None, None);
            let actual = url(&page, &c).unwrap();
            assert_eq!(actual, expected, "{}", u);
        }
    }
}

#[test]
fn tab_page_for_bitbucket() {
    let page = Page::Tag {
        tagname: "tag".to_string(),
        commit: "01234cdef".to_string(),
    };
    let expected = "https://bitbucket.org/user/repo/commits/01234cdef";
    for u in &[
        "https://bitbucket.org/user/repo",
        "ssh://git@bitbucket.org:22/user/repo.git",
    ] {
        let c = config(u, None, None);
        let actual = url(&page, &c).unwrap();
        assert_eq!(actual, expected, "{}", u);
    }
}

#[test]
fn pull_request_page_url_without_branch_outside_git_repo() {
    // Outside a repository Git cannot tell the branch, and its failure is the error.
    fn outside(request: &Request) -> Reply {
        match request {
            Request::Git { .. } => Reply::Failed(Failure::Exit {
                stderr: "fatal: not a git repository (or any of the parent directories): .git"
                    .to_string(),
            }),
            r => panic!("Unexpected request: {:?}", r),
        }
    }
    let mut cfg = config_for_pr(None, "ssh://git@github.com:22/rhysd/git-brws.git", None);
    cfg.cwd = "/".to_string();
    match url_with(&OPEN_PR, &cfg, outside).unwrap_err().kind() {
        ErrorKind::GitCommandError { stderr, args } => {
            assert!(stderr.contains("not a git repository"), "{}", stderr);
            assert_eq!(args, &["rev-parse", "--abbrev-ref", "--symbolic", "HEAD"]);
        }
        err => panic!("Unexpected error: {}", err.message()),
    }
}

// The pages of each service.

#[test]
fn commit_on_github_is_exact() {
    let c = config("https://github.com/u/r.git", None, None);
    let p = Page::Commit { hash: "abc".to_string() };
    assert_eq!(url(&p, &c).unwrap(), "https://github.com/u/r/commit/abc");
}

#[test]
fn diff_on_gitlab_takes_three_dots() {
    let c = config("https://gitlab.com/u/r.git", None, None);
    let page = |op| Page::Diff { lhs: "LHS".to_string(), rhs: "RHS".to_string(), op };
    assert!(matches!(
        url(&page(DiffOp::TwoDots), &c).unwrap_err().kind(),
        ErrorKind::GitLabDiffNotSupported
    ));
    assert_eq!(
        url(&page(DiffOp::ThreeDots), &c).unwrap(),
        "https://gitlab.com/u/r/compare/LHS...RHS"
    );
}

#[test]
fn diff_on_bitbucket_is_refused_for_any_dots() {
    let c = config("https://bitbucket.org/u/r.git", None, None);
    for op in [DiffOp::TwoDots, DiffOp::ThreeDots] {
        let p = Page::Diff { lhs: "LHS".to_string(), rhs: "RHS".to_string(), op };
        assert!(matches!(
            url(&p, &c).unwrap_err().kind(),
            ErrorKind::BitbucketDiffNotSupported
        ));
    }
}

#[test]
fn enterprise_port_is_shown_with_the_host() {
    let mut env = empty_env();
    env.ghe_ssh_port = Some(10022);
    let c = config("https://github.somewhere.com/user/repo.git", None, Some(env));
    assert_eq!(url(&OPEN, &c).unwrap(), "https://github.somewhere.com:10022/user/repo");
    let p = Page::Issue { number: 8 };
    assert_eq!(url(&p, &c).unwrap(), "https://github.somewhere.com:10022/user/repo/issues/8");
}

#[test]
fn unknown_host_is_refused() {
    let c = config("https://example.com/user/repo.git", None, None);
    match url(&OPEN, &c).unwrap_err().kind() {
        ErrorKind::UnknownHostingService { url } => {
            assert_eq!(url, "https://example.com/user/repo.git")
        }
        e => panic!("Unexpected error: {:?}", e),
    }
    assert_eq!(classify("example.com", &c), None);
}

#[test]
fn hosts_are_classified() {
    let mut env = empty_env();
    env.ghe_url_host = Some("code.example.com".to_string());
    env.gitlab_url_host = Some("lab.example.com".to_string());
    let c = config("https://github.com/user/repo.git", None, Some(env));
    for (host, expected) in [
        ("github.com", Some(Provider::GitHub)),
        ("gitlab.com", Some(Provider::GitLab)),
        ("bitbucket.org", Some(Provider::Bitbucket)),
        ("visualstudio.com", Some(Provider::AzureDevOps)),
        ("vs-ssh.visualstudio.com", Some(Provider::AzureDevOps)),
        ("dev.azure.com", Some(Provider::AzureDevOps)),
        ("ssh.dev.azure.com", Some(Provider::AzureDevOps)),
        ("github.example.com", Some(Provider::GitHubEnterprise)),
        ("gitlab.example.com", Some(Provider::SelfHostedGitLab)),
        ("code.example.com", Some(Provider::GitHubEnterprise)),
        ("lab.example.com", Some(Provider::SelfHostedGitLab)),
        ("example.com", None),
        ("githubxcom", None),
        ("github", None),
    ] {
        assert_eq!(classify(host, &c), expected, "{}", host);
    }
}

#[test]
fn github_pages() {
    let c = config("https://github.com/user/repo.git", None, None);
    let file = |line, blame, is_dir| Page::FileOrDir {
        relative_path: "src/lib.rs".to_string(),
        hash: "abc".to_string(),
        line,
        blame,
        is_dir,
    };
    for (page, expected) in [
        (file(None, true, false), "https://github.com/user/repo/blame/abc/src/lib.rs"),
        (file(None, false, true), "https://github.com/user/repo/tree/abc/src/lib.rs"),
        (
            file(Some(Line::Range(10, 200)), true, false),
            "https://github.com/user/repo/blame/abc/src/lib.rs#L10-L200",
        ),
        (
            Page::Tag { tagname: "v1".to_string(), commit: "abc".to_string() },
            "https://github.com/user/repo/tree/v1",
        ),
        (Page::Issue { number: 0 }, "https://github.com/user/repo/issues/0"),
        (
            Page::Issue { number: 18446744073709551615 },
            "https://github.com/user/repo/issues/18446744073709551615",
        ),
    ] {
        assert_eq!(url(&page, &c).unwrap(), expected);
    }
}

#[test]
fn bitbucket_pages() {
    let c = config("https://bitbucket.org/user/repo.git", None, None);
    let file = |line, blame| Page::FileOrDir {
        relative_path: "src/lib.rs".to_string(),
        hash: "abc".to_string(),
        line,
        blame,
        is_dir: false,
    };
    for (page, expected) in [
        (file(None, true), "https://bitbucket.org/user/repo/annotate/abc/src/lib.rs"),
        (
            file(Some(Line::At(7)), true),
            "https://bitbucket.org/user/repo/annotate/abc/src/lib.rs#lines-7",
        ),
        (
            file(Some(Line::Range(7, 9)), false),
            "https://bitbucket.org/user/repo/src/abc/src/lib.rs#lines-7:9",
        ),
    ] {
        assert_eq!(url(&page, &c).unwrap(), expected);
    }
    match url(&OPEN_PR, &c).unwrap_err().kind() {
        ErrorKind::PullReqNotSupported { service } => assert_eq!(service, "bitbucket.org"),
        e => panic!("Unexpected error: {:?}", e),
    }
}

#[test]
fn azure_devops_pages() {
    let file = |line, blame| Page::FileOrDir {
        relative_path: "src/lib.rs".to_string(),
        hash: "abc".to_string(),
        line,
        blame,
        is_dir: false,
    };
    for repo in [
        "https://dev.azure.com/team/_git/repo",
        "ssh://git@ssh.dev.azure.com:22/v3/team/repo/repo",
    ] {
        let c = config(repo, None, None);
        for (page, expected) in [
            (OPEN, "https://dev.azure.com/team/repo"),
            (OPEN_WEBSITE, ""),
            (
                Page::Commit { hash: "abc".to_string() },
                "https://dev.azure.com/team/_git/repo/commit/abc",
            ),
            (
                Page::Tag { tagname: "v1".to_string(), commit: "abc".to_string() },
                "https://dev.azure.com/team/_git/repo?version=GTv1",
            ),
            (
                file(None, false),
                "https://dev.azure.com/team/_git/repo/commit/abc?path=src/lib.rs",
            ),
            (
                file(None, true),
                "https://dev.azure.com/team/_git/repo/commit/abc?path=src/lib.rs?_a=annotate",
            ),
            (Page::Issue { number: 42 }, "https://dev.azure.com/team/repo/_workitems/edit/42"),
        ] {
            if expected.is_empty() {
                match url(&page, &c).unwrap_err().kind() {
                    ErrorKind::NoLocalRepoFound { operation } => {
                        assert_eq!(operation, "opening a pull request without specifying branch")
                    }
                    e => panic!("Unexpected error: {:?}", e),
                }
            } else {
                assert_eq!(url(&page, &c).unwrap(), expected, "{}", repo);
            }
        }
        for page in [
            file(Some(Line::At(1)), false),
            Page::Diff { lhs: "a".to_string(), rhs: "b".to_string(), op: DiffOp::ThreeDots },
        ] {
            assert!(matches!(
                url(&page, &c).unwrap_err().kind(),
                ErrorKind::AzureDevOpsNotSupported
            ));
        }
        let c = config(repo, Some("dev"), None);
        assert_eq!(url(&OPEN, &c).unwrap(), "https://dev.azure.com/team/_git/repo?version=GBdev");
        assert_eq!(
            url(&OPEN_PR, &c).unwrap(),
            "https://dev.azure.com/team/_git/repo/pullrequestcreate?sourceRef=dev&targetRef=master"
        );
    }
}

#[test]
fn slugs() {
    assert_eq!(slug_from_path("/user/repo.git").unwrap(), ("user", "repo"));
    assert_eq!(slug_from_path("/user/repo").unwrap(), ("user", "repo"));
    assert_eq!(slug_from_path("user/repo").unwrap(), ("user", "repo"));
    assert_eq!(slug_from_path("//user//repo.git/more").unwrap(), ("user", "repo"));
    assert_eq!(slug_from_path("/user/.git").unwrap(), ("user", ""));
    assert_eq!(slug_from_path("/user/git").unwrap(), ("user", "git"));
    for path in ["", "/", "///"] {
        match slug_from_path(path).unwrap_err().kind() {
            ErrorKind::NoUserInPath { path: p } => assert_eq!(p, path),
            e => panic!("Unexpected error: {:?}", e),
        }
    }
    for path in ["/user", "user", "/user/", "/user.git"] {
        match slug_from_path(path).unwrap_err().kind() {
            ErrorKind::NoRepoInPath { path: p } => assert_eq!(p, path),
            e => panic!("Unexpected error: {:?}", e),
        }
    }
}

#[test]
fn azure_devops_slugs() {
    assert_eq!(azure_devops_slug_from_path("/team/_git/repo").unwrap(), ("team", "repo"));
    assert_eq!(azure_devops_slug_from_path("/team/repo").unwrap(), ("team", "repo"));
    assert_eq!(azure_devops_slug_from_path("v3/team/repo/repo").unwrap(), ("team", "repo"));
    assert_eq!(azure_devops_slug_from_path("/v3/team/_git/repo").unwrap(), ("team", "repo"));
    assert_eq!(azure_devops_slug_from_path("/v30/team/repo").unwrap(), ("v30", "team"));
    // Only the segment `_git` itself is passed over.
    assert_eq!(azure_devops_slug_from_path("/team/my_git").unwrap(), ("team", "my_git"));
    assert_eq!(azure_devops_slug_from_path("/team/my_git/repo").unwrap(), ("team", "my_git"));
    assert_eq!(azure_devops_slug_from_path("/team/_git/_git").unwrap(), ("team", "_git"));
    assert_eq!(azure_devops_slug_from_path("v3/team/x_git").unwrap(), ("team", "x_git"));
    assert!(matches!(
        azure_devops_slug_from_path("/").unwrap_err().kind(),
        ErrorKind::NoUserInPath { .. }
    ));
    for path in ["/team", "/v3", "/v3/team", "/team/_git", "/v3/team/_git"] {
        assert!(
            matches!(
                azure_devops_slug_from_path(path).unwrap_err().kind(),
                ErrorKind::NoRepoInPath { .. }
            ),
            "{}",
            path
        );
    }
}

#[test]
fn first_available_candidate_is_taken() {
    fn probe(candidates: &[&str]) -> String {
        let mut t = Transcript::new();
        for _ in 0..8 {
            let candidates = candidates.iter().map(|c| c.to_string()).collect();
            match first_available_url(candidates, "fallback".to_string(), &t) {
                Step::Done(url) => return url,
                Step::Failed(e) => panic!("Unexpected error: {:?}", e),
                Step::Ask(requests) => {
                    assert_eq!(requests.len(), 1);
                    for request in requests {
                        let reply = answer(&request);
                        t.record(request, reply);
                    }
                }
            }
        }
        panic!("the probe keeps asking");
    }
    let up = "https://rhysd.bitbucket.io/bb-cloud-test";
    let down = "https://rhysd.bitbucket.io/bar";
    assert_eq!(probe(&[]), "fallback");
    assert_eq!(probe(&[down]), "fallback");
    assert_eq!(probe(&[down, "https://unreachable.example.com"]), "fallback");
    assert_eq!(probe(&[down, "https://unreachable.example.com", up]), up);
    assert_eq!(probe(&[up, down]), up);
}

#[test]
fn pull_request_search_and_repository_are_asked_together() {
    let cfg = config_for_pr(
        token(),
        "https://github.com/rhysd/rust.vim.git",
        Some("this-branch-never-existing"),
    );
    let mut t = Transcript::new();
    match build_page_url(&OPEN_PR, &cfg, &t) {
        Step::Ask(requests) => {
            assert_eq!(requests.len(), 2);
            assert!(matches!(&requests[0], Request::PullRequest { author: None, token: Some(_), .. }));
            assert!(matches!(&requests[1], Request::Repo { .. }));
            for request in requests {
                let reply = answer(&request);
                t.record(request, reply);
            }
        }
        s => panic!("Unexpected step: {:?}", s),
    }
    match build_page_url(&OPEN_PR, &cfg, &t) {
        Step::Ask(requests) => {
            assert_eq!(requests.len(), 1);
            match &requests[0] {
                Request::PullRequest { owner, repo, author, .. } => {
                    assert_eq!(owner, "rust-lang");
                    assert_eq!(repo, "rust.vim");
                    assert_eq!(author.as_deref(), Some("rhysd"));
                }
                r => panic!("Unexpected request: {:?}", r),
            }
        }
        s => panic!("Unexpected step: {:?}", s),
    }
}

#[test]
fn enterprise_homepage_is_asked_with_its_token() {
    let mut env = empty_env();
    env.ghe_token = token();
    env.ghe_ssh_port = Some(8443);
    let c = config("https://github.example.com/foo/bar.git", None, Some(env));
    fn found(request: &Request) -> Reply {
        match request {
            Request::Homepage { endpoint, token, owner, repo } => {
                assert_eq!(endpoint, "github.example.com:8443/api/v3");
                assert!(token.is_some());
                assert_eq!((owner.as_str(), repo.as_str()), ("foo", "bar"));
                Reply::Link(Some("https://bar.example.com".to_string()))
            }
            r => panic!("Unexpected request: {:?}", r),
        }
    }
    assert_eq!(url_with(&OPEN_WEBSITE, &c, found).unwrap(), "https://bar.example.com");
    fn nothing(request: &Request) -> Reply {
        match request {
            Request::Homepage { .. } => Reply::Link(None),
            Request::Head { url } => {
                assert_eq!(url, "https://pages.github.example.com:8443/foo/bar");
                Reply::Status(200)
            }
            r => panic!("Unexpected request: {:?}", r),
        }
    }
    assert_eq!(
        url_with(&OPEN_WEBSITE, &c, nothing).unwrap(),
        "https://pages.github.example.com:8443/foo/bar"
    );
}

#[test]
fn route_from_given_parts() {
    let c = config("not used", None, None);
    let t = Transcript::new();
    let page = Page::FileOrDir {
        relative_path: "not used".to_string(),
        hash: "abc".to_string(),
        line: None,
        blame: false,
        is_dir: false,
    };
    let parts = Ok((Some("gitlab.com".to_string()), "/user/repo.git".to_string()));
    match route(&parts, &c, &page, "docs/guide.md", &t) {
        Step::Done(url) => assert_eq!(url, "https://gitlab.com/user/repo/blob/abc/docs/guide.md"),
        s => panic!("Unexpected step: {:?}", s),
    }
    match route(&Ok((None, "/user/repo.git".to_string())), &c, &page, "", &t) {
        Step::Failed(e) => match e.kind() {
            ErrorKind::BrokenUrl { url, msg } => {
                assert_eq!(url, "not used");
                assert_eq!(msg, "No host in URL");
            }
            e => panic!("Unexpected error: {:?}", e),
        },
        s => panic!("Unexpected step: {:?}", s),
    }
    match route(&Err("empty host".to_string()), &c, &page, "", &t) {
        Step::Failed(e) => match e.kind() {
            ErrorKind::BrokenUrl { url, msg } => {
                assert_eq!(url, "not used");
                assert_eq!(msg, "empty host");
            }
            e => panic!("Unexpected error: {:?}", e),
        },
        s => panic!("Unexpected step: {:?}", s),
    }
}
