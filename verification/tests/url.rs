use git_brws::config::{Config, EnvConfig};
use git_brws::error::Error;
use git_brws::exchange::{Failure, Reply, Request, Step, Transcript};
use git_brws::url::build_url;

const HEAD: &str = "dbb66be9b78ecddef734d2f9cf8c2c7a2836145b";
const ROOT: &str = "/home/user/repo";

fn empty_env() -> EnvConfig {
    EnvConfig {
        git_command: "git".to_string(),
        ghe_ssh_port: None,
        ghe_url_host: None,
        gitlab_url_host: None,
        gitlab_ssh_port: None,
        github_token: None,
        ghe_token: None,
        https_proxy: None,
        browse_command: None,
        short_commit_hash: false,
    }
}

fn config(repo: &str, branch: Option<&str>, args: Vec<&str>) -> Config {
    Config {
        repo_url: repo.to_string(),
        branch: branch.map(|s| s.to_string()),
        cwd: ROOT.to_string(),
        args: args.into_iter().map(String::from).collect(),
        stdout: false,
        pull_request: false,
        website: false,
        blame: false,
        remote: None,
        env: empty_env(),
    }
}

fn answer(request: &Request) -> Reply {
    match request {
        Request::Locate { path } => match path.as_str() {
            "README.md" => Reply::Place { path: format!("{}/README.md", ROOT), is_dir: false },
            "docs" => Reply::Place { path: format!("{}/docs", ROOT), is_dir: true },
            ROOT => Reply::Place { path: ROOT.to_string(), is_dir: true },
            _ => Reply::Failed(Failure::Io { msg: "No such file or directory".to_string() }),
        },
        Request::Git { args, .. } => {
            let args: Vec<&str> = args.iter().map(|a| a.as_str()).collect();
            match args.as_slice() {
                ["rev-parse", "--show-toplevel"] => Reply::Text(ROOT.to_string()),
                ["rev-parse", "HEAD"] => Reply::Text(HEAD.to_string()),
                ["rev-parse", "--abbrev-ref", "--symbolic", "@{u}"] => {
                    Reply::Text("origin/master".to_string())
                }
                ["branch", "--remote", "origin/master", "--contains", HEAD] => {
                    Reply::Text("origin/master".to_string())
                }
                _ => Reply::Failed(Failure::Exit { stderr: String::new() }),
            }
        }
        r => panic!("Unexpected request: {:?}", r),
    }
}

fn url(c: &Config) -> Result<String, Box<Error>> {
    let mut t = Transcript::new();
    for _ in 0..32 {
        match build_url(c, &t) {
            Step::Done(url) => return Ok(url),
            Step::Failed(e) => return Err(e),
            Step::Ask(requests) => {
                for request in requests {
                    let reply = answer(&request);
                    t.record(request, reply);
                }
            }
        }
    }
    panic!("the run keeps asking");
}

#[test]
fn url_smoke() {
    let c = config("ssh://git@github.com:22/rhysd/git-brws.git", None, vec![]);
    match build_url(&c, &Transcript::new()) {
        Step::Done(u) => assert_eq!(
            u, "https://github.com/rhysd/git-brws",
            "Unexpected URL: {}",
            u
        ),
        other => panic!("url::build_url() was not processed properly: {:?}", other),
    }
}

#[test]
fn file_with_lines_end_to_end() {
    let c = config("https://github.com/user/repo.git", None, vec!["README.md#L1-L2"]);
    assert_eq!(
        url(&c).unwrap(),
        format!("https://github.com/user/repo/blob/{}/README.md#L1-L2", HEAD)
    );
}

#[test]
fn directory_end_to_end() {
    let c = config("https://github.com/user/repo.git", None, vec!["docs"]);
    assert_eq!(url(&c).unwrap(), format!("https://github.com/user/repo/tree/{}/docs", HEAD));
}

#[test]
fn no_arguments_end_to_end() {
    let c = config("https://github.com/user/repo.git", None, vec![]);
    assert_eq!(url(&c).unwrap(), "https://github.com/user/repo");
    let c = config("https://github.com/user/repo.git", Some("dev"), vec![]);
    assert_eq!(url(&c).unwrap(), "https://github.com/user/repo/tree/dev");
}

#[test]
fn issue_end_to_end() {
    let c = config("https://gitlab.com/user/repo.git", None, vec!["#8"]);
    assert_eq!(url(&c).unwrap(), "https://gitlab.com/user/repo/issues/8");
}

#[test]
fn short_hash_end_to_end() {
    let mut c = config("https://bitbucket.org/user/repo.git", None, vec!["HEAD"]);
    c.env.short_commit_hash = true;
    assert_eq!(url(&c).unwrap(), "https://bitbucket.org/user/repo/commits/dbb66be");
}
