//! From the command line to a run: the repository in its written forms, and the decisions
//! that follow the flags.

use crate::config::{Config, EnvConfig};
use crate::error::{Error, ErrorKind, ErrorKindView};
use crate::exchange::{
    asks_afresh, copy_texts, lemma_lookups_ask_afresh, Request, RequestView, Step, StepView,
    Transcript,
};
use crate::git::Git;
use crate::github_api::popular_query;
use crate::text::{
    chars_of, ends_with, find_char, find_text, has_prefix, has_suffix, index_from, index_of,
    search, starts_with, string_of, white_space,
};
use vstd::prelude::*;

verus! {

/// What the command line asks for.
#[derive(Debug)]
pub enum Parsed {
    Help(String),
    Version(&'static str),
    OpenPage(Config),
}

/// A repository written as `[user@]server:project` is a URL over SSH: the port is 22 where
/// none is written, and a `/` separates it from the path. A text with `://` in it is a URL
/// already.
pub open spec fn scp_as_url(url: Seq<char>) -> Seq<char> {
    if search(url, "://"@) is Some {
        url
    } else {
        let colon = index_of(url, ':');
        if colon < url.len() {
            let second = index_from(url, ':', colon + 1);
            if second < url.len() {
                "ssh://"@ + url.take(second) + "/"@ + url.skip(second + 1)
            } else {
                "ssh://"@ + url.take(colon + 1) + "22/"@ + url.skip(colon + 1)
            }
        } else {
            "ssh://"@ + url
        }
    }
}

pub fn handle_scp_like_syntax(url: String) -> (r: String)
    ensures
        r@ == scp_as_url(url@),
{
    let chars = chars_of(url.as_str());
    if find_text(&chars, &chars_of("://"), 0).is_some() {
        return url;
    }
    let mut out = "ssh://".to_owned();
    let colon = find_char(&chars, ':', 0);
    if colon < chars.len() {
        let second = find_char(&chars, ':', colon + 1);
        if second < chars.len() {
            out.append(string_of(&chars, 0, second).as_str());
            out.append("/");
            out.append(string_of(&chars, second + 1, chars.len()).as_str());
        } else {
            out.append(string_of(&chars, 0, colon + 1).as_str());
            out.append("22/");
            out.append(string_of(&chars, colon + 1, chars.len()).as_str());
        }
    } else {
        out.append(url.as_str());
    }
    out
}

/// Whether any character of `s` is white space.
pub open spec fn has_white_space(s: Seq<char>) -> bool {
    exists|i: int| 0 <= i < s.len() && white_space(#[trigger] s[i])
}

/// Whether `s` is written as `user@server:project`: it holds no white space, an `@` that is
/// not its first character, and its first `:` behind that `@`.
pub open spec fn is_scp_like(s: Seq<char>) -> bool {
    !has_white_space(s) && 0 < index_of(s, '@') < index_of(s, ':') < s.len()
}

pub fn is_scp_like_syntax_with_user(s: &str) -> (r: bool)
    ensures
        r == is_scp_like(s@),
{
    let chars = chars_of(s);
    let mut i: usize = 0;
    while i < chars.len()
        invariant
            i <= chars.len(),
            chars@ == s@,
            forall|j: int| 0 <= j < i ==> !white_space(#[trigger] chars@[j]),
        decreases chars.len() - i,
    {
        if chars[i].is_whitespace() {
            return false;
        }
        i += 1;
    }
    let at = find_char(&chars, '@', 0);
    let colon = find_char(&chars, ':', 0);
    0 < at && at < colon && colon < chars.len()
}

/// How often `c` stands in `s`.
pub open spec fn count(s: Seq<char>, c: char) -> nat
    decreases s.len(),
{
    if s.len() == 0 {
        0
    } else {
        count(s.drop_last(), c) + if s.last() == c {
            1nat
        } else {
            0nat
        }
    }
}

fn count_char(s: &Vec<char>, c: char) -> (n: usize)
    ensures
        n == count(s@, c),
{
    let mut n: usize = 0;
    let mut i: usize = 0;
    while i < s.len()
        invariant
            i <= s.len(),
            n <= i,
            n == count(s@.take(i as int), c),
        decreases s.len() - i,
    {
        assert(s@.take(i + 1).drop_last() =~= s@.take(i as int));
        if s[i] == c {
            n += 1;
        }
        i += 1;
    }
    assert(s@.take(s@.len() as int) =~= s@);
    n
}

/// Whether `slug` is a URL or is written as `user@server:project`.
pub open spec fn is_remote(slug: Seq<char>) -> bool {
    starts_with(slug, "https://"@) || starts_with(slug, "ssh://"@) || starts_with(
        slug,
        "http://"@,
    ) || starts_with(slug, "file://"@) || is_scp_like(slug)
}

/// The URL of the repository that `slug` names.
///
/// A URL, or `user@server:project`, stands for itself, with `.git` at its end. `user/repo`
/// is on GitHub, `host/user/repo` on that host. A single word is searched for on GitHub,
/// and names the most popular repository with that word in its name.
pub open spec fn normalized_repo(slug: Seq<char>, env: EnvConfig, t: Transcript) -> StepView<
    Seq<char>,
> {
    if slug.len() == 0 {
        StepView::Failed(ErrorKindView::BrokenRepoFormat { input: slug })
    } else if is_remote(slug) {
        if ends_with(slug, ".git"@) {
            StepView::Done(slug)
        } else {
            StepView::Done(slug + ".git"@)
        }
    } else if count(slug, '/') == 1 {
        StepView::Done("https://github.com/"@ + slug + ".git"@)
    } else if count(slug, '/') == 2 {
        StepView::Done("https://"@ + slug + ".git"@)
    } else if count(slug, '/') == 0 {
        match t.spec_link(
            RequestView::Popular { token: env.github_token.deep_view(), name: slug },
        ) {
            StepView::Ask(requests) => StepView::Ask(requests),
            StepView::Failed(e) => StepView::Failed(e),
            StepView::Done(Some(clone_url)) => StepView::Done(clone_url),
            StepView::Done(None) => StepView::Failed(
                ErrorKindView::NoSearchResult { query: slug + " in:name"@ },
            ),
        }
    } else {
        StepView::Failed(ErrorKindView::BrokenRepoFormat { input: slug })
    }
}

pub fn normalize_repo_format(slug: String, env: &EnvConfig, t: &Transcript) -> (r: Step<String>)
    ensures
        r@ == normalized_repo(slug@, *env, *t),
{
    let chars = chars_of(slug.as_str());
    if chars.len() == 0 {
        return Step::Failed(Error::new(ErrorKind::BrokenRepoFormat { input: slug }));
    }
    if has_prefix(&chars, &chars_of("https://")) || has_prefix(&chars, &chars_of("ssh://"))
        || has_prefix(&chars, &chars_of("http://")) || has_prefix(&chars, &chars_of("file://"))
        || is_scp_like_syntax_with_user(slug.as_str()) {
        let mut url = slug;
        if !has_suffix(&chars, &chars_of(".git")) {
            url.append(".git");
        }
        return Step::Done(url);
    }
    let slashes = count_char(&chars, '/');
    if slashes == 1 {
        let mut url = "https://github.com/".to_owned();
        url.append(slug.as_str());
        url.append(".git");
        Step::Done(url)
    } else if slashes == 2 {
        let mut url = "https://".to_owned();
        url.append(slug.as_str());
        url.append(".git");
        Step::Done(url)
    } else if slashes == 0 {
        let token = match &env.github_token {
            Some(token) => Some(token.clone()),
            None => None,
        };
        match t.link(Request::Popular { token, name: slug.clone() }) {
            Step::Ask(requests) => Step::Ask(requests),
            Step::Failed(e) => Step::Failed(e),
            Step::Done(Some(clone_url)) => Step::Done(clone_url),
            Step::Done(None) => Step::Failed(
                Error::new(ErrorKind::NoSearchResult { query: popular_query(slug.as_str()) }),
            ),
        }
    } else {
        Step::Failed(Error::new(ErrorKind::BrokenRepoFormat { input: slug }))
    }
}

/// What the options of the command line say, once they are told apart from the free
/// arguments.
#[derive(Debug)]
pub struct Flags {
    /// `--repo`: the repository, in one of its written forms.
    pub repo: Option<String>,
    /// `--branch`
    pub branch: Option<String>,
    /// `--dir`: the directory of the repository.
    pub dir: Option<String>,
    /// `--remote`
    pub remote: Option<String>,
    /// `--url`: print the URL.
    pub url: bool,
    /// `--pr`
    pub pull_request: bool,
    /// `--website`
    pub website: bool,
    /// `--blame`
    pub blame: bool,
    /// `--current-branch`
    pub current_branch: bool,
    /// The arguments that are no options.
    pub free: Vec<String>,
}

/// A `Config` with its texts as sequences of characters.
pub struct ConfigView {
    pub repo_url: Seq<char>,
    pub branch: Option<Seq<char>>,
    pub cwd: Seq<char>,
    pub args: Seq<Seq<char>>,
    pub stdout: bool,
    pub pull_request: bool,
    pub website: bool,
    pub blame: bool,
    pub remote: Option<Seq<char>>,
    pub env: EnvConfig,
}

impl DeepView for Config {
    type V = ConfigView;

    open spec fn deep_view(&self) -> ConfigView {
        ConfigView {
            repo_url: self.repo_url@,
            branch: self.branch.deep_view(),
            cwd: self.cwd@,
            args: self.args.deep_view(),
            stdout: self.stdout,
            pull_request: self.pull_request,
            website: self.website,
            blame: self.blame,
            remote: self.remote.deep_view(),
            env: self.env,
        }
    }
}

/// The branch of a run: the one that `--branch` names, else the one that is checked out
/// where `--current-branch` is given, else none.
pub open spec fn chosen_branch(flags: Flags, git: crate::git::GitView, t: Transcript) -> StepView<
    Option<Seq<char>>,
> {
    match flags.branch {
        Some(branch) => StepView::Done(Some(branch@)),
        None => if flags.current_branch {
            match git.current_branch(t) {
                StepView::Ask(requests) => StepView::Ask(requests),
                StepView::Failed(e) => StepView::Failed(e),
                StepView::Done(branch) => StepView::Done(Some(branch)),
            }
        } else {
            StepView::Done(None)
        },
    }
}

/// The repository of a run and the remote that it belongs to.
///
/// `--repo` names the repository itself, and leaves no place for free arguments, which
/// speak of the local directory. Else it is the URL of the remote that `--remote` names,
/// else of the remote that the branch tracks.
pub open spec fn chosen_repo(
    flags: Flags,
    env: EnvConfig,
    git: crate::git::GitView,
    branch: Option<Seq<char>>,
    t: Transcript,
) -> StepView<(Seq<char>, Option<Seq<char>>)> {
    match flags.repo {
        Some(repo) => if flags.free@.len() > 0 {
            StepView::Failed(
                ErrorKindView::ArgsNotAllowed {
                    flag: "--repo {repo}"@,
                    args: flags.free.deep_view(),
                },
            )
        } else {
            match normalized_repo(repo@, env, t) {
                StepView::Ask(requests) => StepView::Ask(requests),
                StepView::Failed(e) => StepView::Failed(e),
                StepView::Done(url) => StepView::Done((url, flags.remote.deep_view())),
            }
        },
        None => match flags.remote {
            Some(remote) => match git.remote_url(t, remote@) {
                StepView::Ask(requests) => StepView::Ask(requests),
                StepView::Failed(e) => StepView::Failed(e),
                StepView::Done(url) => StepView::Done((url, Some(remote@))),
            },
            None => match git.tracking_remote_url(t, branch) {
                StepView::Ask(requests) => StepView::Ask(requests),
                StepView::Failed(e) => StepView::Failed(e),
                StepView::Done((url, remote)) => StepView::Done((url, Some(remote))),
            },
        },
    }
}

/// The run that the options ask for: Git runs in the directory that `--dir` names, resolved
/// on disk, else in the current one; the repository's URL is written out in full.
pub open spec fn configured(flags: Flags, env: EnvConfig, t: Transcript) -> StepView<ConfigView> {
    let dir = match flags.dir {
        Some(dir) => dir@,
        None => "."@,
    };
    match t.spec_place(RequestView::Locate { path: dir }) {
        StepView::Ask(requests) => StepView::Ask(requests),
        StepView::Failed(e) => StepView::Failed(e),
        StepView::Done((cwd, _)) => {
            let git = crate::git::GitView { command: env.git_command@, cwd };
            match chosen_branch(flags, git, t) {
                StepView::Ask(requests) => StepView::Ask(requests),
                StepView::Failed(e) => StepView::Failed(e),
                StepView::Done(branch) => match chosen_repo(flags, env, git, branch, t) {
                    StepView::Ask(requests) => StepView::Ask(requests),
                    StepView::Failed(e) => StepView::Failed(e),
                    StepView::Done((url, remote)) => StepView::Done(
                        ConfigView {
                            repo_url: scp_as_url(url),
                            branch,
                            cwd,
                            args: flags.free.deep_view(),
                            stdout: flags.url,
                            pull_request: flags.pull_request,
                            website: flags.website,
                            blame: flags.blame,
                            remote,
                            env,
                        },
                    ),
                },
            }
        },
    }
}

impl Config {
    /// Decides the run that the options ask for, as far as the transcript lets it.
    pub fn from_flags(flags: Flags, env: EnvConfig, t: &Transcript) -> (r: Step<Config>)
        ensures
            r@ == configured(flags, env, *t),
    {
        let dir = match &flags.dir {
            Some(dir) => dir.clone(),
            None => ".".to_owned(),
        };
        let cwd = match t.place(Request::Locate { path: dir }) {
            Step::Ask(requests) => return Step::Ask(requests),
            Step::Failed(e) => return Step::Failed(e),
            Step::Done(place) => place.path,
        };
        let git = Git::new(cwd.as_str(), env.git_command.as_str());
        let branch = match &flags.branch {
            Some(branch) => Some(branch.clone()),
            None => if flags.current_branch {
                match git.current_branch(t) {
                    Step::Ask(requests) => return Step::Ask(requests),
                    Step::Failed(e) => return Step::Failed(e),
                    Step::Done(branch) => Some(branch),
                }
            } else {
                None
            },
        };
        let (url, remote) = match &flags.repo {
            Some(repo) => {
                if flags.free.len() > 0 {
                    return Step::Failed(
                        Error::new(
                            ErrorKind::ArgsNotAllowed {
                                flag: "--repo {repo}",
                                args: copy_texts(&flags.free),
                            },
                        ),
                    );
                }
                match normalize_repo_format(repo.clone(), &env, t) {
                    Step::Ask(requests) => return Step::Ask(requests),
                    Step::Failed(e) => return Step::Failed(e),
                    Step::Done(url) => (
                        url,
                        match &flags.remote {
                            Some(remote) => Some(remote.clone()),
                            None => None,
                        },
                    ),
                }
            },
            None => match &flags.remote {
                Some(remote) => match git.remote_url(t, remote.as_str()) {
                    Step::Ask(requests) => return Step::Ask(requests),
                    Step::Failed(e) => return Step::Failed(e),
                    Step::Done(url) => (url, Some(remote.clone())),
                },
                None => match git.tracking_remote_url(t, &branch) {
                    Step::Ask(requests) => return Step::Ask(requests),
                    Step::Failed(e) => return Step::Failed(e),
                    Step::Done((url, remote)) => (url, Some(remote)),
                },
            },
        };
        assert(chosen_repo(flags, env, git@, branch.deep_view(), *t) == StepView::Done(
            (url@, remote.deep_view()),
        ));
        let repo_url = handle_scp_like_syntax(url);
        Step::Done(
            Config {
                repo_url,
                branch,
                cwd,
                args: copy_texts(&flags.free),
                stdout: flags.url,
                pull_request: flags.pull_request,
                website: flags.website,
                blame: flags.blame,
                remote,
                env,
            },
        )
    }
}

/// The way from the options to a run asks afresh.
pub proof fn lemma_configured_asks_afresh(flags: Flags, env: EnvConfig, t: Transcript)
    ensures
        asks_afresh(configured(flags, env, t), t),
        forall|slug: Seq<char>| asks_afresh(#[trigger] normalized_repo(slug, env, t), t),
{
    assert forall|request: RequestView| request is Popular implies asks_afresh(
        #[trigger] t.spec_link(request),
        t,
    ) by {
        lemma_lookups_ask_afresh(t, request);
    }
    assert forall|path: Seq<char>|
        asks_afresh(#[trigger] t.spec_place(RequestView::Locate { path }), t) by {
        lemma_lookups_ask_afresh(t, RequestView::Locate { path });
    }
    assert forall|git: crate::git::GitView, branch: Option<Seq<char>>|
        asks_afresh(#[trigger] chosen_repo(flags, env, git, branch, t), t) && asks_afresh(
            chosen_branch(flags, git, t),
            t,
        ) by {
        crate::git::lemma_git_asks_afresh(git, t);
    }
}

} // verus!
