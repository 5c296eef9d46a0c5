//! The hosting services: which one a repository lives on, and the URL that each gives a page.

use crate::config::Config;
use crate::error::{Error, ErrorKind, ErrorKindView};
use crate::exchange::{
    asks_afresh, lemma_lookups_ask_afresh, Request, RequestView, Step, StepView, Transcript,
};
use crate::page::{DiffOp, Line, Page, PageView};
use crate::text::{
    chars_of, decimal, ends_with, find_char, has_prefix, has_suffix, index_from, push_decimal,
    same_text, skip_char, skip_from, starts_with,
};
use path_slash::PathExt;
use vstd::prelude::*;

verus! {

/// The segment of `path` that begins at or after `from`: the positions where it starts and
/// ends. Segments are separated by `/` and are never empty.
pub open spec fn segment(path: Seq<char>, from: int) -> Option<(int, int)> {
    let start = skip_from(path, '/', from);
    if start < path.len() {
        Some((start, index_from(path, '/', start)))
    } else {
        None
    }
}

/// Finds the segment of `path` that begins at or after `from`.
fn next_segment(path: &Vec<char>, from: usize) -> (r: Option<(usize, usize)>)
    requires
        from <= path.len(),
    ensures
        match r {
            Some((start, end)) => segment(path@, from as int) == Some((start as int, end as int))
                && from <= start < end <= path.len(),
            None => segment(path@, from as int) is None,
        },
{
    let start = skip_char(path, '/', from);
    if start < path.len() {
        let end = find_char(path, '/', start);
        proof {
            crate::text::lemma_skip_from(path@, '/', from as int);
            crate::text::lemma_index_from(path@, '/', start as int);
        }
        Some((start, end))
    } else {
        None
    }
}

/// The ending that marks a bare repository.
pub open spec fn dot_git() -> Seq<char> {
    seq!['.', 'g', 'i', 't']
}

/// `repo` without a `.git` at its end.
pub open spec fn without_dot_git(repo: Seq<char>) -> Seq<char> {
    if ends_with(repo, dot_git()) {
        repo.take(repo.len() - 4)
    } else {
        repo
    }
}

/// The user and the repository that a URL's path names: its first two segments, the second
/// without `.git` at its end.
pub open spec fn slug_of(path: Seq<char>) -> Result<(Seq<char>, Seq<char>), ErrorKindView> {
    match segment(path, 0) {
        None => Err(ErrorKindView::NoUserInPath { path }),
        Some((user_start, user_end)) => match segment(path, user_end) {
            None => Err(ErrorKindView::NoRepoInPath { path }),
            Some((repo_start, repo_end)) => Ok(
                (
                    path.subrange(user_start, user_end),
                    without_dot_git(path.subrange(repo_start, repo_end)),
                ),
            ),
        },
    }
}

/// Reads `/user/repo.git`, `/user/repo` or `user/repo` as a user and a repository.
pub fn slug_from_path<'a>(path: &'a str) -> (r: Result<(&'a str, &'a str), Box<Error>>)
    ensures
        match r {
            Ok((user, repo)) => slug_of(path@) == Ok::<_, ErrorKindView>((user@, repo@)),
            Err(e) => slug_of(path@) == Err::<(Seq<char>, Seq<char>), _>(e@),
        },
{
    let chars = chars_of(path);
    let (user_start, user_end) = match next_segment(&chars, 0) {
        Some(found) => found,
        None => return Error::err(ErrorKind::NoUserInPath { path: path.to_owned() }),
    };
    let (repo_start, repo_end) = match next_segment(&chars, user_end) {
        Some(found) => found,
        None => return Error::err(ErrorKind::NoRepoInPath { path: path.to_owned() }),
    };
    let user = path.substring_char(user_start, user_end);
    let repo = chars_of(path.substring_char(repo_start, repo_end));
    let ending: Vec<char> = vec!['.', 'g', 'i', 't'];
    let repo_end = if has_suffix(&repo, &ending) {
        assert(repo@.take(repo@.len() - 4) =~= path@.subrange(
            repo_start as int,
            repo_end as int - 4,
        ));
        repo_end - 4
    } else {
        repo_end
    };
    Ok((user, path.substring_char(repo_start, repo_end)))
}

/// The segment that Azure DevOps puts before the team in the paths of SSH URLs.
pub open spec fn v3() -> Seq<char> {
    seq!['v', '3']
}

/// The segment that Azure DevOps puts before the repository.
pub open spec fn underscore_git() -> Seq<char> {
    seq!['_', 'g', 'i', 't']
}

/// The team and the repository that the path of an Azure DevOps URL names: `/team/_git/repo`
/// or `v3/team/repo`. A first segment `v3` is passed over, and so is the segment `_git`
/// where the repository is expected; a segment that only ends in `_git` is a repository.
pub open spec fn azure_slug_of(path: Seq<char>) -> Result<(Seq<char>, Seq<char>), ErrorKindView> {
    match segment(path, 0) {
        None => Err(ErrorKindView::NoUserInPath { path }),
        Some(first) => {
            let team = if path.subrange(first.0, first.1) == v3() {
                segment(path, first.1)
            } else {
                Some(first)
            };
            match team {
                None => Err(ErrorKindView::NoRepoInPath { path }),
                Some(team) => match segment(path, team.1) {
                    None => Err(ErrorKindView::NoRepoInPath { path }),
                    Some(next) => {
                        let repo = if path.subrange(next.0, next.1) == underscore_git() {
                            segment(path, next.1)
                        } else {
                            Some(next)
                        };
                        match repo {
                            None => Err(ErrorKindView::NoRepoInPath { path }),
                            Some(repo) => Ok(
                                (path.subrange(team.0, team.1), path.subrange(repo.0, repo.1)),
                            ),
                        }
                    },
                },
            }
        },
    }
}

/// Reads the path of an Azure DevOps URL as a team and a repository.
pub fn azure_devops_slug_from_path<'a>(path: &'a str) -> (r: Result<
    (&'a str, &'a str),
    Box<Error>,
>)
    ensures
        match r {
            Ok((team, repo)) => azure_slug_of(path@) == Ok::<_, ErrorKindView>((team@, repo@)),
            Err(e) => azure_slug_of(path@) == Err::<(Seq<char>, Seq<char>), _>(e@),
        },
{
    let chars = chars_of(path);
    let first = match next_segment(&chars, 0) {
        Some(found) => found,
        None => return Error::err(ErrorKind::NoUserInPath { path: path.to_owned() }),
    };
    let marker: Vec<char> = vec!['v', '3'];
    let first_text = chars_of(path.substring_char(first.0, first.1));
    let is_marker = first_text.len() == 2 && has_prefix(&first_text, &marker);
    assert(is_marker == (first_text@ == v3())) by {
        if first_text@.len() == 2 {
            assert(first_text@.subrange(0, 2) =~= first_text@);
        }
    }
    let team = if is_marker {
        match next_segment(&chars, first.1) {
            Some(found) => found,
            None => return Error::err(ErrorKind::NoRepoInPath { path: path.to_owned() }),
        }
    } else {
        first
    };
    let next = match next_segment(&chars, team.1) {
        Some(found) => found,
        None => return Error::err(ErrorKind::NoRepoInPath { path: path.to_owned() }),
    };
    let ending: Vec<char> = vec!['_', 'g', 'i', 't'];
    let next_text = chars_of(path.substring_char(next.0, next.1));
    let is_separator = next_text.len() == 4 && has_prefix(&next_text, &ending);
    assert(is_separator == (next_text@ == underscore_git())) by {
        if next_text@.len() == 4 {
            assert(next_text@.subrange(0, 4) =~= next_text@);
        }
    }
    let repo = if is_separator {
        match next_segment(&chars, next.1) {
            Some(found) => found,
            None => return Error::err(ErrorKind::NoRepoInPath { path: path.to_owned() }),
        }
    } else {
        next
    };
    Ok((path.substring_char(team.0, team.1), path.substring_char(repo.0, repo.1)))
}

/// The first of `candidates` that answers a HEAD request with status 200, or `fallback`
/// where none does. A request that fails counts as an answer with another status.
pub open spec fn first_available(
    t: Transcript,
    candidates: Seq<Seq<char>>,
    fallback: Seq<char>,
) -> StepView<Seq<char>>
    decreases candidates.len(),
{
    if candidates.len() == 0 {
        StepView::Done(fallback)
    } else {
        match t.spec_status(RequestView::Head { url: candidates[0] }) {
            StepView::Ask(requests) => StepView::Ask(requests),
            StepView::Done(status) => if status == 200 {
                StepView::Done(candidates[0])
            } else {
                first_available(t, candidates.drop_first(), fallback)
            },
            StepView::Failed(_) => first_available(t, candidates.drop_first(), fallback),
        }
    }
}

/// Picks the first candidate that is available, or the fallback.
pub fn first_available_url(candidates: Vec<String>, fallback: String, t: &Transcript) -> (r: Step<
    String,
>)
    ensures
        r@ == first_available(*t, candidates.deep_view(), fallback@),
{
    let ghost all = candidates.deep_view();
    let mut i: usize = 0;
    assert(all.skip(0) =~= all);
    while i < candidates.len()
        invariant
            i <= candidates.len(),
            all == candidates.deep_view(),
            first_available(*t, all, fallback@) == first_available(
                *t,
                all.skip(i as int),
                fallback@,
            ),
        decreases candidates.len() - i,
    {
        proof {
            assert(all.skip(i as int).drop_first() =~= all.skip(i + 1));
        }
        match t.status(Request::Head { url: candidates[i].clone() }) {
            Step::Ask(requests) => return Step::Ask(requests),
            Step::Done(status) => {
                if status == 200 {
                    return Step::Done(candidates[i].clone());
                }
            },
            Step::Failed(_) => {},
        }
        i += 1;
    }
    Step::Done(fallback)
}

/// The homepage that the GitHub API at `endpoint` gives for `user/repo`.
pub open spec fn homepage(
    t: Transcript,
    endpoint: Seq<char>,
    token: Option<Seq<char>>,
    user: Seq<char>,
    repo: Seq<char>,
) -> StepView<Option<Seq<char>>> {
    t.spec_link(RequestView::Homepage { endpoint, token, owner: user, repo })
}

pub fn fetch_homepage(
    endpoint: &str,
    token: &Option<String>,
    user: &str,
    repo: &str,
    t: &Transcript,
) -> (r: Step<Option<String>>)
    ensures
        r@ == homepage(*t, endpoint@, token.deep_view(), user@, repo@),
{
    let token = match token {
        Some(token) => Some(token.clone()),
        None => None,
    };
    t.link(
        Request::Homepage {
            endpoint: endpoint.to_owned(),
            token,
            owner: user.to_owned(),
            repo: repo.to_owned(),
        },
    )
}

/// Where a repository lives on a host: `https://host/user/repo`.
pub open spec fn site(host: Seq<char>, user: Seq<char>, repo: Seq<char>) -> Seq<char> {
    "https://"@ + host + "/"@ + user + "/"@ + repo
}

fn site_url(host: &str, user: &str, repo: &str) -> (r: String)
    ensures
        r@ == site(host@, user@, repo@),
{
    let mut url = "https://".to_owned();
    url.append(host);
    url.append("/");
    url.append(user);
    url.append("/");
    url.append(repo);
    url
}

/// The website of a repository on GitHub, GitHub Enterprise or GitLab.
///
/// On `github.com` it is the homepage that the API knows, else the conventional
/// `https://user.github.io/repo`. GitLab has its conventional form only. Any other host is
/// GitHub Enterprise: the homepage that its API knows, asked with the Enterprise token
/// where there is one; else its pages on a subdomain if they answer, else below `/pages/`.
/// A lookup that fails counts as one that found nothing.
pub open spec fn github_like_website(
    host: Seq<char>,
    user: Seq<char>,
    repo: Seq<char>,
    api_endpoint: Option<Seq<char>>,
    cfg: Config,
    t: Transcript,
) -> StepView<Seq<char>> {
    if host == "github.com"@ {
        let conventional = "https://"@ + user + ".github.io/"@ + repo;
        match api_endpoint {
            None => StepView::Done(conventional),
            Some(endpoint) => match homepage(
                t,
                endpoint,
                cfg.env.github_token.deep_view(),
                user,
                repo,
            ) {
                StepView::Ask(requests) => StepView::Ask(requests),
                StepView::Done(Some(found)) => StepView::Done(found),
                _ => StepView::Done(conventional),
            },
        }
    } else if host == "gitlab.com"@ {
        StepView::Done("https://"@ + user + ".gitlab.io/"@ + repo)
    } else if starts_with(host, "gitlab."@) {
        StepView::Done("https://"@ + user + "."@ + host + "/"@ + repo)
    } else {
        let pages = first_available(
            t,
            seq!["https://pages."@ + host + "/"@ + user + "/"@ + repo],
            "https://"@ + host + "/pages/"@ + user + "/"@ + repo,
        );
        match (api_endpoint, cfg.env.ghe_token) {
            (Some(endpoint), Some(token)) => match homepage(
                t,
                endpoint,
                Some(token@),
                user,
                repo,
            ) {
                StepView::Ask(requests) => StepView::Ask(requests),
                StepView::Done(Some(found)) => StepView::Done(found),
                _ => pages,
            },
            _ => pages,
        }
    }
}

fn build_github_like_website(
    host: &str,
    user: &str,
    repo: &str,
    api_endpoint: Option<&str>,
    cfg: &Config,
    t: &Transcript,
) -> (r: Step<String>)
    ensures
        r@ == github_like_website(host@, user@, repo@, api_endpoint.deep_view(), *cfg, *t),
{
    if same_text(host, "github.com") {
        if let Some(endpoint) = api_endpoint {
            match fetch_homepage(endpoint, &cfg.env.github_token, user, repo, t) {
                Step::Ask(requests) => return Step::Ask(requests),
                Step::Done(Some(found)) => return Step::Done(found),
                _ => {},
            }
        }
        let mut url = "https://".to_owned();
        url.append(user);
        url.append(".github.io/");
        url.append(repo);
        return Step::Done(url);
    }
    if same_text(host, "gitlab.com") {
        let mut url = "https://".to_owned();
        url.append(user);
        url.append(".gitlab.io/");
        url.append(repo);
        return Step::Done(url);
    }
    if has_prefix(&chars_of(host), &chars_of("gitlab.")) {
        let mut url = "https://".to_owned();
        url.append(user);
        url.append(".");
        url.append(host);
        url.append("/");
        url.append(repo);
        return Step::Done(url);
    }
    if let Some(endpoint) = api_endpoint {
        if cfg.env.ghe_token.is_some() {
            match fetch_homepage(endpoint, &cfg.env.ghe_token, user, repo, t) {
                Step::Ask(requests) => return Step::Ask(requests),
                Step::Done(Some(found)) => return Step::Done(found),
                _ => {},
            }
        }
    }
    let mut with_subdomain = "https://pages.".to_owned();
    with_subdomain.append(host);
    with_subdomain.append("/");
    with_subdomain.append(user);
    with_subdomain.append("/");
    with_subdomain.append(repo);
    let mut without_subdomain = "https://".to_owned();
    without_subdomain.append(host);
    without_subdomain.append("/pages/");
    without_subdomain.append(user);
    without_subdomain.append("/");
    without_subdomain.append(repo);
    let candidates = vec![with_subdomain];
    assert(candidates.deep_view() =~= seq![
        "https://pages."@ + host@ + "/"@ + user@ + "/"@ + repo@,
    ]);
    first_available_url(candidates, without_subdomain, t)
}

/// The URL where a pull request is, or where one is opened: the existing one as it is;
/// else the comparison of the branch with the default branch of the repository that the
/// pull request would go into, the branch of a fork written as `fork_author:branch`.
pub open spec fn pull_request_url(host: Seq<char>, page: crate::pull_request::PageView) -> Seq<
    char,
> {
    match page {
        crate::pull_request::PageView::Existing { url } => url,
        crate::pull_request::PageView::New { author, repo, default_branch, branch } => site(
            host,
            author,
            repo,
        ) + "/compare/"@ + default_branch + "..."@ + branch,
        crate::pull_request::PageView::NewAtParent {
            author,
            repo,
            fork_author,
            default_branch,
            branch,
        } => site(host, author, repo) + "/compare/"@ + default_branch + "..."@ + fork_author
            + ":"@ + branch,
    }
}

fn build_pull_request_url(host: &str, page: crate::pull_request::Page) -> (r: String)
    ensures
        r@ == pull_request_url(host@, page@),
{
    match page {
        crate::pull_request::Page::Existing { url } => url,
        crate::pull_request::Page::New { author, repo, default_branch, branch } => {
            let mut url = site_url(host, author.as_str(), repo.as_str());
            url.append("/compare/");
            url.append(default_branch.as_str());
            url.append("...");
            url.append(branch.as_str());
            url
        },
        crate::pull_request::Page::NewAtParent {
            author,
            repo,
            fork_author,
            default_branch,
            branch,
        } => {
            let mut url = site_url(host, author.as_str(), repo.as_str());
            url.append("/compare/");
            url.append(default_branch.as_str());
            url.append("...");
            url.append(fork_author.as_str());
            url.append(":");
            url.append(branch.as_str());
            url
        },
    }
}

/// The URL that GitHub, GitHub Enterprise and GitLab give a page. `slashed` is the path of
/// a file with `/` between its parts.
pub open spec fn github_like_url(
    host: Seq<char>,
    user: Seq<char>,
    repo: Seq<char>,
    api_endpoint: Option<Seq<char>>,
    cfg: Config,
    page: PageView,
    slashed: Seq<char>,
    t: Transcript,
) -> StepView<Seq<char>> {
    match page {
        PageView::Open { website: true, .. } => github_like_website(
            host,
            user,
            repo,
            api_endpoint,
            cfg,
            t,
        ),
        PageView::Open { website: false, pull_request: true } => match api_endpoint {
            None => StepView::Failed(ErrorKindView::PullReqNotSupported { service: host }),
            Some(endpoint) => match crate::pull_request::spec_find_page(
                endpoint,
                user,
                repo,
                cfg,
                t,
            ) {
                StepView::Ask(requests) => StepView::Ask(requests),
                StepView::Failed(e) => StepView::Failed(e),
                StepView::Done(found) => StepView::Done(pull_request_url(host, found)),
            },
        },
        PageView::Open { website: false, pull_request: false } => match cfg.branch {
            Some(branch) => StepView::Done(site(host, user, repo) + "/tree/"@ + branch@),
            None => StepView::Done(site(host, user, repo)),
        },
        PageView::Tag { tagname, .. } => StepView::Done(
            site(host, user, repo) + "/tree/"@ + tagname,
        ),
        PageView::Diff { lhs, rhs, op } => StepView::Done(
            site(host, user, repo) + "/compare/"@ + lhs + op.dots() + rhs,
        ),
        PageView::Commit { hash } => StepView::Done(site(host, user, repo) + "/commit/"@ + hash),
        PageView::FileOrDir { hash, line, blame, is_dir, .. } => {
            let feature = if blame {
                "/blame/"@
            } else if is_dir {
                "/tree/"@
            } else {
                "/blob/"@
            };
            let file = site(host, user, repo) + feature + hash + "/"@ + slashed;
            match line {
                None => StepView::Done(file),
                Some(Line::At(line)) => StepView::Done(file + "#L"@ + decimal(line as nat)),
                Some(Line::Range(start, end)) => StepView::Done(
                    file + "#L"@ + decimal(start as nat) + "-L"@ + decimal(end as nat),
                ),
            }
        },
        PageView::Issue { number } => StepView::Done(
            site(host, user, repo) + "/issues/"@ + decimal(number as nat),
        ),
    }
}

pub fn build_github_like_url(
    host: &str,
    user: &str,
    repo: &str,
    api_endpoint: Option<&str>,
    cfg: &Config,
    page: &Page,
    slashed: &str,
    t: &Transcript,
) -> (r: Step<String>)
    ensures
        r@ == github_like_url(
            host@,
            user@,
            repo@,
            api_endpoint.deep_view(),
            *cfg,
            page@,
            slashed@,
            *t,
        ),
{
    match page {
        Page::Open { website: true, .. } => build_github_like_website(
            host,
            user,
            repo,
            api_endpoint,
            cfg,
            t,
        ),
        Page::Open { website: false, pull_request: true } => match api_endpoint {
            None => Step::Failed(
                Error::new(ErrorKind::PullReqNotSupported { service: host.to_owned() }),
            ),
            Some(endpoint) => match crate::pull_request::find_page(endpoint, user, repo, cfg, t) {
                Step::Ask(requests) => Step::Ask(requests),
                Step::Failed(e) => Step::Failed(e),
                Step::Done(found) => Step::Done(build_pull_request_url(host, found)),
            },
        },
        Page::Open { website: false, pull_request: false } => {
            let mut url = site_url(host, user, repo);
            if let Some(branch) = &cfg.branch {
                url.append("/tree/");
                url.append(branch.as_str());
            }
            Step::Done(url)
        },
        Page::Tag { tagname, .. } => {
            let mut url = site_url(host, user, repo);
            url.append("/tree/");
            url.append(tagname.as_str());
            Step::Done(url)
        },
        Page::Diff { lhs, rhs, op } => {
            let mut url = site_url(host, user, repo);
            url.append("/compare/");
            url.append(lhs.as_str());
            op.push_dots(&mut url);
            url.append(rhs.as_str());
            Step::Done(url)
        },
        Page::Commit { hash } => {
            let mut url = site_url(host, user, repo);
            url.append("/commit/");
            url.append(hash.as_str());
            Step::Done(url)
        },
        Page::FileOrDir { hash, line, blame, is_dir, .. } => {
            let mut url = site_url(host, user, repo);
            if *blame {
                url.append("/blame/");
            } else if *is_dir {
                url.append("/tree/");
            } else {
                url.append("/blob/");
            }
            url.append(hash.as_str());
            url.append("/");
            url.append(slashed);
            match line {
                None => {},
                Some(Line::At(line)) => {
                    url.append("#L");
                    push_decimal(&mut url, *line);
                },
                Some(Line::Range(start, end)) => {
                    url.append("#L");
                    push_decimal(&mut url, *start);
                    url.append("-L");
                    push_decimal(&mut url, *end);
                },
            }
            Step::Done(url)
        },
        Page::Issue { number } => {
            let mut url = site_url(host, user, repo);
            url.append("/issues/");
            push_decimal(&mut url, *number);
            Step::Done(url)
        },
    }
}

/// The URL that GitLab gives a page: as GitHub does, without its API, and without a diff
/// over two dots, which GitLab cannot show.
pub open spec fn gitlab_url(
    host: Seq<char>,
    user: Seq<char>,
    repo: Seq<char>,
    cfg: Config,
    page: PageView,
    slashed: Seq<char>,
    t: Transcript,
) -> StepView<Seq<char>> {
    match page {
        PageView::Diff { op: DiffOp::TwoDots, .. } => StepView::Failed(
            ErrorKindView::GitLabDiffNotSupported,
        ),
        _ => github_like_url(host, user, repo, None, cfg, page, slashed, t),
    }
}

pub fn build_gitlab_url(
    host: &str,
    user: &str,
    repo: &str,
    cfg: &Config,
    page: &Page,
    slashed: &str,
    t: &Transcript,
) -> (r: Step<String>)
    ensures
        r@ == gitlab_url(host@, user@, repo@, *cfg, page@, slashed@, *t),
{
    if let Page::Diff { op: DiffOp::TwoDots, .. } = page {
        return Step::Failed(Error::new(ErrorKind::GitLabDiffNotSupported));
    }
    build_github_like_url(host, user, repo, None, cfg, page, slashed, t)
}

/// The URL that Bitbucket gives a page. It has no pull requests and shows no diff; a tag is
/// shown as its commit; lines are marked `#lines-N` and `#lines-N:M`; blame is `annotate`.
pub open spec fn bitbucket_url(
    user: Seq<char>,
    repo: Seq<char>,
    cfg: Config,
    page: PageView,
    slashed: Seq<char>,
    t: Transcript,
) -> StepView<Seq<char>> {
    let home = site("bitbucket.org"@, user, repo);
    match page {
        PageView::Open { website: true, .. } => first_available(
            t,
            seq!["https://"@ + user + ".bitbucket.io/"@ + repo],
            "https://"@ + user + ".bitbucket.io"@,
        ),
        PageView::Open { website: false, pull_request: true } => StepView::Failed(
            ErrorKindView::PullReqNotSupported { service: "bitbucket.org"@ },
        ),
        PageView::Open { website: false, pull_request: false } => match cfg.branch {
            Some(branch) => StepView::Done(home + "/branch/"@ + branch@),
            None => StepView::Done(home),
        },
        PageView::Diff { .. } => StepView::Failed(ErrorKindView::BitbucketDiffNotSupported),
        PageView::Commit { hash } => StepView::Done(home + "/commits/"@ + hash),
        PageView::Tag { commit, .. } => StepView::Done(home + "/commits/"@ + commit),
        PageView::FileOrDir { hash, line, blame, .. } => {
            let feature = if blame {
                "/annotate/"@
            } else {
                "/src/"@
            };
            let file = home + feature + hash + "/"@ + slashed;
            match line {
                None => StepView::Done(file),
                Some(Line::At(line)) => StepView::Done(file + "#lines-"@ + decimal(line as nat)),
                Some(Line::Range(start, end)) => StepView::Done(
                    file + "#lines-"@ + decimal(start as nat) + ":"@ + decimal(end as nat),
                ),
            }
        },
        PageView::Issue { number } => StepView::Done(
            home + "/issues/"@ + decimal(number as nat),
        ),
    }
}

pub fn build_bitbucket_url(
    user: &str,
    repo: &str,
    cfg: &Config,
    page: &Page,
    slashed: &str,
    t: &Transcript,
) -> (r: Step<String>)
    ensures
        r@ == bitbucket_url(user@, repo@, *cfg, page@, slashed@, *t),
{
    let mut url = site_url("bitbucket.org", user, repo);
    match page {
        Page::Open { website: true, .. } => {
            let mut with_user = "https://".to_owned();
            with_user.append(user);
            with_user.append(".bitbucket.io/");
            with_user.append(repo);
            let mut without_user = "https://".to_owned();
            without_user.append(user);
            without_user.append(".bitbucket.io");
            let candidates = vec![with_user];
            assert(candidates.deep_view() =~= seq![
                "https://"@ + user@ + ".bitbucket.io/"@ + repo@,
            ]);
            first_available_url(candidates, without_user, t)
        },
        Page::Open { website: false, pull_request: true } => Step::Failed(
            Error::new(ErrorKind::PullReqNotSupported { service: "bitbucket.org".to_owned() }),
        ),
        Page::Open { website: false, pull_request: false } => {
            if let Some(branch) = &cfg.branch {
                url.append("/branch/");
                url.append(branch.as_str());
            }
            Step::Done(url)
        },
        Page::Diff { .. } => Step::Failed(Error::new(ErrorKind::BitbucketDiffNotSupported)),
        Page::Commit { hash } => {
            url.append("/commits/");
            url.append(hash.as_str());
            Step::Done(url)
        },
        Page::Tag { commit, .. } => {
            url.append("/commits/");
            url.append(commit.as_str());
            Step::Done(url)
        },
        Page::FileOrDir { hash, line, blame, .. } => {
            if *blame {
                url.append("/annotate/");
            } else {
                url.append("/src/");
            }
            url.append(hash.as_str());
            url.append("/");
            url.append(slashed);
            match line {
                None => {},
                Some(Line::At(line)) => {
                    url.append("#lines-");
                    push_decimal(&mut url, *line);
                },
                Some(Line::Range(start, end)) => {
                    url.append("#lines-");
                    push_decimal(&mut url, *start);
                    url.append(":");
                    push_decimal(&mut url, *end);
                },
            }
            Step::Done(url)
        },
        Page::Issue { number } => {
            url.append("/issues/");
            push_decimal(&mut url, *number);
            Step::Done(url)
        },
    }
}

/// The URL that Azure DevOps gives a page. It shows no diff and marks no lines; an issue is
/// a work item; a pull request is opened from the configured branch into `master`.
pub open spec fn azure_devops_url(
    team: Seq<char>,
    repo: Seq<char>,
    cfg: Config,
    page: PageView,
    slashed: Seq<char>,
) -> Result<Seq<char>, ErrorKindView> {
    let git = "https://dev.azure.com/"@ + team + "/_git/"@ + repo;
    match page {
        PageView::Open { pull_request: true, .. } => match cfg.branch {
            Some(branch) => Ok(
                git + "/pullrequestcreate?sourceRef="@ + branch@ + "&targetRef=master"@,
            ),
            None => Err(
                ErrorKindView::NoLocalRepoFound {
                    operation: "opening a pull request without specifying branch"@,
                },
            ),
        },
        PageView::Open { pull_request: false, .. } => match cfg.branch {
            Some(branch) => Ok(git + "?version=GB"@ + branch@),
            None => Ok("https://dev.azure.com/"@ + team + "/"@ + repo),
        },
        PageView::Commit { hash } => Ok(git + "/commit/"@ + hash),
        PageView::Tag { tagname, .. } => Ok(git + "?version=GT"@ + tagname),
        PageView::FileOrDir { hash, line: None, blame, .. } => if blame {
            Ok(git + "/commit/"@ + hash + "?path="@ + slashed + "?_a=annotate"@)
        } else {
            Ok(git + "/commit/"@ + hash + "?path="@ + slashed)
        },
        PageView::Issue { number } => Ok(
            "https://dev.azure.com/"@ + team + "/"@ + repo + "/_workitems/edit/"@ + decimal(
                number as nat,
            ),
        ),
        _ => Err(ErrorKindView::AzureDevOpsNotSupported),
    }
}

pub fn build_azure_devops_url(
    team: &str,
    repo: &str,
    cfg: &Config,
    page: &Page,
    slashed: &str,
) -> (r: Result<String, Box<Error>>)
    ensures
        match r {
            Ok(url) => azure_devops_url(team@, repo@, *cfg, page@, slashed@) == Ok::<
                _,
                ErrorKindView,
            >(url@),
            Err(e) => azure_devops_url(team@, repo@, *cfg, page@, slashed@) == Err::<
                Seq<char>,
                _,
            >(e@),
        },
{
    let mut plain = "https://dev.azure.com/".to_owned();
    plain.append(team);
    let mut url = plain.clone();
    url.append("/_git/");
    url.append(repo);
    plain.append("/");
    plain.append(repo);
    match page {
        Page::Open { pull_request: true, .. } => match &cfg.branch {
            Some(branch) => {
                url.append("/pullrequestcreate?sourceRef=");
                url.append(branch.as_str());
                url.append("&targetRef=master");
                Ok(url)
            },
            None => Error::err(
                ErrorKind::NoLocalRepoFound {
                    operation: "opening a pull request without specifying branch".to_owned(),
                },
            ),
        },
        Page::Open { pull_request: false, .. } => match &cfg.branch {
            Some(branch) => {
                url.append("?version=GB");
                url.append(branch.as_str());
                Ok(url)
            },
            None => Ok(plain),
        },
        Page::Commit { hash } => {
            url.append("/commit/");
            url.append(hash.as_str());
            Ok(url)
        },
        Page::Tag { tagname, .. } => {
            url.append("?version=GT");
            url.append(tagname.as_str());
            Ok(url)
        },
        Page::FileOrDir { hash, line: None, blame, .. } => {
            url.append("/commit/");
            url.append(hash.as_str());
            url.append("?path=");
            url.append(slashed);
            if *blame {
                url.append("?_a=annotate");
            }
            Ok(url)
        },
        Page::Issue { number } => {
            plain.append("/_workitems/edit/");
            push_decimal(&mut plain, *number);
            Ok(plain)
        },
        _ => Error::err(ErrorKind::AzureDevOpsNotSupported),
    }
}

/// Whether `host` is one of the hosts of Azure DevOps.
pub open spec fn is_azure_host(host: Seq<char>) -> bool {
    host == "visualstudio.com"@ || host == "vs-ssh.visualstudio.com"@ || host == "dev.azure.com"@
        || host == "ssh.dev.azure.com"@
}

pub fn is_azure_devops_host(host: &str) -> (r: bool)
    ensures
        r == is_azure_host(host@),
{
    same_text(host, "visualstudio.com") || same_text(host, "vs-ssh.visualstudio.com") || same_text(
        host,
        "dev.azure.com",
    ) || same_text(host, "ssh.dev.azure.com")
}

/// A hosting service, or a family of installations of one.
#[derive(Debug, PartialEq, Eq, Clone, Copy, Structural)]
pub enum Provider {
    GitHub,
    GitLab,
    Bitbucket,
    AzureDevOps,
    GitHubEnterprise,
    SelfHostedGitLab,
}

/// The service that `host` belongs to, if any.
///
/// The hosts of the four public services are known by name. Of the others, one that begins
/// with `github.` is GitHub Enterprise; one that begins with `gitlab.`, or is the configured
/// GitLab host, is a GitLab installation; the configured Enterprise host is GitHub
/// Enterprise.
pub open spec fn provider_of(host: Seq<char>, cfg: Config) -> Option<Provider> {
    if host == "github.com"@ {
        Some(Provider::GitHub)
    } else if host == "gitlab.com"@ {
        Some(Provider::GitLab)
    } else if host == "bitbucket.org"@ {
        Some(Provider::Bitbucket)
    } else if is_azure_host(host) {
        Some(Provider::AzureDevOps)
    } else if starts_with(host, "github."@) {
        Some(Provider::GitHubEnterprise)
    } else if starts_with(host, "gitlab."@) || cfg.env.gitlab_url_host.deep_view() == Some(host) {
        Some(Provider::SelfHostedGitLab)
    } else if cfg.env.ghe_url_host.deep_view() == Some(host) {
        Some(Provider::GitHubEnterprise)
    } else {
        None
    }
}

/// Whether `configured` is set to `host`.
fn is_configured(configured: &Option<String>, host: &str) -> (r: bool)
    ensures
        r == (configured.deep_view() == Some(host@)),
{
    match configured {
        Some(name) => same_text(name.as_str(), host),
        None => false,
    }
}

/// Decides which service `host` belongs to.
pub fn classify(host: &str, cfg: &Config) -> (r: Option<Provider>)
    ensures
        r == provider_of(host@, *cfg),
{
    let chars = chars_of(host);
    if same_text(host, "github.com") {
        Some(Provider::GitHub)
    } else if same_text(host, "gitlab.com") {
        Some(Provider::GitLab)
    } else if same_text(host, "bitbucket.org") {
        Some(Provider::Bitbucket)
    } else if is_azure_devops_host(host) {
        Some(Provider::AzureDevOps)
    } else if has_prefix(&chars, &chars_of("github.")) {
        Some(Provider::GitHubEnterprise)
    } else if has_prefix(&chars, &chars_of("gitlab.")) || is_configured(
        &cfg.env.gitlab_url_host,
        host,
    ) {
        Some(Provider::SelfHostedGitLab)
    } else if is_configured(&cfg.env.ghe_url_host, host) {
        Some(Provider::GitHubEnterprise)
    } else {
        None
    }
}

/// The host as a URL names it: with the port behind it where one is configured.
pub open spec fn with_port(host: Seq<char>, port: Option<u16>) -> Seq<char> {
    match port {
        Some(port) => host + ":"@ + decimal(port as nat),
        None => host,
    }
}

fn host_with_port(host: &str, port: Option<u16>) -> (r: String)
    ensures
        r@ == with_port(host@, port),
{
    let mut shown = host.to_owned();
    if let Some(port) = port {
        shown.append(":");
        push_decimal(&mut shown, port as usize);
    }
    shown
}

/// The URL of a page of the repository `user/repo` on `host`.
///
/// An installation of GitHub Enterprise or of GitLab is addressed with its configured port;
/// the API of GitHub Enterprise lies below `/api/v3` of that address.
pub open spec fn hosted_url(
    host: Seq<char>,
    user: Seq<char>,
    repo: Seq<char>,
    cfg: Config,
    page: PageView,
    slashed: Seq<char>,
    t: Transcript,
) -> StepView<Seq<char>> {
    match provider_of(host, cfg) {
        None => StepView::Failed(ErrorKindView::UnknownHostingService { url: cfg.repo_url@ }),
        Some(Provider::GitHub) => github_like_url(
            host,
            user,
            repo,
            Some("api.github.com"@),
            cfg,
            page,
            slashed,
            t,
        ),
        Some(Provider::GitLab) => gitlab_url(host, user, repo, cfg, page, slashed, t),
        Some(Provider::Bitbucket) => bitbucket_url(user, repo, cfg, page, slashed, t),
        Some(Provider::AzureDevOps) => match azure_devops_url(user, repo, cfg, page, slashed) {
            Ok(url) => StepView::Done(url),
            Err(e) => StepView::Failed(e),
        },
        Some(Provider::GitHubEnterprise) => {
            let address = with_port(host, cfg.env.ghe_ssh_port);
            github_like_url(
                address,
                user,
                repo,
                Some(address + "/api/v3"@),
                cfg,
                page,
                slashed,
                t,
            )
        },
        Some(Provider::SelfHostedGitLab) => gitlab_url(
            with_port(host, cfg.env.gitlab_ssh_port),
            user,
            repo,
            cfg,
            page,
            slashed,
            t,
        ),
    }
}

/// The URL of a page, given what the repository's URL was read as: its host, if it has one,
/// and its path, or the reason why it could not be read.
pub open spec fn routed_url(
    parsed: Result<(Option<Seq<char>>, Seq<char>), Seq<char>>,
    cfg: Config,
    page: PageView,
    slashed: Seq<char>,
    t: Transcript,
) -> StepView<Seq<char>> {
    match parsed {
        Err(msg) => StepView::Failed(ErrorKindView::BrokenUrl { url: cfg.repo_url@, msg }),
        Ok((None, _)) => StepView::Failed(
            ErrorKindView::BrokenUrl { url: cfg.repo_url@, msg: "No host in URL"@ },
        ),
        Ok((Some(host), path)) => {
            let slug = if is_azure_host(host) {
                azure_slug_of(path)
            } else {
                slug_of(path)
            };
            match slug {
                Err(e) => StepView::Failed(e),
                Ok((user, repo)) => hosted_url(host, user, repo, cfg, page, slashed, t),
            }
        },
    }
}

/// The view of what a URL was read as.
pub open spec fn parsed_view(parsed: Result<(Option<String>, String), String>) -> Result<
    (Option<Seq<char>>, Seq<char>),
    Seq<char>,
> {
    match parsed {
        Ok((host, path)) => Ok((host.deep_view(), path@)),
        Err(msg) => Err(msg@),
    }
}

/// Builds the URL of a page from what the repository's URL was read as.
pub fn route(
    parsed: &Result<(Option<String>, String), String>,
    cfg: &Config,
    page: &Page,
    slashed: &str,
    t: &Transcript,
) -> (r: Step<String>)
    ensures
        r@ == routed_url(parsed_view(*parsed), *cfg, page@, slashed@, *t),
{
    let (host, path) = match parsed {
        Err(msg) => {
            return Step::Failed(
                Error::new(ErrorKind::BrokenUrl { url: cfg.repo_url.clone(), msg: msg.clone() }),
            );
        },
        Ok((None, _)) => {
            return Step::Failed(
                Error::new(
                    ErrorKind::BrokenUrl {
                        url: cfg.repo_url.clone(),
                        msg: "No host in URL".to_owned(),
                    },
                ),
            );
        },
        Ok((Some(host), path)) => (host.as_str(), path.as_str()),
    };
    let slug = if is_azure_devops_host(host) {
        azure_devops_slug_from_path(path)
    } else {
        slug_from_path(path)
    };
    let (user, repo) = match slug {
        Err(e) => return Step::Failed(e),
        Ok(slug) => slug,
    };
    match classify(host, cfg) {
        None => Step::Failed(
            Error::new(ErrorKind::UnknownHostingService { url: cfg.repo_url.clone() }),
        ),
        Some(Provider::GitHub) => build_github_like_url(
            host,
            user,
            repo,
            Some("api.github.com"),
            cfg,
            page,
            slashed,
            t,
        ),
        Some(Provider::GitLab) => build_gitlab_url(host, user, repo, cfg, page, slashed, t),
        Some(Provider::Bitbucket) => build_bitbucket_url(user, repo, cfg, page, slashed, t),
        Some(Provider::AzureDevOps) => match build_azure_devops_url(
            user,
            repo,
            cfg,
            page,
            slashed,
        ) {
            Ok(url) => Step::Done(url),
            Err(e) => Step::Failed(e),
        },
        Some(Provider::GitHubEnterprise) => {
            let address = host_with_port(host, cfg.env.ghe_ssh_port);
            let mut api = address.clone();
            api.append("/api/v3");
            build_github_like_url(
                address.as_str(),
                user,
                repo,
                Some(api.as_str()),
                cfg,
                page,
                slashed,
                t,
            )
        },
        Some(Provider::SelfHostedGitLab) => {
            let address = host_with_port(host, cfg.env.gitlab_ssh_port);
            build_gitlab_url(address.as_str(), user, repo, cfg, page, slashed, t)
        },
    }
}

/// What the `url` crate reads a text as: the host of the URL, if it has one, and its path;
/// or the message of the error with which it refused the text.
pub uninterp spec fn parsed_url(text: Seq<char>) -> Result<
    (Option<Seq<char>>, Seq<char>),
    Seq<char>,
>;

/// Reads `text` with `url::Url::parse`, and keeps of the URL what `Url::host_str` and
/// `Url::path` give, and of an error what it displays. Nothing is claimed of the result but
/// that it is the same for the same text.
#[verifier::external_body]
fn parse_url(text: &str) -> (r: Result<(Option<String>, String), String>)
    ensures
        parsed_view(r) == parsed_url(text@),
{
    match ::url::Url::parse(text) {
        Ok(parsed) => Ok((parsed.host_str().map(str::to_owned), parsed.path().to_owned())),
        Err(e) => Err(e.to_string()),
    }
}

/// Writes `path` with `/` between its parts, as `path_slash::PathExt::to_slash_lossy` does.
/// What separates the parts of a path depends on the operating system, so nothing is
/// claimed of the result.
#[verifier::external_body]
fn to_slash(path: &str) -> (slashed: String) {
    std::path::Path::new(path).to_slash_lossy()
}

/// The URL of `page` for the repository that `cfg` names, as far as the transcript lets it
/// be built. File paths are written with `/` whatever the operating system separates them
/// with.
pub fn build_page_url(page: &Page, cfg: &Config, t: &Transcript) -> (r: Step<String>)
    ensures
        exists|slashed: Seq<char>|
            r@ == #[trigger] routed_url(parsed_url(cfg.repo_url@), *cfg, page@, slashed, *t),
        !(page@ is FileOrDir) ==> r@ == routed_url(
            parsed_url(cfg.repo_url@),
            *cfg,
            page@,
            Seq::empty(),
            *t,
        ),
        asks_afresh(r@, *t),
{
    proof {
        assert forall|slashed: Seq<char>|
            asks_afresh(
                #[trigger] routed_url(parsed_url(cfg.repo_url@), *cfg, page@, slashed, *t),
                *t,
            ) by {
            lemma_routed_url_asks_afresh(parsed_url(cfg.repo_url@), *cfg, page@, slashed, *t);
        }
    }
    let parsed = parse_url(cfg.repo_url.as_str());
    let slashed = match page {
        Page::FileOrDir { relative_path, .. } => to_slash(relative_path.as_str()),
        _ => String::new(),
    };
    let r = route(&parsed, cfg, page, slashed.as_str(), t);
    r
}

/// GitLab shows a diff over three dots, as `.../compare/lhs...rhs`, and refuses one over
/// two.
pub proof fn lemma_gitlab_compares_with_three_dots(
    host: Seq<char>,
    user: Seq<char>,
    repo: Seq<char>,
    cfg: Config,
    lhs: Seq<char>,
    rhs: Seq<char>,
    slashed: Seq<char>,
    t: Transcript,
)
    ensures
        gitlab_url(
            host,
            user,
            repo,
            cfg,
            PageView::Diff { lhs, rhs, op: DiffOp::TwoDots },
            slashed,
            t,
        ) == StepView::<Seq<char>>::Failed(ErrorKindView::GitLabDiffNotSupported),
        gitlab_url(
            host,
            user,
            repo,
            cfg,
            PageView::Diff { lhs, rhs, op: DiffOp::ThreeDots },
            slashed,
            t,
        ) == StepView::Done(
            "https://"@ + host + "/"@ + user + "/"@ + repo + "/compare/"@ + lhs + seq![
                '.',
                '.',
                '.',
            ] + rhs,
        ),
{
}

/// Bitbucket shows no diff, whatever its dots are.
pub proof fn lemma_bitbucket_shows_no_diff(
    user: Seq<char>,
    repo: Seq<char>,
    cfg: Config,
    lhs: Seq<char>,
    rhs: Seq<char>,
    op: DiffOp,
    slashed: Seq<char>,
    t: Transcript,
)
    ensures
        bitbucket_url(user, repo, cfg, PageView::Diff { lhs, rhs, op }, slashed, t)
            == StepView::<Seq<char>>::Failed(ErrorKindView::BitbucketDiffNotSupported),
{
}

/// A host of GitHub Enterprise is shown with the configured Enterprise port behind it, and
/// a GitLab installation with the configured GitLab port: the repository's own page, with
/// no branch configured, is `https://host:port/user/repo`.
pub proof fn lemma_configured_port_is_shown(
    host: Seq<char>,
    user: Seq<char>,
    repo: Seq<char>,
    cfg: Config,
    port: u16,
    slashed: Seq<char>,
    t: Transcript,
)
    requires
        cfg.branch is None,
        provider_of(host, cfg) == Some(Provider::GitHubEnterprise) && cfg.env.ghe_ssh_port == Some(
            port,
        ) || provider_of(host, cfg) == Some(Provider::SelfHostedGitLab) && cfg.env.gitlab_ssh_port
            == Some(port),
    ensures
        hosted_url(
            host,
            user,
            repo,
            cfg,
            PageView::Open { website: false, pull_request: false },
            slashed,
            t,
        ) == StepView::Done(
            "https://"@ + (host + ":"@ + decimal(port as nat)) + "/"@ + user + "/"@ + repo,
        ),
{
}

/// A host that is none of the public services, begins with neither `github.` nor `gitlab.`
/// and is not configured as an installation belongs to no service, and no page of it has a
/// URL.
pub proof fn lemma_unknown_host_is_refused(
    host: Seq<char>,
    user: Seq<char>,
    repo: Seq<char>,
    cfg: Config,
    page: PageView,
    slashed: Seq<char>,
    t: Transcript,
)
    requires
        host != "github.com"@ && host != "gitlab.com"@ && host != "bitbucket.org"@,
        !is_azure_host(host),
        !starts_with(host, "github."@) && !starts_with(host, "gitlab."@),
        cfg.env.ghe_url_host.deep_view() != Some(host),
        cfg.env.gitlab_url_host.deep_view() != Some(host),
    ensures
        provider_of(host, cfg) is None,
        hosted_url(host, user, repo, cfg, page, slashed, t) == StepView::<Seq<char>>::Failed(
            ErrorKindView::UnknownHostingService { url: cfg.repo_url@ },
        ),
{
}

/// On GitHub, the page of a commit is `https://host/user/repo/commit/hash`.
pub proof fn lemma_commit_url(
    host: Seq<char>,
    user: Seq<char>,
    repo: Seq<char>,
    api_endpoint: Option<Seq<char>>,
    cfg: Config,
    hash: Seq<char>,
    slashed: Seq<char>,
    t: Transcript,
)
    ensures
        github_like_url(host, user, repo, api_endpoint, cfg, PageView::Commit { hash }, slashed, t)
            == StepView::Done("https://"@ + host + "/"@ + user + "/"@ + repo + "/commit/"@ + hash),
{
}

/// The probe asks afresh.
pub proof fn lemma_first_available_asks_afresh(
    t: Transcript,
    candidates: Seq<Seq<char>>,
    fallback: Seq<char>,
)
    ensures
        asks_afresh(first_available(t, candidates, fallback), t),
    decreases candidates.len(),
{
    if candidates.len() > 0 {
        lemma_lookups_ask_afresh(t, RequestView::Head { url: candidates[0] });
        lemma_first_available_asks_afresh(t, candidates.drop_first(), fallback);
    }
}

/// Every service asks afresh, whatever the page.
pub proof fn lemma_services_ask_afresh(
    host: Seq<char>,
    user: Seq<char>,
    repo: Seq<char>,
    cfg: Config,
    page: PageView,
    slashed: Seq<char>,
    t: Transcript,
)
    ensures
        forall|api_endpoint: Option<Seq<char>>|
            asks_afresh(
                #[trigger] github_like_url(host, user, repo, api_endpoint, cfg, page, slashed, t),
                t,
            ),
        asks_afresh(gitlab_url(host, user, repo, cfg, page, slashed, t), t),
        asks_afresh(bitbucket_url(user, repo, cfg, page, slashed, t), t),
{
    assert forall|candidates: Seq<Seq<char>>, fallback: Seq<char>|
        asks_afresh(#[trigger] first_available(t, candidates, fallback), t) by {
        lemma_first_available_asks_afresh(t, candidates, fallback);
    }
    assert forall|request: RequestView| request is Homepage implies asks_afresh(
        #[trigger] t.spec_link(request),
        t,
    ) by {
        lemma_lookups_ask_afresh(t, request);
    }
    assert forall|endpoint: Seq<char>|
        asks_afresh(
            #[trigger] crate::pull_request::spec_find_page(endpoint, user, repo, cfg, t),
            t,
        ) by {
        crate::pull_request::lemma_find_page_asks_afresh(endpoint, user, repo, cfg, t);
    }
}

/// The way from a repository's URL to the URL of a page asks afresh.
pub proof fn lemma_routed_url_asks_afresh(
    parsed: Result<(Option<Seq<char>>, Seq<char>), Seq<char>>,
    cfg: Config,
    page: PageView,
    slashed: Seq<char>,
    t: Transcript,
)
    ensures
        asks_afresh(routed_url(parsed, cfg, page, slashed, t), t),
{
    assert forall|host: Seq<char>, user: Seq<char>, repo: Seq<char>|
        asks_afresh(#[trigger] hosted_url(host, user, repo, cfg, page, slashed, t), t) by {
        lemma_services_ask_afresh(host, user, repo, cfg, page, slashed, t);
        lemma_services_ask_afresh(
            with_port(host, cfg.env.ghe_ssh_port),
            user,
            repo,
            cfg,
            page,
            slashed,
            t,
        );
        lemma_services_ask_afresh(
            with_port(host, cfg.env.gitlab_ssh_port),
            user,
            repo,
            cfg,
            page,
            slashed,
            t,
        );
    }
}

/// Only a website and a pull request need anything from outside: the URL of any other page
/// is written, or refused, without a question, and is the same whatever was answered.
pub proof fn lemma_plain_pages_ask_nothing(
    parsed: Result<(Option<Seq<char>>, Seq<char>), Seq<char>>,
    cfg: Config,
    page: PageView,
    slashed: Seq<char>,
    t: Transcript,
    other: Transcript,
)
    requires
        page matches PageView::Open { website, pull_request } ==> !website && !pull_request,
    ensures
        !(routed_url(parsed, cfg, page, slashed, t) is Ask),
        routed_url(parsed, cfg, page, slashed, t) == routed_url(parsed, cfg, page, slashed, other),
{
}

/// The path of a file counts for the pages of files only: the URL of any other page is the
/// same whatever that path is.
pub proof fn lemma_path_counts_for_files_only(
    parsed: Result<(Option<Seq<char>>, Seq<char>), Seq<char>>,
    cfg: Config,
    page: PageView,
    one: Seq<char>,
    other: Seq<char>,
    t: Transcript,
)
    requires
        !(page is FileOrDir),
    ensures
        routed_url(parsed, cfg, page, one, t) == routed_url(parsed, cfg, page, other, t),
{
}

} // verus!
