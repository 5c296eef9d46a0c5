//! Where the pull request of a branch is, or where one would be opened.

use crate::config::{Config, EnvConfig};
use crate::error::{Error, ErrorKind, ErrorKindView};
use crate::exchange::{
    asks_afresh, lemma_lookups_ask_afresh, request_views, Request, RequestView, Step, StepView,
    Transcript,
};
use crate::text::same_text;
use vstd::prelude::*;

verus! {

/// The page for the pull request of a branch.
#[derive(PartialEq, Debug, Eq)]
pub enum Page {
    /// The pull request exists.
    Existing { url: String },
    /// None exists, and the repository is no fork: one would go into `author/repo` itself.
    New { author: String, repo: String, default_branch: String, branch: String },
    /// None exists, and the repository is a fork: one would go into its parent `author/repo`
    /// from the branch of `fork_author`.
    NewAtParent {
        author: String,
        repo: String,
        fork_author: String,
        default_branch: String,
        branch: String,
    },
}

/// A `Page` with its texts as sequences of characters.
pub enum PageView {
    Existing { url: Seq<char> },
    New { author: Seq<char>, repo: Seq<char>, default_branch: Seq<char>, branch: Seq<char> },
    NewAtParent {
        author: Seq<char>,
        repo: Seq<char>,
        fork_author: Seq<char>,
        default_branch: Seq<char>,
        branch: Seq<char>,
    },
}

impl View for Page {
    type V = PageView;

    open spec fn view(&self) -> PageView {
        match self {
            Page::Existing { url } => PageView::Existing { url: url@ },
            Page::New { author, repo, default_branch, branch } => PageView::New {
                author: author@,
                repo: repo@,
                default_branch: default_branch@,
                branch: branch@,
            },
            Page::NewAtParent { author, repo, fork_author, default_branch, branch } => {
                PageView::NewAtParent {
                    author: author@,
                    repo: repo@,
                    fork_author: fork_author@,
                    default_branch: default_branch@,
                    branch: branch@,
                }
            },
        }
    }
}

impl DeepView for Page {
    type V = PageView;

    open spec fn deep_view(&self) -> PageView {
        self@
    }
}

/// The token that goes with requests to `endpoint`: GitHub's own API takes the GitHub
/// token, if there is one; any other endpoint is GitHub Enterprise, which demands its own.
pub open spec fn token_for(endpoint: Seq<char>, env: EnvConfig) -> Result<
    Option<Seq<char>>,
    ErrorKindView,
> {
    if endpoint == "api.github.com"@ {
        Ok(env.github_token.deep_view())
    } else if env.ghe_token is None {
        Err(ErrorKindView::GheTokenRequired)
    } else {
        Ok(env.ghe_token.deep_view())
    }
}

/// The requests that a step waits for, if it waits.
pub open spec fn asked<T>(step: StepView<T>) -> Seq<RequestView> {
    match step {
        StepView::Ask(requests) => requests,
        _ => Seq::empty(),
    }
}

/// The page for the pull request of `branch` of the repository `author/repo`.
///
/// The search for a pull request into the repository itself and the question whether it is
/// a fork are asked together. A pull request that is found decides. Else, for a fork, the
/// search goes on in the parent, for a pull request by `author`.
pub open spec fn pull_request_for_branch(
    branch: Seq<char>,
    endpoint: Seq<char>,
    author: Seq<char>,
    repo: Seq<char>,
    env: EnvConfig,
    t: Transcript,
) -> StepView<PageView> {
    match token_for(endpoint, env) {
        Err(e) => StepView::Failed(e),
        Ok(token) => {
            let found = t.spec_link(
                RequestView::PullRequest {
                    endpoint,
                    token,
                    branch,
                    owner: author,
                    repo,
                    author: None,
                },
            );
            let fetched = t.spec_repo(RequestView::Repo { endpoint, token, owner: author, repo });
            if found is Ask || fetched is Ask {
                StepView::Ask(asked(found) + asked(fetched))
            } else {
                match found {
                    StepView::Ask(requests) => StepView::Ask(requests),
                    StepView::Failed(e) => StepView::Failed(e),
                    StepView::Done(Some(url)) => StepView::Done(PageView::Existing { url }),
                    StepView::Done(None) => match fetched {
                        StepView::Ask(requests) => StepView::Ask(requests),
                        StepView::Failed(e) => StepView::Failed(e),
                        StepView::Done(fetched) => match fetched.parent {
                            None => StepView::Done(
                                PageView::New {
                                    author,
                                    repo,
                                    default_branch: fetched.default_branch@,
                                    branch,
                                },
                            ),
                            Some(parent) => match t.spec_link(
                                RequestView::PullRequest {
                                    endpoint,
                                    token,
                                    branch,
                                    owner: parent.owner.login@,
                                    repo: parent.name@,
                                    author: Some(author),
                                },
                            ) {
                                StepView::Ask(requests) => StepView::Ask(requests),
                                StepView::Failed(e) => StepView::Failed(e),
                                StepView::Done(Some(url)) => StepView::Done(
                                    PageView::Existing { url },
                                ),
                                StepView::Done(None) => StepView::Done(
                                    PageView::NewAtParent {
                                        author: parent.owner.login@,
                                        repo: parent.name@,
                                        fork_author: author,
                                        default_branch: parent.default_branch@,
                                        branch,
                                    },
                                ),
                            },
                        },
                    },
                }
            }
        },
    }
}

/// The page for the pull request of the configured branch, or of the branch that is checked
/// out where none is configured.
pub open spec fn spec_find_page(
    endpoint: Seq<char>,
    author: Seq<char>,
    repo: Seq<char>,
    cfg: Config,
    t: Transcript,
) -> StepView<PageView> {
    match cfg.branch {
        Some(branch) => pull_request_for_branch(branch@, endpoint, author, repo, cfg.env, t),
        None => match cfg.spec_git().current_branch(t) {
            StepView::Ask(requests) => StepView::Ask(requests),
            StepView::Failed(e) => StepView::Failed(e),
            StepView::Done(branch) => pull_request_for_branch(
                branch,
                endpoint,
                author,
                repo,
                cfg.env,
                t,
            ),
        },
    }
}

/// A copy of an optional text.
fn copy_optional(text: &Option<String>) -> (r: Option<String>)
    ensures
        r.deep_view() == text.deep_view(),
{
    match text {
        Some(text) => Some(text.clone()),
        None => None,
    }
}

pub fn find_github_pr_url_for_branch(
    branch: &str,
    endpoint: &str,
    author: &str,
    repo: &str,
    env: &EnvConfig,
    t: &Transcript,
) -> (r: Step<Page>)
    ensures
        r@ == pull_request_for_branch(branch@, endpoint@, author@, repo@, *env, *t),
{
    let token = if same_text(endpoint, "api.github.com") {
        &env.github_token
    } else {
        if env.ghe_token.is_none() {
            return Step::Failed(Error::new(ErrorKind::GheTokenRequired));
        }
        &env.ghe_token
    };
    let found = t.link(
        Request::PullRequest {
            endpoint: endpoint.to_owned(),
            token: copy_optional(token),
            branch: branch.to_owned(),
            owner: author.to_owned(),
            repo: repo.to_owned(),
            author: None,
        },
    );
    let fetched = t.repo(
        Request::Repo {
            endpoint: endpoint.to_owned(),
            token: copy_optional(token),
            owner: author.to_owned(),
            repo: repo.to_owned(),
        },
    );
    let (found, fetched) = match (found, fetched) {
        (Step::Ask(mut first), Step::Ask(mut second)) => {
            let ghost a = request_views(first@);
            let ghost b = request_views(second@);
            first.append(&mut second);
            assert(request_views(first@) =~= a + b);
            return Step::Ask(first);
        },
        (Step::Ask(first), _) => return Step::Ask(first),
        (_, Step::Ask(second)) => return Step::Ask(second),
        (found, fetched) => (found, fetched),
    };
    match found {
        Step::Ask(requests) => return Step::Ask(requests),
        Step::Failed(e) => return Step::Failed(e),
        Step::Done(Some(url)) => return Step::Done(Page::Existing { url }),
        Step::Done(None) => {},
    }
    let fetched = match fetched {
        Step::Ask(requests) => return Step::Ask(requests),
        Step::Failed(e) => return Step::Failed(e),
        Step::Done(fetched) => fetched,
    };
    match &fetched.parent {
        None => Step::Done(
            Page::New {
                author: author.to_owned(),
                repo: repo.to_owned(),
                default_branch: fetched.default_branch.clone(),
                branch: branch.to_owned(),
            },
        ),
        Some(parent) => {
            let at_parent = t.link(
                Request::PullRequest {
                    endpoint: endpoint.to_owned(),
                    token: copy_optional(token),
                    branch: branch.to_owned(),
                    owner: parent.owner.login.clone(),
                    repo: parent.name.clone(),
                    author: Some(author.to_owned()),
                },
            );
            match at_parent {
                Step::Ask(requests) => Step::Ask(requests),
                Step::Failed(e) => Step::Failed(e),
                Step::Done(Some(url)) => Step::Done(Page::Existing { url }),
                Step::Done(None) => Step::Done(
                    Page::NewAtParent {
                        author: parent.owner.login.clone(),
                        repo: parent.name.clone(),
                        fork_author: author.to_owned(),
                        default_branch: parent.default_branch.clone(),
                        branch: branch.to_owned(),
                    },
                ),
            }
        },
    }
}

pub fn find_page(endpoint: &str, author: &str, repo: &str, cfg: &Config, t: &Transcript) -> (r:
    Step<Page>)
    ensures
        r@ == spec_find_page(endpoint@, author@, repo@, *cfg, *t),
{
    match &cfg.branch {
        Some(branch) => find_github_pr_url_for_branch(
            branch.as_str(),
            endpoint,
            author,
            repo,
            &cfg.env,
            t,
        ),
        None => match cfg.git().current_branch(t) {
            Step::Ask(requests) => Step::Ask(requests),
            Step::Failed(e) => Step::Failed(e),
            Step::Done(branch) => find_github_pr_url_for_branch(
                branch.as_str(),
                endpoint,
                author,
                repo,
                &cfg.env,
                t,
            ),
        },
    }
}

/// The search for a pull request asks afresh.
pub proof fn lemma_find_page_asks_afresh(
    endpoint: Seq<char>,
    author: Seq<char>,
    repo: Seq<char>,
    cfg: Config,
    t: Transcript,
)
    ensures
        asks_afresh(spec_find_page(endpoint, author, repo, cfg, t), t),
        forall|branch: Seq<char>|
            asks_afresh(
                #[trigger] pull_request_for_branch(branch, endpoint, author, repo, cfg.env, t),
                t,
            ),
{
    crate::git::lemma_git_asks_afresh(cfg.spec_git(), t);
    assert forall|request: RequestView| request is PullRequest implies asks_afresh(
        #[trigger] t.spec_link(request),
        t,
    ) by {
        lemma_lookups_ask_afresh(t, request);
    }
    assert forall|request: RequestView| request is Repo implies asks_afresh(
        #[trigger] t.spec_repo(request),
        t,
    ) by {
        lemma_lookups_ask_afresh(t, request);
    }
}

} // verus!
