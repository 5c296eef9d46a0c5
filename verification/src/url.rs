//! From a run to its URL.

use crate::config::Config;
use crate::error::ErrorKindView;
use crate::exchange::{asks_afresh, RequestView, Step, StepView, Transcript};
use crate::page::{
    issue_of, lemma_parse_page_asks_afresh, parse_page, path_and_line, shown_revision,
    spec_parse_page, Line, PageView,
};
use crate::service::{
    build_page_url, is_azure_host, lemma_routed_url_asks_afresh, parsed_url, routed_url, slug_of,
};
use crate::text::decimal;
use vstd::prelude::*;

verus! {

/// The URL that a run asks for: that of the page which its arguments name, on the service
/// which hosts its repository.
///
/// `relative` is what the path library gave for a file's path below the repository's root,
/// and `slashed` is that path as a URL writes it.
pub open spec fn url_of(
    cfg: Config,
    t: Transcript,
    relative: Option<Seq<char>>,
    slashed: Seq<char>,
) -> StepView<Seq<char>> {
    match spec_parse_page(cfg, t, relative) {
        StepView::Ask(requests) => StepView::Ask(requests),
        StepView::Failed(e) => StepView::Failed(e),
        StepView::Done(page) => routed_url(parsed_url(cfg.repo_url@), cfg, page, slashed, t),
    }
}

/// Builds the URL that a run asks for, as far as the transcript lets it.
pub fn build_url(cfg: &Config, t: &Transcript) -> (r: Step<String>)
    ensures
        exists|relative: Option<Seq<char>>, slashed: Seq<char>|
            r@ == #[trigger] url_of(*cfg, *t, relative, slashed),
        cfg.args@.len() == 0 || cfg.website || cfg.pull_request ==> r@ == url_of(
            *cfg,
            *t,
            None,
            Seq::empty(),
        ),
        asks_afresh(r@, *t),
{
    let parsed = parse_page(cfg, t);
    let ghost relative = choose|relative: Option<Seq<char>>|
        parsed@ == spec_parse_page(*cfg, *t, relative);
    match parsed {
        Step::Ask(requests) => Step::Ask(requests),
        Step::Failed(e) => Step::Failed(e),
        Step::Done(page) => {
            let r = build_page_url(&page, cfg, t);
            let ghost slashed = choose|slashed: Seq<char>|
                r@ == routed_url(parsed_url(cfg.repo_url@), *cfg, page@, slashed, *t);
            assert(r@ == url_of(*cfg, *t, relative, slashed));
            r
        },
    }
}

/// A run asks afresh: for something, and for nothing that the transcript answers.
pub proof fn lemma_url_asks_afresh(
    cfg: Config,
    t: Transcript,
    relative: Option<Seq<char>>,
    slashed: Seq<char>,
)
    ensures
        asks_afresh(url_of(cfg, t, relative, slashed), t),
{
    lemma_parse_page_asks_afresh(cfg, t, relative);
    assert forall|page: PageView|
        asks_afresh(
            #[trigger] routed_url(parsed_url(cfg.repo_url@), cfg, page, slashed, t),
            t,
        ) by {
        lemma_routed_url_asks_afresh(parsed_url(cfg.repo_url@), cfg, page, slashed, t);
    }
}

/// The URL of a file, with its lines, as GitHub writes them behind a file.
pub open spec fn github_file_url(
    user: Seq<char>,
    repo: Seq<char>,
    hash: Seq<char>,
    slashed: Seq<char>,
    line: Option<Line>,
) -> Seq<char> {
    let file = "https://"@ + "github.com"@ + "/"@ + user + "/"@ + repo + "/blob/"@ + hash + "/"@
        + slashed;
    match line {
        None => file,
        Some(Line::At(line)) => file + "#L"@ + decimal(line as nat),
        Some(Line::Range(start, end)) => file + "#L"@ + decimal(start as nat) + "-L"@ + decimal(
            end as nat,
        ),
    }
}

/// From an argument to the URL of a file on GitHub.
///
/// Take a run without flags whose repository is `user/repo` on `github.com`, and whose one
/// argument names a file of the repository, with or without lines. Where `HEAD` resolves
/// to a hash that the remote branch holds, or no remote branch is known, the URL is
/// `https://github.com/user/repo/blob/<hash>/<path>` followed by the lines, the path being
/// the file's path below the repository's root as the URL writes it.
pub proof fn lemma_file_on_github_end_to_end(
    cfg: Config,
    t: Transcript,
    relative: Seq<char>,
    slashed: Seq<char>,
    path: Seq<char>,
    user: Seq<char>,
    repo: Seq<char>,
    found: Seq<char>,
    hash: Seq<char>,
)
    requires
        !cfg.website && !cfg.pull_request && !cfg.blame && !cfg.env.short_commit_hash,
        cfg.args@.len() == 1,
        issue_of(cfg) is Err,
        parsed_url(cfg.repo_url@) == Ok::<_, Seq<char>>((Some("github.com"@), path)),
        slug_of(path) == Ok::<_, ErrorKindView>((user, repo)),
        t.spec_place(RequestView::Locate { path: path_and_line(cfg.args@[0]@).0 })
            == StepView::Done((found, false)),
        cfg.spec_git().root_dir(t) is Done,
        cfg.spec_git().hash(t, "HEAD"@) == StepView::Done(hash),
        cfg.spec_git().remote_branch(t, cfg.remote.deep_view(), cfg.branch.deep_view()) is Failed
            || exists|remote_branch: Seq<char>|
            cfg.spec_git().remote_branch(t, cfg.remote.deep_view(), cfg.branch.deep_view())
                == StepView::Done(remote_branch) && #[trigger] cfg.spec_git().remote_contains(
                t,
                hash,
                remote_branch,
            ) == StepView::Done(true),
    ensures
        url_of(cfg, t, Some(relative), slashed) == StepView::Done(
            github_file_url(user, repo, hash, slashed, path_and_line(cfg.args@[0]@).1),
        ),
{
    lemma_pushed_commit_is_shown(cfg, t, hash);
    reveal_strlit("github.com");
    reveal_strlit("visualstudio.com");
    reveal_strlit("vs-ssh.visualstudio.com");
    reveal_strlit("dev.azure.com");
    reveal_strlit("ssh.dev.azure.com");
    assert(!is_azure_host("github.com"@));
}

/// The page of a file shows the hash that its revision resolved to where the remote branch
/// holds that commit, and where no remote branch is known.
pub proof fn lemma_pushed_commit_is_shown(cfg: Config, t: Transcript, hash: Seq<char>)
    requires
        !cfg.env.short_commit_hash,
        cfg.spec_git().remote_branch(t, cfg.remote.deep_view(), cfg.branch.deep_view()) is Failed
            || exists|remote_branch: Seq<char>|
            cfg.spec_git().remote_branch(t, cfg.remote.deep_view(), cfg.branch.deep_view())
                == StepView::Done(remote_branch) && #[trigger] cfg.spec_git().remote_contains(
                t,
                hash,
                remote_branch,
            ) == StepView::Done(true),
    ensures
        shown_revision(cfg, cfg.spec_git(), t, hash) == StepView::Done(hash),
{
}

} // verus!
