//! What this library asks of its surroundings, and what they answered.
//!
//! The library itself runs no process, reads no file and sends nothing over the network.
//! Where a result depends on one of these, the function that computes it takes a
//! `Transcript` of the answers known so far. It returns `Step::Ask` with the requests whose
//! answers it still lacks; the caller performs them, records each answer with
//! `Transcript::record`, and calls the function again. Once every answer it needs is in the
//! transcript, the function returns `Step::Done` or `Step::Failed`:
//!
//! ```text
//! let mut transcript = Transcript::new();
//! let url = loop {
//!     match build_url(&cfg, &transcript) {
//!         Step::Done(url) => break Ok(url),
//!         Step::Failed(e) => break Err(e),
//!         Step::Ask(requests) => {
//!             for request in requests {
//!                 let reply = perform(&request);
//!                 transcript.record(request, reply);
//!             }
//!         }
//!     }
//! };
//! ```
//!
//! Requests that are asked for together do not depend on each other, and may be performed
//! at the same time. A step never asks for what the transcript answers (`asks_afresh`), so
//! a caller that records a fitting answer to each request is not asked for it again.

use crate::error::{Error, ErrorKind, ErrorKindView};
use crate::github_api::Repo;
use crate::text::{flatten, on_one_line, trim, trimmed};
use vstd::prelude::*;

verus! {

/// One thing to do outside the library.
#[derive(Debug)]
pub enum Request {
    /// Run `command -C cwd args..` and read what it prints.
    /// Answer: `Reply::Text` with the standard output when it exits with success,
    /// `Failure::Exit` when it exits otherwise, `Failure::Io` when it cannot be run.
    Git { command: String, cwd: String, args: Vec<String> },
    /// Resolve `path` on disk to its canonical absolute form.
    /// Answer: `Reply::Place`, or `Failure::Io` when nothing is there.
    Locate { path: String },
    /// Ask the GitHub API at `endpoint` for the homepage of a repository.
    /// Answer: `Reply::Link`.
    Homepage { endpoint: String, token: Option<String>, owner: String, repo: String },
    /// Search the GitHub API at `endpoint` for the pull request of `branch` into
    /// `owner/repo`, opened by `author` where one is given.
    /// Answer: `Reply::Link` with the page of the pull request updated last, if any.
    PullRequest {
        endpoint: String,
        token: Option<String>,
        branch: String,
        owner: String,
        repo: String,
        author: Option<String>,
    },
    /// Ask the GitHub API at `endpoint` for a repository. Answer: `Reply::Repo`.
    Repo { endpoint: String, token: Option<String>, owner: String, repo: String },
    /// Search GitHub for the most popular repository with `name` in its name.
    /// Answer: `Reply::Link` with its clone URL, if any was found.
    Popular { token: Option<String>, name: String },
    /// Send a HEAD request to `url`. Answer: `Reply::Status`.
    Head { url: String },
}

/// A `Request` with its texts as sequences of characters.
pub enum RequestView {
    Git { command: Seq<char>, cwd: Seq<char>, args: Seq<Seq<char>> },
    Locate { path: Seq<char> },
    Homepage { endpoint: Seq<char>, token: Option<Seq<char>>, owner: Seq<char>, repo: Seq<char> },
    PullRequest {
        endpoint: Seq<char>,
        token: Option<Seq<char>>,
        branch: Seq<char>,
        owner: Seq<char>,
        repo: Seq<char>,
        author: Option<Seq<char>>,
    },
    Repo { endpoint: Seq<char>, token: Option<Seq<char>>, owner: Seq<char>, repo: Seq<char> },
    Popular { token: Option<Seq<char>>, name: Seq<char> },
    Head { url: Seq<char> },
}

impl View for Request {
    type V = RequestView;

    open spec fn view(&self) -> RequestView {
        match self {
            Request::Git { command, cwd, args } => RequestView::Git {
                command: command@,
                cwd: cwd@,
                args: args.deep_view(),
            },
            Request::Locate { path } => RequestView::Locate { path: path@ },
            Request::Homepage { endpoint, token, owner, repo } => RequestView::Homepage {
                endpoint: endpoint@,
                token: token.deep_view(),
                owner: owner@,
                repo: repo@,
            },
            Request::PullRequest { endpoint, token, branch, owner, repo, author } => {
                RequestView::PullRequest {
                    endpoint: endpoint@,
                    token: token.deep_view(),
                    branch: branch@,
                    owner: owner@,
                    repo: repo@,
                    author: author.deep_view(),
                }
            },
            Request::Repo { endpoint, token, owner, repo } => RequestView::Repo {
                endpoint: endpoint@,
                token: token.deep_view(),
                owner: owner@,
                repo: repo@,
            },
            Request::Popular { token, name } => RequestView::Popular {
                token: token.deep_view(),
                name: name@,
            },
            Request::Head { url } => RequestView::Head { url: url@ },
        }
    }
}

/// Why a request could not be answered.
#[derive(Debug)]
pub enum Failure {
    /// A process could not be run, or a path could not be resolved.
    Io { msg: String },
    /// Git ran and exited with a failure; `stderr` is what it wrote to the standard error.
    Exit { stderr: String },
    /// A network request failed.
    Http { msg: String },
    /// The GitHub API answered with another status than 200: the status, the phrase that
    /// names it, and the body of the answer.
    Status { status: u16, reason: String, msg: String },
}

/// The answer to a request.
#[derive(Debug)]
pub enum Reply {
    Text(String),
    Place { path: String, is_dir: bool },
    Link(Option<String>),
    Repo(Repo),
    Status(u16),
    Failed(Failure),
}

/// A request together with its answer.
#[derive(Debug)]
pub struct Exchange {
    pub request: Request,
    pub reply: Reply,
}

/// The answers known so far, in the order in which they were recorded.
#[derive(Debug)]
pub struct Transcript {
    pub log: Vec<Exchange>,
}

/// How far a computation that needs answers from outside has come.
#[derive(Debug)]
pub enum Step<T> {
    /// These requests have no answer in the transcript yet.
    Ask(Vec<Request>),
    Done(T),
    Failed(Box<Error>),
}

/// A `Step` over views.
pub enum StepView<T> {
    Ask(Seq<RequestView>),
    Done(T),
    Failed(ErrorKindView),
}

/// The views of `requests`, in order.
pub open spec fn request_views(requests: Seq<Request>) -> Seq<RequestView> {
    requests.map_values(|r: Request| r@)
}

impl<T: DeepView> View for Step<T> {
    type V = StepView<T::V>;

    open spec fn view(&self) -> StepView<T::V> {
        match self {
            Step::Ask(requests) => StepView::Ask(request_views(requests@)),
            Step::Done(value) => StepView::Done(value.deep_view()),
            Step::Failed(error) => StepView::Failed(error@),
        }
    }
}

/// Whether two lists hold the same texts in the same order.
pub fn same_texts(a: &Vec<String>, b: &Vec<String>) -> (r: bool)
    ensures
        r == (a.deep_view() == b.deep_view()),
{
    if a.len() != b.len() {
        assert(a.deep_view().len() == a.len() && b.deep_view().len() == b.len());
        return false;
    }
    let mut i: usize = 0;
    while i < a.len()
        invariant
            i <= a.len(),
            a.len() == b.len(),
            forall|j: int| 0 <= j < i ==> a@[j]@ == b@[j]@,
        decreases a.len() - i,
    {
        if a[i] != b[i] {
            assert(a.deep_view()[i as int] == a@[i as int]@);
            return false;
        }
        i += 1;
    }
    assert(a.deep_view() =~= b.deep_view());
    true
}

/// Whether two optional texts are both absent, or both present and the same.
pub fn same_optional(a: &Option<String>, b: &Option<String>) -> (r: bool)
    ensures
        r == (a.deep_view() == b.deep_view()),
{
    match (a, b) {
        (None, None) => true,
        (Some(x), Some(y)) => *x == *y,
        _ => false,
    }
}

impl Request {
    /// Whether two requests ask for the same thing.
    pub fn same(&self, other: &Request) -> (r: bool)
        ensures
            r == (self@ == other@),
    {
        match (self, other) {
            (
                Request::Git { command, cwd, args },
                Request::Git { command: command2, cwd: cwd2, args: args2 },
            ) => *command == *command2 && *cwd == *cwd2 && same_texts(args, args2),
            (Request::Locate { path }, Request::Locate { path: path2 }) => *path == *path2,
            (
                Request::Homepage { endpoint, token, owner, repo },
                Request::Homepage {
                    endpoint: endpoint2,
                    token: token2,
                    owner: owner2,
                    repo: repo2,
                },
            ) => *endpoint == *endpoint2 && same_optional(token, token2) && *owner == *owner2
                && *repo == *repo2,
            (
                Request::PullRequest { endpoint, token, branch, owner, repo, author },
                Request::PullRequest {
                    endpoint: endpoint2,
                    token: token2,
                    branch: branch2,
                    owner: owner2,
                    repo: repo2,
                    author: author2,
                },
            ) => *endpoint == *endpoint2 && same_optional(token, token2) && *branch == *branch2
                && *owner == *owner2 && *repo == *repo2 && same_optional(author, author2),
            (
                Request::Repo { endpoint, token, owner, repo },
                Request::Repo { endpoint: endpoint2, token: token2, owner: owner2, repo: repo2 },
            ) => *endpoint == *endpoint2 && same_optional(token, token2) && *owner == *owner2
                && *repo == *repo2,
            (
                Request::Popular { token, name },
                Request::Popular { token: token2, name: name2 },
            ) => same_optional(token, token2) && *name == *name2,
            (Request::Head { url }, Request::Head { url: url2 }) => *url == *url2,
            _ => false,
        }
    }
}

/// The answer recorded last for `request` among `log`, if any.
pub open spec fn latest_reply(log: Seq<Exchange>, request: RequestView) -> Option<Reply>
    decreases log.len(),
{
    if log.len() == 0 {
        None
    } else if log.last().request@ == request {
        Some(log.last().reply)
    } else {
        latest_reply(log.drop_last(), request)
    }
}

impl Transcript {
    /// The answer that the transcript holds for `request`: the one recorded last.
    pub open spec fn reply(&self, request: RequestView) -> Option<Reply> {
        latest_reply(self.log@, request)
    }

    /// A transcript without answers.
    pub fn new() -> (t: Transcript)
        ensures
            t.log@.len() == 0,
            forall|request: RequestView| t.reply(request) is None,
    {
        Transcript { log: Vec::new() }
    }

    /// Records that `request` was answered by `reply`. An answer recorded earlier for the
    /// same request no longer counts; the answers to other requests stay.
    pub fn record(&mut self, request: Request, reply: Reply)
        ensures
            final(self).log@ == old(self).log@.push(Exchange { request, reply }),
            final(self).reply(request@) == Some(reply),
            forall|other: RequestView|
                other != request@ ==> final(self).reply(other) == old(self).reply(other),
    {
        self.log.push(Exchange { request, reply });
        proof {
            let log = final(self).log@;
            assert(log.drop_last() =~= old(self).log@);
        }
    }

    /// The answer to `request`, if the transcript holds one.
    pub fn lookup(&self, request: &Request) -> (r: Option<&Reply>)
        ensures
            match r {
                Some(reply) => self.reply(request@) == Some(*reply),
                None => self.reply(request@) is None,
            },
    {
        let mut i: usize = self.log.len();
        assert(self.log@.take(i as int) =~= self.log@);
        while i > 0
            invariant
                i <= self.log.len(),
                self.reply(request@) == latest_reply(self.log@.take(i as int), request@),
            decreases i,
        {
            proof {
                let part = self.log@.take(i as int);
                assert(part.drop_last() =~= self.log@.take(i - 1));
            }
            i -= 1;
            if self.log[i].request.same(request) {
                return Some(&self.log[i].reply);
            }
        }
        None
    }
}

/// A copy of `items`.
pub fn copy_texts(items: &Vec<String>) -> (r: Vec<String>)
    ensures
        r.deep_view() == items.deep_view(),
{
    let mut r: Vec<String> = Vec::new();
    let mut i: usize = 0;
    while i < items.len()
        invariant
            i <= items.len(),
            r.len() == i,
            forall|j: int| 0 <= j < i ==> r@[j]@ == items@[j]@,
        decreases items.len() - i,
    {
        r.push(items[i].clone());
        i += 1;
    }
    r
}

/// The error that a failed request stands for. `args` are the arguments of the Git command,
/// where the request was one; what Git wrote is kept without the white space around it, on
/// one line.
pub open spec fn failure_view(failure: Failure, args: Seq<Seq<char>>) -> ErrorKindView {
    match failure {
        Failure::Io { msg } => ErrorKindView::IoError { msg: msg@ },
        Failure::Exit { stderr } => ErrorKindView::GitCommandError {
            stderr: on_one_line(trimmed(stderr@)),
            args,
        },
        Failure::Http { msg } => ErrorKindView::HttpClientError { msg: msg@ },
        Failure::Status { status, reason, msg } => ErrorKindView::GitHubStatusFailure {
            status,
            reason: reason@,
            msg: msg@,
        },
    }
}

impl Failure {
    /// The error that this failure stands for.
    pub fn error(&self, args: Vec<String>) -> (e: Box<Error>)
        ensures
            e@ == failure_view(*self, args.deep_view()),
    {
        match self {
            Failure::Io { msg } => Error::new(ErrorKind::IoError { msg: msg.clone() }),
            Failure::Exit { stderr } => Error::new(
                ErrorKind::GitCommandError {
                    stderr: flatten(trim(stderr.as_str()).as_str()),
                    args,
                },
            ),
            Failure::Http { msg } => Error::new(ErrorKind::HttpClientError { msg: msg.clone() }),
            Failure::Status { status, reason, msg } => Error::new(
                ErrorKind::GitHubStatusFailure {
                    status: *status,
                    reason: reason.clone(),
                    msg: msg.clone(),
                },
            ),
        }
    }
}

/// A place on disk: its canonical absolute path, and whether it is a directory.
#[derive(Debug)]
pub struct Place {
    pub path: String,
    pub is_dir: bool,
}

impl DeepView for Place {
    type V = (Seq<char>, bool);

    open spec fn deep_view(&self) -> (Seq<char>, bool) {
        (self.path@, self.is_dir)
    }
}

impl DeepView for Repo {
    type V = Repo;

    open spec fn deep_view(&self) -> Repo {
        *self
    }
}

/// The arguments of the Git command that `request` runs, if it runs one.
pub open spec fn command_args(request: RequestView) -> Seq<Seq<char>> {
    match request {
        RequestView::Git { args, .. } => args,
        _ => Seq::empty(),
    }
}

impl Request {
    /// A copy of the arguments of the Git command that this request runs, if it runs one.
    fn args(&self) -> (r: Vec<String>)
        ensures
            r.deep_view() == command_args(self@),
    {
        match self {
            Request::Git { args, .. } => copy_texts(args),
            _ => Vec::new(),
        }
    }
}

/// The step that waits for the answer to `request`.
fn ask<T: DeepView>(request: Request) -> (r: Step<T>)
    ensures
        r@ == StepView::<T::V>::Ask(seq![request@]),
{
    let asked = vec![request];
    assert(request_views(asked@) =~= seq![request@]);
    Step::Ask(asked)
}

impl Transcript {
    /// The text that answers `request`, the error that its failure stands for, or the
    /// request itself where the transcript holds no such answer.
    pub open spec fn spec_text(&self, request: RequestView) -> StepView<Seq<char>> {
        match self.reply(request) {
            Some(Reply::Text(text)) => StepView::Done(text@),
            Some(Reply::Failed(failure)) => StepView::Failed(
                failure_view(failure, command_args(request)),
            ),
            _ => StepView::Ask(seq![request]),
        }
    }

    pub fn text(&self, request: Request) -> (r: Step<String>)
        ensures
            r@ == self.spec_text(request@),
    {
        match self.lookup(&request) {
            Some(Reply::Text(text)) => Step::Done(text.clone()),
            Some(Reply::Failed(failure)) => Step::Failed(failure.error(request.args())),
            _ => ask(request),
        }
    }

    /// The place that answers `request`.
    pub open spec fn spec_place(&self, request: RequestView) -> StepView<(Seq<char>, bool)> {
        match self.reply(request) {
            Some(Reply::Place { path, is_dir }) => StepView::Done((path@, is_dir)),
            Some(Reply::Failed(failure)) => StepView::Failed(
                failure_view(failure, command_args(request)),
            ),
            _ => StepView::Ask(seq![request]),
        }
    }

    pub fn place(&self, request: Request) -> (r: Step<Place>)
        ensures
            r@ == self.spec_place(request@),
    {
        match self.lookup(&request) {
            Some(Reply::Place { path, is_dir }) => Step::Done(
                Place { path: path.clone(), is_dir: *is_dir },
            ),
            Some(Reply::Failed(failure)) => Step::Failed(failure.error(request.args())),
            _ => ask(request),
        }
    }

    /// The link that answers `request`, if the answer holds one.
    pub open spec fn spec_link(&self, request: RequestView) -> StepView<Option<Seq<char>>> {
        match self.reply(request) {
            Some(Reply::Link(link)) => StepView::Done(link.deep_view()),
            Some(Reply::Failed(failure)) => StepView::Failed(
                failure_view(failure, command_args(request)),
            ),
            _ => StepView::Ask(seq![request]),
        }
    }

    pub fn link(&self, request: Request) -> (r: Step<Option<String>>)
        ensures
            r@ == self.spec_link(request@),
    {
        match self.lookup(&request) {
            Some(Reply::Link(link)) => Step::Done(link.clone()),
            Some(Reply::Failed(failure)) => Step::Failed(failure.error(request.args())),
            _ => ask(request),
        }
    }

    /// The repository that answers `request`.
    pub open spec fn spec_repo(&self, request: RequestView) -> StepView<Repo> {
        match self.reply(request) {
            Some(Reply::Repo(repo)) => StepView::Done(repo),
            Some(Reply::Failed(failure)) => StepView::Failed(
                failure_view(failure, command_args(request)),
            ),
            _ => StepView::Ask(seq![request]),
        }
    }

    pub fn repo(&self, request: Request) -> (r: Step<&Repo>)
        ensures
            r@ == self.spec_repo(request@),
    {
        match self.lookup(&request) {
            Some(Reply::Repo(repo)) => Step::Done(repo),
            Some(Reply::Failed(failure)) => Step::Failed(failure.error(request.args())),
            _ => ask(request),
        }
    }

    /// The status that answers `request`.
    pub open spec fn spec_status(&self, request: RequestView) -> StepView<u16> {
        match self.reply(request) {
            Some(Reply::Status(status)) => StepView::Done(status),
            Some(Reply::Failed(failure)) => StepView::Failed(
                failure_view(failure, command_args(request)),
            ),
            _ => StepView::Ask(seq![request]),
        }
    }

    pub fn status(&self, request: Request) -> (r: Step<u16>)
        ensures
            r@ == self.spec_status(request@),
    {
        match self.lookup(&request) {
            Some(Reply::Status(status)) => Step::Done(*status),
            Some(Reply::Failed(failure)) => Step::Failed(failure.error(request.args())),
            _ => ask(request),
        }
    }
}

/// Whether `reply` is of a kind that answers `request`. A failure answers any request.
pub open spec fn fits(request: RequestView, reply: Reply) -> bool {
    reply is Failed || match request {
        RequestView::Git { .. } => reply is Text,
        RequestView::Locate { .. } => reply is Place,
        RequestView::Homepage { .. } => reply is Link,
        RequestView::PullRequest { .. } => reply is Link,
        RequestView::Popular { .. } => reply is Link,
        RequestView::Repo { .. } => reply is Repo,
        RequestView::Head { .. } => reply is Status,
    }
}

impl Transcript {
    /// Whether the transcript holds an answer to `request` that is of a fitting kind.
    pub open spec fn answers(&self, request: RequestView) -> bool {
        self.reply(request) matches Some(reply) && fits(request, reply)
    }
}

/// A step is in order when, if it asks at all, it asks for something, and for nothing that
/// the transcript answers. A caller that records a fitting answer to each request of such a
/// step is never asked for the same thing again.
pub open spec fn asks_afresh<T>(step: StepView<T>, t: Transcript) -> bool {
    step matches StepView::Ask(requests) ==> requests.len() > 0 && forall|i: int|
        0 <= i < requests.len() ==> !t.answers(#[trigger] requests[i])
}

/// Each lookup in a transcript asks afresh, for the requests whose answers are of its kind.
pub proof fn lemma_lookups_ask_afresh(t: Transcript, request: RequestView)
    ensures
        request is Git ==> asks_afresh(t.spec_text(request), t),
        request is Locate ==> asks_afresh(t.spec_place(request), t),
        request is Homepage || request is PullRequest || request is Popular ==> asks_afresh(
            t.spec_link(request),
            t,
        ),
        request is Repo ==> asks_afresh(t.spec_repo(request), t),
        request is Head ==> asks_afresh(t.spec_status(request), t),
{
}

} // verus!
