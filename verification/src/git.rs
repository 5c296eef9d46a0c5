//! Git, as far as this library asks it anything: which command answers a question, and what
//! its output means.

use crate::error::{Error, ErrorKind, ErrorKindView};
use crate::exchange::{
    asks_afresh, lemma_lookups_ask_afresh, Request, RequestView, Step, StepView, Transcript,
};
use crate::text::{chars_of, find_char, find_text, index_of, search, string_of, trim, trimmed};
use vstd::prelude::*;

verus! {

/// The error for a commit, tag or remote that Git does not know: it keeps the message of
/// the error that Git ended with.
pub open spec fn not_found(
    kind: Seq<char>,
    inner: ErrorKindView,
    object: Seq<char>,
) -> ErrorKindView {
    ErrorKindView::GitObjectNotFound { kind, object, msg: inner.message() }
}

fn object_not_found(kind: &'static str, inner: &Error, object: &str) -> (e: Box<Error>)
    ensures
        e@ == not_found(kind@, inner@, object@),
{
    Error::new(
        ErrorKind::GitObjectNotFound { kind, object: object.to_owned(), msg: inner.message() },
    )
}

/// A Git command in a directory.
#[derive(Debug, Clone, Copy)]
pub struct Git<'a> {
    pub command: &'a str,
    pub cwd: &'a str,
}

/// A `Git` with its texts as sequences of characters. Its functions say what each
/// question to Git comes to, given the answers in a transcript.
pub struct GitView {
    pub command: Seq<char>,
    pub cwd: Seq<char>,
}

impl<'a> View for Git<'a> {
    type V = GitView;

    open spec fn view(&self) -> GitView {
        GitView { command: self.command@, cwd: self.cwd@ }
    }
}

impl GitView {
    /// The request that runs this Git with `args`.
    pub open spec fn request(self, args: Seq<Seq<char>>) -> RequestView {
        RequestView::Git { command: self.command, cwd: self.cwd, args }
    }

    /// What running this Git with `args` gives: what it printed, without the white space
    /// around it; the error it ended with; or the request to run it where the transcript
    /// does not hold the answer.
    pub open spec fn run(self, t: Transcript, args: Seq<Seq<char>>) -> StepView<Seq<char>> {
        match t.spec_text(self.request(args)) {
            StepView::Done(out) => StepView::Done(trimmed(out)),
            other => other,
        }
    }

    /// What Git answers for an object: as `run`, but a failure of the command says that the
    /// object of this `kind` was not found.
    pub open spec fn resolve(
        self,
        t: Transcript,
        kind: Seq<char>,
        object: Seq<char>,
        args: Seq<Seq<char>>,
    ) -> StepView<Seq<char>> {
        match self.run(t, args) {
            StepView::Failed(e) => StepView::Failed(not_found(kind, e, object)),
            other => other,
        }
    }

    /// The hash that `commit` resolves to: the output of `git rev-parse <commit>`.
    pub open spec fn hash(self, t: Transcript, commit: Seq<char>) -> StepView<Seq<char>> {
        self.resolve(t, "commit"@, commit, seq!["rev-parse"@, commit])
    }

    /// The hash of the tag `tagname`: what `git show-ref --tags <tagname>` prints before
    /// the first space.
    pub open spec fn tag_hash(self, t: Transcript, tagname: Seq<char>) -> StepView<
        Seq<char>,
    > {
        match self.resolve(t, "tag name"@, tagname, seq!["show-ref"@, "--tags"@, tagname]) {
            StepView::Done(out) => StepView::Done(out.take(index_of(out, ' '))),
            other => other,
        }
    }

    /// The URL of the remote `name`: the output of `git config --get remote.<name>.url`.
    pub open spec fn remote_url(self, t: Transcript, name: Seq<char>) -> StepView<
        Seq<char>,
    > {
        self.resolve(
            t,
            "remote"@,
            name,
            seq!["config"@, "--get"@, "remote."@ + name + ".url"@],
        )
    }

    /// The name that `rev` abbreviates to: the output of
    /// `git rev-parse --abbrev-ref --symbolic <rev>`.
    pub open spec fn abbreviation(self, t: Transcript, rev: Seq<char>) -> StepView<Seq<char>> {
        self.run(t, seq!["rev-parse"@, "--abbrev-ref"@, "--symbolic"@, rev])
    }

    /// The URL and the name of the remote that `branch`, or the current branch, tracks.
    /// A branch that tracks none goes by `origin`. A tracking name without `/` is an
    /// `UnexpectedRemoteName`.
    pub open spec fn tracking_remote_url(
        self,
        t: Transcript,
        branch: Option<Seq<char>>,
    ) -> StepView<(Seq<char>, Seq<char>)> {
        let rev = match branch {
            Some(b) => b + "@{u}"@,
            None => "@{u}"@,
        };
        match self.abbreviation(t, rev) {
            StepView::Ask(requests) => StepView::Ask(requests),
            StepView::Failed(e) => {
                if e is GitCommandError && search(
                    e->GitCommandError_stderr,
                    "does not point to a branch"@,
                ) is Some {
                    self.remote_and_url(t, "origin"@)
                } else {
                    StepView::Failed(e)
                }
            },
            StepView::Done(out) => {
                if index_of(out, '/') < out.len() {
                    self.remote_and_url(t, out.take(index_of(out, '/')))
                } else {
                    StepView::Failed(ErrorKindView::UnexpectedRemoteName(out))
                }
            },
        }
    }

    /// The URL of the remote `name`, together with `name`.
    pub open spec fn remote_and_url(self, t: Transcript, name: Seq<char>) -> StepView<
        (Seq<char>, Seq<char>),
    > {
        match self.remote_url(t, name) {
            StepView::Ask(requests) => StepView::Ask(requests),
            StepView::Failed(e) => StepView::Failed(e),
            StepView::Done(url) => StepView::Done((url, name)),
        }
    }

    /// The canonical path of the repository's root: what `git rev-parse --show-toplevel`
    /// prints, resolved on disk.
    pub open spec fn root_dir(self, t: Transcript) -> StepView<Seq<char>> {
        match self.run(t, seq!["rev-parse"@, "--show-toplevel"@]) {
            StepView::Ask(requests) => StepView::Ask(requests),
            StepView::Failed(e) => match e {
                ErrorKindView::GitCommandError { stderr, .. } => StepView::Failed(
                    ErrorKindView::GitRootDirNotFound { cwd: self.cwd, stderr },
                ),
                _ => StepView::Failed(e),
            },
            StepView::Done(out) => match t.spec_place(RequestView::Locate { path: out }) {
                StepView::Ask(requests) => StepView::Ask(requests),
                StepView::Failed(e) => StepView::Failed(e),
                StepView::Done(place) => StepView::Done(place.0),
            },
        }
    }

    /// The name of the branch that is checked out.
    pub open spec fn current_branch(self, t: Transcript) -> StepView<Seq<char>> {
        self.abbreviation(t, "HEAD"@)
    }

    /// Whether the remote branch holds the commit `spec`: whether
    /// `git branch --remote <remote_branch> --contains <spec>` prints anything.
    pub open spec fn remote_contains(
        self,
        t: Transcript,
        spec: Seq<char>,
        remote_branch: Seq<char>,
    ) -> StepView<bool> {
        match self.run(t, seq!["branch"@, "--remote"@, remote_branch, "--contains"@, spec]) {
            StepView::Ask(requests) => StepView::Ask(requests),
            StepView::Failed(e) => StepView::Failed(e),
            StepView::Done(out) => StepView::Done(out.len() > 0),
        }
    }

    /// The remote branch, as `remote/branch`, that belongs to `local_branch` (else to the
    /// current branch) on `remote_name` (else on the remote that the branch tracks).
    pub open spec fn remote_branch(
        self,
        t: Transcript,
        remote_name: Option<Seq<char>>,
        local_branch: Option<Seq<char>>,
    ) -> StepView<Seq<char>> {
        let remote = match remote_name {
            Some(r) => r,
            None => "{u}"@,
        };
        let branch = match local_branch {
            Some(b) => b,
            None => ""@,
        };
        self.abbreviation(t, branch + "@"@ + remote)
    }
}

impl<'a> Git<'a> {
    pub fn new(cwd: &'a str, command: &'a str) -> (git: Git<'a>)
        ensures
            git@ == (GitView { command: command@, cwd: cwd@ }),
    {
        Git { command, cwd }
    }

    /// Runs this Git with `args`.
    pub fn command(&self, t: &Transcript, args: Vec<String>) -> (r: Step<String>)
        ensures
            r@ == self@.run(*t, args.deep_view()),
    {
        let request = Request::Git {
            command: self.command.to_owned(),
            cwd: self.cwd.to_owned(),
            args,
        };
        match t.text(request) {
            Step::Done(out) => Step::Done(trim(out.as_str())),
            other => other,
        }
    }

    pub fn hash(&self, t: &Transcript, commit: &str) -> (r: Step<String>)
        ensures
            r@ == self@.hash(*t, commit@),
    {
        let args = vec!["rev-parse".to_owned(), commit.to_owned()];
        assert(args.deep_view() =~= seq!["rev-parse"@, commit@]);
        match self.command(t, args) {
            Step::Failed(e) => Step::Failed(object_not_found("commit", &*e, commit)),
            other => other,
        }
    }

    pub fn tag_hash(&self, t: &Transcript, tagname: &str) -> (r: Step<String>)
        ensures
            r@ == self@.tag_hash(*t, tagname@),
    {
        let args = vec!["show-ref".to_owned(), "--tags".to_owned(), tagname.to_owned()];
        assert(args.deep_view() =~= seq!["show-ref"@, "--tags"@, tagname@]);
        match self.command(t, args) {
            Step::Failed(e) => Step::Failed(object_not_found("tag name", &*e, tagname)),
            Step::Done(out) => {
                let chars = chars_of(out.as_str());
                let end = find_char(&chars, ' ', 0);
                Step::Done(string_of(&chars, 0, end))
            },
            Step::Ask(requests) => Step::Ask(requests),
        }
    }

    pub fn remote_url(&self, t: &Transcript, name: &str) -> (r: Step<String>)
        ensures
            r@ == self@.remote_url(*t, name@),
    {
        let mut key = "remote.".to_owned();
        key.append(name);
        key.append(".url");
        let args = vec!["config".to_owned(), "--get".to_owned(), key];
        assert(args.deep_view() =~= seq!["config"@, "--get"@, "remote."@ + name@ + ".url"@]);
        match self.command(t, args) {
            Step::Failed(e) => Step::Failed(object_not_found("remote", &*e, name)),
            other => other,
        }
    }

    fn abbreviate(&self, t: &Transcript, rev: String) -> (r: Step<String>)
        ensures
            r@ == self@.abbreviation(*t, rev@),
    {
        let ghost shown = rev@;
        let args = vec![
            "rev-parse".to_owned(),
            "--abbrev-ref".to_owned(),
            "--symbolic".to_owned(),
            rev,
        ];
        assert(args.deep_view() =~= seq!["rev-parse"@, "--abbrev-ref"@, "--symbolic"@, shown]);
        self.command(t, args)
    }

    fn with_remote_url(&self, t: &Transcript, name: String) -> (r: Step<(String, String)>)
        ensures
            r@ == self@.remote_and_url(*t, name@),
    {
        match self.remote_url(t, name.as_str()) {
            Step::Ask(requests) => Step::Ask(requests),
            Step::Failed(e) => Step::Failed(e),
            Step::Done(url) => Step::Done((url, name)),
        }
    }

    pub fn tracking_remote_url(&self, t: &Transcript, branch: &Option<String>) -> (r: Step<
        (String, String),
    >)
        ensures
            r@ == self@.tracking_remote_url(*t, branch.deep_view()),
    {
        let rev = match branch {
            Some(b) => {
                let mut rev = b.clone();
                rev.append("@{u}");
                rev
            },
            None => "@{u}".to_owned(),
        };
        match self.abbreviate(t, rev) {
            Step::Ask(requests) => Step::Ask(requests),
            Step::Failed(e) => {
                let detached = match e.kind() {
                    ErrorKind::GitCommandError { stderr, .. } => {
                        let hay = chars_of(stderr.as_str());
                        let needle = chars_of("does not point to a branch");
                        find_text(&hay, &needle, 0).is_some()
                    },
                    _ => false,
                };
                if detached {
                    self.with_remote_url(t, "origin".to_owned())
                } else {
                    Step::Failed(e)
                }
            },
            Step::Done(out) => {
                let chars = chars_of(out.as_str());
                let slash = find_char(&chars, '/', 0);
                if slash < chars.len() {
                    self.with_remote_url(t, string_of(&chars, 0, slash))
                } else {
                    Step::Failed(Error::new(ErrorKind::UnexpectedRemoteName(out)))
                }
            },
        }
    }

    pub fn root_dir(&self, t: &Transcript) -> (r: Step<String>)
        ensures
            r@ == self@.root_dir(*t),
    {
        let args = vec!["rev-parse".to_owned(), "--show-toplevel".to_owned()];
        assert(args.deep_view() =~= seq!["rev-parse"@, "--show-toplevel"@]);
        match self.command(t, args) {
            Step::Ask(requests) => Step::Ask(requests),
            Step::Failed(e) => {
                let stderr = match e.kind() {
                    ErrorKind::GitCommandError { stderr, .. } => Some(stderr.clone()),
                    _ => None,
                };
                match stderr {
                    Some(stderr) => Step::Failed(
                        Error::new(
                            ErrorKind::GitRootDirNotFound { cwd: self.cwd.to_owned(), stderr },
                        ),
                    ),
                    None => Step::Failed(e),
                }
            },
            Step::Done(out) => match t.place(Request::Locate { path: out }) {
                Step::Ask(requests) => Step::Ask(requests),
                Step::Failed(e) => Step::Failed(e),
                Step::Done(place) => Step::Done(place.path),
            },
        }
    }

    pub fn current_branch(&self, t: &Transcript) -> (r: Step<String>)
        ensures
            r@ == self@.current_branch(*t),
    {
        self.abbreviate(t, "HEAD".to_owned())
    }

    pub fn remote_contains(&self, t: &Transcript, spec: &str, remote_branch: &str) -> (r: Step<
        bool,
    >)
        ensures
            r@ == self@.remote_contains(*t, spec@, remote_branch@),
    {
        let args = vec![
            "branch".to_owned(),
            "--remote".to_owned(),
            remote_branch.to_owned(),
            "--contains".to_owned(),
            spec.to_owned(),
        ];
        assert(args.deep_view() =~= seq![
            "branch"@,
            "--remote"@,
            remote_branch@,
            "--contains"@,
            spec@,
        ]);
        match self.command(t, args) {
            Step::Ask(requests) => Step::Ask(requests),
            Step::Failed(e) => Step::Failed(e),
            Step::Done(out) => Step::Done(!out.as_str().is_empty()),
        }
    }

    pub fn remote_branch(
        &self,
        t: &Transcript,
        remote_name: &Option<String>,
        local_branch: &Option<String>,
    ) -> (r: Step<String>)
        ensures
            r@ == self@.remote_branch(*t, remote_name.deep_view(), local_branch.deep_view()),
    {
        let mut rev = match local_branch {
            Some(b) => b.clone(),
            None => "".to_owned(),
        };
        rev.append("@");
        match remote_name {
            Some(r) => rev.append(r.as_str()),
            None => rev.append("{u}"),
        }
        self.abbreviate(t, rev)
    }
}

/// Whatever Git is asked, it asks afresh.
pub proof fn lemma_git_asks_afresh(git: GitView, t: Transcript)
    ensures
        forall|args: Seq<Seq<char>>| asks_afresh(#[trigger] git.run(t, args), t),
        forall|kind: Seq<char>, object: Seq<char>, args: Seq<Seq<char>>|
            asks_afresh(#[trigger] git.resolve(t, kind, object, args), t),
        forall|commit: Seq<char>| asks_afresh(#[trigger] git.hash(t, commit), t),
        forall|tagname: Seq<char>| asks_afresh(#[trigger] git.tag_hash(t, tagname), t),
        forall|name: Seq<char>| asks_afresh(#[trigger] git.remote_url(t, name), t),
        forall|name: Seq<char>| asks_afresh(#[trigger] git.remote_and_url(t, name), t),
        forall|rev: Seq<char>| asks_afresh(#[trigger] git.abbreviation(t, rev), t),
        forall|branch: Option<Seq<char>>|
            asks_afresh(#[trigger] git.tracking_remote_url(t, branch), t),
        asks_afresh(git.root_dir(t), t),
        asks_afresh(git.current_branch(t), t),
        forall|spec: Seq<char>, remote_branch: Seq<char>|
            asks_afresh(#[trigger] git.remote_contains(t, spec, remote_branch), t),
        forall|remote_name: Option<Seq<char>>, local_branch: Option<Seq<char>>|
            asks_afresh(#[trigger] git.remote_branch(t, remote_name, local_branch), t),
{
    assert forall|args: Seq<Seq<char>>| asks_afresh(#[trigger] git.run(t, args), t) by {
        lemma_lookups_ask_afresh(t, git.request(args));
    }
    assert forall|path: Seq<char>|
        asks_afresh(#[trigger] t.spec_place(RequestView::Locate { path }), t) by {
        lemma_lookups_ask_afresh(t, RequestView::Locate { path });
    }
}

} // verus!
