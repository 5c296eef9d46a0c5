//! The page that the arguments ask for, and the parser that decides it.

use crate::config::Config;
use crate::error::{
    attempts_view, lemma_attempts_view, Error, ErrorKind, ErrorKindView, ExpectedNumberOfArgs,
};
use crate::exchange::{
    asks_afresh, copy_texts, lemma_lookups_ask_afresh, Request, RequestView, Step, StepView,
    Transcript,
};
use crate::git::{lemma_git_asks_afresh, Git, GitView};
use crate::text::{
    chars_of, decimal, find_char, find_text, index_of, is_digit, lemma_decimal_reads_back,
    lemma_index_absent, lemma_index_is, number, parse_number, search, string_of,
};
use vstd::prelude::*;

verus! {

/// The way a diff was written: with two dots or with three.
#[derive(Debug, PartialEq, Eq, Clone, Copy, Structural)]
pub enum DiffOp {
    TwoDots,
    ThreeDots,
}

impl DiffOp {
    /// The dots themselves.
    pub open spec fn dots(self) -> Seq<char> {
        match self {
            DiffOp::TwoDots => seq!['.', '.'],
            DiffOp::ThreeDots => seq!['.', '.', '.'],
        }
    }

    /// Appends the dots to `out`.
    pub fn push_dots(self, out: &mut String)
        ensures
            final(out)@ == old(out)@ + self.dots(),
    {
        out.push('.');
        out.push('.');
        match self {
            DiffOp::TwoDots => {},
            DiffOp::ThreeDots => out.push('.'),
        }
    }
}

/// A line of a file, or a range of lines.
#[derive(Debug, PartialEq, Eq, Clone, Copy, Structural)]
pub enum Line {
    At(usize),
    /// First and last line.
    Range(usize, usize),
}

/// What the user asked to see.
#[derive(Debug, PartialEq)]
pub enum Page {
    /// The repository itself, its website, or its pull request.
    Open { website: bool, pull_request: bool },
    Diff { lhs: String, rhs: String, op: DiffOp },
    Commit { hash: String },
    /// A file or a directory. `line` is given for files only.
    FileOrDir {
        relative_path: String,
        hash: String,
        line: Option<Line>,
        blame: bool,
        is_dir: bool,
    },
    Issue { number: usize },
    Tag { tagname: String, commit: String },
}

/// A `Page` with its texts as sequences of characters.
pub enum PageView {
    Open { website: bool, pull_request: bool },
    Diff { lhs: Seq<char>, rhs: Seq<char>, op: DiffOp },
    Commit { hash: Seq<char> },
    FileOrDir {
        relative_path: Seq<char>,
        hash: Seq<char>,
        line: Option<Line>,
        blame: bool,
        is_dir: bool,
    },
    Issue { number: usize },
    Tag { tagname: Seq<char>, commit: Seq<char> },
}

impl View for Page {
    type V = PageView;

    open spec fn view(&self) -> PageView {
        match self {
            Page::Open { website, pull_request } => PageView::Open {
                website: *website,
                pull_request: *pull_request,
            },
            Page::Diff { lhs, rhs, op } => PageView::Diff { lhs: lhs@, rhs: rhs@, op: *op },
            Page::Commit { hash } => PageView::Commit { hash: hash@ },
            Page::FileOrDir { relative_path, hash, line, blame, is_dir } => PageView::FileOrDir {
                relative_path: relative_path@,
                hash: hash@,
                line: *line,
                blame: *blame,
                is_dir: *is_dir,
            },
            Page::Issue { number } => PageView::Issue { number: *number },
            Page::Tag { tagname, commit } => PageView::Tag { tagname: tagname@, commit: commit@ },
        }
    }
}

impl DeepView for Page {
    type V = PageView;

    open spec fn deep_view(&self) -> PageView {
        self@
    }
}

/// The view of a result that holds a page or an error.
pub open spec fn result_view(r: Result<Page, Box<Error>>) -> Result<PageView, ErrorKindView> {
    match r {
        Ok(page) => Ok(page@),
        Err(e) => Err(e@),
    }
}

/// The hash as a URL shows it: its first seven characters where short hashes are asked for.
pub open spec fn shorten(cfg: Config, hash: Seq<char>) -> Seq<char> {
    if cfg.env.short_commit_hash && hash.len() > 7 {
        hash.take(7)
    } else {
        hash
    }
}

/// The error of an interpretation that takes another number of arguments than were given.
pub open spec fn wrong_args(
    cfg: Config,
    expected: ExpectedNumberOfArgs,
    kind: Seq<char>,
) -> ErrorKindView {
    ErrorKindView::WrongNumberOfArgs { expected, actual: cfg.args@.len() as usize, kind }
}

/// The issue that the arguments name: one argument, `#` and then a number.
pub open spec fn issue_of(cfg: Config) -> Result<PageView, ErrorKindView> {
    if cfg.args@.len() != 1 {
        Err(wrong_args(cfg, ExpectedNumberOfArgs::Single(1), "issue number"@))
    } else {
        let arg = cfg.args@[0]@;
        if arg.len() > 0 && arg[0] == '#' {
            match number(arg.skip(1)) {
                Some(number) => Ok(PageView::Issue { number }),
                None => Err(ErrorKindView::InvalidIssueNumberFormat),
            }
        } else {
            Err(ErrorKindView::InvalidIssueNumberFormat)
        }
    }
}

/// The position after an `L` that stands at `at`, else `at`.
pub open spec fn after_letter(s: Seq<char>, at: int) -> int {
    if 0 <= at < s.len() && s[at] == 'L' {
        at + 1
    } else {
        at
    }
}

/// The lines that `spec` names: `<n>`, or `<a>-<b>` where an `L` may stand before `<b>`.
/// A first number that cannot be read gives no line; a second one leaves the first.
pub open spec fn line_of(spec: Seq<char>) -> Option<Line> {
    let dash = index_of(spec, '-');
    if dash < spec.len() {
        match number(spec.take(dash)) {
            Some(start) => match number(spec.skip(after_letter(spec, dash + 1))) {
                Some(end) => Some(Line::Range(start, end)),
                None => Some(Line::At(start)),
            },
            None => None,
        }
    } else {
        match number(spec) {
            Some(line) => Some(Line::At(line)),
            None => None,
        }
    }
}

/// The path and the lines that `arg` names: the path ends at the first `#`, and the lines
/// follow it, after an `L` or without.
pub open spec fn path_and_line(arg: Seq<char>) -> (Seq<char>, Option<Line>) {
    let mark = index_of(arg, '#');
    if mark < arg.len() {
        (arg.take(mark), line_of(arg.skip(after_letter(arg, mark + 1))))
    } else {
        (arg, None)
    }
}

/// The two sides of a diff and the dots between them. Three dots are looked for first; the
/// sides are cut at the first occurrence.
pub open spec fn diff_of(arg: Seq<char>) -> Result<(Seq<char>, Seq<char>, DiffOp), ErrorKindView> {
    let op = if search(arg, DiffOp::ThreeDots.dots()) is Some {
        Some(DiffOp::ThreeDots)
    } else if search(arg, DiffOp::TwoDots.dots()) is Some {
        Some(DiffOp::TwoDots)
    } else {
        None
    };
    match op {
        None => Err(ErrorKindView::DiffDotsNotFound),
        Some(op) => {
            let at = search(arg, op.dots())->0;
            let lhs = arg.take(at);
            let rhs = arg.skip(at + op.dots().len());
            if lhs.len() == 0 || rhs.len() == 0 {
                Err(ErrorKindView::DiffHandIsEmpty { input: arg })
            } else {
                Ok((lhs, rhs, op))
            }
        },
    }
}

/// The part of `path` below `root`, as `Path::strip_prefix` gives it, or nothing where
/// `path` does not lie below `root`. What counts as a separator depends on the operating
/// system, so nothing is claimed of the result.
#[verifier::external_body]
fn strip_root(path: &str, root: &str) -> (relative: Option<String>) {
    std::path::Path::new(path).strip_prefix(root).ok().and_then(std::path::Path::to_str).map(
        str::to_owned,
    )
}

/// The commit that the arguments name: one argument that Git resolves.
pub open spec fn commit_page(cfg: Config, git: GitView, t: Transcript) -> StepView<PageView> {
    if cfg.args@.len() != 1 {
        StepView::Failed(wrong_args(cfg, ExpectedNumberOfArgs::Single(1), "commit"@))
    } else {
        match git.hash(t, cfg.args@[0]@) {
            StepView::Ask(requests) => StepView::Ask(requests),
            StepView::Failed(e) => StepView::Failed(e),
            StepView::Done(hash) => StepView::Done(
                PageView::Commit { hash: shorten(cfg, hash) },
            ),
        }
    }
}

/// The tag that the arguments name: one argument that Git knows as a tag.
pub open spec fn tag_page(cfg: Config, git: GitView, t: Transcript) -> StepView<PageView> {
    if cfg.args@.len() != 1 {
        StepView::Failed(wrong_args(cfg, ExpectedNumberOfArgs::Single(1), "tag name"@))
    } else {
        match git.tag_hash(t, cfg.args@[0]@) {
            StepView::Ask(requests) => StepView::Ask(requests),
            StepView::Failed(e) => StepView::Failed(e),
            StepView::Done(hash) => StepView::Done(
                PageView::Tag { tagname: cfg.args@[0]@, commit: shorten(cfg, hash) },
            ),
        }
    }
}

/// The diff that the arguments name: one argument with two sides that Git resolves.
pub open spec fn diff_page(cfg: Config, git: GitView, t: Transcript) -> StepView<PageView> {
    if cfg.args@.len() != 1 {
        StepView::Failed(wrong_args(cfg, ExpectedNumberOfArgs::Single(1), "diff"@))
    } else {
        match diff_of(cfg.args@[0]@) {
            Err(e) => StepView::Failed(e),
            Ok((lhs, rhs, op)) => match git.hash(t, lhs) {
                StepView::Ask(requests) => StepView::Ask(requests),
                StepView::Failed(e) => StepView::Failed(e),
                StepView::Done(left) => match git.hash(t, rhs) {
                    StepView::Ask(requests) => StepView::Ask(requests),
                    StepView::Failed(e) => StepView::Failed(e),
                    StepView::Done(right) => StepView::Done(
                        PageView::Diff {
                            lhs: shorten(cfg, left),
                            rhs: shorten(cfg, right),
                            op,
                        },
                    ),
                },
            },
        }
    }
}

/// The revision that a page of a file shows, given the hash that the revision resolved
/// to: the shortened hash where the remote branch holds the commit, or where no remote
/// branch is known; else the name of the branch.
pub open spec fn shown_revision(
    cfg: Config,
    git: GitView,
    t: Transcript,
    hash: Seq<char>,
) -> StepView<Seq<char>> {
        match git.remote_branch(t, cfg.remote.deep_view(), cfg.branch.deep_view()) {
        StepView::Ask(requests) => StepView::Ask(requests),
        StepView::Failed(_) => StepView::Done(shorten(cfg, hash)),
        StepView::Done(remote_branch) => match git.remote_contains(
            t,
            hash,
            remote_branch,
        ) {
            StepView::Ask(requests) => StepView::Ask(requests),
            StepView::Failed(e) => StepView::Failed(e),
            StepView::Done(true) => StepView::Done(shorten(cfg, hash)),
            StepView::Done(false) => match cfg.branch {
                Some(branch) => StepView::Done(branch@),
                None => git.current_branch(t),
            },
        },
    }
}

/// The file or directory that the arguments name. `relative` is what the path library
/// gave for the canonical path below the repository's root; it counts only where the
/// parse gets that far.
///
/// The path must exist and lie in the repository: one that cannot be found on disk is
/// `FileDirNotInRepo` with the path as it was written, and one that is found elsewhere is
/// `FileDirNotInRepo` with its canonical path.
pub open spec fn file_page(cfg: Config, git: GitView, t: Transcript,
    relative: Option<Seq<char>>,
) -> StepView<PageView> {
        if cfg.args@.len() != 1 && cfg.args@.len() != 2 {
        StepView::Failed(
            wrong_args(cfg, ExpectedNumberOfArgs::Range(1, 2), "file or directory"@),
        )
    } else {
        let (path, line) = path_and_line(cfg.args@[0]@);
        match t.spec_place(RequestView::Locate { path }) {
            StepView::Ask(requests) => StepView::Ask(requests),
            StepView::Failed(_) => match git.root_dir(t) {
                StepView::Ask(requests) => StepView::Ask(requests),
                StepView::Failed(e) => StepView::Failed(e),
                StepView::Done(root) => StepView::Failed(
                    ErrorKindView::FileDirNotInRepo { repo_root: root, path },
                ),
            },
            StepView::Done((found, is_dir)) => {
                if is_dir && cfg.blame {
                    StepView::Failed(ErrorKindView::CannotBlameDirectory { dir: found })
                } else if is_dir && line is Some {
                    StepView::Failed(ErrorKindView::LineSpecifiedForDir(found))
                } else {
                    match git.root_dir(t) {
                        StepView::Ask(requests) => StepView::Ask(requests),
                        StepView::Failed(e) => StepView::Failed(e),
                        StepView::Done(root) => match relative {
                            None => StepView::Failed(
                                ErrorKindView::FileDirNotInRepo {
                                    repo_root: root,
                                    path: found,
                                },
                            ),
                            Some(relative_path) => {
                                let revision = if cfg.args@.len() == 2 {
                                    cfg.args@[1]@
                                } else {
                                    "HEAD"@
                                };
                                match git.hash(t, revision) {
                                    StepView::Ask(requests) => StepView::Ask(requests),
                                    StepView::Failed(e) => StepView::Failed(e),
                                    StepView::Done(hash) => match shown_revision(cfg, git, t,
                                        hash,
                                    ) {
                                        StepView::Ask(requests) => StepView::Ask(requests),
                                        StepView::Failed(e) => StepView::Failed(e),
                                        StepView::Done(shown) => StepView::Done(
                                            PageView::FileOrDir {
                                                relative_path,
                                                hash: shown,
                                                line,
                                                blame: cfg.blame,
                                                is_dir,
                                            },
                                        ),
                                    },
                                }
                            },
                        },
                    }
                }
            },
        }
    }
}

/// The parser: one run's configuration, and Git as that run calls it.
pub struct BrowsePageParser<'a> {
    pub cfg: &'a Config,
    pub git: Git<'a>,
}

impl<'a> BrowsePageParser<'a> {
    pub fn shorten_hash(&self, hash: String) -> (r: String)
        ensures
            r@ == shorten(*self.cfg, hash@),
    {
        if self.cfg.env.short_commit_hash {
            let chars = chars_of(hash.as_str());
            if chars.len() > 7 {
                return string_of(&chars, 0, 7);
            }
        }
        hash
    }

    pub fn wrong_number_of_args(&self, expected: ExpectedNumberOfArgs, kind: &str) -> (e: Box<
        Error,
    >)
        ensures
            e@ == wrong_args(*self.cfg, expected, kind@),
    {
        Error::new(
            ErrorKind::WrongNumberOfArgs {
                expected,
                actual: self.cfg.args.len(),
                kind: kind.to_owned(),
            },
        )
    }

    pub fn try_parse_commit(&self, t: &Transcript) -> (r: Step<Page>)
        ensures
            r@ == commit_page(*self.cfg, self.git@, *t),
    {
        if self.cfg.args.len() != 1 {
            return Step::Failed(
                self.wrong_number_of_args(ExpectedNumberOfArgs::Single(1), "commit"),
            );
        }
        match self.git.hash(t, self.cfg.args[0].as_str()) {
            Step::Ask(requests) => Step::Ask(requests),
            Step::Failed(e) => Step::Failed(e),
            Step::Done(hash) => Step::Done(Page::Commit { hash: self.shorten_hash(hash) }),
        }
    }

    pub fn try_parse_tag(&self, t: &Transcript) -> (r: Step<Page>)
        ensures
            r@ == tag_page(*self.cfg, self.git@, *t),
    {
        if self.cfg.args.len() != 1 {
            return Step::Failed(
                self.wrong_number_of_args(ExpectedNumberOfArgs::Single(1), "tag name"),
            );
        }
        match self.git.tag_hash(t, self.cfg.args[0].as_str()) {
            Step::Ask(requests) => Step::Ask(requests),
            Step::Failed(e) => Step::Failed(e),
            Step::Done(hash) => Step::Done(
                Page::Tag { tagname: self.cfg.args[0].clone(), commit: self.shorten_hash(hash) },
            ),
        }
    }

    pub fn try_parse_diff(&self, t: &Transcript) -> (r: Step<Page>)
        ensures
            r@ == diff_page(*self.cfg, self.git@, *t),
    {
        if self.cfg.args.len() != 1 {
            return Step::Failed(self.wrong_number_of_args(ExpectedNumberOfArgs::Single(1), "diff"));
        }
        let (lhs, rhs, op) = match split_diff(self.cfg.args[0].as_str()) {
            Ok(sides) => sides,
            Err(e) => return Step::Failed(e),
        };
        let left = match self.git.hash(t, lhs.as_str()) {
            Step::Ask(requests) => return Step::Ask(requests),
            Step::Failed(e) => return Step::Failed(e),
            Step::Done(hash) => hash,
        };
        let right = match self.git.hash(t, rhs.as_str()) {
            Step::Ask(requests) => return Step::Ask(requests),
            Step::Failed(e) => return Step::Failed(e),
            Step::Done(hash) => hash,
        };
        Step::Done(
            Page::Diff { lhs: self.shorten_hash(left), rhs: self.shorten_hash(right), op },
        )
    }

    pub fn parse_path_and_line(&self) -> (r: (String, Option<Line>))
        requires
            self.cfg.args@.len() > 0,
        ensures
            (r.0@, r.1) == path_and_line(self.cfg.args@[0]@),
    {
        let arg = chars_of(self.cfg.args[0].as_str());
        let mark = find_char(&arg, '#', 0);
        if mark >= arg.len() {
            return (self.cfg.args[0].clone(), None);
        }
        let path = string_of(&arg, 0, mark);
        let start = skip_letter(&arg, mark + 1);
        let spec: Vec<char> = chars_of(string_of(&arg, start, arg.len()).as_str());
        (path, parse_line(&spec))
    }

    /// The revision to show for a file, given the hash that it resolved to.
    fn revision_to_show(&self, t: &Transcript, hash: String) -> (r: Step<String>)
        ensures
            r@ == shown_revision(*self.cfg, self.git@, *t, hash@),
    {
        let remote_branch = match self.git.remote_branch(t, &self.cfg.remote, &self.cfg.branch) {
            Step::Ask(requests) => return Step::Ask(requests),
            Step::Failed(_) => return Step::Done(self.shorten_hash(hash)),
            Step::Done(remote_branch) => remote_branch,
        };
        let contained = match self.git.remote_contains(t, hash.as_str(), remote_branch.as_str()) {
            Step::Ask(requests) => return Step::Ask(requests),
            Step::Failed(e) => return Step::Failed(e),
            Step::Done(contained) => contained,
        };
        if contained {
            Step::Done(self.shorten_hash(hash))
        } else {
            match &self.cfg.branch {
                Some(branch) => Step::Done(branch.clone()),
                None => self.git.current_branch(t),
            }
        }
    }

    /// The path of the file or directory below the repository's root, as the path library
    /// gives it, where the transcript says where both lie. The path library is asked only
    /// then: without an argument, or where the transcript does not yet place the path that
    /// the first argument names or does not yet tell the repository's root, there is none.
    fn relative_path(&self, t: &Transcript) -> (relative: Option<String>)
        ensures
            self.cfg.args@.len() == 0 ==> relative is None,
            self.cfg.args@.len() > 0 && !(t.spec_place(
                RequestView::Locate { path: path_and_line(self.cfg.args@[0]@).0 },
            ) is Done) ==> relative is None,
            !(self.git@.root_dir(*t) is Done) ==> relative is None,
    {
        if self.cfg.args.len() == 0 {
            return None;
        }
        let (path, _) = self.parse_path_and_line();
        let place = match t.place(Request::Locate { path }) {
            Step::Done(place) => place,
            _ => return None,
        };
        match self.git.root_dir(t) {
            Step::Done(root) => strip_root(place.path.as_str(), root.as_str()),
            _ => None,
        }
    }

    /// Reads the arguments as a file or directory, given what the path library gave for its
    /// path below the repository's root.
    pub fn file_or_dir_page(&self, t: &Transcript, relative: Option<String>) -> (r: Step<Page>)
        ensures
            r@ == file_page(*self.cfg, self.git@, *t, relative.deep_view()),
    {
        let len = self.cfg.args.len();
        if len != 1 && len != 2 {
            return Step::Failed(
                self.wrong_number_of_args(ExpectedNumberOfArgs::Range(1, 2), "file or directory"),
            );
        }
        let (path, line) = self.parse_path_and_line();
        let place = match t.place(Request::Locate { path: path.clone() }) {
            Step::Ask(requests) => return Step::Ask(requests),
            Step::Failed(_) => {
                return match self.git.root_dir(t) {
                    Step::Ask(requests) => Step::Ask(requests),
                    Step::Failed(e) => Step::Failed(e),
                    Step::Done(root) => Step::Failed(
                        Error::new(ErrorKind::FileDirNotInRepo { repo_root: root, path }),
                    ),
                };
            },
            Step::Done(place) => place,
        };
        if place.is_dir && self.cfg.blame {
            return Step::Failed(
                Error::new(ErrorKind::CannotBlameDirectory { dir: place.path }),
            );
        }
        if place.is_dir && line.is_some() {
            return Step::Failed(Error::new(ErrorKind::LineSpecifiedForDir(place.path)));
        }
        let root = match self.git.root_dir(t) {
            Step::Ask(requests) => return Step::Ask(requests),
            Step::Failed(e) => return Step::Failed(e),
            Step::Done(root) => root,
        };
        let relative_path = match relative {
            None => {
                return Step::Failed(
                    Error::new(
                        ErrorKind::FileDirNotInRepo { repo_root: root, path: place.path },
                    ),
                );
            },
            Some(relative_path) => relative_path,
        };
        let hash = if len == 2 {
            self.git.hash(t, self.cfg.args[1].as_str())
        } else {
            self.git.hash(t, "HEAD")
        };
        let hash = match hash {
            Step::Ask(requests) => return Step::Ask(requests),
            Step::Failed(e) => return Step::Failed(e),
            Step::Done(hash) => hash,
        };
        match self.revision_to_show(t, hash) {
            Step::Ask(requests) => Step::Ask(requests),
            Step::Failed(e) => Step::Failed(e),
            Step::Done(shown) => Step::Done(
                Page::FileOrDir {
                    relative_path,
                    hash: shown,
                    line,
                    blame: self.cfg.blame,
                    is_dir: place.is_dir,
                },
            ),
        }
    }

    pub fn try_parse_file_or_dir(&self, t: &Transcript) -> (r: Step<Page>)
        ensures
            exists|relative: Option<Seq<char>>|
                r@ == #[trigger] file_page(*self.cfg, self.git@, *t, relative),
    {
        self.file_or_dir_page(t, self.relative_path(t))
    }

    pub fn try_parse_issue_number(&self) -> (r: Result<Page, Box<Error>>)
        ensures
            result_view(r) == issue_of(*self.cfg),
    {
        if self.cfg.args.len() != 1 {
            return Err(
                self.wrong_number_of_args(ExpectedNumberOfArgs::Single(1), "issue number"),
            );
        }
        let arg = chars_of(self.cfg.args[0].as_str());
        if arg.len() == 0 || arg[0] != '#' {
            return Error::err(ErrorKind::InvalidIssueNumberFormat);
        }
        match parse_number(&arg, 1, arg.len()) {
            Some(number) => Ok(Page::Issue { number }),
            None => Error::err(ErrorKind::InvalidIssueNumberFormat),
        }
    }
}

/// The position after an `L` that stands at `at`, else `at`.
fn skip_letter(s: &Vec<char>, at: usize) -> (r: usize)
    requires
        at <= s.len(),
    ensures
        r == after_letter(s@, at as int),
        at <= r <= s.len(),
{
    if at < s.len() && s[at] == 'L' {
        at + 1
    } else {
        at
    }
}

/// Reads the lines that `spec` names.
pub fn parse_line(spec: &Vec<char>) -> (r: Option<Line>)
    ensures
        r == line_of(spec@),
{
    let dash = find_char(spec, '-', 0);
    if dash < spec.len() {
        let start = match parse_number(spec, 0, dash) {
            Some(start) => start,
            None => return None,
        };
        let from = skip_letter(spec, dash + 1);
        match parse_number(spec, from, spec.len()) {
            Some(end) => Some(Line::Range(start, end)),
            None => Some(Line::At(start)),
        }
    } else {
        assert(spec@ =~= spec@.subrange(0, spec@.len() as int));
        match parse_number(spec, 0, spec.len()) {
            Some(line) => Some(Line::At(line)),
            None => None,
        }
    }
}

/// Cuts a diff into its two sides.
pub fn split_diff(arg: &str) -> (r: Result<(String, String, DiffOp), Box<Error>>)
    ensures
        match r {
            Ok((lhs, rhs, op)) => diff_of(arg@) == Ok::<_, ErrorKindView>((lhs@, rhs@, op)),
            Err(e) => diff_of(arg@) == Err::<(Seq<char>, Seq<char>, DiffOp), _>(e@),
        },
{
    let chars = chars_of(arg);
    let three: Vec<char> = vec!['.', '.', '.'];
    let two: Vec<char> = vec!['.', '.'];
    let (at, op, width) = match find_text(&chars, &three, 0) {
        Some(at) => (at, DiffOp::ThreeDots, 3usize),
        None => match find_text(&chars, &two, 0) {
            Some(at) => (at, DiffOp::TwoDots, 2usize),
            None => return Error::err(ErrorKind::DiffDotsNotFound),
        },
    };
    proof {
        crate::text::lemma_search_from(chars@, op.dots(), 0);
        assert(at + width <= chars.len());
    }
    if at == 0 || at + width == chars.len() {
        return Error::err(ErrorKind::DiffHandIsEmpty { input: arg.to_owned() });
    }
    let lhs = string_of(&chars, 0, at);
    let rhs = string_of(&chars, at + width, chars.len());
    Ok((lhs, rhs, op))
}

/// What is left to try once the arguments name no issue and no file: a diff, then a tag,
/// then a commit. `issue` and `file` are the errors of the attempts made before. Where all
/// three fail too, the error lists the five attempts in the order in which they were made.
pub open spec fn revision_page(
    cfg: Config,
    git: GitView,
    t: Transcript,
    issue: ErrorKindView,
    file: ErrorKindView,
) -> StepView<PageView> {
    match diff_page(cfg, git, t) {
        StepView::Ask(requests) => StepView::Ask(requests),
        StepView::Done(page) => StepView::Done(page),
        StepView::Failed(diff) => match tag_page(cfg, git, t) {
            StepView::Ask(requests) => StepView::Ask(requests),
            StepView::Done(page) => StepView::Done(page),
            StepView::Failed(tag) => match commit_page(cfg, git, t) {
                StepView::Ask(requests) => StepView::Ask(requests),
                StepView::Done(page) => StepView::Done(page),
                StepView::Failed(commit) => StepView::Failed(
                    ErrorKindView::PageParseError {
                        args: cfg.args.deep_view(),
                        attempts: seq![
                            ("Issue number"@, issue),
                            ("File or dir"@, file),
                            ("Diff"@, diff),
                            ("Tag"@, tag),
                            ("Commit"@, commit),
                        ],
                    },
                ),
            },
        },
    }
}

/// The page that a run asks for.
///
/// With the website or pull-request flag, or without arguments, it is the repository
/// itself; blame is then an error, for want of a file. Else the arguments are read as an
/// issue, a file or directory, a diff, a tag and a commit, in this order, and the first
/// reading that succeeds decides. Blame of a directory ends the parse; with blame, so does
/// any other failure to read a file.
///
/// `relative` is what the path library gave for the path below the repository's root.
pub open spec fn spec_parse_page(
    cfg: Config,
    t: Transcript,
    relative: Option<Seq<char>>,
) -> StepView<PageView> {
    if cfg.args@.len() == 0 || cfg.website || cfg.pull_request {
        if cfg.blame {
            StepView::Failed(ErrorKindView::BlameWithoutFilePath)
        } else {
            StepView::Done(
                PageView::Open { website: cfg.website, pull_request: cfg.pull_request },
            )
        }
    } else {
        match issue_of(cfg) {
            Ok(page) => StepView::Done(page),
            Err(issue) => match file_page(cfg, cfg.spec_git(), t, relative) {
                StepView::Ask(requests) => StepView::Ask(requests),
                StepView::Done(page) => StepView::Done(page),
                StepView::Failed(file) => {
                    if file is CannotBlameDirectory {
                        StepView::Failed(file)
                    } else if cfg.blame {
                        StepView::Failed(ErrorKindView::BlameWithoutFilePath)
                    } else {
                        revision_page(cfg, cfg.spec_git(), t, issue, file)
                    }
                },
            },
        }
    }
}

/// Decides which page a run asks for, given what the path library gave for a file's path
/// below the repository's root.
pub fn parse_page_with(cfg: &Config, t: &Transcript, relative: Option<String>) -> (r: Step<Page>)
    ensures
        r@ == spec_parse_page(*cfg, *t, relative.deep_view()),
{
    if cfg.args.len() == 0 || cfg.website || cfg.pull_request {
        if cfg.blame {
            return Step::Failed(Error::new(ErrorKind::BlameWithoutFilePath));
        }
        return Step::Done(Page::Open { website: cfg.website, pull_request: cfg.pull_request });
    }
    let parser = BrowsePageParser { cfg, git: cfg.git() };
    let mut attempts: Vec<(&'static str, Error)> = Vec::new();
    match parser.try_parse_issue_number() {
        Ok(page) => return Step::Done(page),
        Err(e) => attempts.push(("Issue number", *e)),
    }
    match parser.file_or_dir_page(t, relative) {
        Step::Ask(requests) => return Step::Ask(requests),
        Step::Done(page) => return Step::Done(page),
        Step::Failed(e) => {
            let ends_here = match e.kind() {
                ErrorKind::CannotBlameDirectory { .. } => true,
                _ => false,
            };
            if ends_here {
                return Step::Failed(e);
            }
            if cfg.blame {
                return Step::Failed(Error::new(ErrorKind::BlameWithoutFilePath));
            }
            attempts.push(("File or dir", *e));
        },
    }
    let ghost issue = attempts@[0].1@;
    let ghost file = attempts@[1].1@;
    let r = match parser.try_parse_diff(t) {
        Step::Ask(requests) => Step::Ask(requests),
        Step::Done(page) => Step::Done(page),
        Step::Failed(e) => {
            attempts.push(("Diff", *e));
            match parser.try_parse_tag(t) {
                Step::Ask(requests) => Step::Ask(requests),
                Step::Done(page) => Step::Done(page),
                Step::Failed(e) => {
                    attempts.push(("Tag", *e));
                    match parser.try_parse_commit(t) {
                        Step::Ask(requests) => Step::Ask(requests),
                        Step::Done(page) => Step::Done(page),
                        Step::Failed(e) => {
                            attempts.push(("Commit", *e));
                            proof {
                                lemma_attempts_view(attempts@);
                                assert(attempts_view(attempts@) =~= seq![
                                    ("Issue number"@, issue),
                                    ("File or dir"@, file),
                                    ("Diff"@, attempts@[2].1@),
                                    ("Tag"@, attempts@[3].1@),
                                    ("Commit"@, attempts@[4].1@),
                                ]);
                            }
                            Step::Failed(
                                Error::new(
                                    ErrorKind::PageParseError {
                                        args: copy_texts(&cfg.args),
                                        attempts,
                                    },
                                ),
                            )
                        },
                    }
                },
            }
        },
    };
    r
}

/// Decides which page a run asks for, as far as the transcript lets it.
pub fn parse_page(cfg: &Config, t: &Transcript) -> (r: Step<Page>)
    ensures
        exists|relative: Option<Seq<char>>| r@ == #[trigger] spec_parse_page(*cfg, *t, relative),
        cfg.args@.len() != 1 && cfg.args@.len() != 2 || cfg.website || cfg.pull_request || issue_of(
            *cfg,
        ) is Ok ==> r@ == spec_parse_page(*cfg, *t, None),
        asks_afresh(r@, *t),
{
    let parser = BrowsePageParser { cfg, git: cfg.git() };
    let relative = parser.relative_path(t);
    let ghost given = relative.deep_view();
    let r = parse_page_with(cfg, t, relative);
    proof {
        lemma_parse_page_asks_afresh(*cfg, *t, given);
    }
    r
}

/// A single argument that is `#` followed by digits names an issue, whatever the
/// surroundings answer, as long as neither the website nor a pull request is asked for and
/// the number fits in `usize`.
pub proof fn lemma_issue_is_parsed(cfg: Config, t: Transcript, relative: Option<Seq<char>>)
    requires
        cfg.args@.len() == 1,
        !cfg.website && !cfg.pull_request,
        cfg.args@[0]@.len() > 1,
        cfg.args@[0]@[0] == '#',
        crate::text::all_digits(cfg.args@[0]@.skip(1)),
        crate::text::digits_value(cfg.args@[0]@.skip(1)) <= usize::MAX,
    ensures
        spec_parse_page(cfg, t, relative) == StepView::Done(
            PageView::Issue {
                number: crate::text::digits_value(cfg.args@[0]@.skip(1)) as usize,
            },
        ),
{
}

/// A diff is read by its dots. An argument that holds three dots in a row is cut at the
/// first three; one that holds two in a row and never three is cut at the first two. What
/// stands before and after the dots is never empty: an argument with an empty side is
/// refused, and so is one without dots.
pub proof fn lemma_diff_is_read_by_its_dots(arg: Seq<char>)
    ensures
        (exists|i: int| crate::text::occurs_at(arg, DiffOp::ThreeDots.dots(), i)) ==> (diff_of(arg)
            matches Ok((_, _, op)) ==> op == DiffOp::ThreeDots),
        (exists|i: int| crate::text::occurs_at(arg, DiffOp::TwoDots.dots(), i)) && !(exists|i: int|
            crate::text::occurs_at(arg, DiffOp::ThreeDots.dots(), i)) ==> (diff_of(arg) matches Ok(
            (_, _, op),
        ) ==> op == DiffOp::TwoDots),
        !(exists|i: int| crate::text::occurs_at(arg, DiffOp::TwoDots.dots(), i)) ==> diff_of(arg)
            == Err::<(Seq<char>, Seq<char>, DiffOp), _>(ErrorKindView::DiffDotsNotFound),
        (exists|i: int| crate::text::occurs_at(arg, DiffOp::TwoDots.dots(), i)) ==> (diff_of(arg)
            is Ok || diff_of(arg) == Err::<(Seq<char>, Seq<char>, DiffOp), _>(
            ErrorKindView::DiffHandIsEmpty { input: arg },
        )),
        diff_of(arg) matches Ok((lhs, rhs, op)) ==> lhs.len() > 0 && rhs.len() > 0 && arg == lhs
            + op.dots() + rhs && crate::text::search(arg, op.dots()) == Some(lhs.len() as int),
{
    let three = DiffOp::ThreeDots.dots();
    let two = DiffOp::TwoDots.dots();
    crate::text::lemma_search_from(arg, three, 0);
    crate::text::lemma_search_from(arg, two, 0);
    assert forall|i: int| crate::text::occurs_at(arg, three, i) implies crate::text::occurs_at(
        arg,
        two,
        i,
    ) by {
        assert(arg.subrange(i, i + 2) =~= arg.subrange(i, i + 3).subrange(0, 2));
        assert(three.subrange(0, 2) =~= two);
    }
    match diff_of(arg) {
        Ok((lhs, rhs, op)) => {
            let at = search(arg, op.dots())->0;
            assert(arg =~= arg.take(at) + arg.subrange(at, at + op.dots().len()) + arg.skip(
                at + op.dots().len(),
            ));
        },
        Err(_) => {},
    }
}

/// The mark that begins the lines behind a path: `#`, or `#L`.
pub open spec fn line_mark(letter: bool) -> Seq<char> {
    if letter {
        seq!['#', 'L']
    } else {
        seq!['#']
    }
}

/// What stands between the two numbers of a range: `-`, or `-L`.
pub open spec fn range_mark(letter: bool) -> Seq<char> {
    if letter {
        seq!['-', 'L']
    } else {
        seq!['-']
    }
}

/// How a line or a range of lines is written: the number, or two numbers with a range mark
/// between them.
pub open spec fn line_text(line: Line, letter: bool) -> Seq<char> {
    match line {
        Line::At(line) => decimal(line as nat),
        Line::Range(start, end) => decimal(start as nat) + range_mark(letter) + decimal(
            end as nat,
        ),
    }
}

/// What `line_text` writes begins with a digit, and is read as the line that was written.
pub proof fn lemma_line_is_read(line: Line, letter: bool)
    ensures
        line_text(line, letter).len() > 0,
        is_digit(line_text(line, letter)[0]),
        line_of(line_text(line, letter)) == Some(line),
{
    match line {
        Line::At(at) => {
            let spec = decimal(at as nat);
            lemma_decimal_reads_back(at as nat);
            assert forall|j: int| 0 <= j < spec.len() implies spec[j] != '-' by {}
            lemma_index_absent(spec, '-', 0);
        },
        Line::Range(start, end) => {
            let one = decimal(start as nat);
            let two = decimal(end as nat);
            let between = range_mark(letter);
            let spec = one + between + two;
            lemma_decimal_reads_back(start as nat);
            lemma_decimal_reads_back(end as nat);
            let dash = one.len() as int;
            let from = dash + between.len();
            assert forall|j: int| 0 <= j < dash implies spec[j] != '-' by {}
            lemma_index_is(spec, '-', 0, dash);
            assert(spec.take(dash) =~= one);
            assert(spec.skip(from) =~= two);
        },
    }
}

/// Where `path` holds no `#` and `lines` does not begin with `L`, the argument
/// `path#lines`, or `path#Llines`, is read as `path` with the lines that `lines` names.
pub proof fn lemma_path_is_cut_at_mark(path: Seq<char>, lines: Seq<char>, letter: bool)
    requires
        forall|i: int| 0 <= i < path.len() ==> path[i] != '#',
        lines.len() > 0 ==> lines[0] != 'L',
    ensures
        path_and_line(path + line_mark(letter) + lines) == (path, line_of(lines)),
{
    let mark_text = line_mark(letter);
    let arg = path + mark_text + lines;
    let mark = path.len() as int;
    let start = mark + mark_text.len();
    assert forall|j: int| 0 <= j < mark implies arg[j] != '#' by {}
    lemma_index_is(arg, '#', 0, mark);
    assert(arg.skip(start) =~= lines);
}

/// A path without `#` is read as it stands, with no line.
pub proof fn lemma_plain_path_is_read(path: Seq<char>)
    requires
        forall|i: int| 0 <= i < path.len() ==> path[i] != '#',
    ensures
        path_and_line(path) == (path, None::<Line>),
{
    lemma_index_absent(path, '#', 0);
}

/// A path without `#`, followed by `#` or `#L` and a line or a range of lines in any of
/// their written forms, is read as the path and those lines.
pub proof fn lemma_path_and_line_are_read(
    path: Seq<char>,
    line: Line,
    first_letter: bool,
    second_letter: bool,
)
    requires
        forall|i: int| 0 <= i < path.len() ==> path[i] != '#',
    ensures
        path_and_line(path + line_mark(first_letter) + line_text(line, second_letter)) == (
            path,
            Some(line),
        ),
{
    lemma_line_is_read(line, second_letter);
    lemma_path_is_cut_at_mark(path, line_text(line, second_letter), first_letter);
}

/// A file that exists in the repository is the page that its argument names: its path
/// below the repository's root as the path library gave it, the lines that the argument
/// names, and the revision that Git resolved and the remote holds.
pub proof fn lemma_file_is_parsed(
    cfg: Config,
    git: GitView,
    t: Transcript,
    relative: Seq<char>,
    found: Seq<char>,
    hash: Seq<char>,
    shown: Seq<char>,
)
    requires
        cfg.args@.len() == 1 || cfg.args@.len() == 2,
        t.spec_place(RequestView::Locate { path: path_and_line(cfg.args@[0]@).0 })
            == StepView::Done((found, false)),
        git.root_dir(t) is Done,
        git.hash(
            t,
            if cfg.args@.len() == 2 {
                cfg.args@[1]@
            } else {
                "HEAD"@
            },
        ) == StepView::Done(hash),
        shown_revision(cfg, git, t, hash) == StepView::Done(shown),
    ensures
        file_page(cfg, git, t, Some(relative)) == StepView::Done(
            PageView::FileOrDir {
                relative_path: relative,
                hash: shown,
                line: path_and_line(cfg.args@[0]@).1,
                blame: cfg.blame,
                is_dir: false,
            },
        ),
{
}

/// A path that is not on disk, and one that is found outside the repository, are refused
/// alike: where the repository's root is known, the reading as a file or directory fails
/// with `FileDirNotInRepo`, whatever else the surroundings answer.
pub proof fn lemma_path_must_lie_in_the_repository(
    cfg: Config,
    git: GitView,
    t: Transcript,
    relative: Option<Seq<char>>,
    root: Seq<char>,
    found: Seq<char>,
)
    requires
        cfg.args@.len() == 1 || cfg.args@.len() == 2,
        git.root_dir(t) == StepView::Done(root),
    ensures
        t.spec_place(RequestView::Locate { path: path_and_line(cfg.args@[0]@).0 }) is Failed
            ==> file_page(cfg, git, t, relative) == StepView::<PageView>::Failed(
            ErrorKindView::FileDirNotInRepo {
                repo_root: root,
                path: path_and_line(cfg.args@[0]@).0,
            },
        ),
        t.spec_place(RequestView::Locate { path: path_and_line(cfg.args@[0]@).0 })
            == StepView::Done((found, false)) ==> file_page(cfg, git, t, None) == StepView::<
            PageView,
        >::Failed(ErrorKindView::FileDirNotInRepo { repo_root: root, path: found }),
        file_page(cfg, git, t, relative) is Done ==> relative is Some && t.spec_place(
            RequestView::Locate { path: path_and_line(cfg.args@[0]@).0 },
        ) is Done,
{
}

/// A directory takes no line: where the argument names a directory and lines, and blame is
/// not asked for, the reading as a file or directory fails with `LineSpecifiedForDir`,
/// whatever else the surroundings answer.
pub proof fn lemma_directory_takes_no_line(
    cfg: Config,
    git: GitView,
    t: Transcript,
    relative: Option<Seq<char>>,
    found: Seq<char>,
)
    requires
        cfg.args@.len() == 1 || cfg.args@.len() == 2,
        !cfg.blame,
        path_and_line(cfg.args@[0]@).1 is Some,
        t.spec_place(RequestView::Locate { path: path_and_line(cfg.args@[0]@).0 })
            == StepView::Done((found, true)),
    ensures
        file_page(cfg, git, t, relative) == StepView::<PageView>::Failed(
            ErrorKindView::LineSpecifiedForDir(found),
        ),
{
}

/// Each reading of the arguments asks afresh.
pub proof fn lemma_readings_ask_afresh(cfg: Config, git: GitView, t: Transcript)
    ensures
        asks_afresh(commit_page(cfg, git, t), t),
        asks_afresh(tag_page(cfg, git, t), t),
        asks_afresh(diff_page(cfg, git, t), t),
        forall|hash: Seq<char>| asks_afresh(#[trigger] shown_revision(cfg, git, t, hash), t),
        forall|relative: Option<Seq<char>>|
            asks_afresh(#[trigger] file_page(cfg, git, t, relative), t),
        forall|issue: ErrorKindView, file: ErrorKindView|
            asks_afresh(#[trigger] revision_page(cfg, git, t, issue, file), t),
{
    lemma_git_asks_afresh(git, t);
    assert forall|path: Seq<char>|
        asks_afresh(#[trigger] t.spec_place(RequestView::Locate { path }), t) by {
        lemma_lookups_ask_afresh(t, RequestView::Locate { path });
    }
}

/// The parser asks afresh: for something, and for nothing that the transcript answers.
pub proof fn lemma_parse_page_asks_afresh(
    cfg: Config,
    t: Transcript,
    relative: Option<Seq<char>>,
)
    ensures
        asks_afresh(spec_parse_page(cfg, t, relative), t),
{
    lemma_readings_ask_afresh(cfg, cfg.spec_git(), t);
}

/// What the parser decides is well formed. A directory has no lines and is not blamed; a
/// file or directory is blamed exactly when blame is asked for, and the repository itself
/// never is; the dots of a diff are those that its argument is cut at; and where short
/// hashes are asked for, no hash of a commit, a diff or a tag is longer than seven
/// characters.
pub proof fn lemma_parsed_page_is_well_formed(
    cfg: Config,
    t: Transcript,
    relative: Option<Seq<char>>,
)
    ensures
        match spec_parse_page(cfg, t, relative) {
            StepView::Done(PageView::Open { website, pull_request }) => !cfg.blame && website
                == cfg.website && pull_request == cfg.pull_request,
            StepView::Done(PageView::FileOrDir { line, blame, is_dir, relative_path, .. }) => {
                &&& blame == cfg.blame
                &&& is_dir ==> line is None && !blame
                &&& line == path_and_line(cfg.args@[0]@).1
                &&& relative == Some(relative_path)
            },
            StepView::Done(PageView::Diff { lhs, rhs, op }) => {
                &&& (diff_of(cfg.args@[0]@) matches Ok((_, _, dots)) && dots == op)
                &&& cfg.env.short_commit_hash ==> lhs.len() <= 7 && rhs.len() <= 7
            },
            StepView::Done(PageView::Commit { hash }) => cfg.env.short_commit_hash ==> hash.len()
                <= 7,
            StepView::Done(PageView::Tag { tagname, commit }) => {
                &&& tagname == cfg.args@[0]@
                &&& cfg.env.short_commit_hash ==> commit.len() <= 7
            },
            StepView::Done(PageView::Issue { number }) => issue_of(cfg) == Ok::<_, ErrorKindView>(
                PageView::Issue { number },
            ),
            _ => true,
        },
{
}

/// Where every reading fails, the error lists all five attempts in the order in which they
/// were made, with the arguments as they were given. With more than two arguments, each
/// attempt fails on their number.
pub proof fn lemma_every_attempt_is_listed(
    cfg: Config,
    t: Transcript,
    relative: Option<Seq<char>>,
)
    ensures
        spec_parse_page(cfg, t, relative) matches StepView::Failed(
            ErrorKindView::PageParseError { args, attempts },
        ) ==> {
            &&& args == cfg.args.deep_view()
            &&& attempts.len() == 5
            &&& attempts[0].0 == "Issue number"@
            &&& attempts[1].0 == "File or dir"@
            &&& attempts[2].0 == "Diff"@
            &&& attempts[3].0 == "Tag"@
            &&& attempts[4].0 == "Commit"@
            &&& issue_of(cfg) == Err::<PageView, _>(attempts[0].1)
            &&& file_page(cfg, cfg.spec_git(), t, relative) == StepView::<PageView>::Failed(
                attempts[1].1,
            )
            &&& diff_page(cfg, cfg.spec_git(), t) == StepView::<PageView>::Failed(attempts[2].1)
            &&& tag_page(cfg, cfg.spec_git(), t) == StepView::<PageView>::Failed(attempts[3].1)
            &&& commit_page(cfg, cfg.spec_git(), t) == StepView::<PageView>::Failed(attempts[4].1)
        },
        cfg.args@.len() > 2 && !cfg.website && !cfg.pull_request && !cfg.blame ==> {
            &&& spec_parse_page(cfg, t, relative) matches StepView::Failed(
                ErrorKindView::PageParseError { attempts, .. },
            )
            &&& forall|i: int|
                0 <= i < 5 ==> ((#[trigger] attempts[i]).1
                    matches ErrorKindView::WrongNumberOfArgs { actual, .. } && actual
                    == cfg.args@.len() as usize)
        },
{
}

/// Without arguments, or with the website or pull-request flag, the page is the repository
/// itself, whatever the surroundings answer and whatever the arguments are; with blame,
/// which needs a file, it is an error.
pub proof fn lemma_flags_open_the_repository(
    cfg: Config,
    t: Transcript,
    relative: Option<Seq<char>>,
)
    requires
        cfg.args@.len() == 0 || cfg.website || cfg.pull_request,
    ensures
        !cfg.blame ==> spec_parse_page(cfg, t, relative) == StepView::Done(
            PageView::Open { website: cfg.website, pull_request: cfg.pull_request },
        ),
        cfg.blame ==> spec_parse_page(cfg, t, relative) == StepView::<PageView>::Failed(
            ErrorKindView::BlameWithoutFilePath,
        ),
{
}

/// What the path library gives counts only where the arguments are read as a file or
/// directory that lies somewhere, in a repository whose root is known: everywhere else the
/// parser decides the same whatever it gives.
pub proof fn lemma_relative_path_counts_for_files_only(
    cfg: Config,
    t: Transcript,
    one: Option<Seq<char>>,
    other: Option<Seq<char>>,
)
    requires
        cfg.args@.len() != 1 && cfg.args@.len() != 2 || cfg.website || cfg.pull_request || issue_of(
            cfg,
        ) is Ok || !(t.spec_place(RequestView::Locate { path: path_and_line(cfg.args@[0]@).0 })
            is Done) || !(cfg.spec_git().root_dir(t) is Done),
    ensures
        spec_parse_page(cfg, t, one) == spec_parse_page(cfg, t, other),
{
}

} // verus!
