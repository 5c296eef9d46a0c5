//! The errors of this library, tagged by kind.

use crate::text::{decimal, push_decimal};
use vstd::prelude::*;

verus! {

/// How many arguments an interpretation of the command line takes.
#[derive(Debug, Clone, Copy, PartialEq, Eq, Structural)]
pub enum ExpectedNumberOfArgs {
    Single(usize),
    Range(usize, usize),
}

/// Why no URL could be built.
#[derive(Debug)]
#[allow(inconsistent_fields)]
pub enum ErrorKind {
    /// The repository given on the command line has no known form.
    BrokenRepoFormat { input: String },
    /// The command line could not be parsed.
    CliParseFail { msg: String },
    /// The browser could not be started.
    OpenUrlFailure { url: String, msg: String },
    /// GitLab compares with three dots only.
    GitLabDiffNotSupported,
    /// Bitbucket has no page that compares two commits.
    BitbucketDiffNotSupported,
    /// Azure DevOps has no such page.
    AzureDevOpsNotSupported,
    /// The repository URL's path names no user.
    NoUserInPath { path: String },
    /// The repository URL's path names no repository.
    NoRepoInPath { path: String },
    /// The repository URL's host belongs to no known service.
    UnknownHostingService { url: String },
    /// The repository URL cannot be read, or has no host.
    BrokenUrl { url: String, msg: String },
    /// The service has no pull requests.
    PullReqNotSupported { service: String },
    /// The GitHub API answered with another status than 200.
    GitHubStatusFailure { status: u16, reason: String, msg: String },
    /// A network request failed.
    HttpClientError { msg: String },
    /// A file or a process could not be reached.
    IoError { msg: String },
    /// Git ended with a failure.
    GitCommandError { stderr: String, args: Vec<String> },
    /// A tracking branch's name has no remote in it.
    UnexpectedRemoteName(String),
    /// Git knows no such commit, tag or remote.
    GitObjectNotFound { kind: &'static str, object: String, msg: String },
    /// The directory lies in no repository.
    GitRootDirNotFound { cwd: String, stderr: String },
    /// An interpretation takes another number of arguments.
    WrongNumberOfArgs { expected: ExpectedNumberOfArgs, actual: usize, kind: String },
    /// The argument holds neither `..` nor `...`.
    DiffDotsNotFound,
    /// Nothing stands on one side of the dots.
    DiffHandIsEmpty { input: String },
    /// The path lies outside the repository.
    FileDirNotInRepo { repo_root: String, path: String },
    /// No interpretation of the arguments succeeded; every attempt is listed, in order.
    PageParseError { args: Vec<String>, attempts: Vec<(&'static str, Error)> },
    /// The argument is not `#` followed by digits.
    InvalidIssueNumberFormat,
    /// A line was given for a directory.
    LineSpecifiedForDir(String),
    /// The environment could not be read.
    EnvLoadError { msg: String },
    /// The operation needs a local repository.
    NoLocalRepoFound { operation: String },
    /// The search found no repository.
    NoSearchResult { query: String },
    /// The flag takes no further arguments.
    ArgsNotAllowed { flag: &'static str, args: Vec<String> },
    /// GitHub Enterprise answers only with a token.
    GheTokenRequired,
    /// Blame was asked for without a file.
    BlameWithoutFilePath,
    /// Blame was asked for a directory.
    CannotBlameDirectory { dir: String },
    /// The configured browse command failed.
    UserBrowseCommandFailed { cmd: String, url: String, msg: String },
    /// The directory given on the command line does not exist.
    SpecifiedDirNotExist { dir: String },
    /// The branch name is empty.
    BranchNameEmpty,
    /// The user or organization name is not valid.
    InvalidUser { name: String },
}

/// An `ErrorKind` with its texts as sequences of characters.
pub enum ErrorKindView {
    BrokenRepoFormat { input: Seq<char> },
    CliParseFail { msg: Seq<char> },
    OpenUrlFailure { url: Seq<char>, msg: Seq<char> },
    GitLabDiffNotSupported,
    BitbucketDiffNotSupported,
    AzureDevOpsNotSupported,
    NoUserInPath { path: Seq<char> },
    NoRepoInPath { path: Seq<char> },
    UnknownHostingService { url: Seq<char> },
    BrokenUrl { url: Seq<char>, msg: Seq<char> },
    PullReqNotSupported { service: Seq<char> },
    GitHubStatusFailure { status: u16, reason: Seq<char>, msg: Seq<char> },
    HttpClientError { msg: Seq<char> },
    IoError { msg: Seq<char> },
    GitCommandError { stderr: Seq<char>, args: Seq<Seq<char>> },
    UnexpectedRemoteName(Seq<char>),
    GitObjectNotFound { kind: Seq<char>, object: Seq<char>, msg: Seq<char> },
    GitRootDirNotFound { cwd: Seq<char>, stderr: Seq<char> },
    WrongNumberOfArgs { expected: ExpectedNumberOfArgs, actual: usize, kind: Seq<char> },
    DiffDotsNotFound,
    DiffHandIsEmpty { input: Seq<char> },
    FileDirNotInRepo { repo_root: Seq<char>, path: Seq<char> },
    PageParseError { args: Seq<Seq<char>>, attempts: Seq<(Seq<char>, ErrorKindView)> },
    InvalidIssueNumberFormat,
    LineSpecifiedForDir(Seq<char>),
    EnvLoadError { msg: Seq<char> },
    NoLocalRepoFound { operation: Seq<char> },
    NoSearchResult { query: Seq<char> },
    ArgsNotAllowed { flag: Seq<char>, args: Seq<Seq<char>> },
    GheTokenRequired,
    BlameWithoutFilePath,
    CannotBlameDirectory { dir: Seq<char> },
    UserBrowseCommandFailed { cmd: Seq<char>, url: Seq<char>, msg: Seq<char> },
    SpecifiedDirNotExist { dir: Seq<char> },
    BranchNameEmpty,
    InvalidUser { name: Seq<char> },
}

/// The attempts of a failed parse, each with the view of its error.
pub open spec fn attempts_view(attempts: Seq<(&'static str, Error)>) -> Seq<
    (Seq<char>, ErrorKindView),
>
    decreases attempts,
{
    if attempts.len() == 0 {
        Seq::empty()
    } else {
        attempts_view(attempts.drop_last()).push(
            (attempts.last().0@, attempts.last().1.kind.view()),
        )
    }
}

/// `attempts_view` keeps the length and the order.
pub proof fn lemma_attempts_view(attempts: Seq<(&'static str, Error)>)
    ensures
        attempts_view(attempts).len() == attempts.len(),
        forall|i: int|
            0 <= i < attempts.len() ==> #[trigger] attempts_view(attempts)[i] == (
                attempts[i].0@,
                attempts[i].1@,
            ),
    decreases attempts.len(),
{
    reveal_with_fuel(attempts_view, 2);
    if attempts.len() > 0 {
        lemma_attempts_view(attempts.drop_last());
    }
}

impl View for ErrorKind {
    type V = ErrorKindView;

    open spec fn view(&self) -> ErrorKindView
        decreases self,
    {
        match self {
            ErrorKind::BrokenRepoFormat { input } => ErrorKindView::BrokenRepoFormat {
                input: input@,
            },
            ErrorKind::CliParseFail { msg } => ErrorKindView::CliParseFail { msg: msg@ },
            ErrorKind::OpenUrlFailure { url, msg } => ErrorKindView::OpenUrlFailure {
                url: url@,
                msg: msg@,
            },
            ErrorKind::GitLabDiffNotSupported => ErrorKindView::GitLabDiffNotSupported,
            ErrorKind::BitbucketDiffNotSupported => ErrorKindView::BitbucketDiffNotSupported,
            ErrorKind::AzureDevOpsNotSupported => ErrorKindView::AzureDevOpsNotSupported,
            ErrorKind::NoUserInPath { path } => ErrorKindView::NoUserInPath { path: path@ },
            ErrorKind::NoRepoInPath { path } => ErrorKindView::NoRepoInPath { path: path@ },
            ErrorKind::UnknownHostingService { url } => ErrorKindView::UnknownHostingService {
                url: url@,
            },
            ErrorKind::BrokenUrl { url, msg } => ErrorKindView::BrokenUrl { url: url@, msg: msg@ },
            ErrorKind::PullReqNotSupported { service } => ErrorKindView::PullReqNotSupported {
                service: service@,
            },
            ErrorKind::GitHubStatusFailure { status, reason, msg } => {
                ErrorKindView::GitHubStatusFailure {
                    status: *status,
                    reason: reason@,
                    msg: msg@,
                }
            },
            ErrorKind::HttpClientError { msg } => ErrorKindView::HttpClientError { msg: msg@ },
            ErrorKind::IoError { msg } => ErrorKindView::IoError { msg: msg@ },
            ErrorKind::GitCommandError { stderr, args } => ErrorKindView::GitCommandError {
                stderr: stderr@,
                args: args.deep_view(),
            },
            ErrorKind::UnexpectedRemoteName(text) => ErrorKindView::UnexpectedRemoteName(text@),
            ErrorKind::GitObjectNotFound { kind, object, msg } => ErrorKindView::GitObjectNotFound {
                kind: kind@,
                object: object@,
                msg: msg@,
            },
            ErrorKind::GitRootDirNotFound { cwd, stderr } => ErrorKindView::GitRootDirNotFound {
                cwd: cwd@,
                stderr: stderr@,
            },
            ErrorKind::WrongNumberOfArgs { expected, actual, kind } => ErrorKindView::WrongNumberOfArgs {
                expected: *expected,
                actual: *actual,
                kind: kind@,
            },
            ErrorKind::DiffDotsNotFound => ErrorKindView::DiffDotsNotFound,
            ErrorKind::DiffHandIsEmpty { input } => ErrorKindView::DiffHandIsEmpty {
                input: input@,
            },
            ErrorKind::FileDirNotInRepo { repo_root, path } => ErrorKindView::FileDirNotInRepo {
                repo_root: repo_root@,
                path: path@,
            },
            ErrorKind::PageParseError { args, attempts } => ErrorKindView::PageParseError {
                args: args.deep_view(),
                attempts: attempts_view(attempts@),
            },
            ErrorKind::InvalidIssueNumberFormat => ErrorKindView::InvalidIssueNumberFormat,
            ErrorKind::LineSpecifiedForDir(text) => ErrorKindView::LineSpecifiedForDir(text@),
            ErrorKind::EnvLoadError { msg } => ErrorKindView::EnvLoadError { msg: msg@ },
            ErrorKind::NoLocalRepoFound { operation } => ErrorKindView::NoLocalRepoFound {
                operation: operation@,
            },
            ErrorKind::NoSearchResult { query } => ErrorKindView::NoSearchResult { query: query@ },
            ErrorKind::ArgsNotAllowed { flag, args } => ErrorKindView::ArgsNotAllowed {
                flag: flag@,
                args: args.deep_view(),
            },
            ErrorKind::GheTokenRequired => ErrorKindView::GheTokenRequired,
            ErrorKind::BlameWithoutFilePath => ErrorKindView::BlameWithoutFilePath,
            ErrorKind::CannotBlameDirectory { dir } => ErrorKindView::CannotBlameDirectory {
                dir: dir@,
            },
            ErrorKind::UserBrowseCommandFailed { cmd, url, msg } => ErrorKindView::UserBrowseCommandFailed {
                cmd: cmd@,
                url: url@,
                msg: msg@,
            },
            ErrorKind::SpecifiedDirNotExist { dir } => ErrorKindView::SpecifiedDirNotExist {
                dir: dir@,
            },
            ErrorKind::BranchNameEmpty => ErrorKindView::BranchNameEmpty,
            ErrorKind::InvalidUser { name } => ErrorKindView::InvalidUser { name: name@ },
        }
    }
}

/// What the `{:?}` format writes for a text: the text between double quotes, with the
/// characters escaped that a Rust string literal would escape.
pub uninterp spec fn debug_text(text: Seq<char>) -> Seq<char>;

/// Formats `text` with `{:?}`, which is `<str as Debug>::fmt`. Nothing is claimed of the
/// result but that it is the same for the same text.
#[verifier::external_body]
fn quoted(text: &str) -> (r: String)
    ensures
        r@ == debug_text(text@),
{
    format!("{:?}", text)
}

/// A list as the `{:?}` format begins it: the opening bracket and the items, each as
/// `debug_text` writes it, with a comma and a space between them.
pub open spec fn debug_list_begun(items: Seq<Seq<char>>) -> Seq<char>
    decreases items.len(),
{
    if items.len() == 0 {
        "["@
    } else if items.len() == 1 {
        "["@ + debug_text(items[0])
    } else {
        debug_list_begun(items.drop_last()) + ", "@ + debug_text(items.last())
    }
}

/// What the `{:?}` format writes for a list of texts: the items between brackets, each as
/// `debug_text` writes it, with a comma and a space between them.
pub open spec fn debug_list(items: Seq<Seq<char>>) -> Seq<char> {
    debug_list_begun(items) + "]"@
}

/// Writes `items` as the `{:?}` format writes a list.
fn quoted_list(items: &Vec<String>) -> (r: String)
    ensures
        r@ == debug_list(items.deep_view()),
{
    let ghost all = items.deep_view();
    let mut out = "[".to_owned();
    let mut i: usize = 0;
    while i < items.len()
        invariant
            i <= items.len(),
            all == items.deep_view(),
            out@ == debug_list_begun(all.take(i as int)),
        decreases items.len() - i,
    {
        if i > 0 {
            out.append(", ");
        }
        out.append(quoted(items[i].as_str()).as_str());
        proof {
            let part = all.take(i + 1);
            assert(part.drop_last() =~= all.take(i as int));
            assert(part.last() == items@[i as int]@);
        }
        i += 1;
    }
    assert(all.take(items.len() as int) =~= all);
    out.append("]");
    out
}

/// How an expected number of arguments reads in a message: `1`, or `1..2`.
pub open spec fn expected_text(expected: ExpectedNumberOfArgs) -> Seq<char> {
    match expected {
        ExpectedNumberOfArgs::Single(n) => decimal(n as nat),
        ExpectedNumberOfArgs::Range(min, max) => decimal(min as nat) + ".."@ + decimal(max as nat),
    }
}

fn push_expected(out: &mut String, expected: ExpectedNumberOfArgs)
    ensures
        final(out)@ == old(out)@ + expected_text(expected),
{
    match expected {
        ExpectedNumberOfArgs::Single(n) => push_decimal(out, n),
        ExpectedNumberOfArgs::Range(min, max) => {
            push_decimal(out, min);
            out.append("..");
            push_decimal(out, max);
        },
    }
}

/// The arguments of a command as a message shows them: each between single quotes, after a
/// space.
pub open spec fn args_text(args: Seq<Seq<char>>) -> Seq<char>
    decreases args.len(),
{
    if args.len() == 0 {
        Seq::empty()
    } else {
        args_text(args.drop_last()) + " '"@ + args.last() + "'"@
    }
}

fn push_args(out: &mut String, args: &Vec<String>)
    ensures
        final(out)@ == old(out)@ + args_text(args.deep_view()),
{
    let ghost all = args.deep_view();
    let mut i: usize = 0;
    while i < args.len()
        invariant
            i <= args.len(),
            all == args.deep_view(),
            out@ == old(out)@ + args_text(all.take(i as int)),
        decreases args.len() - i,
    {
        out.append(" '");
        out.append(args[i].as_str());
        out.append("'");
        proof {
            let part = all.take(i + 1);
            assert(part.drop_last() =~= all.take(i as int));
        }
        i += 1;
    }
    assert(all.take(args.len() as int) =~= all);
}

/// The attempts of a failed parse as a message lists them, one line each.
pub open spec fn attempts_text(attempts: Seq<(Seq<char>, ErrorKindView)>) -> Seq<char>
    decreases attempts,
{
    if attempts.len() == 0 {
        Seq::empty()
    } else {
        attempts_text(attempts.drop_last()) + "\n  - "@ + attempts.last().0 + ": "@
            + attempts.last().1.message()
    }
}

impl ErrorKindView {
    /// The message that describes the error to a user.
    pub open spec fn message(self) -> Seq<char>
        decreases self,
    {
        match self {
            ErrorKindView::BrokenRepoFormat { input } => {
                "Invalid repository format '"@
                    + input
                    + "' or unknown remote. Note: Format must be one of 'repo', 'user/repo', 'host/user/repo', Git URL"@
            },
            ErrorKindView::CliParseFail { msg: _ } => "Can't parse command line arguments"@,
            ErrorKindView::OpenUrlFailure { url, msg } => msg + ": Cannot open URL "@ + url,
            ErrorKindView::GitLabDiffNotSupported => {
                "GitLab does not support '..' for comparing diff between commits. Please use '...'"@
            },
            ErrorKindView::BitbucketDiffNotSupported => {
                "BitBucket does not support diff between commits (see https://bitbucket.org/site/master/issues/4779/ability-to-diff-between-any-two-commits)"@
            },
            ErrorKindView::AzureDevOpsNotSupported => {
                "Azure Devops does not currently support this operation"@
            },
            ErrorKindView::NoUserInPath { path } => "Can't detect user name from path "@ + path,
            ErrorKindView::NoRepoInPath { path } => {
                "Can't detect repository name from path "@
                    + path
            },
            ErrorKindView::UnknownHostingService { url } => {
                "Unknown hosting service for URL "@
                    + url
                    + ". If you want to use custom URL for GitHub Enterprise, please set $GIT_BRWS_GHE_URL_HOST"@
            },
            ErrorKindView::BrokenUrl { url, msg } => "Broken URL '"@ + url + "': "@ + msg,
            ErrorKindView::PullReqNotSupported { service } => {
                "--pr or -p does not support the service "@
                    + service
            },
            ErrorKindView::GitHubStatusFailure { status, reason, msg } => {
                "GitHub API failure with response status "@
                    + decimal(status as nat)
                    + " "@
                    + reason
                    + ": "@
                    + msg
            },
            ErrorKindView::HttpClientError { msg: _ } => "Network request failure"@,
            ErrorKindView::IoError { msg: _ } => {
                "I/O error happened. Git command or current directory or file path may not exist"@
            },
            ErrorKindView::UnexpectedRemoteName(name) => {
                "Tracking name must be remote-url/branch-name: "@
                    + name
            },
            ErrorKindView::GitRootDirNotFound { cwd, stderr } => {
                "Cannot locate root directory at "@
                    + debug_text(cwd)
                    + ": "@
                    + stderr
            },
            ErrorKindView::WrongNumberOfArgs { expected, actual, kind } => {
                "Invalid number of arguments for "@
                    + kind
                    + ". "@
                    + expected_text(expected)
                    + " is expected but "@
                    + decimal(actual as nat)
                    + " given"@
            },
            ErrorKindView::DiffDotsNotFound => "'..' or '...' must be contained for diff"@,
            ErrorKindView::DiffHandIsEmpty { input } => {
                "Not a diff format since LHS and/or RHS is empty "@
                    + input
            },
            ErrorKindView::FileDirNotInRepo { repo_root, path } => {
                "Given path '"@
                    + debug_text(path)
                    + "' is not in repository '"@
                    + debug_text(repo_root)
                    + "'"@
            },
            ErrorKindView::InvalidIssueNumberFormat => {
                "Issue number must start with '#' followed by numbers like #123"@
            },
            ErrorKindView::LineSpecifiedForDir(name) => {
                "Directory cannot have line number: "@
                    + debug_text(name)
            },
            ErrorKindView::EnvLoadError { msg: _ } => "Cannot load environment variable"@,
            ErrorKindView::NoLocalRepoFound { operation } => {
                ".git directory was not found. For "@
                    + operation
                    + ", local repository must be known"@
            },
            ErrorKindView::NoSearchResult { query } => {
                "No repository was hit for query '"@
                    + query
                    + "'"@
            },
            ErrorKindView::ArgsNotAllowed { flag, args } => {
                flag
                    + " option does not allow any command line argument. It opens page based on {repo}, but argument(s) "@
                    + debug_list(args)
                    + " retrives information from local directory."@
            },
            ErrorKindView::GheTokenRequired => {
                "GitHub Enterprise requires API token. Please set $GIT_BRWS_GHE_TOKEN"@
            },
            ErrorKindView::BlameWithoutFilePath => "File path is not given to blame"@,
            ErrorKindView::CannotBlameDirectory { dir } => {
                "Cannot blame directory '"@
                    + dir
                    + "'. Please specify file path"@
            },
            ErrorKindView::UserBrowseCommandFailed { cmd, url, msg } => {
                "Command '"@
                    + cmd
                    + "' failed to open URL "@
                    + url
                    + ". Please check $GIT_BRWS_BROWSE_COMMAND. stderr: "@
                    + msg
            },
            ErrorKindView::SpecifiedDirNotExist { dir } => {
                "Specified directory '"@
                    + dir
                    + "' with -d option does not exist"@
            },
            ErrorKindView::BranchNameEmpty => "Branch name cannot be empty"@,
            ErrorKindView::InvalidUser { name } => {
                "Invalid user or organization name '"@
                    + name
                    + "'"@
            },
            ErrorKindView::GitCommandError { stderr, args } => {
                if stderr.len() == 0 {
                    "`git"@ + args_text(args) + "` exited with non-zero status"@
                } else {
                    stderr + ": `git"@ + args_text(args) + "` exited with non-zero status"@
                }
            },
            ErrorKindView::GitObjectNotFound { kind, object, msg } => {
                if msg.len() == 0 {
                    "Git could not find "@ + kind + " '"@ + object + "'"@
                } else {
                    "Git could not find "@ + kind + " '"@ + object + "': "@ + msg
                }
            },
            ErrorKindView::PageParseError { args, attempts } => {
                "Cannot parse command line arguments "@ + debug_list(args) + "\nAttempts:"@
                    + attempts_text(attempts)
            },
        }
    }
}

impl ErrorKind {
    /// The message that describes the error to a user.
    pub fn message(&self) -> (r: String)
        ensures
            r@ == self@.message(),
        decreases self,
    {
        match self {
            ErrorKind::BrokenRepoFormat { input } => {
                let mut out = "Invalid repository format '".to_owned();
                out.append(input.as_str());
                out.append("' or unknown remote. Note: Format must be one of 'repo', 'user/repo', 'host/user/repo', Git URL");
                out
            },
            ErrorKind::CliParseFail { msg: _ } => "Can't parse command line arguments".to_owned(),
            ErrorKind::OpenUrlFailure { url, msg } => {
                let mut out = msg.clone();
                out.append(": Cannot open URL ");
                out.append(url.as_str());
                out
            },
            ErrorKind::GitLabDiffNotSupported => "GitLab does not support '..' for comparing diff between commits. Please use '...'".to_owned(),
            ErrorKind::BitbucketDiffNotSupported => "BitBucket does not support diff between commits (see https://bitbucket.org/site/master/issues/4779/ability-to-diff-between-any-two-commits)".to_owned(),
            ErrorKind::AzureDevOpsNotSupported => "Azure Devops does not currently support this operation".to_owned(),
            ErrorKind::NoUserInPath { path } => {
                let mut out = "Can't detect user name from path ".to_owned();
                out.append(path.as_str());
                out
            },
            ErrorKind::NoRepoInPath { path } => {
                let mut out = "Can't detect repository name from path ".to_owned();
                out.append(path.as_str());
                out
            },
            ErrorKind::UnknownHostingService { url } => {
                let mut out = "Unknown hosting service for URL ".to_owned();
                out.append(url.as_str());
                out.append(". If you want to use custom URL for GitHub Enterprise, please set $GIT_BRWS_GHE_URL_HOST");
                out
            },
            ErrorKind::BrokenUrl { url, msg } => {
                let mut out = "Broken URL '".to_owned();
                out.append(url.as_str());
                out.append("': ");
                out.append(msg.as_str());
                out
            },
            ErrorKind::PullReqNotSupported { service } => {
                let mut out = "--pr or -p does not support the service ".to_owned();
                out.append(service.as_str());
                out
            },
            ErrorKind::GitHubStatusFailure { status, reason, msg } => {
                let mut out = "GitHub API failure with response status ".to_owned();
                push_decimal(&mut out, *status as usize);
                out.append(" ");
                out.append(reason.as_str());
                out.append(": ");
                out.append(msg.as_str());
                out
            },
            ErrorKind::HttpClientError { msg: _ } => "Network request failure".to_owned(),
            ErrorKind::IoError { msg: _ } => "I/O error happened. Git command or current directory or file path may not exist".to_owned(),
            ErrorKind::UnexpectedRemoteName(name) => {
                let mut out = "Tracking name must be remote-url/branch-name: ".to_owned();
                out.append(name.as_str());
                out
            },
            ErrorKind::GitRootDirNotFound { cwd, stderr } => {
                let mut out = "Cannot locate root directory at ".to_owned();
                out.append(quoted(cwd.as_str()).as_str());
                out.append(": ");
                out.append(stderr.as_str());
                out
            },
            ErrorKind::WrongNumberOfArgs { expected, actual, kind } => {
                let mut out = "Invalid number of arguments for ".to_owned();
                out.append(kind.as_str());
                out.append(". ");
                push_expected(&mut out, *expected);
                out.append(" is expected but ");
                push_decimal(&mut out, *actual as usize);
                out.append(" given");
                out
            },
            ErrorKind::DiffDotsNotFound => "'..' or '...' must be contained for diff".to_owned(),
            ErrorKind::DiffHandIsEmpty { input } => {
                let mut out = "Not a diff format since LHS and/or RHS is empty ".to_owned();
                out.append(input.as_str());
                out
            },
            ErrorKind::FileDirNotInRepo { repo_root, path } => {
                let mut out = "Given path '".to_owned();
                out.append(quoted(path.as_str()).as_str());
                out.append("' is not in repository '");
                out.append(quoted(repo_root.as_str()).as_str());
                out.append("'");
                out
            },
            ErrorKind::InvalidIssueNumberFormat => "Issue number must start with '#' followed by numbers like #123".to_owned(),
            ErrorKind::LineSpecifiedForDir(name) => {
                let mut out = "Directory cannot have line number: ".to_owned();
                out.append(quoted(name.as_str()).as_str());
                out
            },
            ErrorKind::EnvLoadError { msg: _ } => "Cannot load environment variable".to_owned(),
            ErrorKind::NoLocalRepoFound { operation } => {
                let mut out = ".git directory was not found. For ".to_owned();
                out.append(operation.as_str());
                out.append(", local repository must be known");
                out
            },
            ErrorKind::NoSearchResult { query } => {
                let mut out = "No repository was hit for query '".to_owned();
                out.append(query.as_str());
                out.append("'");
                out
            },
            ErrorKind::ArgsNotAllowed { flag, args } => {
                let mut out = (*flag).to_owned();
                out.append(" option does not allow any command line argument. It opens page based on {repo}, but argument(s) ");
                out.append(quoted_list(args).as_str());
                out.append(" retrives information from local directory.");
                out
            },
            ErrorKind::GheTokenRequired => "GitHub Enterprise requires API token. Please set $GIT_BRWS_GHE_TOKEN".to_owned(),
            ErrorKind::BlameWithoutFilePath => "File path is not given to blame".to_owned(),
            ErrorKind::CannotBlameDirectory { dir } => {
                let mut out = "Cannot blame directory '".to_owned();
                out.append(dir.as_str());
                out.append("'. Please specify file path");
                out
            },
            ErrorKind::UserBrowseCommandFailed { cmd, url, msg } => {
                let mut out = "Command '".to_owned();
                out.append(cmd.as_str());
                out.append("' failed to open URL ");
                out.append(url.as_str());
                out.append(". Please check $GIT_BRWS_BROWSE_COMMAND. stderr: ");
                out.append(msg.as_str());
                out
            },
            ErrorKind::SpecifiedDirNotExist { dir } => {
                let mut out = "Specified directory '".to_owned();
                out.append(dir.as_str());
                out.append("' with -d option does not exist");
                out
            },
            ErrorKind::BranchNameEmpty => "Branch name cannot be empty".to_owned(),
            ErrorKind::InvalidUser { name } => {
                let mut out = "Invalid user or organization name '".to_owned();
                out.append(name.as_str());
                out.append("'");
                out
            },
            ErrorKind::GitCommandError { stderr, args } => {
                let mut out = if stderr.as_str().is_empty() {
                    "`git".to_owned()
                } else {
                    let mut out = stderr.clone();
                    out.append(": `git");
                    out
                };
                push_args(&mut out, args);
                out.append("` exited with non-zero status");
                out
            },
            ErrorKind::GitObjectNotFound { kind, object, msg } => {
                let mut out = "Git could not find ".to_owned();
                out.append(*kind);
                out.append(" '");
                out.append(object.as_str());
                if msg.as_str().is_empty() {
                    out.append("'");
                } else {
                    out.append("': ");
                    out.append(msg.as_str());
                }
                out
            },
            ErrorKind::PageParseError { args, attempts } => {
                let mut out = "Cannot parse command line arguments ".to_owned();
                out.append(quoted_list(args).as_str());
                out.append("\nAttempts:");
                let ghost head = out@;
                let ghost all = attempts_view(attempts@);
                let mut i: usize = 0;
                proof {
                    lemma_attempts_view(attempts@);
                }
                while i < attempts.len()
                    invariant
                        i <= attempts.len(),
                        all == attempts_view(attempts@),
                        all.len() == attempts.len(),
                        *self matches ErrorKind::PageParseError { attempts: own, .. } && own
                            == attempts,
                        out@ == head + attempts_text(all.take(i as int)),
                    decreases attempts.len() - i,
                {
                    out.append("\n  - ");
                    out.append(attempts[i].0);
                    out.append(": ");
                    let inner = attempts[i].1.kind.message();
                    out.append(inner.as_str());
                    proof {
                        lemma_attempts_view(attempts@);
                        let part = all.take(i + 1);
                        assert(part.drop_last() =~= all.take(i as int));
                    }
                    i += 1;
                }
                assert(all.take(attempts.len() as int) =~= all);
                out
            },
        }
    }
}

/// An error of this library. It is handed around in a `Box`, which keeps `Result` small.
#[derive(Debug)]
pub struct Error {
    pub kind: ErrorKind,
}

impl View for Error {
    type V = ErrorKindView;

    open spec fn view(&self) -> ErrorKindView {
        self.kind@
    }
}

impl Error {
    pub fn new(kind: ErrorKind) -> (e: Box<Error>)
        ensures
            e@ == kind@,
    {
        Box::new(Error { kind })
    }

    pub fn err<T>(kind: ErrorKind) -> (r: Result<T, Box<Error>>)
        ensures
            r matches Err(e) && e@ == kind@,
    {
        Err(Error::new(kind))
    }

    pub fn kind(&self) -> (k: &ErrorKind)
        ensures
            *k == self.kind,
    {
        &self.kind
    }

    /// The message that describes the error to a user.
    pub fn message(&self) -> (r: String)
        ensures
            r@ == self@.message(),
    {
        self.kind.message()
    }
}

} // verus!
