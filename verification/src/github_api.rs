//! What the GitHub API says of a repository, as far as this library reads it.

use vstd::prelude::*;

verus! {

/// The owner of the repository that another one was forked from.
#[derive(Debug)]
pub struct ParentRepoOwner {
    pub login: String,
}

/// The repository that another one was forked from.
#[derive(Debug)]
pub struct ParentRepo {
    pub name: String,
    pub owner: ParentRepoOwner,
    pub default_branch: String,
}

/// A repository: its default branch, and its parent if it is a fork.
#[derive(Debug)]
pub struct Repo {
    pub parent: Option<ParentRepo>,
    pub default_branch: String,
}

/// A repository that a search found.
#[derive(Debug, Default)]
pub struct SearchedRepo {
    pub clone_url: String,
}

/// Where the GitHub API at `endpoint` describes the repository `owner/repo`.
pub open spec fn repo_url(endpoint: Seq<char>, owner: Seq<char>, repo: Seq<char>) -> Seq<char> {
    "https://"@ + endpoint + "/repos/"@ + owner + "/"@ + repo
}

pub fn repo_endpoint(endpoint: &str, owner: &str, repo: &str) -> (r: String)
    ensures
        r@ == repo_url(endpoint@, owner@, repo@),
{
    let mut url = "https://".to_owned();
    url.append(endpoint);
    url.append("/repos/");
    url.append(owner);
    url.append("/");
    url.append(repo);
    url
}

/// Where the GitHub API at `endpoint` searches issues and pull requests.
pub fn search_issues_endpoint(endpoint: &str) -> (r: String)
    ensures
        r@ == "https://"@ + endpoint@ + "/search/issues"@,
{
    let mut url = "https://".to_owned();
    url.append(endpoint);
    url.append("/search/issues");
    url
}

/// Where the GitHub API at `endpoint` searches repositories.
pub fn search_repositories_endpoint(endpoint: &str) -> (r: String)
    ensures
        r@ == "https://"@ + endpoint@ + "/search/repositories"@,
{
    let mut url = "https://".to_owned();
    url.append(endpoint);
    url.append("/search/repositories");
    url
}

/// The query that finds the pull requests of `branch` into `owner/repo`, by `author` where
/// one is given.
pub open spec fn pull_request_search(
    branch: Seq<char>,
    owner: Seq<char>,
    repo: Seq<char>,
    author: Option<Seq<char>>,
) -> Seq<char> {
    match author {
        Some(author) => "type:pr head:"@ + branch + " author:"@ + author + " repo:"@ + owner
            + "/"@ + repo,
        None => "type:pr head:"@ + branch + " repo:"@ + owner + "/"@ + repo,
    }
}

pub fn pull_request_query(branch: &str, owner: &str, repo: &str, author: Option<&str>) -> (r:
    String)
    ensures
        r@ == pull_request_search(branch@, owner@, repo@, author.deep_view()),
{
    let mut query = "type:pr head:".to_owned();
    query.append(branch);
    if let Some(author) = author {
        query.append(" author:");
        query.append(author);
    }
    query.append(" repo:");
    query.append(owner);
    query.append("/");
    query.append(repo);
    query
}

/// The query that finds the repositories with `name` in their names.
pub fn popular_query(name: &str) -> (r: String)
    ensures
        r@ == name@ + " in:name"@,
{
    let mut query = name.to_owned();
    query.append(" in:name");
    query
}

} // verus!
