//! Create-or-detect provisioning of GitHub repositories, and commits of the
//! design file, kept consistent with the local catalog.
//!
//! Each workflow is cut where it waits on GitHub: one function decides the
//! call to make from the catalog, the caller makes it, and another function
//! records what GitHub answered. A catalog row is written only after GitHub
//! confirmed the remote change.

use vstd::prelude::*;
use vstd::string::StringExecFns;
use crate::errors::AppError;
use crate::github::{
    base64_no_pad, encode_base64, is_informational, is_name_taken, is_success, spec_is_informational,
    spec_is_name_taken, spec_is_success, FileCommit,
};
use crate::models::{
    opt_view, NewRepository, Repository, RepositoryKey, RepositoryOwner, RepositoryRow, Store,
    UpdateRepository,
};
use crate::oauth::{entries_view, json_object_entries, json_text, JsonScalar};

verus! {

/// The file of a repository that holds the design.
pub open spec fn design_file_name() -> Seq<char> {
    "design.json"@
}

/// The GitHub call that creates a repository.
#[derive(Debug)]
pub enum RepoCreation {
    /// In the organization `owner`.
    Organization { owner: String },
    /// Under the token's user.
    Personal,
}

/// Decides, from the catalog, whether a repository with this natural key may
/// be created at GitHub, and by which call. Where the catalog already holds
/// the key, no call is to be made.
pub fn create_github_repo(store: &Store, input: &RepositoryOwner) -> (r: Result<RepoCreation, AppError>)
    ensures
        store.has_repository_key(input.name@, input.owner@, input.is_organization) ==> r == Err::<
            RepoCreation,
            AppError,
        >(AppError::RecordAlreadyExists),
        !store.has_repository_key(input.name@, input.owner@, input.is_organization) ==> r is Ok,
        r matches Ok(c) ==> (input.is_organization ==> (c matches RepoCreation::Organization { owner }
            && owner@ == input.owner@)),
        r matches Ok(c) ==> (!input.is_organization ==> c is Personal),
{
    if store.is_repo_exist(input) {
        return Err(AppError::RecordAlreadyExists);
    }
    if input.is_organization {
        Ok(RepoCreation::Organization { owner: input.owner.clone() })
    } else {
        Ok(RepoCreation::Personal)
    }
}

/// The web address of a repository that GitHub's answer does not give.
pub open spec fn default_html_url(owner: Seq<char>, name: Seq<char>) -> Seq<char> {
    "https://github.com/"@ + owner + "/"@ + name
}

/// The web address of a created repository: the `html_url` string of GitHub's
/// JSON answer, where it has exactly one, or else the one built from owner and
/// name.
pub open spec fn created_html_url(body: Seq<char>, owner: Seq<char>, name: Seq<char>) -> Seq<char> {
    match json_object_entries(body) {
        Some(e) => match json_text(e, "html_url"@) {
            Some(u) => u,
            None => default_html_url(owner, name),
        },
        None => default_html_url(owner, name),
    }
}

/// Builds `created_html_url` from the decoded answer.
pub fn html_url_from_entries(entries: Option<Vec<(String, JsonScalar)>>, owner: &str, name: &str) -> (r: String)
    ensures
        r@ == match entries {
            Some(v) => match json_text(entries_view(v@), "html_url"@) {
                Some(u) => u,
                None => default_html_url(owner@, name@),
            },
            None => default_html_url(owner@, name@),
        },
{
    if let Some(v) = &entries {
        if let Some(u) = crate::oauth::json_text_value(v, "html_url") {
            return u;
        }
    }
    String::from_str("https://github.com/").concat(owner).concat("/").concat(name)
}

/// The web address of the repository that GitHub's answer `body` describes.
pub fn repository_html_url(body: &str, owner: &str, name: &str) -> (r: String)
    ensures
        r@ == created_html_url(body@, owner@, name@),
{
    html_url_from_entries(crate::oauth::decode_json_object(body), owner, name)
}

/// The catalog row that a confirmed creation adds.
pub open spec fn created_row(id: u128, input: RepositoryOwner, body: Seq<char>) -> RepositoryRow {
    RepositoryRow {
        id,
        name: input.name@,
        owner: input.owner@,
        is_organization: input.is_organization,
        design_file_sha: None,
        html_url: created_html_url(body, input.owner@, input.name@),
    }
}

/// Records GitHub's answer to a creation call. A refusal because the name is
/// taken is the same error as a key already in the catalog; any other status
/// but 1xx or 2xx is a rejection that carries GitHub's status and body; nothing
/// is written in either case. A confirmed creation adds the row, with no
/// design version yet.
pub fn record_created_repo(
    store: &mut Store,
    new_id: u128,
    input: RepositoryOwner,
    status: u16,
    body: String,
) -> (r: Result<Repository, AppError>)
    requires
        old(store).wf(),
    ensures
        final(store).wf(),
        r is Err ==> *final(store) == *old(store),
        spec_is_name_taken(status, body@) ==> r == Err::<Repository, AppError>(AppError::RecordAlreadyExists),
        !spec_is_name_taken(status, body@) && !spec_is_success(status) && !spec_is_informational(status) ==> (
        r matches Err(AppError::GithubAPIRejection { status: st, body: b }) && st == status && b@ == body@),
        spec_is_success(status) || spec_is_informational(status) ==> {
            let row = created_row(new_id, input, body@);
            if old(store).has_repository_id(new_id) || old(store).has_repository_key(
                row.name,
                row.owner,
                row.is_organization,
            ) {
                r == Err::<Repository, AppError>(AppError::RecordAlreadyExists)
            } else {
                r matches Ok(repo) && repo@ == row && final(store).repositories() == old(
                    store,
                ).repositories().push(row)
            }
        },
        final(store).accounts() == old(store).accounts(),
        final(store).credentials() == old(store).credentials(),
{
    if is_name_taken(status, body.as_str()) {
        return Err(AppError::RecordAlreadyExists);
    }
    if !is_success(status) && !is_informational(status) {
        return Err(AppError::GithubAPIRejection { status, body });
    }
    let html_url = repository_html_url(body.as_str(), input.owner.as_str(), input.name.as_str());
    let new_repo = NewRepository {
        name: input.name,
        owner: input.owner,
        is_organization: input.is_organization,
        design_file_sha: None,
        html_url,
    };
    store.create_repo(new_id, new_repo)
}

/// The file write that commits a design to a repository.
#[derive(Debug)]
pub struct FileCommitRequest {
    pub owner: String,
    pub repo_name: String,
    pub path: String,
    pub message: String,
    pub base64_content: String,
    /// The version of the file that the write replaces; none for the first write.
    pub sha: Option<String>,
}

/// What deciding a design commit guarantees of its result `r`.
pub open spec fn save_repo_design_post(
    store: Store,
    repo_id: u128,
    message: Seq<char>,
    content: Seq<u8>,
    r: Result<FileCommitRequest, AppError>,
) -> bool {
    &&& !store.has_repository_id(repo_id) ==> r == Err::<FileCommitRequest, AppError>(AppError::RecordNotFound)
    &&& store.has_repository_id(repo_id) ==> (r matches Ok(req) && exists|i: int|
        0 <= i < store.repositories().len() && (#[trigger] store.repositories()[i]).id == repo_id
            && req.owner@ == store.repositories()[i].owner && req.repo_name@ == store.repositories()[i].name
            && opt_view(req.sha) == store.repositories()[i].design_file_sha)
    &&& r matches Ok(req) ==> {
        &&& req.path@ == design_file_name()
        &&& req.message@ == message
        &&& req.base64_content@ == base64_no_pad(content)
    }
}

/// Decides the file write that commits `content` as the design of the
/// repository `repo_id`: it replaces the version that the catalog holds.
pub fn save_repo_design(store: &Store, repo_id: u128, message: String, content: &Vec<u8>) -> (r: Result<
    FileCommitRequest,
    AppError,
>)
    requires
        store.wf(),
        content@.len() <= usize::MAX / 2,
    ensures
        save_repo_design_post(*store, repo_id, message@, content@, r),
{
    let repo = store.find_repo(&RepositoryKey::ID(repo_id))?;
    let base64_content = encode_base64(content.as_slice());
    Ok(FileCommitRequest {
        owner: repo.owner,
        repo_name: repo.name,
        path: String::from_str("design.json"),
        message,
        base64_content,
        sha: repo.design_file_sha,
    })
}

/// The version that a successful file write reports, where it reports one.
pub open spec fn committed_version(commit: FileCommit) -> Option<Seq<char>> {
    match commit.content {
        Some(c) => Some(c.sha@),
        None => None,
    }
}

/// What recording a design commit guarantees, from the tables `old` to the
/// tables `new`.
pub open spec fn record_design_commit_post(
    old: Store,
    new: Store,
    repo_id: u128,
    commit: FileCommit,
    r: Result<Repository, AppError>,
) -> bool {
    &&& new.wf()
    &&& !old.has_repository_id(repo_id) ==> (r == Err::<Repository, AppError>(AppError::RecordNotFound) && new
        == old)
    &&& old.has_repository_id(repo_id) ==> (r matches Ok(repo) && exists|i: int|
        0 <= i < old.repositories().len() && (#[trigger] old.repositories()[i]).id == repo_id && repo@ == (
        RepositoryRow {
            design_file_sha: match committed_version(commit) {
                Some(v) => Some(v),
                None => old.repositories()[i].design_file_sha,
            },
            ..old.repositories()[i]
        }) && new.repositories() == old.repositories().update(i, repo@))
    &&& new.accounts() == old.accounts()
    &&& new.credentials() == old.credentials()
}

/// Records a successful file write: the version that GitHub reports becomes
/// the catalog's version of the design; an answer without one leaves it.
pub fn record_design_commit(store: &mut Store, repo_id: u128, commit: &FileCommit) -> (r: Result<Repository, AppError>)
    requires
        old(store).wf(),
    ensures
        record_design_commit_post(*old(store), *final(store), repo_id, *commit, r),
{
    let sha = match &commit.content {
        Some(c) => Some(c.sha.clone()),
        None => None,
    };
    let upd = UpdateRepository { name: None, owner: None, is_organization: None, design_file_sha: sha, html_url: None };
    store.update_repo(repo_id, upd)
}

/// After a design commit is recorded with the version GitHub reported, the
/// next design commit to that repository names that version as the one it
/// replaces.
pub proof fn lemma_next_commit_replaces_recorded_version(
    s0: Store,
    s1: Store,
    repo_id: u128,
    commit: FileCommit,
    recorded: Result<Repository, AppError>,
    message: Seq<char>,
    content: Seq<u8>,
    next: Result<FileCommitRequest, AppError>,
)
    requires
        s0.wf(),
        s0.has_repository_id(repo_id),
        commit.content is Some,
        record_design_commit_post(s0, s1, repo_id, commit, recorded),
        save_repo_design_post(s1, repo_id, message, content, next),
    ensures
        next matches Ok(req) && opt_view(req.sha) == committed_version(commit),
{
    let i = choose|i: int|
        0 <= i < s0.repositories().len() && (#[trigger] s0.repositories()[i]).id == repo_id
            && recorded->Ok_0@ == (RepositoryRow {
            design_file_sha: match committed_version(commit) {
                Some(v) => Some(v),
                None => s0.repositories()[i].design_file_sha,
            },
            ..s0.repositories()[i]
        }) && s1.repositories() == s0.repositories().update(i, recorded->Ok_0@);
    assert(s1.repositories()[i].id == repo_id);
    let req = next->Ok_0;
    let j = choose|j: int|
        0 <= j < s1.repositories().len() && (#[trigger] s1.repositories()[j]).id == repo_id
            && req.owner@ == s1.repositories()[j].owner && req.repo_name@ == s1.repositories()[j].name
            && opt_view(req.sha) == s1.repositories()[j].design_file_sha;
    assert(j == i) by {
        if j != i {
            assert(s1.repositories()[j].id != s1.repositories()[i].id);
        }
    }
}

} // verus!
