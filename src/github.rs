//! The decisions of the GitHub resource gateway: the paths of its calls, the
//! bearer credential, the reading of answers, and the primary email of a user.
//!
//! The calls themselves travel over HTTP outside this crate; every call takes
//! the caller's token as an argument, so nothing here holds a credential.

use vstd::prelude::*;
use vstd::string::StringExecFns;
use base64::Engine;
use crate::errors::AppError;

verus! {

/// An email address of a GitHub account.
#[derive(Clone, Debug)]
pub struct UserEmail {
    pub email: String,
    pub verified: bool,
    pub primary: bool,
    pub visibility: Option<String>,
}

/// The part of a GitHub profile that the server reads.
#[derive(Clone, Debug)]
pub struct User {
    pub login: String,
    pub name: Option<String>,
}

/// The file that a commit wrote.
#[derive(Clone, Debug)]
pub struct Content {
    pub name: String,
    pub path: String,
    pub sha: String,
}

/// The commit that a file write made.
#[derive(Clone, Debug)]
pub struct Commit {
    pub sha: String,
    pub message: String,
}

/// GitHub's answer to a file write.
#[derive(Clone, Debug)]
pub struct FileCommit {
    pub content: Option<Content>,
    pub commit: Commit,
}

/// The text of an optional string.
pub open spec fn opt_text(o: Option<String>) -> Option<Seq<char>> {
    match o {
        Some(s) => Some(s@),
        None => None,
    }
}

fn clone_opt_text(o: &Option<String>) -> (r: Option<String>)
    ensures
        opt_text(r) == opt_text(*o),
{
    match o {
        Some(s) => Some(s.clone()),
        None => None,
    }
}

/// The index of the first email flagged primary.
pub open spec fn first_primary(emails: Seq<UserEmail>) -> Option<int> {
    if exists|i: int| 0 <= i < emails.len() && (#[trigger] emails[i]).primary {
        Some(
            choose|i: int|
                0 <= i < emails.len() && (#[trigger] emails[i]).primary && forall|j: int|
                    0 <= j < i ==> !(#[trigger] emails[j]).primary,
        )
    } else {
        None
    }
}

pub open spec fn no_primary_email_message() -> Seq<char> {
    "Didn't find user's primary email!"@
}

/// 1xx: the request was received and goes on.
pub open spec fn spec_is_informational(status: u16) -> bool {
    100 <= status <= 199
}

/// 2xx: the request succeeded.
pub open spec fn spec_is_success(status: u16) -> bool {
    200 <= status <= 299
}

pub fn is_informational(status: u16) -> (r: bool)
    ensures
        r == spec_is_informational(status),
{
    100 <= status && status <= 199
}

pub fn is_success(status: u16) -> (r: bool)
    ensures
        r == spec_is_success(status),
{
    200 <= status && status <= 299
}

/// `needle` occurs in `hay`.
pub open spec fn contains_text(hay: Seq<char>, needle: Seq<char>) -> bool {
    exists|i: int| 0 <= i <= hay.len() - needle.len() && #[trigger] hay.subrange(i, i + needle.len()) == needle
}

/// Whether `needle` occurs in `hay`.
pub fn contains(hay: &str, needle: &str) -> (r: bool)
    ensures
        r == contains_text(hay@, needle@),
{
    let n = hay.unicode_len();
    let m = needle.unicode_len();
    if m > n {
        return false;
    }
    if m == 0 {
        assert(hay@.subrange(0, 0 + needle@.len() as int) =~= needle@);
        return true;
    }
    let mut i: usize = 0;
    while i <= n - m
        invariant
            n == hay@.len(),
            m == needle@.len(),
            1 <= m <= n,
            i <= n - m + 1,
            forall|k: int| 0 <= k < i ==> #[trigger] hay@.subrange(k, k + m) != needle@,
        decreases n - m + 1 - i,
    {
        let mut j: usize = 0;
        let mut same = true;
        while j < m
            invariant
                n == hay@.len(),
                m == needle@.len(),
                i + m <= n,
                j <= m,
                same <==> forall|t: int| 0 <= t < j ==> hay@[i + t] == needle@[t],
            decreases m - j,
        {
            if hay.get_char(i + j) != needle.get_char(j) {
                same = false;
            }
            j = j + 1;
        }
        if same {
            assert(hay@.subrange(i as int, i + m) =~= needle@);
            return true;
        }
        assert(hay@.subrange(i as int, i + m) != needle@) by {
            let t = choose|t: int| 0 <= t < m && hay@[i + t] != needle@[t];
            assert(hay@.subrange(i as int, i + m)[t] == hay@[i + t]);
        }
        i = i + 1;
    }
    false
}

/// The answer with which GitHub turns down a repository whose name is taken.
pub open spec fn spec_is_name_taken(status: u16, body: Seq<char>) -> bool {
    status == 422 && contains_text(body, "already exists"@)
}

pub fn is_name_taken(status: u16, body: &str) -> (r: bool)
    ensures
        r == spec_is_name_taken(status, body@),
{
    status == 422 && contains(body, "already exists")
}

/// What `base64`'s standard engine without padding writes for `bytes`.
pub uninterp spec fn base64_no_pad(bytes: Seq<u8>) -> Seq<char>;

/// Relies on `base64::engine::general_purpose::STANDARD_NO_PAD.encode`; its
/// output length is computed with a checked multiplication that the bound on
/// the input keeps from overflowing.
#[verifier::external_body]
pub(crate) fn encode_base64(bytes: &[u8]) -> (r: String)
    requires
        bytes@.len() <= usize::MAX / 2,
    ensures
        r@ == base64_no_pad(bytes@),
        bytes@.len() == 0 ==> r@.len() == 0,
{
    base64::engine::general_purpose::STANDARD_NO_PAD.encode(bytes)
}

/// The stateless client of GitHub's REST API.
pub struct GitHubAPI {
    pub base_url: String,
}

impl GitHubAPI {
    pub fn new() -> (r: Self)
        ensures
            r.base_url@ == "https://api.github.com"@,
    {
        GitHubAPI { base_url: String::from_str("https://api.github.com") }
    }

    /// The value of the `Authorization` header for `token`.
    pub fn bearer(token: &str) -> (r: String)
        ensures
            r@ == "Bearer "@ + token@,
    {
        String::from_str("Bearer ").concat(token)
    }

    /// The path that lists the emails of the token's user.
    pub fn emails_path() -> (r: &'static str)
        ensures
            r@ == "/user/emails"@,
    {
        "/user/emails"
    }

    /// The path of the token's user's profile.
    pub fn user_path() -> (r: &'static str)
        ensures
            r@ == "/user"@,
    {
        "/user"
    }

    /// The path that creates a repository in the organization `org`.
    pub fn org_repos_path(org: &str) -> (r: String)
        ensures
            r@ == "/orgs/"@ + org@ + "/repos"@,
    {
        String::from_str("/orgs/").concat(org).concat("/repos")
    }

    /// The path that creates a repository of the token's user.
    pub fn personal_repos_path() -> (r: &'static str)
        ensures
            r@ == "/user/repos"@,
    {
        "/user/repos"
    }

    /// The path of the file `path` in the repository `owner`/`name`.
    pub fn contents_path(owner: &str, name: &str, path: &str) -> (r: String)
        ensures
            r@ == "/repos/"@ + owner@ + "/"@ + name@ + "/contents/"@ + path@,
    {
        String::from_str("/repos/").concat(owner).concat("/").concat(name).concat("/contents/").concat(path)
    }

    /// The email flagged primary; the first such where GitHub flags several.
    pub fn get_user_primary_email(emails: &Vec<UserEmail>) -> (r: Result<UserEmail, AppError>)
        ensures
            match first_primary(emails@) {
                Some(i) => r matches Ok(e) && e.email@ == emails@[i].email@ && e.primary
                    && e.verified == emails@[i].verified && opt_text(e.visibility) == opt_text(
                    emails@[i].visibility,
                ),
                None => r matches Err(AppError::GithubAuthError(m)) && m@ == no_primary_email_message(),
            },
    {
        let mut i: usize = 0;
        while i < emails.len()
            invariant
                i <= emails@.len(),
                forall|j: int| 0 <= j < i ==> !(#[trigger] emails@[j]).primary,
            decreases emails@.len() - i,
        {
            if emails[i].primary {
                proof {
                    let k = i as int;
                    assert(0 <= k < emails@.len() && emails@[k].primary && forall|j: int|
                        0 <= j < k ==> !(#[trigger] emails@[j]).primary);
                    let c = choose|c: int|
                        0 <= c < emails@.len() && (#[trigger] emails@[c]).primary && forall|j: int|
                            0 <= j < c ==> !(#[trigger] emails@[j]).primary;
                    assert(c == k) by {
                        if c < k {
                            assert(!emails@[c].primary);
                        } else if c > k {
                            assert(!emails@[k].primary);
                        }
                    }
                }
                let e = UserEmail {
                    email: emails[i].email.clone(),
                    verified: emails[i].verified,
                    primary: emails[i].primary,
                    visibility: clone_opt_text(&emails[i].visibility),
                };
                return Ok(e);
            }
            i = i + 1;
        }
        Err(AppError::GithubAuthError(String::from_str("Didn't find user's primary email!")))
    }

    /// A file write's answer: its body where GitHub reports success, and a
    /// rejection carrying GitHub's status and raw body otherwise.
    pub fn file_commit_outcome(status: u16, body: String) -> (r: Result<String, AppError>)
        ensures
            spec_is_success(status) ==> (r matches Ok(b) && b@ == body@),
            !spec_is_success(status) ==> (r matches Err(AppError::GithubAPIRejection { status: st, body: b })
                && st == status && b@ == body@),
    {
        if is_success(status) {
            Ok(body)
        } else {
            Err(AppError::GithubAPIRejection { status, body })
        }
    }
}

} // verus!
