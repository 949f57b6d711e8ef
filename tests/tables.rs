use unielit_server::auth::parse_auth_token;
use unielit_server::errors::AppError;
use unielit_server::github::{is_informational, is_name_taken, is_success, GitHubAPI, UserEmail};
use unielit_server::models::{NewRepository, NewUser, RepositoryKey, RepositoryOwner, Store, UpdateRepository};

fn new_repo(name: &str, owner: &str) -> NewRepository {
    NewRepository { name: name.to_string(), owner: owner.to_string(), is_organization: false, design_file_sha: None, html_url: "u".to_string() }
}

fn no_change() -> UpdateRepository {
    UpdateRepository { name: None, owner: None, is_organization: None, design_file_sha: None, html_url: None }
}

#[test]
fn natural_key_is_unique() {
    let mut store = Store::new();
    store.create_repo(1, new_repo("a", "o")).unwrap();
    assert_eq!(store.create_repo(2, new_repo("a", "o")).unwrap_err(), AppError::RecordAlreadyExists);
    assert_eq!(store.create_repo(1, new_repo("b", "o")).unwrap_err(), AppError::RecordAlreadyExists);
    let mut org = new_repo("a", "o");
    org.is_organization = true;
    assert!(store.create_repo(3, org).is_ok());
    assert!(store.is_repo_exist(&RepositoryOwner { name: "a".to_string(), owner: "o".to_string(), is_organization: true }));
    assert!(!store.is_repo_exist(&RepositoryOwner { name: "b".to_string(), owner: "o".to_string(), is_organization: true }));
}

#[test]
fn update_keeps_unset_fields_and_the_key_unique() {
    let mut store = Store::new();
    store.create_repo(1, new_repo("a", "o")).unwrap();
    store.create_repo(2, new_repo("b", "o")).unwrap();
    let mut upd = no_change();
    upd.html_url = Some("v".to_string());
    let row = store.update_repo(1, upd).unwrap();
    assert_eq!(row.name, "a");
    assert_eq!(row.html_url, "v");
    let mut clash = no_change();
    clash.name = Some("b".to_string());
    assert_eq!(store.update_repo(1, clash).unwrap_err(), AppError::RecordAlreadyExists);
    let mut rename = no_change();
    rename.name = Some("c".to_string());
    assert_eq!(store.update_repo(1, rename).unwrap().name, "c");
    let mut back = no_change();
    back.name = Some("a".to_string());
    assert_eq!(store.update_repo(1, back).unwrap().name, "a");
    assert_eq!(store.update_repo(3, no_change()).unwrap_err(), AppError::RecordNotFound);
    let found = store.find_repo(&RepositoryKey::Owner(RepositoryOwner { name: "a".to_string(), owner: "o".to_string(), is_organization: false })).unwrap();
    assert_eq!(found.id, 1);
    assert_eq!(store.find_repo(&RepositoryKey::ID(9)).unwrap_err(), AppError::RecordNotFound);
}

#[test]
fn accounts_are_unique_by_id_and_email() {
    let mut store = Store::new();
    let u = |e: &str| NewUser { name: "n".to_string(), email: e.to_string(), access_token: None };
    store.create_user(1, u("a@x")).unwrap();
    assert_eq!(store.create_user(2, u("a@x")).unwrap_err(), AppError::RecordAlreadyExists);
    assert_eq!(store.create_user(1, u("b@x")).unwrap_err(), AppError::RecordAlreadyExists);
    let updated = store.update_user_token(1, "tok").unwrap();
    assert_eq!(updated.user.access_token, Some("tok".to_string()));
    assert_eq!(store.update_user_token(5, "tok").unwrap_err(), AppError::RecordNotFound);
}

#[test]
fn primary_email_is_picked() {
    let e = |a: &str, p: bool| UserEmail { email: a.to_string(), verified: false, primary: p, visibility: None };
    let picked = GitHubAPI::get_user_primary_email(&vec![e("a", false), e("b", true), e("c", true)]).unwrap();
    assert_eq!(picked.email, "b");
    assert!(!picked.verified);
    let full = GitHubAPI::get_user_primary_email(&vec![UserEmail {
        email: "v@x".to_string(),
        verified: true,
        primary: true,
        visibility: Some("private".to_string()),
    }])
    .unwrap();
    assert!(full.verified);
    assert_eq!(full.visibility, Some("private".to_string()));
    assert!(GitHubAPI::get_user_primary_email(&vec![]).is_err());
}

#[test]
fn request_paths_and_bearer() {
    assert_eq!(GitHubAPI::bearer("t0k"), "Bearer t0k");
    assert_eq!(GitHubAPI::org_repos_path("acme"), "/orgs/acme/repos");
    assert_eq!(GitHubAPI::contents_path("o", "r", "design.json"), "/repos/o/r/contents/design.json");
    assert_eq!(GitHubAPI::emails_path(), "/user/emails");
    assert_eq!(GitHubAPI::user_path(), "/user");
    assert_eq!(GitHubAPI::personal_repos_path(), "/user/repos");
    assert_eq!(GitHubAPI::new().base_url, "https://api.github.com");
}

#[test]
fn status_classes() {
    assert!(is_success(200) && is_success(299) && !is_success(300) && !is_success(199));
    assert!(is_informational(100) && !is_informational(200));
    assert!(is_name_taken(422, "name already exists on this account"));
    assert!(!is_name_taken(400, "name already exists"));
    assert!(!is_name_taken(422, "already exist"));
}

#[test]
fn file_commit_outcome_keeps_the_body() {
    assert_eq!(GitHubAPI::file_commit_outcome(200, "ok".to_string()), Ok("ok".to_string()));
    assert_eq!(
        GitHubAPI::file_commit_outcome(409, "sha mismatch".to_string()),
        Err(AppError::GithubAPIRejection { status: 409, body: "sha mismatch".to_string() })
    );
}

#[test]
fn error_status_codes_and_messages() {
    assert_eq!(AppError::RecordAlreadyExists.status_code(), 400);
    assert_eq!(AppError::RecordNotFound.status_code(), 404);
    assert_eq!(AppError::OutsideRequestError(String::new()).status_code(), 502);
    assert_eq!(AppError::UuidParseError(String::new()).status_code(), 400);
    assert_eq!(AppError::GithubAPIRejection { status: 422, body: String::new() }.status_code(), 422);
    assert_eq!(AppError::AuthError.status_code(), 401);
    assert_eq!(AppError::PermissionError.status_code(), 403);
    assert_eq!(AppError::CryptoError(String::new()).status_code(), 500);
    assert_eq!(AppError::GithubAuthError(String::new()).status_code(), 502);
    assert_eq!(AppError::GithubAPIError(String::new()).status_code(), 502);
    assert_eq!(AppError::GithubAPIError("boom".to_string()).message(), "Github API error: \"boom\"");
    assert_eq!(AppError::CryptoError(String::new()).message(), "Crypto operation error: \"\"");
    assert_eq!(AppError::GithubAPIRejection { status: 401, body: "Bad credentials".to_string() }.message(), "Bad credentials");
    assert_eq!(AppError::RecordNotFound.message(), "This record does not exist");
}

#[test]
fn bearer_header_is_parsed() {
    assert_eq!(parse_auth_token("Bearer abc"), Ok("abc".to_string()));
    assert_eq!(parse_auth_token("  Bearer \t abc  "), Ok("abc".to_string()));
    assert_eq!(parse_auth_token("Basic abc"), Err(AppError::AuthError));
    assert_eq!(parse_auth_token("Bearer"), Err(AppError::AuthError));
    assert_eq!(parse_auth_token("Bearer a b"), Err(AppError::AuthError));
    assert_eq!(parse_auth_token("bearer abc"), Err(AppError::AuthError));
}

#[test]
fn update_user_by_token() {
    let mut store = Store::new();
    let u = |n: &str, e: &str, t: Option<&str>| NewUser { name: n.to_string(), email: e.to_string(), access_token: t.map(|x| x.to_string()) };
    store.create_user(1, u("a", "a@x", Some("t1"))).unwrap();
    store.create_user(2, u("b", "b@x", Some("t2"))).unwrap();
    let changed = store.update_user("t1", u("A", "a2@x", None)).unwrap();
    assert_eq!(changed.user.id, 1);
    assert_eq!(changed.user.name, "A");
    assert_eq!(changed.user.email, "a2@x");
    assert_eq!(changed.user.access_token, Some("t1".to_string()));
    assert_eq!(store.update_user("t1", u("A", "b@x", None)).unwrap_err(), AppError::RecordAlreadyExists);
    assert_eq!(store.update_user("none", u("Z", "z@x", None)).unwrap_err(), AppError::RecordNotFound);
    assert_eq!(store.users[0].email, "a2@x");
    let same_email = store.update_user("t2", u("B", "b@x", Some("t3"))).unwrap();
    assert_eq!(same_email.user.access_token, Some("t3".to_string()));
}
