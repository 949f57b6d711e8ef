use unielit_server::encrypt::Aes256Gcm;
use unielit_server::errors::AppError;
use unielit_server::github::{Commit, Content, FileCommit, User as Profile, UserEmail};
use unielit_server::identity::{access_token_reply, refresh_token_for, resolve, resolve_sealed};
use unielit_server::models::{NewUser, RepositoryOwner, Store, TokenData, UserKey};
use unielit_server::oauth::{parse_token_response, GitHubAuth};
use unielit_server::provisioning::{
    create_github_repo, record_created_repo, record_design_commit, repository_html_url, save_repo_design,
    RepoCreation,
};

const KEY_HEX: &str = "000102030405060708090a0b0c0d0e0f101112131415161718191a1b1c1d1e1f";

fn email(address: &str, primary: bool) -> UserEmail {
    UserEmail { email: address.to_string(), verified: true, primary, visibility: None }
}

fn key(name: &str, owner: &str, is_organization: bool) -> RepositoryOwner {
    RepositoryOwner { name: name.to_string(), owner: owner.to_string(), is_organization }
}

fn grant_body(access: &str, refresh: &str) -> String {
    format!("access_token={access}&expires_in=28800&refresh_token={refresh}&refresh_token_expires_in=15897600&scope=repo&token_type=bearer")
}

fn commit_with(sha: Option<&str>) -> FileCommit {
    FileCommit {
        content: sha.map(|s| Content { name: "design.json".to_string(), path: "design.json".to_string(), sha: s.to_string() }),
        commit: Commit { sha: "c0ffee".to_string(), message: "save".to_string() },
    }
}

#[test]
fn code_exchange_scenario() {
    let auth = GitHubAuth::new("cid".to_string(), "secret".to_string());
    let params = auth.code_params("abc123".to_string());
    assert_eq!(params.code, "abc123");
    let grant = parse_token_response(&grant_body("ghu_X", "ghr_Y")).unwrap();
    let vault = Aes256Gcm::new(KEY_HEX).unwrap();
    let mut store = Store::new();
    let profile = Profile { login: "octocat".to_string(), name: None };
    let emails = vec![email("octo@x.com", true)];
    let account = resolve(&mut store, &vault, 1, &grant, &profile, &emails).unwrap();
    assert_eq!(account.user.name, "octocat");
    assert_eq!(account.user.email, "octo@x.com");
    assert_eq!(account.user.access_token, Some("ghu_X".to_string()));
    assert_eq!(store.users.len(), 1);
    assert_eq!(store.users[0].name, "octocat");
    let reply = access_token_reply(&grant);
    assert_eq!(reply.access_token, "ghu_X");
    assert_eq!(reply.expires_in, 28800);
    assert_eq!(store.tokens.len(), 1);
    assert_eq!(store.tokens[0].scope, "repo");
    assert_eq!(store.tokens[0].token_type, "bearer");
    assert_eq!(store.tokens[0].refresh_token_expires_in, 15897600);
    assert_eq!(store.get_user_refresh_token(&vault, 1).unwrap(), "ghr_Y");
}

#[test]
fn display_name_is_preferred_and_kept() {
    let vault = Aes256Gcm::new(KEY_HEX).unwrap();
    let mut store = Store::new();
    let first = parse_token_response(&grant_body("ghu_1", "ghr_1")).unwrap();
    let profile = Profile { login: "octocat".to_string(), name: Some("The Octocat".to_string()) };
    resolve(&mut store, &vault, 1, &first, &profile, &vec![email("octo@x.com", true)]).unwrap();
    let renamed = Profile { login: "octocat".to_string(), name: Some("Other".to_string()) };
    let second = parse_token_response(&grant_body("ghu_2", "ghr_2")).unwrap();
    let account = resolve(&mut store, &vault, 2, &second, &renamed, &vec![email("octo@x.com", true)]).unwrap();
    assert_eq!(account.user.name, "The Octocat");
    assert_eq!(account.user.access_token, Some("ghu_2".to_string()));
}

#[test]
fn second_resolve_upserts() {
    let vault = Aes256Gcm::new(KEY_HEX).unwrap();
    let mut store = Store::new();
    let profile = Profile { login: "octocat".to_string(), name: None };
    let emails = vec![email("old@x.com", false), email("octo@x.com", true)];
    let g1 = parse_token_response(&grant_body("ghu_1", "ghr_1")).unwrap();
    let a1 = resolve(&mut store, &vault, 10, &g1, &profile, &emails).unwrap();
    let first_cypher = store.tokens[0].refresh_token_cypher.clone();
    let first_nonce = store.tokens[0].cypher_nonce.clone();
    let g2 = parse_token_response(&grant_body("ghu_2", "ghr_2")).unwrap();
    let a2 = resolve(&mut store, &vault, 11, &g2, &profile, &emails).unwrap();
    assert_eq!(a1.user.id, 10);
    assert_eq!(a2.user.id, 10);
    assert_eq!(store.users.len(), 1);
    assert_eq!(store.tokens.len(), 1);
    assert_ne!(store.tokens[0].refresh_token_cypher, first_cypher);
    assert_ne!(store.tokens[0].cypher_nonce, first_nonce);
    assert_eq!(store.get_user_refresh_token(&vault, 10).unwrap(), "ghr_2");
    assert_eq!(refresh_token_for(&store, &vault, "ghu_2".to_string()).unwrap(), "ghr_2");
    assert_eq!(refresh_token_for(&store, &vault, "ghu_1".to_string()), Err(AppError::RecordNotFound));
}

#[test]
fn no_primary_email_writes_nothing() {
    let vault = Aes256Gcm::new(KEY_HEX).unwrap();
    let mut store = Store::new();
    let g = parse_token_response(&grant_body("ghu_1", "ghr_1")).unwrap();
    let profile = Profile { login: "octocat".to_string(), name: None };
    let r = resolve(&mut store, &vault, 1, &g, &profile, &vec![email("a@x.com", false)]);
    assert_eq!(r.unwrap_err(), AppError::GithubAuthError("Didn't find user's primary email!".to_string()));
    assert!(store.users.is_empty());
    assert!(store.tokens.is_empty());
}

#[test]
fn new_account_with_taken_id_is_refused() {
    let vault = Aes256Gcm::new(KEY_HEX).unwrap();
    let mut store = Store::new();
    let g = parse_token_response(&grant_body("ghu_1", "ghr_1")).unwrap();
    let profile = Profile { login: "a".to_string(), name: None };
    resolve(&mut store, &vault, 1, &g, &profile, &vec![email("a@x.com", true)]).unwrap();
    let r = resolve(&mut store, &vault, 1, &g, &profile, &vec![email("b@x.com", true)]);
    assert_eq!(r.unwrap_err(), AppError::RecordAlreadyExists);
    assert_eq!(store.users.len(), 1);
    assert_eq!(store.tokens.len(), 1);
}

#[test]
fn tampered_credential_is_a_crypto_error() {
    let vault = Aes256Gcm::new(KEY_HEX).unwrap();
    let mut store = Store::new();
    let g = parse_token_response(&grant_body("ghu_1", "ghr_1")).unwrap();
    let profile = Profile { login: "a".to_string(), name: None };
    resolve(&mut store, &vault, 1, &g, &profile, &vec![email("a@x.com", true)]).unwrap();
    store.tokens[0].refresh_token_cypher[0] ^= 1;
    assert!(matches!(store.get_user_refresh_token(&vault, 1), Err(AppError::CryptoError(_))));
    store.tokens[0].cypher_nonce.pop();
    assert!(matches!(store.get_user_refresh_token(&vault, 1), Err(AppError::CryptoError(_))));
    assert_eq!(store.get_user_refresh_token(&vault, 2), Err(AppError::RecordNotFound));
}

#[test]
fn known_key_makes_no_remote_call() {
    let mut store = Store::new();
    record_created_repo(&mut store, 1, key("site", "acme", true), 201, "{}".to_string()).unwrap();
    let mut remote_calls = 0;
    match create_github_repo(&store, &key("site", "acme", true)) {
        Ok(_) => remote_calls += 1,
        Err(e) => assert_eq!(e, AppError::RecordAlreadyExists),
    }
    assert_eq!(remote_calls, 0);
    assert!(matches!(create_github_repo(&store, &key("site", "acme", false)), Ok(RepoCreation::Personal)));
    match create_github_repo(&store, &key("site2", "acme", true)) {
        Ok(RepoCreation::Organization { owner }) => assert_eq!(owner, "acme"),
        other => panic!("unexpected {:?}", other),
    }
}

#[test]
fn created_repository_takes_the_url_of_the_answer() {
    let mut store = Store::new();
    let body = r#"{"id":1,"html_url":"https://github.com/acme/site-x","name":"site"}"#;
    let repo = record_created_repo(&mut store, 7, key("site", "acme", true), 201, body.to_string()).unwrap();
    assert_eq!(repo.html_url, "https://github.com/acme/site-x");
    assert_eq!(repo.design_file_sha, None);
    assert_eq!(store.repos.len(), 1);
}

#[test]
fn url_is_built_where_the_answer_has_none() {
    assert_eq!(repository_html_url("{}", "octo", "demo"), "https://github.com/octo/demo");
    assert_eq!(repository_html_url("not json", "octo", "demo"), "https://github.com/octo/demo");
    assert_eq!(repository_html_url(r#"{"html_url":3}"#, "octo", "demo"), "https://github.com/octo/demo");
    assert_eq!(
        repository_html_url(r#"{"html_url":"https:\/\/github.com\/octo\/demo-1"}"#, "octo", "demo"),
        "https://github.com/octo/demo-1"
    );
}

#[test]
fn refused_creation_writes_no_row() {
    let mut store = Store::new();
    let r = record_created_repo(&mut store, 1, key("site", "acme", false), 401, "Bad credentials".to_string());
    assert_eq!(r.unwrap_err(), AppError::GithubAPIRejection { status: 401, body: "Bad credentials".to_string() });
    let taken = r#"{"message":"Repository creation failed.","errors":[{"message":"name already exists on this account"}]}"#;
    let r = record_created_repo(&mut store, 1, key("site", "acme", false), 422, taken.to_string());
    assert_eq!(r.unwrap_err(), AppError::RecordAlreadyExists);
    let other = r#"{"message":"Validation Failed"}"#;
    let r = record_created_repo(&mut store, 1, key("site", "acme", false), 422, other.to_string());
    assert_eq!(r.unwrap_err(), AppError::GithubAPIRejection { status: 422, body: other.to_string() });
    assert!(store.repos.is_empty());
}

#[test]
fn informational_status_counts_as_created() {
    let mut store = Store::new();
    assert!(record_created_repo(&mut store, 1, key("site", "acme", false), 100, String::new()).is_ok());
    assert_eq!(store.repos[0].html_url, "https://github.com/acme/site");
}

#[test]
fn commit_scenario_keeps_the_marker() {
    let mut store = Store::new();
    record_created_repo(&mut store, 5, key("site", "acme", true), 201, "{}".to_string()).unwrap();
    let first = save_repo_design(&store, 5, "first".to_string(), &b"{\"a\":1}".to_vec()).unwrap();
    assert_eq!(first.sha, None);
    assert_eq!(first.owner, "acme");
    assert_eq!(first.repo_name, "site");
    assert_eq!(first.path, "design.json");
    assert_eq!(first.message, "first");
    assert_eq!(first.base64_content, "eyJhIjoxfQ");
    let repo = record_design_commit(&mut store, 5, &commit_with(Some("deadbeef"))).unwrap();
    assert_eq!(repo.design_file_sha, Some("deadbeef".to_string()));
    assert_eq!(store.repos[0].design_file_sha, Some("deadbeef".to_string()));
    let next = save_repo_design(&store, 5, "second".to_string(), &b"{}".to_vec()).unwrap();
    assert_eq!(next.sha, Some("deadbeef".to_string()));
}

#[test]
fn commit_answer_without_content_keeps_the_marker() {
    let mut store = Store::new();
    record_created_repo(&mut store, 5, key("site", "acme", true), 201, "{}".to_string()).unwrap();
    record_design_commit(&mut store, 5, &commit_with(Some("v1"))).unwrap();
    record_design_commit(&mut store, 5, &commit_with(None)).unwrap();
    assert_eq!(store.repos[0].design_file_sha, Some("v1".to_string()));
}

#[test]
fn commit_to_unknown_repository_is_not_found() {
    let mut store = Store::new();
    assert_eq!(save_repo_design(&store, 9, "m".to_string(), &vec![]).unwrap_err(), AppError::RecordNotFound);
    assert_eq!(record_design_commit(&mut store, 9, &commit_with(Some("x"))).unwrap_err(), AppError::RecordNotFound);
}

#[test]
fn find_user_by_each_key() {
    let vault = Aes256Gcm::new(KEY_HEX).unwrap();
    let mut store = Store::new();
    let g = parse_token_response(&grant_body("ghu_1", "ghr_1")).unwrap();
    let profile = Profile { login: "octocat".to_string(), name: None };
    resolve(&mut store, &vault, 3, &g, &profile, &vec![email("a@x.com", true)]).unwrap();
    assert_eq!(store.find_user(&UserKey::ID(3)).unwrap().user.email, "a@x.com");
    assert_eq!(store.find_user(&UserKey::Name("octocat".to_string())).unwrap().user.id, 3);
    assert_eq!(store.find_user(&UserKey::Token("ghu_1".to_string())).unwrap().user.id, 3);
    assert_eq!(store.find_user(&UserKey::ID(4)).unwrap_err(), AppError::RecordNotFound);
}

#[test]
fn sealed_token_is_stored_as_given() {
    let vault = Aes256Gcm::new(KEY_HEX).unwrap();
    let mut store = Store::new();
    let g = parse_token_response(&grant_body("ghu_1", "ghr_1")).unwrap();
    let sealed = vault.seal_with_nonce(b"ghr_1".to_vec(), vec![0, 0], [9u8; 12]).unwrap();
    let cypher = sealed.cypher.clone();
    let profile = Profile { login: "octocat".to_string(), name: None };
    let account = resolve_sealed(&mut store, sealed, 4, &g, &profile, &vec![email("o@x.com", true)]).unwrap();
    assert_eq!(account.user.id, 4);
    assert_eq!(store.tokens[0].refresh_token_cypher, cypher);
    assert_eq!(store.tokens[0].cypher_nonce, vec![9u8; 12]);
    assert_eq!(store.get_user_refresh_token(&vault, 4).unwrap(), "ghr_1");
    let again = vault.seal_with_nonce(b"ghr_2".to_vec(), vec![0, 0], [8u8; 12]).unwrap();
    let token = TokenData {
        access_token: "ghu_2".to_string(),
        expires_in: 1,
        refresh_token: "ghr_2".to_string(),
        refresh_token_expires_in: 2,
        scope: "repo".to_string(),
        token_type: "bearer".to_string(),
    };
    let user = NewUser { name: "ignored".to_string(), email: "o@x.com".to_string(), access_token: None };
    let second = store.store_sealed_token(again, 5, user, token).unwrap();
    assert_eq!(second.user.id, 4);
    assert_eq!(second.user.name, "octocat");
    assert_eq!(store.users.len(), 1);
    assert_eq!(store.tokens.len(), 1);
    assert_eq!(store.get_user_refresh_token(&vault, 4).unwrap(), "ghr_2");
}
