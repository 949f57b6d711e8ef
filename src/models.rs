//! The server's tables: accounts, their refresh credentials and the catalog of
//! repositories, with the uniqueness rules that the schema enforces.
//!
//! A `Store` holds the rows that one unit of work reads and writes; every
//! operation either applies in full or leaves the store as it was.

use vstd::prelude::*;
use vstd::string::{StringExecFns, StrSliceExecFns};
use vstd::utf8::{valid_utf8, decode_utf8, encode_utf8};
use crate::errors::AppError;
use crate::encrypt::{Aes256Gcm, EncryptResponse, aes_256_gcm_sealed, aes_256_gcm_opened, NONCE_LEN};
use crate::oauth::TokenGrant;

verus! {

broadcast use vstd::utf8::encode_utf8_valid_utf8, vstd::utf8::encode_utf8_decode_utf8;

pub open spec fn opt_view(o: Option<String>) -> Option<Seq<char>> {
    match o {
        Some(s) => Some(s@),
        None => None,
    }
}

fn clone_text(o: &Option<String>) -> (r: Option<String>)
    ensures
        opt_view(r) == opt_view(*o),
{
    match o {
        Some(s) => Some(s.clone()),
        None => None,
    }
}

fn clone_bytes(v: &Vec<u8>) -> (r: Vec<u8>)
    ensures
        r@ == v@,
{
    let mut out: Vec<u8> = Vec::new();
    let mut i: usize = 0;
    while i < v.len()
        invariant
            i <= v@.len(),
            out@ == v@.subrange(0, i as int),
        decreases v@.len() - i,
    {
        out.push(v[i]);
        i = i + 1;
        assert(out@ =~= v@.subrange(0, i as int));
    }
    assert(v@.subrange(0, v@.len() as int) =~= v@);
    out
}

/// Relies on `String::from_utf8`: it accepts exactly the well-formed UTF-8
/// byte strings, and keeps their characters.
#[verifier::external_body]
fn utf8_text(bytes: Vec<u8>) -> (r: Option<String>)
    ensures
        r is Some <==> valid_utf8(bytes@),
        r matches Some(s) ==> s@ == decode_utf8(bytes@),
{
    String::from_utf8(bytes).ok()
}

/// An account row.
pub struct AccountRow {
    pub id: u128,
    pub name: Seq<char>,
    pub email: Seq<char>,
    pub access_token: Option<Seq<char>>,
}

/// An account of the server.
#[derive(Debug)]
pub struct User {
    pub id: u128,
    pub name: String,
    pub email: String,
    pub access_token: Option<String>,
}

impl View for User {
    type V = AccountRow;

    open spec fn view(&self) -> AccountRow {
        AccountRow { id: self.id, name: self.name@, email: self.email@, access_token: opt_view(self.access_token) }
    }
}

impl User {
    pub fn duplicate(&self) -> (r: User)
        ensures
            r@ == self@,
    {
        User {
            id: self.id,
            name: self.name.clone(),
            email: self.email.clone(),
            access_token: clone_text(&self.access_token),
        }
    }
}

/// The values of an account to be written.
#[derive(Debug)]
pub struct NewUser {
    pub name: String,
    pub email: String,
    pub access_token: Option<String>,
}

/// How an account is looked up.
#[derive(Debug)]
pub enum UserKey {
    ID(u128),
    Name(String),
    Token(String),
}

/// An account as the API hands it out.
#[derive(Debug)]
pub struct RoledUser {
    pub user: User,
}

/// A stored refresh credential.
pub struct CredentialRow {
    pub user_id: u128,
    pub cypher: Seq<u8>,
    pub nonce: Seq<u8>,
    pub expires_in: i32,
    pub scope: Seq<char>,
    pub token_type: Seq<char>,
}

/// The encrypted refresh token of an account, with what came with it.
#[derive(Debug)]
pub struct UserRefreshToken {
    pub user_id: u128,
    pub refresh_token_cypher: Vec<u8>,
    pub cypher_nonce: Vec<u8>,
    pub refresh_token_expires_in: i32,
    pub scope: String,
    pub token_type: String,
}

impl View for UserRefreshToken {
    type V = CredentialRow;

    open spec fn view(&self) -> CredentialRow {
        CredentialRow {
            user_id: self.user_id,
            cypher: self.refresh_token_cypher@,
            nonce: self.cypher_nonce@,
            expires_in: self.refresh_token_expires_in,
            scope: self.scope@,
            token_type: self.token_type@,
        }
    }
}

/// The tokens of one successful grant, as they are stored.
#[derive(Debug)]
pub struct TokenData {
    pub access_token: String,
    pub expires_in: i32,
    pub refresh_token: String,
    pub refresh_token_expires_in: i32,
    pub scope: String,
    pub token_type: String,
}

impl View for TokenData {
    type V = TokenGrant;

    open spec fn view(&self) -> TokenGrant {
        TokenGrant {
            access_token: self.access_token@,
            expires_in: self.expires_in,
            refresh_token: self.refresh_token@,
            refresh_token_expires_in: self.refresh_token_expires_in,
            scope: self.scope@,
            token_type: self.token_type@,
        }
    }
}

/// A catalog row.
pub struct RepositoryRow {
    pub id: u128,
    pub name: Seq<char>,
    pub owner: Seq<char>,
    pub is_organization: bool,
    pub design_file_sha: Option<Seq<char>>,
    pub html_url: Seq<char>,
}

/// A repository that the server created at GitHub.
#[derive(Debug)]
pub struct Repository {
    pub id: u128,
    pub name: String,
    pub owner: String,
    pub is_organization: bool,
    pub design_file_sha: Option<String>,
    pub html_url: String,
}

impl View for Repository {
    type V = RepositoryRow;

    open spec fn view(&self) -> RepositoryRow {
        RepositoryRow {
            id: self.id,
            name: self.name@,
            owner: self.owner@,
            is_organization: self.is_organization,
            design_file_sha: opt_view(self.design_file_sha),
            html_url: self.html_url@,
        }
    }
}

impl Repository {
    pub fn duplicate(&self) -> (r: Repository)
        ensures
            r@ == self@,
    {
        Repository {
            id: self.id,
            name: self.name.clone(),
            owner: self.owner.clone(),
            is_organization: self.is_organization,
            design_file_sha: clone_text(&self.design_file_sha),
            html_url: self.html_url.clone(),
        }
    }
}

/// The natural key of a repository: name, owner, and whether the owner is an
/// organization.
#[derive(Debug)]
pub struct RepositoryOwner {
    pub name: String,
    pub owner: String,
    pub is_organization: bool,
}

/// The values of a catalog row to be inserted.
#[derive(Debug)]
pub struct NewRepository {
    pub name: String,
    pub owner: String,
    pub is_organization: bool,
    pub design_file_sha: Option<String>,
    pub html_url: String,
}

/// The changes to a catalog row; a field left unset keeps its value.
#[derive(Debug)]
pub struct UpdateRepository {
    pub name: Option<String>,
    pub owner: Option<String>,
    pub is_organization: Option<bool>,
    pub design_file_sha: Option<String>,
    pub html_url: Option<String>,
}

/// How a repository is looked up.
#[derive(Debug)]
pub enum RepositoryKey {
    ID(u128),
    Owner(RepositoryOwner),
}

/// Whether a catalog row has the natural key (`name`, `owner`, `is_organization`).
pub open spec fn has_natural_key(r: RepositoryRow, name: Seq<char>, owner: Seq<char>, is_organization: bool) -> bool {
    r.name == name && r.owner == owner && r.is_organization == is_organization
}

pub open spec fn same_natural_key(a: RepositoryRow, b: RepositoryRow) -> bool {
    has_natural_key(a, b.name, b.owner, b.is_organization)
}

/// No two accounts share an id or an email.
pub open spec fn accounts_unique(a: Seq<AccountRow>) -> bool {
    forall|i: int, j: int|
        0 <= i < a.len() && 0 <= j < a.len() && i != j ==> (#[trigger] a[i]).id != (#[trigger] a[j]).id
            && a[i].email != a[j].email
}

/// No account has two credentials.
pub open spec fn credentials_unique(c: Seq<CredentialRow>) -> bool {
    forall|i: int, j: int|
        0 <= i < c.len() && 0 <= j < c.len() && i != j ==> (#[trigger] c[i]).user_id != (#[trigger] c[j]).user_id
}

/// No two catalog rows share an id or a natural key.
pub open spec fn repositories_unique(r: Seq<RepositoryRow>) -> bool {
    forall|i: int, j: int|
        0 <= i < r.len() && 0 <= j < r.len() && i != j ==> (#[trigger] r[i]).id != (#[trigger] r[j]).id
            && !same_natural_key(r[i], r[j])
}

/// The accounts after an upsert by email: the account with `email` gets the
/// access token and keeps its name; where there is none, one is added.
pub open spec fn upsert_account(
    a: Seq<AccountRow>,
    new_id: u128,
    name: Seq<char>,
    email: Seq<char>,
    access_token: Seq<char>,
) -> Seq<AccountRow> {
    if exists|i: int| 0 <= i < a.len() && (#[trigger] a[i]).email == email {
        let i = choose|i: int| 0 <= i < a.len() && (#[trigger] a[i]).email == email;
        a.update(i, AccountRow { access_token: Some(access_token), ..a[i] })
    } else {
        a.push(AccountRow { id: new_id, name, email, access_token: Some(access_token) })
    }
}

/// The credentials after `row` replaces, whole, the credential of its account,
/// or joins them where the account has none.
pub open spec fn upsert_credential(c: Seq<CredentialRow>, row: CredentialRow) -> Seq<CredentialRow> {
    if exists|i: int| 0 <= i < c.len() && (#[trigger] c[i]).user_id == row.user_id {
        let i = choose|i: int| 0 <= i < c.len() && (#[trigger] c[i]).user_id == row.user_id;
        c.update(i, row)
    } else {
        c.push(row)
    }
}

/// Message of the error for a refresh token that is not UTF-8 text.
pub open spec fn utf8_failure_message() -> Seq<char> {
    "Failed to decode token binary data to utf8 string."@
}

/// The associated data that binds a stored refresh token.
pub open spec fn credential_aad() -> Seq<u8> {
    seq![0u8, 0u8]
}

/// `row` holds the grant's refresh token sealed under the vault's key and the
/// row's nonce, and the grant's other credential fields.
pub open spec fn seals_refresh_token(vault: Aes256Gcm, row: CredentialRow, grant: TokenGrant) -> bool {
    &&& row.nonce.len() == NONCE_LEN
    &&& row.cypher == aes_256_gcm_sealed(vault.key(), row.nonce, credential_aad(), encode_utf8(grant.refresh_token))
    &&& row.expires_in == grant.refresh_token_expires_in
    &&& row.scope == grant.scope
    &&& row.token_type == grant.token_type
}

/// The id of the account that an upsert by `email` lands on: the id of the
/// account with that email, or `new_id` where there is none.
pub open spec fn upserted_account_id(a: Seq<AccountRow>, new_id: u128, email: Seq<char>) -> u128 {
    if exists|i: int| 0 <= i < a.len() && (#[trigger] a[i]).email == email {
        a[choose|i: int| 0 <= i < a.len() && (#[trigger] a[i]).email == email].id
    } else {
        new_id
    }
}

/// The credential row that holds a sealed refresh token of a grant.
pub open spec fn sealed_credential(user_id: u128, cypher: Seq<u8>, nonce: Seq<u8>, grant: TokenGrant) -> CredentialRow {
    CredentialRow {
        user_id,
        cypher,
        nonce,
        expires_in: grant.refresh_token_expires_in,
        scope: grant.scope,
        token_type: grant.token_type,
    }
}

/// What storing a sealed refresh token guarantees, from the tables `old` to
/// the tables `new`: it fails exactly where a new account's id is taken, and
/// then writes nothing; otherwise the account is upserted by email and the
/// sealed token becomes its one credential.
pub open spec fn stored_sealed_token(
    old: Store,
    new: Store,
    cypher: Seq<u8>,
    nonce: Seq<u8>,
    new_id: u128,
    name: Seq<char>,
    email: Seq<char>,
    grant: TokenGrant,
    r: Result<RoledUser, AppError>,
) -> bool {
    &&& new.wf()
    &&& r is Err <==> (!old.has_account_email(email) && old.has_account_id(new_id))
    &&& r is Err ==> (r == Err::<RoledUser, AppError>(AppError::RecordAlreadyExists) && new == old)
    &&& r matches Ok(u) ==> {
        &&& new.accounts() == upsert_account(old.accounts(), new_id, name, email, grant.access_token)
        &&& u.user.id == upserted_account_id(old.accounts(), new_id, email)
        &&& u.user.email@ == email
        &&& exists|i: int| 0 <= i < new.accounts().len() && #[trigger] new.accounts()[i] == u.user@
        &&& new.credentials() == upsert_credential(
            old.credentials(),
            sealed_credential(u.user.id, cypher, nonce, grant),
        )
        &&& new.repositories() == old.repositories()
    }
}

/// What saving a grant for an account guarantees, from the tables `old` to the
/// tables `new`, for the result `r`.
pub open spec fn saved_token_data(
    old: Store,
    new: Store,
    vault: Aes256Gcm,
    new_id: u128,
    name: Seq<char>,
    email: Seq<char>,
    grant: TokenGrant,
    r: Result<RoledUser, AppError>,
) -> bool {
    &&& new.wf()
    &&& r is Err ==> new == old
    &&& r matches Err(e) ==> (e is CryptoError || (e is RecordAlreadyExists && !old.has_account_email(email)
        && old.has_account_id(new_id)))
    &&& !old.has_account_email(email) && old.has_account_id(new_id) ==> r is Err
    &&& r matches Ok(u) ==> {
        &&& new.accounts() == upsert_account(old.accounts(), new_id, name, email, grant.access_token)
        &&& u.user.email@ == email
        &&& exists|i: int| 0 <= i < new.accounts().len() && #[trigger] new.accounts()[i] == u.user@
        &&& exists|c: CredentialRow|
            c.user_id == u.user.id && seals_refresh_token(vault, c, grant)
                && #[trigger] upsert_credential(old.credentials(), c) == new.credentials()
        &&& new.repositories() == old.repositories()
    }
}

/// Whether an account answers to a lookup key.
pub open spec fn user_key_matches(row: AccountRow, key: UserKey) -> bool {
    match key {
        UserKey::ID(id) => row.id == id,
        UserKey::Name(n) => row.name == n@,
        UserKey::Token(t) => row.access_token == Some(t@),
    }
}

/// Whether a catalog row answers to a lookup key.
pub open spec fn repository_key_matches(row: RepositoryRow, key: RepositoryKey) -> bool {
    match key {
        RepositoryKey::ID(id) => row.id == id,
        RepositoryKey::Owner(o) => has_natural_key(row, o.name@, o.owner@, o.is_organization),
    }
}

/// A catalog row after an update: each field that the update sets is replaced.
pub open spec fn updated_repository(r: RepositoryRow, u: UpdateRepository) -> RepositoryRow {
    RepositoryRow {
        id: r.id,
        name: match u.name { Some(n) => n@, None => r.name },
        owner: match u.owner { Some(o) => o@, None => r.owner },
        is_organization: match u.is_organization { Some(b) => b, None => r.is_organization },
        design_file_sha: match u.design_file_sha { Some(s) => Some(s@), None => r.design_file_sha },
        html_url: match u.html_url { Some(h) => h@, None => r.html_url },
    }
}

/// What reading the refresh token of the account `id` from `store` gives: not
/// found without a credential; a crypto error for a malformed nonce, a failed
/// authentication, or a plaintext that is not UTF-8; the text otherwise. What
/// was sealed from a text under the vault's key opens to that text.
pub open spec fn read_refresh_token(store: Store, vault: Aes256Gcm, id: u128, r: Result<String, AppError>) -> bool {
    &&& store.credential_of(id) is None ==> r == Err::<String, AppError>(AppError::RecordNotFound)
    &&& store.credential_of(id) matches Some(c) ==> {
        if c.nonce.len() != NONCE_LEN {
            r matches Err(AppError::CryptoError(m)) && m@ == crate::encrypt::nonce_length_message()
        } else {
            match aes_256_gcm_opened(vault.key(), c.nonce, credential_aad(), c.cypher) {
                None => r matches Err(AppError::CryptoError(m)) && m@ == crate::encrypt::crypto_failure_message(),
                Some(b) => if valid_utf8(b) {
                    r matches Ok(s) && s@ == decode_utf8(b)
                } else {
                    r matches Err(AppError::CryptoError(m)) && m@ == utf8_failure_message()
                },
            }
        }
    }
    &&& store.credential_of(id) matches Some(c) ==> forall|t: Seq<char>|
        c.nonce.len() == NONCE_LEN && c.cypher == #[trigger] aes_256_gcm_sealed(
            vault.key(),
            c.nonce,
            credential_aad(),
            encode_utf8(t),
        ) ==> (r matches Ok(s) && s@ == t)
}

/// The rows of the server's tables.
pub struct Store {
    pub users: Vec<User>,
    pub tokens: Vec<UserRefreshToken>,
    pub repos: Vec<Repository>,
}

impl Store {
    pub open spec fn accounts(&self) -> Seq<AccountRow> {
        self.users@.map_values(|u: User| u@)
    }

    pub open spec fn credentials(&self) -> Seq<CredentialRow> {
        self.tokens@.map_values(|t: UserRefreshToken| t@)
    }

    pub open spec fn repositories(&self) -> Seq<RepositoryRow> {
        self.repos@.map_values(|r: Repository| r@)
    }

    /// The uniqueness rules of the schema hold.
    pub open spec fn wf(&self) -> bool {
        &&& accounts_unique(self.accounts())
        &&& credentials_unique(self.credentials())
        &&& repositories_unique(self.repositories())
    }

    pub open spec fn has_account_id(&self, id: u128) -> bool {
        exists|i: int| 0 <= i < self.accounts().len() && (#[trigger] self.accounts()[i]).id == id
    }

    pub open spec fn has_account_email(&self, email: Seq<char>) -> bool {
        exists|i: int| 0 <= i < self.accounts().len() && (#[trigger] self.accounts()[i]).email == email
    }

    pub open spec fn has_repository_id(&self, id: u128) -> bool {
        exists|i: int| 0 <= i < self.repositories().len() && (#[trigger] self.repositories()[i]).id == id
    }

    pub open spec fn has_repository_key(&self, name: Seq<char>, owner: Seq<char>, is_organization: bool) -> bool {
        exists|i: int|
            0 <= i < self.repositories().len() && has_natural_key(
                #[trigger] self.repositories()[i],
                name,
                owner,
                is_organization,
            )
    }

    /// An empty set of tables.
    pub fn new() -> (r: Store)
        ensures
            r.wf(),
            r.accounts().len() == 0,
            r.credentials().len() == 0,
            r.repositories().len() == 0,
    {
        Store { users: Vec::new(), tokens: Vec::new(), repos: Vec::new() }
    }

    fn account_index_by_id(&self, id: u128) -> (r: Option<usize>)
        ensures
            match r {
                Some(i) => i < self.accounts().len() && self.accounts()[i as int].id == id,
                None => !self.has_account_id(id),
            },
    {
        let mut i: usize = 0;
        while i < self.users.len()
            invariant
                i <= self.users@.len(),
                forall|j: int| 0 <= j < i ==> (#[trigger] self.accounts()[j]).id != id,
            decreases self.users@.len() - i,
        {
            if self.users[i].id == id {
                return Some(i);
            }
            i = i + 1;
        }
        None
    }

    fn account_index_by_email(&self, email: &String) -> (r: Option<usize>)
        ensures
            match r {
                Some(i) => i < self.accounts().len() && self.accounts()[i as int].email == email@,
                None => !self.has_account_email(email@),
            },
    {
        let mut i: usize = 0;
        while i < self.users.len()
            invariant
                i <= self.users@.len(),
                forall|j: int| 0 <= j < i ==> (#[trigger] self.accounts()[j]).email != email@,
            decreases self.users@.len() - i,
        {
            if self.users[i].email == *email {
                return Some(i);
            }
            i = i + 1;
        }
        None
    }

    fn credential_index(&self, user_id: u128) -> (r: Option<usize>)
        ensures
            match r {
                Some(i) => i < self.credentials().len() && self.credentials()[i as int].user_id == user_id,
                None => forall|j: int|
                    0 <= j < self.credentials().len() ==> (#[trigger] self.credentials()[j]).user_id != user_id,
            },
    {
        let mut i: usize = 0;
        while i < self.tokens.len()
            invariant
                i <= self.tokens@.len(),
                forall|j: int| 0 <= j < i ==> (#[trigger] self.credentials()[j]).user_id != user_id,
            decreases self.tokens@.len() - i,
        {
            if self.tokens[i].user_id == user_id {
                return Some(i);
            }
            i = i + 1;
        }
        None
    }

    fn user_key_hit(u: &User, key: &UserKey) -> (r: bool)
        ensures
            r == user_key_matches(u@, *key),
    {
        match key {
            UserKey::ID(id) => u.id == *id,
            UserKey::Name(n) => u.name == *n,
            UserKey::Token(t) => match &u.access_token {
                Some(a) => *a == *t,
                None => false,
            },
        }
    }

    /// An account that answers to `key`.
    pub fn find_user(&self, key: &UserKey) -> (r: Result<RoledUser, AppError>)
        ensures
            r is Ok <==> exists|i: int|
                0 <= i < self.accounts().len() && user_key_matches(#[trigger] self.accounts()[i], *key),
            r matches Ok(u) ==> exists|i: int|
                0 <= i < self.accounts().len() && #[trigger] self.accounts()[i] == u.user@ && user_key_matches(
                    u.user@,
                    *key,
                ),
            r is Err ==> r == Err::<RoledUser, AppError>(AppError::RecordNotFound),
    {
        let mut i: usize = 0;
        while i < self.users.len()
            invariant
                i <= self.users@.len(),
                forall|j: int| 0 <= j < i ==> !user_key_matches(#[trigger] self.accounts()[j], *key),
            decreases self.users@.len() - i,
        {
            if Self::user_key_hit(&self.users[i], key) {
                let user = self.users[i].duplicate();
                assert(self.accounts()[i as int] == user@);
                return Ok(RoledUser { user });
            }
            i = i + 1;
        }
        Err(AppError::RecordNotFound)
    }

    /// Inserts an account; an id or email already present is refused.
    pub fn create_user(&mut self, id: u128, new_user: NewUser) -> (r: Result<RoledUser, AppError>)
        requires
            old(self).wf(),
        ensures
            final(self).wf(),
            (old(self).has_account_id(id) || old(self).has_account_email(new_user.email@)) ==> (r == Err::<
                RoledUser,
                AppError,
            >(AppError::RecordAlreadyExists) && *final(self) == *old(self)),
            !(old(self).has_account_id(id) || old(self).has_account_email(new_user.email@)) ==> (r matches Ok(u)
                && u.user@ == (AccountRow {
                id,
                name: new_user.name@,
                email: new_user.email@,
                access_token: opt_view(new_user.access_token),
            }) && final(self).accounts() == old(self).accounts().push(u.user@) && final(self).credentials()
                == old(self).credentials() && final(self).repositories() == old(self).repositories()),
    {
        if self.account_index_by_id(id).is_some() || self.account_index_by_email(&new_user.email).is_some() {
            return Err(AppError::RecordAlreadyExists);
        }
        let user = User { id, name: new_user.name, email: new_user.email, access_token: new_user.access_token };
        let copy = user.duplicate();
        self.users.push(user);
        assert(self.accounts() =~= old(self).accounts().push(copy@));
        Ok(RoledUser { user: copy })
    }

    /// The credential of the account `user_id`, where it has one.
    pub open spec fn credential_of(&self, user_id: u128) -> Option<CredentialRow> {
        if exists|i: int| 0 <= i < self.credentials().len() && (#[trigger] self.credentials()[i]).user_id == user_id {
            let i = choose|i: int|
                0 <= i < self.credentials().len() && (#[trigger] self.credentials()[i]).user_id == user_id;
            Some(self.credentials()[i])
        } else {
            None
        }
    }

    /// Upserts the account by email and stores the grant's refresh token,
    /// encrypted, as the account's one credential. The refresh token is
    /// encrypted before anything is written, and nothing is written where that
    /// fails; what follows the encryption is `store_sealed_token`.
    pub fn save_user_token_data(
        &mut self,
        vault: &Aes256Gcm,
        new_id: u128,
        user: NewUser,
        token_data: TokenData,
    ) -> (r: Result<RoledUser, AppError>)
        requires
            old(self).wf(),
        ensures
            saved_token_data(*old(self), *final(self), *vault, new_id, user.name@, user.email@, token_data@, r),
    {
        let data = token_data.refresh_token.as_str().as_bytes_vec();
        let aad: Vec<u8> = vec![0u8, 0u8];
        assert(aad@ =~= credential_aad());
        let sealed = match vault.encrypt(data, aad) {
            Ok(sealed) => sealed,
            Err(e) => return Err(e),
        };
        let ghost cypher = sealed.cypher@;
        let ghost nonce = sealed.nonce@;
        let r = self.store_sealed_token(sealed, new_id, user, token_data);
        proof {
            if r is Ok {
                let c = sealed_credential(r->Ok_0.user.id, cypher, nonce, token_data@);
                assert(seals_refresh_token(*vault, c, token_data@));
                assert(upsert_credential(old(self).credentials(), c) == self.credentials());
            }
        }
        r
    }

    /// Upserts the account by email, with the grant's access token, and makes
    /// `sealed` the account's one credential. An account that is new gets
    /// `new_id`; one whose email is new but whose id is taken is refused, and
    /// nothing is written.
    pub fn store_sealed_token(
        &mut self,
        sealed: EncryptResponse,
        new_id: u128,
        user: NewUser,
        token_data: TokenData,
    ) -> (r: Result<RoledUser, AppError>)
        requires
            old(self).wf(),
        ensures
            stored_sealed_token(
                *old(self),
                *final(self),
                sealed.cypher@,
                sealed.nonce@,
                new_id,
                user.name@,
                user.email@,
                token_data@,
                r,
            ),
    {
        let uid: u128;
        let result_user: User;
        let ghost accounts_after: Seq<AccountRow>;
        let ghost uidx: int;
        match self.account_index_by_email(&user.email) {
            Some(i) => {
                let mut row = self.users[i].duplicate();
                row.access_token = Some(token_data.access_token.clone());
                uid = row.id;
                result_user = row.duplicate();
                proof {
                    assert(old(self).has_account_email(user.email@));
                    accounts_after = old(self).accounts().update(i as int, row@);
                    uidx = i as int;
                    let c = choose|c: int|
                        0 <= c < old(self).accounts().len() && (#[trigger] old(self).accounts()[c]).email == user.email@;
                    assert(c == i as int);
                }
                self.users.set(i, row);
                assert(self.accounts() =~= accounts_after);
            },
            None => {
                if self.account_index_by_id(new_id).is_some() {
                    return Err(AppError::RecordAlreadyExists);
                }
                let row = User {
                    id: new_id,
                    name: user.name,
                    email: user.email,
                    access_token: Some(token_data.access_token.clone()),
                };
                uid = new_id;
                result_user = row.duplicate();
                proof {
                    assert(!old(self).has_account_email(user.email@));
                    accounts_after = old(self).accounts().push(row@);
                    uidx = old(self).accounts().len() as int;
                }
                self.users.push(row);
                assert(self.accounts() =~= accounts_after);
            },
        }
        let ghost cred_before = self.credentials();
        let nonce = sealed.nonce.as_slice();
        let mut nonce_bytes: Vec<u8> = Vec::new();
        let mut k: usize = 0;
        while k < NONCE_LEN
            invariant
                k <= NONCE_LEN,
                nonce@.len() == NONCE_LEN,
                nonce_bytes@ == nonce@.subrange(0, k as int),
            decreases NONCE_LEN - k,
        {
            nonce_bytes.push(nonce[k]);
            k = k + 1;
            assert(nonce_bytes@ =~= nonce@.subrange(0, k as int));
        }
        assert(nonce_bytes@ =~= sealed.nonce@);
        let cred = UserRefreshToken {
            user_id: uid,
            refresh_token_cypher: sealed.cypher,
            cypher_nonce: nonce_bytes,
            refresh_token_expires_in: token_data.refresh_token_expires_in,
            scope: token_data.scope,
            token_type: token_data.token_type,
        };
        let ghost c = cred@;
        match self.credential_index(uid) {
            Some(j) => {
                proof {
                    let w = choose|w: int|
                        0 <= w < cred_before.len() && (#[trigger] cred_before[w]).user_id == c.user_id;
                    assert(w == j as int);
                }
                self.tokens.set(j, cred);
                assert(self.credentials() =~= upsert_credential(cred_before, c));
            },
            None => {
                self.tokens.push(cred);
                assert(self.credentials() =~= upsert_credential(cred_before, c));
            },
        }
        proof {
            assert(cred_before == old(self).credentials());
            assert(upsert_credential(old(self).credentials(), c) == self.credentials());
            assert(self.accounts() == accounts_after);
            assert(0 <= uidx < self.accounts().len() && self.accounts()[uidx] == result_user@);
            assert(result_user.email@ == user.email@);
            assert(accounts_after == upsert_account(old(self).accounts(), new_id, user.name@, user.email@, token_data@.access_token));
        }
        Ok(RoledUser { user: result_user })
    }

    /// Decrypts the refresh token of the account `id`.
    pub fn get_user_refresh_token(&self, vault: &Aes256Gcm, id: u128) -> (r: Result<String, AppError>)
        requires
            self.wf(),
        ensures
            read_refresh_token(*self, *vault, id, r),
    {
        let j = match self.credential_index(id) {
            Some(j) => j,
            None => return Err(AppError::RecordNotFound),
        };
        proof {
            let w = choose|w: int|
                0 <= w < self.credentials().len() && (#[trigger] self.credentials()[w]).user_id == id;
            assert(w == j as int);
        }
        let cypher = clone_bytes(&self.tokens[j].refresh_token_cypher);
        let nonce = clone_bytes(&self.tokens[j].cypher_nonce);
        let aad: Vec<u8> = vec![0u8, 0u8];
        assert(aad@ =~= credential_aad());
        let plain = vault.decrypt(cypher, aad, nonce)?;
        match utf8_text(plain) {
            Some(s) => Ok(s),
            None => Err(AppError::CryptoError(String::from_str("Failed to decode token binary data to utf8 string."))),
        }
    }

    /// Whether the catalog holds a repository with the natural key of `repo_owner`.
    pub fn is_repo_exist(&self, repo_owner: &RepositoryOwner) -> (r: bool)
        ensures
            r == self.has_repository_key(repo_owner.name@, repo_owner.owner@, repo_owner.is_organization),
    {
        self.repository_index_by_key(&repo_owner.name, &repo_owner.owner, repo_owner.is_organization).is_some()
    }

    fn repository_index_by_key(&self, name: &String, owner: &String, is_organization: bool) -> (r: Option<usize>)
        ensures
            match r {
                Some(i) => i < self.repositories().len() && has_natural_key(
                    self.repositories()[i as int],
                    name@,
                    owner@,
                    is_organization,
                ),
                None => !self.has_repository_key(name@, owner@, is_organization),
            },
    {
        let mut i: usize = 0;
        while i < self.repos.len()
            invariant
                i <= self.repos@.len(),
                forall|j: int|
                    0 <= j < i ==> !has_natural_key(#[trigger] self.repositories()[j], name@, owner@, is_organization),
            decreases self.repos@.len() - i,
        {
            if self.repos[i].name == *name && self.repos[i].owner == *owner && self.repos[i].is_organization
                == is_organization {
                return Some(i);
            }
            i = i + 1;
        }
        None
    }

    fn repository_index_by_id(&self, id: u128) -> (r: Option<usize>)
        ensures
            match r {
                Some(i) => i < self.repositories().len() && self.repositories()[i as int].id == id,
                None => !self.has_repository_id(id),
            },
    {
        let mut i: usize = 0;
        while i < self.repos.len()
            invariant
                i <= self.repos@.len(),
                forall|j: int| 0 <= j < i ==> (#[trigger] self.repositories()[j]).id != id,
            decreases self.repos@.len() - i,
        {
            if self.repos[i].id == id {
                return Some(i);
            }
            i = i + 1;
        }
        None
    }

    /// Inserts a catalog row under `id`; an id or natural key already present
    /// is refused.
    pub fn create_repo(&mut self, id: u128, new_repo: NewRepository) -> (r: Result<Repository, AppError>)
        requires
            old(self).wf(),
        ensures
            final(self).wf(),
            (old(self).has_repository_id(id) || old(self).has_repository_key(
                new_repo.name@,
                new_repo.owner@,
                new_repo.is_organization,
            )) ==> (r == Err::<Repository, AppError>(AppError::RecordAlreadyExists) && *final(self) == *old(self)),
            !(old(self).has_repository_id(id) || old(self).has_repository_key(
                new_repo.name@,
                new_repo.owner@,
                new_repo.is_organization,
            )) ==> (r matches Ok(row) && row@ == (RepositoryRow {
                id,
                name: new_repo.name@,
                owner: new_repo.owner@,
                is_organization: new_repo.is_organization,
                design_file_sha: opt_view(new_repo.design_file_sha),
                html_url: new_repo.html_url@,
            }) && final(self).repositories() == old(self).repositories().push(row@)),
            final(self).accounts() == old(self).accounts(),
            final(self).credentials() == old(self).credentials(),
    {
        if self.repository_index_by_id(id).is_some() || self.repository_index_by_key(
            &new_repo.name,
            &new_repo.owner,
            new_repo.is_organization,
        ).is_some() {
            return Err(AppError::RecordAlreadyExists);
        }
        let repo = Repository {
            id,
            name: new_repo.name,
            owner: new_repo.owner,
            is_organization: new_repo.is_organization,
            design_file_sha: new_repo.design_file_sha,
            html_url: new_repo.html_url,
        };
        let copy = repo.duplicate();
        self.repos.push(repo);
        assert(self.repositories() =~= old(self).repositories().push(copy@));
        Ok(copy)
    }

    /// A catalog row that answers to `key`.
    pub fn find_repo(&self, key: &RepositoryKey) -> (r: Result<Repository, AppError>)
        ensures
            r is Ok <==> exists|i: int|
                0 <= i < self.repositories().len() && repository_key_matches(#[trigger] self.repositories()[i], *key),
            r matches Ok(row) ==> exists|i: int|
                0 <= i < self.repositories().len() && #[trigger] self.repositories()[i] == row@
                    && repository_key_matches(row@, *key),
            r is Err ==> r == Err::<Repository, AppError>(AppError::RecordNotFound),
    {
        let found = match key {
            RepositoryKey::ID(id) => self.repository_index_by_id(*id),
            RepositoryKey::Owner(o) => self.repository_index_by_key(&o.name, &o.owner, o.is_organization),
        };
        match found {
            Some(i) => {
                let row = self.repos[i].duplicate();
                assert(self.repositories()[i as int] == row@);
                Ok(row)
            },
            None => Err(AppError::RecordNotFound),
        }
    }

    /// Applies `upd` to the catalog row `repo_id`; a change that would give it
    /// the natural key of another row is refused.
    pub fn update_repo(&mut self, repo_id: u128, upd: UpdateRepository) -> (r: Result<Repository, AppError>)
        requires
            old(self).wf(),
        ensures
            final(self).wf(),
            !old(self).has_repository_id(repo_id) ==> (r == Err::<Repository, AppError>(AppError::RecordNotFound)
                && *final(self) == *old(self)),
            r is Err ==> *final(self) == *old(self),
            r matches Ok(row) ==> exists|i: int|
                0 <= i < old(self).repositories().len() && (#[trigger] old(self).repositories()[i]).id == repo_id
                    && row@ == updated_repository(old(self).repositories()[i], upd)
                    && final(self).repositories() == old(self).repositories().update(i, row@),
            old(self).has_repository_id(repo_id) && r is Err ==> r == Err::<Repository, AppError>(
                AppError::RecordAlreadyExists,
            ),
            old(self).has_repository_id(repo_id) && upd.name is None && upd.owner is None && upd.is_organization is None
                ==> r is Ok,
            (exists|i: int|
                0 <= i < old(self).repositories().len() && (#[trigger] old(self).repositories()[i]).id == repo_id
                    && forall|j: int|
                    0 <= j < old(self).repositories().len() && j != i ==> !same_natural_key(
                        #[trigger] old(self).repositories()[j],
                        updated_repository(old(self).repositories()[i], upd),
                    )) ==> r is Ok,
            final(self).accounts() == old(self).accounts(),
            final(self).credentials() == old(self).credentials(),
    {
        let i = match self.repository_index_by_id(repo_id) {
            Some(i) => i,
            None => return Err(AppError::RecordNotFound),
        };
        let mut row = self.repos[i].duplicate();
        if let Some(n) = upd.name {
            row.name = n;
        }
        if let Some(o) = upd.owner {
            row.owner = o;
        }
        if let Some(b) = upd.is_organization {
            row.is_organization = b;
        }
        if let Some(s) = upd.design_file_sha {
            row.design_file_sha = Some(s);
        }
        if let Some(h) = upd.html_url {
            row.html_url = h;
        }
        assert(row@ == updated_repository(old(self).repositories()[i as int], upd));
        let mut k: usize = 0;
        while k < self.repos.len()
            invariant
                *self == *old(self),
                old(self).wf(),
                i < self.repos@.len(),
                old(self).repositories()[i as int].id == repo_id,
                row@ == updated_repository(old(self).repositories()[i as int], upd),
                k <= self.repos@.len(),
                forall|j: int|
                    0 <= j < k && j != i ==> !same_natural_key(#[trigger] self.repositories()[j], row@)
                        && self.repositories()[j].id != row.id,
            decreases self.repos@.len() - k,
        {
            if k != i && self.repos[k].name == row.name && self.repos[k].owner == row.owner
                && self.repos[k].is_organization == row.is_organization {
                assert(old(self).has_repository_id(repo_id)) by {
                    assert(old(self).repositories()[i as int].id == repo_id);
                }
                return Err(AppError::RecordAlreadyExists);
            }
            assert(k != i ==> self.repositories()[k as int].id != row.id);
            k = k + 1;
        }
        let copy = row.duplicate();
        self.repos.set(i, row);
        assert(self.repositories() =~= old(self).repositories().update(i as int, copy@));
        Ok(copy)
    }

    /// Overwrites the name and email of the account that holds `token`, and
    /// its access token where `new_user` sets one; an email that another
    /// account has is refused.
    pub fn update_user(&mut self, token: &str, new_user: NewUser) -> (r: Result<RoledUser, AppError>)
        requires
            old(self).wf(),
        ensures
            final(self).wf(),
            r is Err ==> *final(self) == *old(self),
            !(exists|i: int|
                0 <= i < old(self).accounts().len() && (#[trigger] old(self).accounts()[i]).access_token == Some(
                    token@,
                )) ==> r == Err::<RoledUser, AppError>(AppError::RecordNotFound),
            r matches Err(e) ==> (e is RecordNotFound || e is RecordAlreadyExists),
            r matches Ok(u) ==> exists|i: int|
                0 <= i < old(self).accounts().len() && (#[trigger] old(self).accounts()[i]).access_token == Some(
                    token@,
                ) && u.user@ == (AccountRow {
                    id: old(self).accounts()[i].id,
                    name: new_user.name@,
                    email: new_user.email@,
                    access_token: match new_user.access_token {
                        Some(t) => Some(t@),
                        None => old(self).accounts()[i].access_token,
                    },
                }) && final(self).accounts() == old(self).accounts().update(i, u.user@),
            r matches Err(e) ==> (e is RecordAlreadyExists ==> old(self).has_account_email(new_user.email@)),
            (exists|i: int|
                0 <= i < old(self).accounts().len() && (#[trigger] old(self).accounts()[i]).access_token == Some(
                    token@,
                )) && !old(self).has_account_email(new_user.email@) ==> r is Ok,
            final(self).credentials() == old(self).credentials(),
            final(self).repositories() == old(self).repositories(),
    {
        let wanted = String::from_str(token);
        let mut found: Option<usize> = None;
        let mut n: usize = 0;
        while n < self.users.len() && found.is_none()
            invariant
                *self == *old(self),
                wanted@ == token@,
                n <= self.users@.len(),
                found matches Some(f) ==> f < self.users@.len() && self.accounts()[f as int].access_token == Some(
                    token@,
                ),
                found is None ==> forall|j: int| 0 <= j < n ==> (#[trigger] self.accounts()[j]).access_token != Some(
                    token@,
                ),
            decreases self.users@.len() - n,
        {
            let hit = match &self.users[n].access_token {
                Some(a) => *a == wanted,
                None => false,
            };
            if hit {
                found = Some(n);
            }
            n = n + 1;
        }
        let i = match found {
            Some(i) => i,
            None => return Err(AppError::RecordNotFound),
        };
        match self.account_index_by_email(&new_user.email) {
            Some(k) => {
                if k != i {
                    return Err(AppError::RecordAlreadyExists);
                }
            },
            None => {},
        }
        let old_row = self.users[i].duplicate();
        let row = User {
            id: old_row.id,
            name: new_user.name,
            email: new_user.email,
            access_token: match new_user.access_token {
                Some(t) => Some(t),
                None => old_row.access_token,
            },
        };
        let copy = row.duplicate();
        self.users.set(i, row);
        assert(self.accounts() =~= old(self).accounts().update(i as int, copy@));
        Ok(RoledUser { user: copy })
    }

    /// Sets the access token of the account `user_id`.
    pub fn update_user_token(&mut self, user_id: u128, token: &str) -> (r: Result<RoledUser, AppError>)
        requires
            old(self).wf(),
        ensures
            final(self).wf(),
            !old(self).has_account_id(user_id) ==> (r == Err::<RoledUser, AppError>(AppError::RecordNotFound)
                && *final(self) == *old(self)),
            old(self).has_account_id(user_id) ==> (r matches Ok(u) && exists|i: int|
                0 <= i < old(self).accounts().len() && (#[trigger] old(self).accounts()[i]).id == user_id
                    && u.user@ == (AccountRow { access_token: Some(token@), ..old(self).accounts()[i] })
                    && final(self).accounts() == old(self).accounts().update(i, u.user@)),
            final(self).credentials() == old(self).credentials(),
            final(self).repositories() == old(self).repositories(),
    {
        match self.account_index_by_id(user_id) {
            None => Err(AppError::RecordNotFound),
            Some(i) => {
                let mut user = self.users[i].duplicate();
                user.access_token = Some(String::from_str(token));
                let copy = user.duplicate();
                self.users.set(i, user);
                assert(self.accounts() =~= old(self).accounts().update(i as int, copy@));
                Ok(RoledUser { user: copy })
            },
        }
    }
}

} // verus!
