//! Identity resolution: from a fresh grant and the GitHub profile it opens, to
//! the server's account and its stored refresh credential.

use vstd::prelude::*;
use crate::errors::AppError;
use vstd::utf8::encode_utf8;
use vstd::string::StrSliceExecFns;
use crate::encrypt::{aes_256_gcm_sealed, Aes256Gcm, EncryptResponse};
use crate::github::{first_primary, no_primary_email_message, GitHubAPI, User as Profile, UserEmail};
use crate::models::{
    credential_aad, read_refresh_token, saved_token_data, sealed_credential, stored_sealed_token, seals_refresh_token, upsert_account, upsert_credential, AccountRow, CredentialRow, NewUser,
    RoledUser, Store, TokenData, UserKey, user_key_matches,
};
use crate::oauth::{GenerateAccessTokenResponse, TokenGrant};

verus! {

/// The name a new account gets: the profile's display name, or its login
/// where it has none.
pub open spec fn display_name(profile: Profile) -> Seq<char> {
    match profile.name {
        Some(n) => n@,
        None => profile.login@,
    }
}

/// What resolving guarantees, from the tables `old` to the tables `new`.
pub open spec fn resolved(
    old: Store,
    new: Store,
    vault: Aes256Gcm,
    new_id: u128,
    profile: Profile,
    emails: Seq<UserEmail>,
    grant: TokenGrant,
    r: Result<RoledUser, AppError>,
) -> bool {
    match first_primary(emails) {
        None => new == old && (r matches Err(AppError::GithubAuthError(m)) && m@ == no_primary_email_message()),
        Some(i) => saved_token_data(old, new, vault, new_id, display_name(profile), emails[i].email@, grant, r),
    }
}

/// The part of a grant that is stored.
pub fn token_data_from(grant: &GenerateAccessTokenResponse) -> (r: TokenData)
    ensures
        r@ == grant@,
{
    TokenData {
        access_token: grant.access_token.clone(),
        expires_in: grant.expires_in,
        refresh_token: grant.refresh_token.clone(),
        refresh_token_expires_in: grant.refresh_token_expires_in,
        scope: grant.scope.clone(),
        token_type: grant.token_type.clone(),
    }
}

/// What resolving with a refresh token already sealed guarantees, from the
/// tables `old` to the tables `new`.
pub open spec fn resolved_with_sealed(
    old: Store,
    new: Store,
    cypher: Seq<u8>,
    nonce: Seq<u8>,
    new_id: u128,
    profile: Profile,
    emails: Seq<UserEmail>,
    grant: TokenGrant,
    r: Result<RoledUser, AppError>,
) -> bool {
    match first_primary(emails) {
        None => new == old && (r matches Err(AppError::GithubAuthError(m)) && m@ == no_primary_email_message()),
        Some(i) => stored_sealed_token(
            old,
            new,
            cypher,
            nonce,
            new_id,
            display_name(profile),
            emails[i].email@,
            grant,
            r,
        ),
    }
}

/// Resolves the account of a fresh grant: picks the primary email among the
/// profile's emails, upserts the account by that email (a new account is
/// named after the profile, an existing one keeps its name) with the grant's
/// access token, and stores the grant's refresh token encrypted. Either all of
/// it is written or nothing is. What follows the encryption is
/// `resolve_sealed`.
pub fn resolve(
    store: &mut Store,
    vault: &Aes256Gcm,
    new_id: u128,
    grant: &GenerateAccessTokenResponse,
    profile: &Profile,
    emails: &Vec<UserEmail>,
) -> (r: Result<RoledUser, AppError>)
    requires
        old(store).wf(),
    ensures
        resolved(*old(store), *final(store), *vault, new_id, *profile, emails@, grant@, r),
{
    if let Err(e) = GitHubAPI::get_user_primary_email(emails) {
        return Err(e);
    }
    let data = grant.refresh_token.as_str().as_bytes_vec();
    let aad: Vec<u8> = vec![0u8, 0u8];
    assert(aad@ =~= credential_aad());
    let sealed = match vault.encrypt(data, aad) {
        Ok(sealed) => sealed,
        Err(e) => return Err(e),
    };
    let ghost cypher = sealed.cypher@;
    let ghost nonce = sealed.nonce@;
    let r = resolve_sealed(store, sealed, new_id, grant, profile, emails);
    proof {
        if r is Ok {
            let c = sealed_credential(r->Ok_0.user.id, cypher, nonce, grant@);
            assert(seals_refresh_token(*vault, c, grant@));
            assert(upsert_credential(old(store).credentials(), c) == final(store).credentials());
        }
    }
    r
}

/// Resolves the account of a fresh grant whose refresh token is already
/// sealed: as `resolve`, with `sealed` as the stored credential.
pub fn resolve_sealed(
    store: &mut Store,
    sealed: EncryptResponse,
    new_id: u128,
    grant: &GenerateAccessTokenResponse,
    profile: &Profile,
    emails: &Vec<UserEmail>,
) -> (r: Result<RoledUser, AppError>)
    requires
        old(store).wf(),
    ensures
        resolved_with_sealed(*old(store), *final(store), sealed.cypher@, sealed.nonce@, new_id, *profile, emails@, grant@, r),
{
    let primary = match GitHubAPI::get_user_primary_email(emails) {
        Ok(e) => e,
        Err(e) => return Err(e),
    };
    let name = match &profile.name {
        Some(n) => n.clone(),
        None => profile.login.clone(),
    };
    let new_user = NewUser { name, email: primary.email, access_token: None };
    store.store_sealed_token(sealed, new_id, new_user, token_data_from(grant))
}

/// The refresh token stored for the account that holds `access_token`.
pub fn refresh_token_for(store: &Store, vault: &Aes256Gcm, access_token: String) -> (r: Result<String, AppError>)
    requires
        store.wf(),
    ensures
        !(exists|i: int|
            0 <= i < store.accounts().len() && (#[trigger] store.accounts()[i]).access_token == Some(
                access_token@,
            )) ==> r == Err::<String, AppError>(AppError::RecordNotFound),
        (exists|i: int|
            0 <= i < store.accounts().len() && (#[trigger] store.accounts()[i]).access_token == Some(
                access_token@,
            )) ==> exists|i: int|
            0 <= i < store.accounts().len() && (#[trigger] store.accounts()[i]).access_token == Some(access_token@)
                && read_refresh_token(*store, *vault, store.accounts()[i].id, r),
{
    let key = UserKey::Token(access_token);
    let found = store.find_user(&key)?;
    let r = store.get_user_refresh_token(vault, found.user.id);
    proof {
        let i = choose|i: int|
            0 <= i < store.accounts().len() && #[trigger] store.accounts()[i] == found.user@ && user_key_matches(
                found.user@,
                key,
            );
        assert(store.accounts()[i].access_token == Some(access_token@));
    }
    r
}

/// What the caller of the token exchange gets back: the access token and the
/// seconds until it expires.
pub struct AccessTokenReply {
    pub access_token: String,
    pub expires_in: i32,
}

pub fn access_token_reply(grant: &GenerateAccessTokenResponse) -> (r: AccessTokenReply)
    ensures
        r.access_token@ == grant.access_token@,
        r.expires_in == grant.expires_in,
{
    AccessTokenReply { access_token: grant.access_token.clone(), expires_in: grant.expires_in }
}

proof fn lemma_upsert_account_present(a: Seq<AccountRow>, new_id: u128, name: Seq<char>, email: Seq<char>, token: Seq<char>, k: int)
    requires
        crate::models::accounts_unique(a),
        0 <= k < a.len(),
        a[k].email == email,
    ensures
        upsert_account(a, new_id, name, email, token) == a.update(k, AccountRow { access_token: Some(token), ..a[k] }),
{
    let c = choose|i: int| 0 <= i < a.len() && (#[trigger] a[i]).email == email;
    assert(c == k);
}

proof fn lemma_upsert_credential_present(c: Seq<CredentialRow>, row: CredentialRow, k: int)
    requires
        crate::models::credentials_unique(c),
        0 <= k < c.len(),
        c[k].user_id == row.user_id,
    ensures
        upsert_credential(c, row) == c.update(k, row),
{
    let w = choose|i: int| 0 <= i < c.len() && (#[trigger] c[i]).user_id == row.user_id;
    assert(w == k);
}

proof fn lemma_upsert_credential_holds(c: Seq<CredentialRow>, row: CredentialRow)
    ensures
        exists|k: int| 0 <= k < upsert_credential(c, row).len() && #[trigger] upsert_credential(c, row)[k] == row,
        upsert_credential(c, row).len() >= c.len(),
{
    if exists|i: int| 0 <= i < c.len() && (#[trigger] c[i]).user_id == row.user_id {
        let w = choose|i: int| 0 <= i < c.len() && (#[trigger] c[i]).user_id == row.user_id;
        assert(upsert_credential(c, row)[w] == row);
    } else {
        assert(upsert_credential(c, row)[c.len() as int] == row);
    }
}

/// Two successful resolutions for the same primary email leave one account
/// with that email, the same one both times, and no account or credential
/// more than the first left; that account's one credential is the one that
/// the second resolution wrote.
pub proof fn lemma_resolve_twice_upserts(
    s0: Store,
    s1: Store,
    s2: Store,
    vault: Aes256Gcm,
    id1: u128,
    id2: u128,
    profile1: Profile,
    profile2: Profile,
    emails1: Seq<UserEmail>,
    emails2: Seq<UserEmail>,
    grant1: TokenGrant,
    grant2: TokenGrant,
    r1: Result<RoledUser, AppError>,
    r2: Result<RoledUser, AppError>,
)
    requires
        s0.wf(),
        resolved(s0, s1, vault, id1, profile1, emails1, grant1, r1),
        resolved(s1, s2, vault, id2, profile2, emails2, grant2, r2),
        r1 is Ok,
        r2 is Ok,
        first_primary(emails1) is Some && first_primary(emails2) is Some,
        emails1[first_primary(emails1)->Some_0].email@ == emails2[first_primary(emails2)->Some_0].email@,
    ensures
        s2.wf(),
        r1->Ok_0.user.id == r2->Ok_0.user.id,
        s2.accounts().len() == s1.accounts().len(),
        s2.credentials().len() == s1.credentials().len(),
        exists|i: int|
            0 <= i < s2.accounts().len() && (#[trigger] s2.accounts()[i]).email
                == emails2[first_primary(emails2)->Some_0].email@ && s2.accounts()[i].id == r2->Ok_0.user.id,
        s2.credential_of(r2->Ok_0.user.id) matches Some(c) && seals_refresh_token(vault, c, grant2),
{
    let email = emails2[first_primary(emails2)->Some_0].email@;
    let u1 = r1->Ok_0;
    let u2 = r2->Ok_0;
    let i1 = choose|i: int| 0 <= i < s1.accounts().len() && #[trigger] s1.accounts()[i] == u1.user@;
    assert(s1.accounts()[i1].email == email);
    lemma_upsert_account_present(s1.accounts(), id2, display_name(profile2), email, grant2.access_token, i1);
    let i2 = choose|i: int| 0 <= i < s2.accounts().len() && #[trigger] s2.accounts()[i] == u2.user@;
    assert(s2.accounts()[i1].email == email);
    assert(i2 == i1) by {
        if i2 != i1 {
            assert(s2.accounts()[i2].email != s2.accounts()[i1].email);
        }
    }
    assert(u2.user.id == u1.user.id);
    let c1 = choose|c: CredentialRow|
        c.user_id == u1.user.id && seals_refresh_token(vault, c, grant1)
            && #[trigger] upsert_credential(s0.credentials(), c) == s1.credentials();
    lemma_upsert_credential_holds(s0.credentials(), c1);
    let k = choose|k: int| 0 <= k < s1.credentials().len() && #[trigger] s1.credentials()[k] == c1;
    let c2 = choose|c: CredentialRow|
        c.user_id == u2.user.id && seals_refresh_token(vault, c, grant2)
            && #[trigger] upsert_credential(s1.credentials(), c) == s2.credentials();
    lemma_upsert_credential_present(s1.credentials(), c2, k);
    assert(s2.credentials()[k] == c2);
    let w = choose|w: int| 0 <= w < s2.credentials().len() && (#[trigger] s2.credentials()[w]).user_id == u2.user.id;
    assert(w == k) by {
        if w != k {
            assert(s2.credentials()[w].user_id != s2.credentials()[k].user_id);
        }
    }
    assert(s2.accounts()[i1].email == email && s2.accounts()[i1].id == u2.user.id);
}

/// After a successful resolution, reading the refresh token of the resolved
/// account gives back the refresh token of the grant.
pub proof fn lemma_resolved_refresh_token_reads_back(
    s0: Store,
    s1: Store,
    vault: Aes256Gcm,
    new_id: u128,
    profile: Profile,
    emails: Seq<UserEmail>,
    grant: TokenGrant,
    r: Result<RoledUser, AppError>,
    read: Result<String, AppError>,
)
    requires
        s0.wf(),
        resolved(s0, s1, vault, new_id, profile, emails, grant, r),
        r is Ok,
        read_refresh_token(s1, vault, r->Ok_0.user.id, read),
    ensures
        read matches Ok(t) && t@ == grant.refresh_token,
{
    let uid = r->Ok_0.user.id;
    let c = choose|c: CredentialRow|
        c.user_id == uid && seals_refresh_token(vault, c, grant)
            && #[trigger] upsert_credential(s0.credentials(), c) == s1.credentials();
    lemma_upsert_credential_holds(s0.credentials(), c);
    let k = choose|k: int| 0 <= k < s1.credentials().len() && #[trigger] s1.credentials()[k] == c;
    let w = choose|w: int| 0 <= w < s1.credentials().len() && (#[trigger] s1.credentials()[w]).user_id == uid;
    assert(w == k) by {
        if w != k {
            assert(s1.credentials()[w].user_id != s1.credentials()[k].user_id);
        }
    }
    assert(s1.credential_of(uid) == Some(c));
    assert(c.cypher == aes_256_gcm_sealed(vault.key(), c.nonce, credential_aad(), encode_utf8(grant.refresh_token)));
}

} // verus!
