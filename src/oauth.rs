//! The OAuth token exchange with GitHub: the parameters of the two grants, and
//! the reading of the token endpoint's answer.

use vstd::prelude::*;
use vstd::string::StringExecFns;
use crate::errors::AppError;

verus! {

/// A form body read as a list of (key, value) texts, in order.
pub type Fields = Seq<(Seq<char>, Seq<char>)>;

/// The texts of a list of string pairs.
pub open spec fn pairs_view(v: Seq<(String, String)>) -> Fields {
    v.map_values(|p: (String, String)| (p.0@, p.1@))
}

/// A value of a JSON object, as far as the token answer reads it.
pub enum JsonField {
    Text(Seq<char>),
    /// A number, written as `serde_json` writes it.
    Number(Seq<char>),
    Other,
}

/// A value of a decoded JSON object.
#[derive(Debug)]
pub enum JsonScalar {
    /// A string, with its escapes decoded.
    Text(String),
    /// A number, written as `serde_json` writes it.
    Number(String),
    /// Any other value.
    Other,
}

impl View for JsonScalar {
    type V = JsonField;

    open spec fn view(&self) -> JsonField {
        match self {
            JsonScalar::Text(s) => JsonField::Text(s@),
            JsonScalar::Number(n) => JsonField::Number(n@),
            JsonScalar::Other => JsonField::Other,
        }
    }
}

/// The entries of a JSON object.
pub type JsonEntries = Seq<(Seq<char>, JsonField)>;

pub open spec fn entries_view(v: Seq<(String, JsonScalar)>) -> JsonEntries {
    v.map_values(|p: (String, JsonScalar)| (p.0@, p.1@))
}

/// The keys of a list of entries, in order.
pub open spec fn keys_of<V>(v: Seq<(String, V)>) -> Seq<Seq<char>> {
    v.map_values(|p: (String, V)| p.0@)
}

/// What `serde_urlencoded` makes of a body when it decodes it as a list of
/// string pairs: the pairs, percent-decoded, in order; or nothing where it fails.
pub uninterp spec fn form_pairs(body: Seq<char>) -> Option<Fields>;

/// What `serde_json` makes of a body when it reads it as one JSON object: its
/// entries, strings decoded and numbers written back as text; or nothing where
/// the body is not a JSON object.
pub uninterp spec fn json_object_entries(body: Seq<char>) -> Option<JsonEntries>;

/// Relies on `serde_urlencoded::from_str` into `Vec<(String, String)>`.
#[verifier::external_body]
fn decode_form(body: &str) -> (r: Option<Vec<(String, String)>>)
    ensures
        r is Some <==> form_pairs(body@) is Some,
        r matches Some(v) ==> pairs_view(v@) == form_pairs(body@)->Some_0,
{
    serde_urlencoded::from_str::<Vec<(String, String)>>(body).ok()
}

/// Relies on `serde_json::from_str` into a `serde_json::Map`; each value is
/// moved into `JsonScalar` by its variant, a number through its `Display`.
#[verifier::external_body]
pub(crate) fn decode_json_object(body: &str) -> (r: Option<Vec<(String, JsonScalar)>>)
    ensures
        r is Some <==> json_object_entries(body@) is Some,
        r matches Some(v) ==> entries_view(v@) == json_object_entries(body@)->Some_0,
{
    let map = serde_json::from_str::<serde_json::Map<String, serde_json::Value>>(body).ok()?;
    Some(map.into_iter().map(|(k, v)| (k, match v {
        serde_json::Value::String(s) => JsonScalar::Text(s),
        serde_json::Value::Number(n) => JsonScalar::Number(n.to_string()),
        _ => JsonScalar::Other,
    })).collect())
}

/// A non-empty run of decimal digits.
pub open spec fn is_digit_text(s: Seq<char>) -> bool {
    &&& s.len() > 0
    &&& forall|i: int| 0 <= i < s.len() ==> '0' <= #[trigger] s[i] && s[i] <= '9'
}

/// The number that a run of decimal digits stands for.
pub open spec fn digits_value(s: Seq<char>) -> int
    decreases s.len(),
{
    if s.len() == 0 {
        0
    } else {
        digits_value(s.drop_last()) * 10 + (s.last() as int - '0' as int)
    }
}

/// The integer written as an optional sign followed by decimal digits.
pub open spec fn signed_decimal(s: Seq<char>) -> Option<int> {
    if is_digit_text(s) {
        Some(digits_value(s))
    } else if s.len() > 0 && s[0] == '+' && is_digit_text(s.drop_first()) {
        Some(digits_value(s.drop_first()))
    } else if s.len() > 0 && s[0] == '-' && is_digit_text(s.drop_first()) {
        Some(-digits_value(s.drop_first()))
    } else {
        None
    }
}

/// The `i32` that a text stands for, where it is a signed decimal in range.
pub open spec fn i32_text_value(s: Seq<char>) -> Option<i32> {
    match signed_decimal(s) {
        Some(v) => if i32::MIN <= v <= i32::MAX {
            Some(v as i32)
        } else {
            None
        },
        None => None,
    }
}

/// Relies on `str::parse::<i32>`: an optional `+` or `-` followed by one or
/// more decimal digits, whose value fits in an `i32`; anything else fails.
#[verifier::external_body]
fn parse_i32(s: &str) -> (r: Option<i32>)
    ensures
        r == i32_text_value(s@),
{
    s.parse::<i32>().ok()
}

/// The position of `key` where it occurs exactly once among `keys`.
pub open spec fn unique_index(keys: Seq<Seq<char>>, key: Seq<char>) -> Option<int> {
    if exists|i: int|
        0 <= i < keys.len() && keys[i] == key && forall|j: int| 0 <= j < keys.len() && #[trigger] keys[j] == key ==> j == i {
        Some(
            choose|i: int|
                0 <= i < keys.len() && keys[i] == key && forall|j: int|
                    0 <= j < keys.len() && #[trigger] keys[j] == key ==> j == i,
        )
    } else {
        None
    }
}

/// The names of a list of fields, in order.
pub open spec fn names_of<V>(fields: Seq<(Seq<char>, V)>) -> Seq<Seq<char>> {
    fields.map_values(|p: (Seq<char>, V)| p.0)
}

/// The value of the field named `key`, where exactly one field has that name.
pub open spec fn field_value<V>(fields: Seq<(Seq<char>, V)>, key: Seq<char>) -> Option<V> {
    match unique_index(names_of(fields), key) {
        Some(i) => Some(fields[i].1),
        None => None,
    }
}

/// The integer held by the form field named `key`.
pub open spec fn form_int(fields: Fields, key: Seq<char>) -> Option<i32> {
    match field_value(fields, key) {
        Some(v) => i32_text_value(v),
        None => None,
    }
}

/// The string held by the JSON entry named `key`.
pub open spec fn json_text(entries: JsonEntries, key: Seq<char>) -> Option<Seq<char>> {
    match field_value(entries, key) {
        Some(JsonField::Text(s)) => Some(s),
        _ => None,
    }
}

/// The `i32` held by the JSON entry named `key`.
pub open spec fn json_int(entries: JsonEntries, key: Seq<char>) -> Option<i32> {
    match field_value(entries, key) {
        Some(JsonField::Number(t)) => i32_text_value(t),
        _ => None,
    }
}

/// The tokens that GitHub grants, as texts and numbers.
pub struct TokenGrant {
    pub access_token: Seq<char>,
    pub expires_in: i32,
    pub refresh_token: Seq<char>,
    pub refresh_token_expires_in: i32,
    pub scope: Seq<char>,
    pub token_type: Seq<char>,
}

/// The grant made of six fields, where all are present.
pub open spec fn grant_of(
    access_token: Option<Seq<char>>,
    expires_in: Option<i32>,
    refresh_token: Option<Seq<char>>,
    refresh_token_expires_in: Option<i32>,
    scope: Option<Seq<char>>,
    token_type: Option<Seq<char>>,
) -> Option<TokenGrant> {
    if access_token is Some && expires_in is Some && refresh_token is Some
        && refresh_token_expires_in is Some && scope is Some && token_type is Some {
        Some(
            TokenGrant {
                access_token: access_token->Some_0,
                expires_in: expires_in->Some_0,
                refresh_token: refresh_token->Some_0,
                refresh_token_expires_in: refresh_token_expires_in->Some_0,
                scope: scope->Some_0,
                token_type: token_type->Some_0,
            },
        )
    } else {
        None
    }
}

/// The grant that a form holds: each of the six fields once and well-formed;
/// other fields are ignored.
pub open spec fn form_grant(f: Fields) -> Option<TokenGrant> {
    grant_of(
        field_value(f, "access_token"@),
        form_int(f, "expires_in"@),
        field_value(f, "refresh_token"@),
        form_int(f, "refresh_token_expires_in"@),
        field_value(f, "scope"@),
        field_value(f, "token_type"@),
    )
}

/// The grant that a JSON object holds: the four texts as strings, the two
/// durations as integers; other entries are ignored.
pub open spec fn json_grant(e: JsonEntries) -> Option<TokenGrant> {
    grant_of(
        json_text(e, "access_token"@),
        json_int(e, "expires_in"@),
        json_text(e, "refresh_token"@),
        json_int(e, "refresh_token_expires_in"@),
        json_text(e, "scope"@),
        json_text(e, "token_type"@),
    )
}

/// The answer of the token endpoint to a successful grant.
#[derive(Clone, Debug)]
pub struct GenerateAccessTokenResponse {
    pub access_token: String,
    pub expires_in: i32,
    pub refresh_token: String,
    pub refresh_token_expires_in: i32,
    pub scope: String,
    pub token_type: String,
}

impl View for GenerateAccessTokenResponse {
    type V = TokenGrant;

    open spec fn view(&self) -> TokenGrant {
        TokenGrant {
            access_token: self.access_token@,
            expires_in: self.expires_in,
            refresh_token: self.refresh_token@,
            refresh_token_expires_in: self.refresh_token_expires_in,
            scope: self.scope@,
            token_type: self.token_type@,
        }
    }
}

/// The position of the one entry named `key`; none where no entry or more
/// than one has that name.
fn find_key<V>(fields: &Vec<(String, V)>, key: &str) -> (r: Option<usize>)
    ensures
        match unique_index(keys_of(fields@), key@) {
            Some(i) => r matches Some(k) && k as int == i,
            None => r is None,
        },
{
    let ghost ks = keys_of(fields@);
    let wanted = String::from_str(key);
    let mut found: Option<usize> = None;
    let mut dup = false;
    let mut n: usize = 0;
    while n < fields.len()
        invariant
            n <= fields@.len(),
            ks == keys_of(fields@),
            wanted@ == key@,
            dup ==> exists|a: int, b: int| 0 <= a < b < n && ks[a] == key@ && ks[b] == key@,
            !dup ==> match found {
                Some(f) => f < n && ks[f as int] == key@ && forall|j: int| 0 <= j < n && #[trigger] ks[j] == key@ ==> j == f,
                None => forall|j: int| 0 <= j < n ==> #[trigger] ks[j] != key@,
            },
        decreases fields@.len() - n,
    {
        assert(ks[n as int] == fields@[n as int].0@);
        if fields[n].0 == wanted {
            if !dup {
                match found {
                    Some(f) => {
                        assert(ks[f as int] == key@ && ks[n as int] == key@);
                        dup = true;
                    },
                    None => {
                        found = Some(n);
                    },
                }
            }
        }
        n = n + 1;
    }
    if dup {
        proof {
            let (a, b) = choose|a: int, b: int| 0 <= a < b < n && ks[a] == key@ && ks[b] == key@;
            if exists|i: int| 0 <= i < ks.len() && ks[i] == key@ && forall|j: int| 0 <= j < ks.len() && #[trigger] ks[j] == key@ ==> j == i {
                let i = choose|i: int| 0 <= i < ks.len() && ks[i] == key@ && forall|j: int| 0 <= j < ks.len() && #[trigger] ks[j] == key@ ==> j == i;
                assert(a == i && b == i);
            }
        }
        return None;
    }
    match found {
        Some(f) => {
            proof {
                let fi = f as int;
                assert(0 <= fi < ks.len() && ks[fi] == key@ && forall|j: int| 0 <= j < ks.len() && #[trigger] ks[j] == key@ ==> j == fi);
                let c = choose|i: int| 0 <= i < ks.len() && ks[i] == key@ && forall|j: int| 0 <= j < ks.len() && #[trigger] ks[j] == key@ ==> j == i;
                assert(c == fi);
            }
            Some(f)
        },
        None => None,
    }
}

proof fn lemma_unique_index_in_range(keys: Seq<Seq<char>>, key: Seq<char>)
    ensures
        unique_index(keys, key) matches Some(i) ==> 0 <= i < keys.len() && keys[i] == key,
{
    if exists|i: int|
        0 <= i < keys.len() && keys[i] == key && forall|j: int| 0 <= j < keys.len() && #[trigger] keys[j] == key ==> j == i {
        let i = choose|i: int|
            0 <= i < keys.len() && keys[i] == key && forall|j: int| 0 <= j < keys.len() && #[trigger] keys[j] == key ==> j == i;
        assert(unique_index(keys, key) == Some(i));
    }
}

proof fn lemma_form_keys(fields: Seq<(String, String)>)
    ensures
        names_of(pairs_view(fields)) == keys_of(fields),
{
    assert(names_of(pairs_view(fields)) =~= keys_of(fields));
}

proof fn lemma_json_keys(entries: Seq<(String, JsonScalar)>)
    ensures
        names_of(entries_view(entries)) == keys_of(entries),
{
    assert(names_of(entries_view(entries)) =~= keys_of(entries));
}

/// The text of the one form field named `key`.
fn form_text_value(fields: &Vec<(String, String)>, key: &str) -> (r: Option<String>)
    ensures
        match field_value(pairs_view(fields@), key@) {
            Some(v) => r matches Some(s) && s@ == v,
            None => r is None,
        },
{
    proof { lemma_form_keys(fields@); }
    match find_key(fields, key) {
        Some(i) => {
            proof { lemma_unique_index_in_range(keys_of(fields@), key@); }
            assert(pairs_view(fields@)[i as int].1 == fields@[i as int].1@);
            Some(fields[i].1.clone())
        },
        None => None,
    }
}

fn form_int_value(fields: &Vec<(String, String)>, key: &str) -> (r: Option<i32>)
    ensures
        r == form_int(pairs_view(fields@), key@),
{
    match form_text_value(fields, key) {
        Some(v) => parse_i32(v.as_str()),
        None => None,
    }
}

/// The string of the one JSON entry named `key`.
pub(crate) fn json_text_value(entries: &Vec<(String, JsonScalar)>, key: &str) -> (r: Option<String>)
    ensures
        match json_text(entries_view(entries@), key@) {
            Some(v) => r matches Some(s) && s@ == v,
            None => r is None,
        },
{
    proof {
        lemma_json_keys(entries@);
        lemma_unique_index_in_range(keys_of(entries@), key@);
    }
    match find_key(entries, key) {
        Some(i) => match &entries[i].1 {
            JsonScalar::Text(s) => {
                assert(entries_view(entries@)[i as int].1 == entries@[i as int].1@);
                Some(s.clone())
            },
            _ => None,
        },
        None => None,
    }
}

fn json_int_value(entries: &Vec<(String, JsonScalar)>, key: &str) -> (r: Option<i32>)
    ensures
        r == json_int(entries_view(entries@), key@),
{
    proof {
        lemma_json_keys(entries@);
        lemma_unique_index_in_range(keys_of(entries@), key@);
    }
    match find_key(entries, key) {
        Some(i) => {
            assert(entries_view(entries@)[i as int].1 == entries@[i as int].1@);
            match &entries[i].1 {
                JsonScalar::Number(t) => parse_i32(t.as_str()),
                _ => None,
            }
        },
        None => None,
    }
}

fn grant_from(
    access_token: Option<String>,
    expires_in: Option<i32>,
    refresh_token: Option<String>,
    refresh_token_expires_in: Option<i32>,
    scope: Option<String>,
    token_type: Option<String>,
) -> (r: Option<GenerateAccessTokenResponse>)
    ensures
        match grant_of(
            opt_text(access_token),
            expires_in,
            opt_text(refresh_token),
            refresh_token_expires_in,
            opt_text(scope),
            opt_text(token_type),
        ) {
            Some(g) => r matches Some(t) && t@ == g,
            None => r is None,
        },
{
    match (access_token, expires_in, refresh_token, refresh_token_expires_in, scope, token_type) {
        (Some(access_token), Some(expires_in), Some(refresh_token), Some(refresh_token_expires_in), Some(scope), Some(token_type)) => {
            Some(GenerateAccessTokenResponse {
                access_token,
                expires_in,
                refresh_token,
                refresh_token_expires_in,
                scope,
                token_type,
            })
        },
        _ => None,
    }
}

/// The text of an optional string.
pub open spec fn opt_text(o: Option<String>) -> Option<Seq<char>> {
    match o {
        Some(s) => Some(s@),
        None => None,
    }
}

/// Reads the grant out of the fields of a form.
pub fn token_from_form(fields: &Vec<(String, String)>) -> (r: Option<GenerateAccessTokenResponse>)
    ensures
        match form_grant(pairs_view(fields@)) {
            Some(g) => r matches Some(t) && t@ == g,
            None => r is None,
        },
{
    grant_from(
        form_text_value(fields, "access_token"),
        form_int_value(fields, "expires_in"),
        form_text_value(fields, "refresh_token"),
        form_int_value(fields, "refresh_token_expires_in"),
        form_text_value(fields, "scope"),
        form_text_value(fields, "token_type"),
    )
}

/// Reads the grant out of the entries of a JSON object.
pub fn token_from_json(entries: &Vec<(String, JsonScalar)>) -> (r: Option<GenerateAccessTokenResponse>)
    ensures
        match json_grant(entries_view(entries@)) {
            Some(g) => r matches Some(t) && t@ == g,
            None => r is None,
        },
{
    grant_from(
        json_text_value(entries, "access_token"),
        json_int_value(entries, "expires_in"),
        json_text_value(entries, "refresh_token"),
        json_int_value(entries, "refresh_token_expires_in"),
        json_text_value(entries, "scope"),
        json_text_value(entries, "token_type"),
    )
}

/// The grant in a body of the token endpoint, read first as a form and then as
/// a JSON object.
pub open spec fn token_body_grant(body: Seq<char>) -> Option<TokenGrant> {
    match form_pairs(body) {
        Some(f) if form_grant(f) is Some => form_grant(f),
        _ => match json_object_entries(body) {
            Some(e) => json_grant(e),
            None => None,
        },
    }
}

/// Reads the token endpoint's answer. A body that holds no grant, as a form or
/// as JSON, is an error of the provider, which carries the body verbatim.
pub fn parse_token_response(body: &str) -> (r: Result<GenerateAccessTokenResponse, AppError>)
    ensures
        match token_body_grant(body@) {
            Some(g) => r matches Ok(t) && t@ == g,
            None => r matches Err(AppError::GithubAuthError(b)) && b@ == body@,
        },
{
    if let Some(fields) = decode_form(body) {
        if let Some(t) = token_from_form(&fields) {
            return Ok(t);
        }
    }
    if let Some(entries) = decode_json_object(body) {
        if let Some(t) = token_from_json(&entries) {
            return Ok(t);
        }
    }
    Err(AppError::GithubAuthError(String::from_str(body)))
}

/// How a caller asks for tokens: with the authorization code of a fresh
/// sign-in, or with an access token it already holds, to refresh it.
#[derive(Clone, Debug)]
pub enum AccessTokenQuery {
    Code { code: String },
    AccessToken { access_token: String },
}

/// The query of the grant that exchanges an authorization code.
#[derive(Clone, Debug)]
pub struct GenerateAccessTokenParams {
    pub client_id: String,
    pub client_secret: String,
    pub code: String,
    pub redirect_uri: Option<String>,
    pub repository_id: Option<String>,
}

/// The query of the grant that refreshes tokens.
#[derive(Clone, Debug)]
pub struct RefreshAccessTokenParams {
    pub client_id: String,
    pub client_secret: String,
    pub grant_type: String,
    pub refresh_token: String,
}

/// An optional query field: one pair where it is set, none otherwise.
pub open spec fn optional_pair(key: Seq<char>, value: Option<String>) -> Fields {
    match value {
        Some(v) => seq![(key, v@)],
        None => Seq::empty(),
    }
}

fn push_pair(pairs: &mut Vec<(String, String)>, key: &str, value: &String)
    ensures
        pairs_view(final(pairs)@) == pairs_view(old(pairs)@).push((key@, value@)),
{
    pairs.push((String::from_str(key), value.clone()));
    proof {
        assert(pairs_view(final(pairs)@) =~= pairs_view(old(pairs)@).push((key@, value@)));
    }
}

impl GenerateAccessTokenParams {
    /// The query pairs, in field order; an unset optional field is left out.
    pub fn query_pairs(&self) -> (r: Vec<(String, String)>)
        ensures
            pairs_view(r@) == seq![
                ("client_id"@, self.client_id@),
                ("client_secret"@, self.client_secret@),
                ("code"@, self.code@),
            ] + optional_pair("redirect_uri"@, self.redirect_uri) + optional_pair(
                "repository_id"@,
                self.repository_id,
            ),
    {
        let mut pairs: Vec<(String, String)> = Vec::new();
        push_pair(&mut pairs, "client_id", &self.client_id);
        push_pair(&mut pairs, "client_secret", &self.client_secret);
        push_pair(&mut pairs, "code", &self.code);
        let ghost base = pairs_view(pairs@);
        if let Some(uri) = &self.redirect_uri {
            push_pair(&mut pairs, "redirect_uri", uri);
        }
        let ghost mid = pairs_view(pairs@);
        assert(mid =~= base + optional_pair("redirect_uri"@, self.redirect_uri));
        if let Some(id) = &self.repository_id {
            push_pair(&mut pairs, "repository_id", id);
        }
        assert(pairs_view(pairs@) =~= mid + optional_pair("repository_id"@, self.repository_id));
        pairs
    }
}

impl RefreshAccessTokenParams {
    /// The query pairs, in field order.
    pub fn query_pairs(&self) -> (r: Vec<(String, String)>)
        ensures
            pairs_view(r@) == seq![
                ("client_id"@, self.client_id@),
                ("client_secret"@, self.client_secret@),
                ("grant_type"@, self.grant_type@),
                ("refresh_token"@, self.refresh_token@),
            ],
    {
        let mut pairs: Vec<(String, String)> = Vec::new();
        push_pair(&mut pairs, "client_id", &self.client_id);
        push_pair(&mut pairs, "client_secret", &self.client_secret);
        push_pair(&mut pairs, "grant_type", &self.grant_type);
        push_pair(&mut pairs, "refresh_token", &self.refresh_token);
        pairs
    }
}

/// The application's OAuth credentials at GitHub, loaded once at start.
pub struct GitHubAuth {
    pub client_id: String,
    pub client_secret: String,
}

impl GitHubAuth {
    pub fn new(client_id: String, client_secret: String) -> (r: Self)
        ensures
            r.client_id@ == client_id@,
            r.client_secret@ == client_secret@,
    {
        GitHubAuth { client_id, client_secret }
    }

    /// The grant that exchanges `code` for tokens.
    pub fn code_params(&self, code: String) -> (r: GenerateAccessTokenParams)
        ensures
            r.client_id@ == self.client_id@,
            r.client_secret@ == self.client_secret@,
            r.code@ == code@,
            r.redirect_uri is None,
            r.repository_id is None,
    {
        GenerateAccessTokenParams {
            client_id: self.client_id.clone(),
            client_secret: self.client_secret.clone(),
            code,
            redirect_uri: None,
            repository_id: None,
        }
    }

    /// The grant that trades `refresh_token` for new tokens.
    pub fn refresh_params(&self, refresh_token: String) -> (r: RefreshAccessTokenParams)
        ensures
            r.client_id@ == self.client_id@,
            r.client_secret@ == self.client_secret@,
            r.grant_type@ == "refresh_token"@,
            r.refresh_token@ == refresh_token@,
    {
        RefreshAccessTokenParams {
            client_id: self.client_id.clone(),
            client_secret: self.client_secret.clone(),
            grant_type: String::from_str("refresh_token"),
            refresh_token,
        }
    }
}

} // verus!
