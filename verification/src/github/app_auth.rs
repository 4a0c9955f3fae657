//! Authentication as a GitHub App: the claims of the app's token, its
//! signing, and the reading of the installation token that GitHub answers
//! with.

use vstd::prelude::*;
use vstd::utf8::encode_utf8;
use crate::github::client::{api_base, base_url, body_view};
use crate::github::errors::{GitHubError, GitHubErrorView};
use crate::json::{
    find_member, json_text, member_value, parse_json, JsonText, JsonTextView, JsonValue,
    JsonValueView,
};
use crate::text::{append_decimal, concat, decimal, starts_with};

verus! {

/// How long an app token is valid, in seconds: ten minutes, the most that
/// GitHub accepts.
pub const JWT_LIFETIME_SECS: i64 = 600;

/// The claims of an app token.
#[derive(Debug, Clone, Copy, PartialEq, Eq, Structural)]
pub struct AppJwtClaims {
    /// Issued at, in seconds since the epoch.
    pub iat: i64,
    /// Expires at, in seconds since the epoch.
    pub exp: i64,
    /// The id of the app.
    pub iss: u64,
}

/// The claims of a token that app `app_id` issues at `now`, where the expiry
/// is a time that can be written down.
pub open spec fn claims_at(app_id: u64, now: i64) -> Option<AppJwtClaims> {
    if now + JWT_LIFETIME_SECS <= i64::MAX {
        Some(AppJwtClaims { iat: now, exp: (now + JWT_LIFETIME_SECS) as i64, iss: app_id })
    } else {
        None
    }
}

/// One claim as it is handed to the signer: its name and its number.
pub struct ClaimEntry {
    pub name: String,
    pub value: i128,
}

/// The claims in the order in which they are written.
pub open spec fn claim_entries(claims: AppJwtClaims) -> Seq<(Seq<char>, int)> {
    seq![("iat"@, claims.iat as int), ("exp"@, claims.exp as int), ("iss"@, claims.iss as int)]
}

/// The names and numbers of a sequence of entries.
pub open spec fn entry_views(entries: Seq<ClaimEntry>) -> Seq<(Seq<char>, int)> {
    entries.map_values(|e: ClaimEntry| (e.name@, e.value as int))
}

impl AppJwtClaims {
    /// The claims of a token that app `app_id` issues at `now`. There are
    /// none where the expiry would lie beyond the largest time that can be
    /// written down.
    pub fn issued_at(app_id: u64, now: i64) -> (r: Option<AppJwtClaims>)
        ensures
            r == claims_at(app_id, now),
    {
        match now.checked_add(JWT_LIFETIME_SECS) {
            Some(exp) => Some(AppJwtClaims { iat: now, exp, iss: app_id }),
            None => None,
        }
    }

    /// The claims by name, as the signer takes them.
    pub fn entries(&self) -> (v: Vec<ClaimEntry>)
        ensures
            entry_views(v@) == claim_entries(*self),
    {
        let mut v: Vec<ClaimEntry> = Vec::new();
        v.push(ClaimEntry { name: "iat".to_owned(), value: self.iat as i128 });
        v.push(ClaimEntry { name: "exp".to_owned(), value: self.exp as i128 });
        v.push(ClaimEntry { name: "iss".to_owned(), value: self.iss as i128 });
        assert(entry_views(v@) =~= claim_entries(*self));
        v
    }
}

/// `jsonwebtoken::EncodingKey`, a key to sign tokens with. The library
/// carries it from the reader to the signer and looks at nothing in it.
#[verifier::external_type_specification]
#[verifier::external_body]
pub struct ExEncodingKey(jsonwebtoken::EncodingKey);

/// `jsonwebtoken::errors::Error`, why a key was refused or a token could not
/// be signed. The library takes its message and looks at nothing else in it.
#[verifier::external_type_specification]
#[verifier::external_body]
pub struct ExJwtError(jsonwebtoken::errors::Error);

/// The time of the system clock in seconds since the epoch, as
/// `chrono::Utc::now` reads it. Nothing is said of what it reads.
#[verifier::external_body]
pub(crate) fn unix_time_now() -> (now: i64) {
    chrono::Utc::now().timestamp()
}

/// Reads an RSA private key in PEM with
/// `jsonwebtoken::EncodingKey::from_rsa_pem`. The reader looks at the bytes
/// and at nothing else, so whether it accepts them is a function of the
/// bytes; the contract gives that function a name and says no more of it.
#[verifier::external_body]
pub(crate) fn rsa_key_from_pem(pem: &[u8]) -> (r: Result<
    jsonwebtoken::EncodingKey,
    jsonwebtoken::errors::Error,
>)
    ensures
        r is Ok <==> rsa_pem_accepted(pem@),
{
    jsonwebtoken::EncodingKey::from_rsa_pem(pem)
}

/// Signs the claims with `jsonwebtoken::encode` under a header for RS256.
/// The claims go in as a map from name to number. Nothing is said of the
/// token that comes out.
#[verifier::external_body]
pub(crate) fn encode_rs256(claims: &Vec<ClaimEntry>, key: &jsonwebtoken::EncodingKey) -> (r: Result<
    String,
    jsonwebtoken::errors::Error,
>) {
    let map: std::collections::BTreeMap<&str, i128> =
        claims.iter().map(|c| (c.name.as_str(), c.value)).collect();
    jsonwebtoken::encode(&jsonwebtoken::Header::new(jsonwebtoken::Algorithm::RS256), &map, key)
}

/// The message of a signing error, as its `Display` writes it.
#[verifier::external_body]
pub(crate) fn jwt_error_text(err: &jsonwebtoken::errors::Error) -> (s: String) {
    err.to_string()
}

/// Authentication as a GitHub App.
pub struct GitHubAppAuth {
    app_id: u64,
    private_key: String,
}

/// The error for a clock whose time leaves no room for the token's
/// lifetime.
pub fn expiry_out_of_range() -> (e: GitHubError)
    ensures
        e@ == GitHubErrorView::InvalidInput(expiry_message()),
{
    signing_failed("expiry out of range")
}

/// The error for a key file that could not be read for `reason`.
pub fn unreadable_key(reason: &str) -> (e: GitHubError)
    ensures
        e@ == GitHubErrorView::InvalidInput("Failed to read private key: "@ + reason@),
{
    GitHubError::InvalidInput(concat("Failed to read private key: ", reason))
}

impl GitHubAppAuth {
    /// The id of the app.
    pub closed spec fn spec_app_id(&self) -> u64 {
        self.app_id
    }

    /// The private key, in PEM.
    pub closed spec fn spec_private_key(&self) -> Seq<char> {
        self.private_key@
    }

    /// Authentication for app `app_id` with the given private key.
    pub fn new(app_id: u64, private_key: String) -> (auth: GitHubAppAuth)
        ensures
            auth.spec_app_id() == app_id,
            auth.spec_private_key() == private_key@,
    {
        GitHubAppAuth { app_id, private_key }
    }

    /// Authentication for app `app_id` with the key that was read from a
    /// file, or the error for a file that could not be read.
    pub fn from_key_text(app_id: u64, read: Result<String, String>) -> (r: Result<
        GitHubAppAuth,
        GitHubError,
    >)
        ensures
            match r {
                Ok(auth) => read is Ok && auth.spec_app_id() == app_id && auth.spec_private_key()
                    == read->Ok_0@,
                Err(e) => read is Err && e@ == GitHubErrorView::InvalidInput(
                    "Failed to read private key: "@ + read->Err_0@,
                ),
            },
    {
        match read {
            Ok(private_key) => Ok(GitHubAppAuth::new(app_id, private_key)),
            Err(reason) => Err(unreadable_key(reason.as_str())),
        }
    }

    /// The id of the app.
    pub fn app_id(&self) -> (id: u64)
        ensures
            id == self.spec_app_id(),
    {
        self.app_id
    }

    /// Signs a token that is issued at `now` and valid for ten minutes. There
    /// is one only where the expiry can be written down and the key is
    /// accepted; an error is one that `jwt_error_fits` allows at `now`.
    pub fn generate_jwt_at(&self, now: i64) -> (r: Result<String, GitHubError>)
        ensures
            match r {
                Ok(_) => claims_at(self.spec_app_id(), now) is Some && rsa_pem_accepted(
                    encode_utf8(self.spec_private_key()),
                ),
                Err(e) => jwt_error_fits(self.spec_app_id(), self.spec_private_key(), now, e@),
            },
    {
        let claims = match AppJwtClaims::issued_at(self.app_id, now) {
            Some(claims) => claims,
            None => {
                return Err(expiry_out_of_range());
            },
        };
        let key = match rsa_key_from_pem(self.private_key.as_str().as_bytes()) {
            Ok(key) => key,
            Err(e) => {
                let reason = jwt_error_text(&e);
                proof {
                    lemma_starts_with_prefix(key_error_prefix(), reason@);
                }
                return Err(invalid_key(reason.as_str()));
            },
        };
        let entries = claims.entries();
        match encode_rs256(&entries, &key) {
            Ok(token) => Ok(token),
            Err(e) => {
                let reason = jwt_error_text(&e);
                proof {
                    lemma_starts_with_prefix(signing_error_prefix(), reason@);
                }
                Err(signing_failed(reason.as_str()))
            },
        }
    }

    /// Signs a token that is issued now and valid for ten minutes.
    ///
    /// There is a token only where the key is accepted. An error is one that
    /// signing at some time gives: for a key that is refused, the error of the
    /// key or, with a clock at the end of time, that of the expiry; for a key
    /// that is accepted, an error of making the token.
    pub fn generate_jwt(&self) -> (r: Result<String, GitHubError>)
        ensures
            match r {
                Ok(_) => rsa_pem_accepted(encode_utf8(self.spec_private_key())),
                Err(e) => {
                    &&& exists|now: i64|
                        jwt_error_fits(self.spec_app_id(), self.spec_private_key(), now, e@)
                    &&& e is InvalidInput
                    &&& rsa_pem_accepted(encode_utf8(self.spec_private_key()))
                        ==> invalid_input_with(e@, signing_error_prefix())
                },
            },
    {
        let now = unix_time_now();
        let r = self.generate_jwt_at(now);
        proof {
            if r is Err {
                assert(jwt_error_fits(self.spec_app_id(), self.spec_private_key(), now, r->Err_0@));
                lemma_starts_with_prefix(signing_error_prefix(), "expiry out of range"@);
            }
        }
        r
    }
}

/// The error for a key that was refused for `reason`.
pub fn invalid_key(reason: &str) -> (e: GitHubError)
    ensures
        e@ == GitHubErrorView::InvalidInput(key_error_prefix() + reason@),
{
    GitHubError::InvalidInput(concat("Invalid private key: ", reason))
}

/// The error for a token that could not be signed for `reason`.
pub fn signing_failed(reason: &str) -> (e: GitHubError)
    ensures
        e@ == GitHubErrorView::InvalidInput(signing_error_prefix() + reason@),
{
    GitHubError::InvalidInput(concat("Failed to generate JWT: ", reason))
}

/// Whether `jsonwebtoken` accepts `pem` as an RSA key in PEM.
pub uninterp spec fn rsa_pem_accepted(pem: Seq<u8>) -> bool;

/// The words that begin the error for a key that was refused.
pub open spec fn key_error_prefix() -> Seq<char> {
    "Invalid private key: "@
}

/// The words that begin the error for a token that could not be made.
pub open spec fn signing_error_prefix() -> Seq<char> {
    "Failed to generate JWT: "@
}

/// The message for a clock whose time leaves no room for the token's
/// lifetime.
pub open spec fn expiry_message() -> Seq<char> {
    signing_error_prefix() + "expiry out of range"@
}

/// Whether `e` is an `InvalidInput` whose message begins with `prefix`.
pub open spec fn invalid_input_with(e: GitHubErrorView, prefix: Seq<char>) -> bool {
    e matches GitHubErrorView::InvalidInput(m) && starts_with(m, prefix)
}

/// Whether `e` is an error that signing for app `app_id` with the key `key`
/// at `now` can end in. Where the expiry cannot be written down, it is the
/// error of the expiry. Else, where the key is refused, it is an error of the
/// key, with the reader's reason. Else it is an error of making the token,
/// with the signer's reason.
pub open spec fn jwt_error_fits(app_id: u64, key: Seq<char>, now: i64, e: GitHubErrorView) -> bool {
    if claims_at(app_id, now) is None {
        e == GitHubErrorView::InvalidInput(expiry_message())
    } else if !rsa_pem_accepted(encode_utf8(key)) {
        invalid_input_with(e, key_error_prefix())
    } else {
        invalid_input_with(e, signing_error_prefix())
    }
}

/// A text begins with the words that it was put together from.
proof fn lemma_starts_with_prefix(prefix: Seq<char>, rest: Seq<char>)
    ensures
        starts_with(prefix + rest, prefix),
{
    assert((prefix + rest).subrange(0, prefix.len() as int) =~= prefix);
}

/// The address at which an installation's access tokens are made.
pub fn installation_token_url(installation_id: u64) -> (s: String)
    ensures
        s@ == api_base() + "/app/installations/"@ + decimal(installation_id as nat)
            + "/access_tokens"@,
{
    let mut s = base_url();
    s.append("/app/installations/");
    append_decimal(&mut s, installation_id);
    s.append("/access_tokens");
    s
}

/// The value of the `Authorization` header for an app token.
pub fn bearer_header(jwt: &str) -> (s: String)
    ensures
        s@ == "Bearer "@ + jwt@,
{
    concat("Bearer ", jwt)
}

/// The access token of an installation.
pub struct InstallationToken {
    pub token: String,
    pub expires_at: String,
}

/// The mathematical value of an [`InstallationToken`].
pub struct InstallationTokenView {
    pub token: Seq<char>,
    pub expires_at: Seq<char>,
}

impl View for InstallationToken {
    type V = InstallationTokenView;

    open spec fn view(&self) -> InstallationTokenView {
        InstallationTokenView { token: self.token@, expires_at: self.expires_at@ }
    }
}

/// The installation token that a JSON text stands for, if it stands for
/// one: the text must be an object in which `token` and `expires_at` are
/// strings, `permissions` is there, and `repositories`, where it is there, is
/// an array or null.
pub open spec fn installation_token_of(doc: JsonTextView) -> Option<InstallationTokenView> {
    match doc {
        JsonTextView::Object(members) => {
            let permissions = member_value(members, "permissions"@);
            let repositories = member_value(members, "repositories"@);
            let rest_fits = permissions is Some && (repositories is None || repositories == Some(
                JsonValueView::Null,
            ) || repositories == Some(JsonValueView::Array));
            match (member_value(members, "token"@), member_value(members, "expires_at"@)) {
                (Some(JsonValueView::Text(t)), Some(JsonValueView::Text(x))) => if rest_fits {
                    Some(InstallationTokenView { token: t, expires_at: x })
                } else {
                    None
                },
                _ => None,
            }
        },
        _ => None,
    }
}

impl InstallationToken {
    /// Reads an installation token off the outline of a JSON text.
    pub fn from_json(doc: &JsonText) -> (r: Option<InstallationToken>)
        ensures
            match r {
                Some(t) => installation_token_of(doc@) == Some(t@),
                None => installation_token_of(doc@) is None,
            },
    {
        match doc {
            JsonText::Object(members) => {
                let token = match find_member(members, "token") {
                    Some(JsonValue::Text(s)) => s.clone(),
                    _ => {
                        return None;
                    },
                };
                let expires_at = match find_member(members, "expires_at") {
                    Some(JsonValue::Text(s)) => s.clone(),
                    _ => {
                        return None;
                    },
                };
                if find_member(members, "permissions").is_none() {
                    return None;
                }
                match find_member(members, "repositories") {
                    None => {},
                    Some(JsonValue::Null) => {},
                    Some(JsonValue::Array) => {},
                    Some(_) => {
                        return None;
                    },
                }
                Some(InstallationToken { token, expires_at })
            },
            _ => None,
        }
    }
}

/// What GitHub's answer to a request for an installation token comes to:
/// the token, or the error that the status stands for.
pub open spec fn token_outcome(status: u16, body: Result<Seq<char>, Seq<char>>) -> Result<
    Seq<char>,
    GitHubErrorView,
> {
    if 200 <= status <= 299 {
        match body {
            Ok(text) => match installation_token_of(json_text(encode_utf8(text))) {
                Some(t) => Ok(t.token),
                None => Err(GitHubErrorView::RequestError("error decoding response body"@)),
            },
            Err(reason) => Err(GitHubErrorView::RequestError(reason)),
        }
    } else if status == 401 {
        Err(GitHubErrorView::AuthenticationError)
    } else if status == 404 {
        Err(GitHubErrorView::NotFound("Installation not found"@))
    } else {
        Err(
            GitHubErrorView::ApiError {
                status,
                message: match body {
                    Ok(text) => text,
                    Err(_) => "Unknown error"@,
                },
            },
        )
    }
}

/// Reads GitHub's answer to a request for an installation token.
pub fn installation_token_from_response(status: u16, body: Result<String, String>) -> (r: Result<
    String,
    GitHubError,
>)
    ensures
        match r {
            Ok(token) => token_outcome(status, body_view(body)) == Ok::<
                Seq<char>,
                GitHubErrorView,
            >(token@),
            Err(e) => token_outcome(status, body_view(body)) == Err::<Seq<char>, GitHubErrorView>(
                e@,
            ),
        },
{
    if 200 <= status && status <= 299 {
        match body {
            Ok(text) => {
                let doc = parse_json(text.as_str().as_bytes());
                match InstallationToken::from_json(&doc) {
                    Some(t) => Ok(t.token),
                    None => Err(
                        GitHubError::RequestError("error decoding response body".to_owned()),
                    ),
                }
            },
            Err(reason) => Err(GitHubError::RequestError(reason)),
        }
    } else if status == 401 {
        Err(GitHubError::AuthenticationError)
    } else if status == 404 {
        Err(GitHubError::NotFound("Installation not found".to_owned()))
    } else {
        let message = match body {
            Ok(text) => text,
            Err(_) => "Unknown error".to_owned(),
        };
        Err(GitHubError::ApiError { status, message })
    }
}

} // verus!
