use vstd::prelude::*;
use vstd::string::*;

use base64::Engine;

use crate::errors::BuildError;
use crate::text::char_prefix_len;
use crate::text::find_char;
use crate::text::lemma_char_prefix;
use crate::text::strip_scheme;
use crate::text::strip_scheme_of;

verus! {

// ---------------------------------------------------------------------------
// Repository names
// ---------------------------------------------------------------------------

/// Fixed namespace under which template repositories live in the registry.
pub open spec fn repo_namespace() -> Seq<char> {
    "e2bdev/base/"@
}

/// Name of the registry repository that holds images for a template.
pub fn ecr_repo_name(template_id: &str) -> (r: String)
    ensures
        r@ == repo_namespace() + template_id@,
{
    let mut s = String::from_str("e2bdev/base/");
    s.append(template_id);
    s
}

/// The deterministic tag an image is pushed under:
/// `{registry_root}/e2bdev/base/{template_id}:{build_id}`.
pub open spec fn push_tag_of(
    registry_root: Seq<char>,
    template_id: Seq<char>,
    build_id: Seq<char>,
) -> Seq<char> {
    registry_root + "/e2bdev/base/"@ + template_id + ":"@ + build_id
}

/// The deterministic tag an image is pushed under.
pub fn push_tag(registry_root: &str, template_id: &str, build_id: &str) -> (r: String)
    ensures
        r@ == push_tag_of(registry_root@, template_id@, build_id@),
{
    let mut s = String::from_str(registry_root);
    s.append("/e2bdev/base/");
    s.append(template_id);
    s.append(":");
    s.append(build_id);
    s
}

/// The push tag built from well-formed credentials always has the shape
/// `{registry_root}/e2bdev/base/{template_id}:{build_id}`, where the
/// registry root is the server with its URL scheme stripped.
pub proof fn lemma_push_tag_shape(
    c: &RegistryCredentials,
    template_id: Seq<char>,
    build_id: Seq<char>,
)
    requires
        creds_wf(c),
    ensures
        push_tag_of(c.registry_root@, template_id, build_id) == strip_scheme_of(c.server@)
            + "/e2bdev/base/"@ + template_id + ":"@ + build_id,
{
}

// ---------------------------------------------------------------------------
// Decoding the authorization grant
// ---------------------------------------------------------------------------

/// What standard base64 decoding yields on given characters, or nothing
/// when they are not valid base64.
pub uninterp spec fn b64_decoded(s: Seq<char>) -> Option<Seq<u8>>;

/// Relies on base64's standard-alphabet engine: decoding succeeds exactly
/// on valid base64, and the decoded bytes depend on the input characters
/// alone.
#[verifier::external_body]
fn b64_decode(s: &str) -> (r: Option<Vec<u8>>)
    ensures
        (r is Some) == (b64_decoded(s@) is Some),
        r matches Some(v) ==> b64_decoded(s@) == Some(v@),
{
    base64::engine::general_purpose::STANDARD.decode(s).ok()
}

/// What decoding bytes as UTF-8 yields, or nothing when they are not valid
/// UTF-8.
pub uninterp spec fn utf8_decoded(b: Seq<u8>) -> Option<Seq<char>>;

/// Relies on String::from_utf8: conversion succeeds exactly on valid UTF-8,
/// and the characters depend on the bytes alone.
#[verifier::external_body]
fn utf8_to_string(b: Vec<u8>) -> (r: Option<String>)
    ensures
        (r is Some) == (utf8_decoded(b@) is Some),
        r matches Some(s) ==> utf8_decoded(b@) == Some(s@),
{
    String::from_utf8(b).ok()
}

/// The characters a base64 token decodes to, through both decoding steps.
pub open spec fn decoded_token(tok: Seq<char>) -> Option<Seq<char>> {
    match b64_decoded(tok) {
        Some(b) => utf8_decoded(b),
        None => None,
    }
}

/// The part of a decoded `user:password` token before the first colon.
pub open spec fn token_username(t: Seq<char>) -> Seq<char> {
    t.subrange(0, char_prefix_len(t, ':') as int)
}

/// The part of a decoded `user:password` token between the first and second
/// colons, to the end when there is no second colon, and empty when there
/// is no colon at all.
pub open spec fn token_password(t: Seq<char>) -> Seq<char> {
    if char_prefix_len(t, ':') == t.len() {
        Seq::empty()
    } else {
        let rest = t.subrange(char_prefix_len(t, ':') as int + 1, t.len() as int);
        rest.subrange(0, char_prefix_len(rest, ':') as int)
    }
}

/// Split a decoded token into its username and password parts.
pub fn split_user_password(t: &str) -> (r: (String, String))
    ensures
        r.0@ == token_username(t@),
        r.1@ == token_password(t@),
{
    proof {
        lemma_char_prefix(t@, ':');
    }
    let len = t.unicode_len();
    let i = find_char(t, ':');
    let username = String::from_str(t.substring_char(0, i));
    if i == len {
        (username, String::new())
    } else {
        let rest = t.substring_char(i + 1, len);
        proof {
            lemma_char_prefix(rest@, ':');
        }
        let j = find_char(rest, ':');
        let password = String::from_str(rest.substring_char(0, j));
        (username, password)
    }
}

// ---------------------------------------------------------------------------
// Credentials
// ---------------------------------------------------------------------------

/// One authorization grant from the registry control plane, as plain
/// values.
pub struct AuthorizationData {
    pub authorization_token: Option<String>,
    pub proxy_endpoint: Option<String>,
}

/// Short-lived registry credentials, fetched once per run and never
/// persisted.
#[derive(Debug)]
pub struct RegistryCredentials {
    pub username: String,
    pub password: String,
    pub server: String,
    pub registry_root: String,
}

/// The registry root of well-formed credentials is the server with any URL
/// scheme stripped.
pub open spec fn creds_wf(c: &RegistryCredentials) -> bool {
    c.registry_root@ == strip_scheme_of(c.server@)
}

/// Whether an authorization grant is present and decodes to credentials.
pub open spec fn auth_ok(data: &Option<AuthorizationData>) -> bool {
    data matches Some(d) && d.authorization_token matches Some(tok) && decoded_token(tok@) is Some
}

/// The server an authorization grant names, with a missing endpoint read as
/// the empty string.
pub open spec fn grant_server(d: &AuthorizationData) -> Seq<char> {
    match d.proxy_endpoint {
        Some(ref p) => p@,
        None => Seq::empty(),
    }
}

/// The characters an authorization grant's token decodes to.
pub open spec fn grant_decoded(d: &AuthorizationData) -> Option<Seq<char>> {
    match d.authorization_token {
        Some(ref t) => decoded_token(t@),
        None => None,
    }
}

/// Whether credentials are the ones a grant decodes to.
pub open spec fn creds_match_grant(c: &RegistryCredentials, d: &AuthorizationData) -> bool {
    &&& (grant_decoded(d) matches Some(dec) && c.username@ == token_username(dec) && c.password@
        == token_password(dec))
    &&& c.server@ == grant_server(d)
    &&& c.registry_root@ == strip_scheme_of(c.server@)
}

/// Exchange the control plane's authorization grant for registry
/// credentials: decode the combined `user:password` token from base64 and
/// split it, and strip the URL scheme from the endpoint. A missing grant, a
/// missing token, or a token that does not decode is fatal.
pub fn authenticate(data: &Option<AuthorizationData>) -> (r: Result<
    RegistryCredentials,
    BuildError,
>)
    ensures
        r is Ok <==> (data matches Some(d) && d.authorization_token matches Some(tok)
            && decoded_token(tok@) is Some),
        data is None ==> (r matches Err(BuildError::AuthError { reason }) && reason@
            == "failed to obtain ECR authorization data"@),
        data matches Some(d) && d.authorization_token is None ==> (r matches Err(
            BuildError::AuthError { reason },
        ) && reason@ == "missing authorization token"@),
        data matches Some(d) && d.authorization_token matches Some(tok) && b64_decoded(tok@)
            is None ==> (r matches Err(BuildError::AuthError { reason }) && reason@
            == "failed to decode ECR authorization token"@),
        data matches Some(d) && d.authorization_token matches Some(tok) && b64_decoded(
            tok@,
        ) matches Some(bytes) && utf8_decoded(bytes) is None ==> (r matches Err(
            BuildError::AuthError { reason },
        ) && reason@ == "failed to decode authorization token as UTF-8"@),
        r matches Ok(c) ==> (data matches Some(d) && d.authorization_token matches Some(tok)
            && decoded_token(tok@) matches Some(dec) && {
            &&& c.username@ == token_username(dec)
            &&& c.password@ == token_password(dec)
            &&& c.server@ == (match d.proxy_endpoint {
                Some(p) => p@,
                None => Seq::<char>::empty(),
            })
            &&& c.registry_root@ == strip_scheme_of(c.server@)
            &&& creds_wf(&c)
        }),
{
    let d = match data {
        Some(d) => d,
        None => {
            return Err(
                BuildError::AuthError {
                    reason: String::from_str("failed to obtain ECR authorization data"),
                },
            );
        },
    };
    let tok = match &d.authorization_token {
        Some(t) => t,
        None => {
            return Err(
                BuildError::AuthError { reason: String::from_str("missing authorization token") },
            );
        },
    };
    let bytes = match b64_decode(tok.as_str()) {
        Some(b) => b,
        None => {
            return Err(
                BuildError::AuthError {
                    reason: String::from_str("failed to decode ECR authorization token"),
                },
            );
        },
    };
    let decoded = match utf8_to_string(bytes) {
        Some(s) => s,
        None => {
            return Err(
                BuildError::AuthError {
                    reason: String::from_str("failed to decode authorization token as UTF-8"),
                },
            );
        },
    };
    let (username, password) = split_user_password(decoded.as_str());
    let server = match &d.proxy_endpoint {
        Some(p) => p.clone(),
        None => String::new(),
    };
    let registry_root = String::from_str(strip_scheme(server.as_str()));
    Ok(RegistryCredentials { username, password, server, registry_root })
}

// ---------------------------------------------------------------------------
// Ensuring the repository exists
// ---------------------------------------------------------------------------

/// What the provider does after asking the control plane whether the
/// repository already exists.
pub enum RepoAction {
    /// The repository was not found: create it.
    CreateRepository,
    /// The repository already exists: do nothing.
    Nothing,
}

/// Decide whether a create call is needed: exactly when the describe call
/// did not find the repository.
pub fn ensure_repository_action(describe_succeeded: bool) -> (r: RepoAction)
    ensures
        (r is CreateRepository) == !describe_succeeded,
{
    if describe_succeeded {
        RepoAction::Nothing
    } else {
        RepoAction::CreateRepository
    }
}

/// The repositories of the registry after ensure-exists has run for a name:
/// the name is present, whether it was created now or existed before.
pub open spec fn repos_after_ensure(repos: Set<Seq<char>>, name: Seq<char>) -> Set<Seq<char>> {
    repos.insert(name)
}

/// Repository ensure-exists is idempotent: one call leaves the repository
/// present, so a second call with the same template id finds it, takes no
/// create action, and never errors on pre-existence.
pub proof fn lemma_ensure_repository_idempotent(repos: Set<Seq<char>>, name: Seq<char>)
    ensures
        repos_after_ensure(repos_after_ensure(repos, name), name) == repos_after_ensure(
            repos,
            name,
        ),
        repos_after_ensure(repos, name).contains(name),
{
    assert(repos.insert(name).insert(name) =~= repos.insert(name));
}

} // verus!
