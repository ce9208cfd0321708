use aws_e2b::auth::AuthorizationData;
use aws_e2b::auth::RepoAction;
use aws_e2b::auth::authenticate;
use aws_e2b::auth::ecr_repo_name;
use aws_e2b::auth::ensure_repository_action;
use aws_e2b::auth::push_tag;
use aws_e2b::auth::split_user_password;
use aws_e2b::errors::BuildError;
use aws_e2b::text::strip_scheme;

fn grant(token: Option<&str>, endpoint: Option<&str>) -> Option<AuthorizationData> {
    Some(AuthorizationData {
        authorization_token: token.map(|s| s.to_string()),
        proxy_endpoint: endpoint.map(|s| s.to_string()),
    })
}

#[test]
fn missing_grant_is_fatal() {
    let err = authenticate(&None).unwrap_err();
    match err {
        BuildError::AuthError { reason } => {
            assert_eq!(reason, "failed to obtain ECR authorization data")
        }
        other => panic!("unexpected error: {:?}", other),
    }
}

#[test]
fn missing_token_is_fatal() {
    let err = authenticate(&grant(None, Some("https://r.example"))).unwrap_err();
    assert!(matches!(err, BuildError::AuthError { reason } if reason == "missing authorization token"));
}

#[test]
fn undecodable_token_is_fatal() {
    let err = authenticate(&grant(Some("!!!not-base64!!!"), None)).unwrap_err();
    assert!(matches!(err, BuildError::AuthError { reason } if reason == "failed to decode ECR authorization token"));
}

#[test]
fn non_utf8_token_is_fatal() {
    // Base64 of the bytes ff fe, which are not UTF-8.
    let err = authenticate(&grant(Some("//4="), None)).unwrap_err();
    assert!(matches!(err, BuildError::AuthError { reason } if reason == "failed to decode authorization token as UTF-8"));
}

#[test]
fn a_valid_grant_yields_split_credentials_and_a_stripped_root() {
    // Base64 of "AWS:secretpw".
    let creds = authenticate(&grant(
        Some("QVdTOnNlY3JldHB3"),
        Some("https://123456789012.dkr.ecr.us-east-1.amazonaws.com"),
    ))
    .unwrap();
    assert_eq!(creds.username, "AWS");
    assert_eq!(creds.password, "secretpw");
    assert_eq!(creds.server, "https://123456789012.dkr.ecr.us-east-1.amazonaws.com");
    assert_eq!(creds.registry_root, "123456789012.dkr.ecr.us-east-1.amazonaws.com");
}

#[test]
fn a_token_without_a_colon_has_an_empty_password() {
    // Base64 of "AWS".
    let creds = authenticate(&grant(Some("QVdT"), None)).unwrap();
    assert_eq!(creds.username, "AWS");
    assert_eq!(creds.password, "");
    assert_eq!(creds.server, "");
    assert_eq!(creds.registry_root, "");
}

#[test]
fn the_password_is_the_part_between_the_first_two_colons() {
    let (user, pass) = split_user_password("a:b:c");
    assert_eq!(user, "a");
    assert_eq!(pass, "b");
    let (user, pass) = split_user_password(":pw");
    assert_eq!(user, "");
    assert_eq!(pass, "pw");
}

#[test]
fn scheme_stripping_removes_every_leading_occurrence() {
    assert_eq!(strip_scheme("https://r.example"), "r.example");
    assert_eq!(strip_scheme("r.example"), "r.example");
    assert_eq!(strip_scheme("https://https://r.example"), "r.example");
    assert_eq!(strip_scheme("http://r.example"), "http://r.example");
}

#[test]
fn the_push_tag_has_the_deterministic_shape() {
    assert_eq!(
        push_tag("123456789012.dkr.ecr.us-east-1.amazonaws.com", "tmpl-9", "build-3"),
        "123456789012.dkr.ecr.us-east-1.amazonaws.com/e2bdev/base/tmpl-9:build-3"
    );
    assert_eq!(ecr_repo_name("tmpl-9"), "e2bdev/base/tmpl-9");
}

#[test]
fn ensure_exists_is_idempotent_across_two_calls() {
    // First call: the repository is absent, so it is created.
    assert!(matches!(ensure_repository_action(false), RepoAction::CreateRepository));
    // Second call with the same template id: the describe call now finds
    // the repository, no create is attempted, and nothing can error on
    // pre-existence.
    assert!(matches!(ensure_repository_action(true), RepoAction::Nothing));
}
