use aws_e2b::args::E2bArgs;
use aws_e2b::config::BuildConfiguration;
use aws_e2b::config::DockerSection;
use aws_e2b::config::E2bConfigToml;
use aws_e2b::config::E2bSection;
use aws_e2b::config::EnvValues;
use aws_e2b::config::ProjectFileAction;
use aws_e2b::config::UserAwsSection;
use aws_e2b::config::UserConfig;
use aws_e2b::config::UserE2bSection;
use aws_e2b::config::format_bearer_token;
use aws_e2b::config::project_file_name;
use aws_e2b::config::resolve_build_configuration;
use aws_e2b::config::resolve_project_file;
use aws_e2b::config::user_config_path;
use aws_e2b::errors::BuildError;

fn no_args() -> E2bArgs {
    E2bArgs {
        memory_mb: None,
        cpu_count: None,
        start_cmd: None,
        ready_cmd: None,
        alias: None,
        template_id: None,
    }
}

fn project(e2b: Option<E2bSection>, docker: Option<DockerSection>) -> E2bConfigToml {
    E2bConfigToml { e2b, docker }
}

fn full_env() -> EnvValues {
    EnvValues {
        aws_region: Some("us-east-1".to_string()),
        e2b_domain: Some("example.dev".to_string()),
        e2b_access_token: Some("tok".to_string()),
        e2b_api_key: None,
    }
}

#[test]
fn explicit_input_overrides_project_file_and_defaults() {
    let args = E2bArgs {
        memory_mb: Some(512),
        cpu_count: Some(2),
        start_cmd: Some("run.sh".to_string()),
        ready_cmd: None,
        alias: Some("cli-alias".to_string()),
        template_id: None,
    };
    let proj = project(
        Some(E2bSection {
            memory_mb: Some(2048),
            cpu_count: Some(8),
            start_cmd: Some("other.sh".to_string()),
            ready_cmd: Some("ready.sh".to_string()),
            alias: Some("file-alias".to_string()),
            template_id: Some("tmpl-1".to_string()),
        }),
        None,
    );
    let cfg = resolve_build_configuration(&args, &proj, &None, &full_env()).unwrap();
    assert_eq!(cfg.memory_mb, 512);
    assert_eq!(cfg.cpu_count, 2);
    assert_eq!(cfg.start_cmd.as_deref(), Some("run.sh"));
    assert_eq!(cfg.ready_cmd.as_deref(), Some("ready.sh"));
    assert_eq!(cfg.alias.as_deref(), Some("cli-alias"));
    assert_eq!(cfg.template_id.as_deref(), Some("tmpl-1"));
}

#[test]
fn project_file_overrides_compiled_defaults() {
    let proj = project(
        Some(E2bSection {
            memory_mb: Some(2048),
            cpu_count: Some(8),
            start_cmd: None,
            ready_cmd: None,
            alias: None,
            template_id: None,
        }),
        None,
    );
    let cfg = resolve_build_configuration(&no_args(), &proj, &None, &full_env()).unwrap();
    assert_eq!(cfg.memory_mb, 2048);
    assert_eq!(cfg.cpu_count, 8);
}

#[test]
fn compiled_defaults_apply_when_no_source_names_a_value() {
    let cfg =
        resolve_build_configuration(&no_args(), &project(None, None), &None, &full_env()).unwrap();
    assert_eq!(cfg.memory_mb, 4096);
    assert_eq!(cfg.cpu_count, 4);
    assert_eq!(cfg.start_cmd, None);
    assert_eq!(cfg.alias, None);
    assert_eq!(cfg.template_id, None);
}

#[test]
fn environment_overrides_user_file_for_connection_facts() {
    let user = Some(UserConfig {
        aws: Some(UserAwsSection { aws_region: Some("eu-west-1".to_string()) }),
        e2b: Some(UserE2bSection {
            e2b_domain: Some("user.dev".to_string()),
            e2b_access_token: Some("user-token".to_string()),
            e2b_api_key: Some("user-key".to_string()),
            e2b_team_id: None,
        }),
    });
    let cfg =
        resolve_build_configuration(&no_args(), &project(None, None), &user, &full_env()).unwrap();
    assert_eq!(cfg.region, "us-east-1");
    assert_eq!(cfg.domain, "example.dev");
    assert_eq!(cfg.access_token, "Bearer tok");
    assert_eq!(cfg.api_key.as_deref(), Some("user-key"));
}

#[test]
fn user_file_supplies_connection_facts_when_environment_is_empty() {
    let user = Some(UserConfig {
        aws: Some(UserAwsSection { aws_region: Some("eu-west-1".to_string()) }),
        e2b: Some(UserE2bSection {
            e2b_domain: Some("user.dev".to_string()),
            e2b_access_token: Some("user-token".to_string()),
            e2b_api_key: None,
            e2b_team_id: None,
        }),
    });
    let cfg = resolve_build_configuration(
        &no_args(),
        &project(None, None),
        &user,
        &EnvValues::empty(),
    )
    .unwrap();
    assert_eq!(cfg.region, "eu-west-1");
    assert_eq!(cfg.domain, "user.dev");
    assert_eq!(cfg.access_token, "Bearer user-token");
    assert_eq!(cfg.api_key, None);
}

#[test]
fn missing_everything_fails_on_region_first() {
    let err = resolve_build_configuration(
        &no_args(),
        &project(None, None),
        &None,
        &EnvValues::empty(),
    )
    .unwrap_err();
    match err {
        BuildError::MissingRequiredField { field, sources } => {
            assert_eq!(field, "AWS region");
            assert_eq!(sources, "AWS_REGION or [aws].aws_region in ~/.aws_e2b/config.toml");
        }
        other => panic!("unexpected error: {:?}", other),
    }
}

#[test]
fn missing_domain_is_reported_after_region() {
    let env = EnvValues {
        aws_region: Some("us-east-1".to_string()),
        e2b_domain: None,
        e2b_access_token: Some("tok".to_string()),
        e2b_api_key: None,
    };
    let err =
        resolve_build_configuration(&no_args(), &project(None, None), &None, &env).unwrap_err();
    match err {
        BuildError::MissingRequiredField { field, .. } => assert_eq!(field, "e2b domain"),
        other => panic!("unexpected error: {:?}", other),
    }
}

#[test]
fn missing_token_is_reported_after_domain() {
    let env = EnvValues {
        aws_region: Some("us-east-1".to_string()),
        e2b_domain: Some("example.dev".to_string()),
        e2b_access_token: None,
        e2b_api_key: None,
    };
    let err =
        resolve_build_configuration(&no_args(), &project(None, None), &None, &env).unwrap_err();
    match err {
        BuildError::MissingRequiredField { field, .. } => assert_eq!(field, "e2b access token"),
        other => panic!("unexpected error: {:?}", other),
    }
}

#[test]
fn bearer_prefix_is_inserted_when_absent() {
    assert_eq!(format_bearer_token("abc"), "Bearer abc");
    assert_eq!(format_bearer_token("  abc  "), "Bearer abc");
    assert_eq!(format_bearer_token(""), "Bearer ");
}

#[test]
fn bearer_prefix_is_preserved_in_its_original_case() {
    assert_eq!(format_bearer_token("Bearer abc"), "Bearer abc");
    assert_eq!(format_bearer_token("bearer abc"), "bearer abc");
    assert_eq!(format_bearer_token("BEARER abc"), "BEARER abc");
    assert_eq!(format_bearer_token("  bEaReR abc  "), "bEaReR abc");
}

#[test]
fn bearer_formatting_is_idempotent_on_non_empty_tokens() {
    for token in ["abc", "Bearer abc", "bearer abc", "  x  ", "Bearer", "bearer-x"] {
        let once = format_bearer_token(token);
        let twice = format_bearer_token(&once);
        assert_eq!(twice, once, "not idempotent on {:?}", token);
    }
}

#[test]
fn explicit_config_path_that_does_not_exist_is_fatal() {
    let err =
        resolve_project_file(&Some("missing.toml".to_string()), false, true).unwrap_err();
    match err {
        BuildError::ConfigFileUnreadable { path } => assert_eq!(path, "missing.toml"),
        other => panic!("unexpected error: {:?}", other),
    }
}

#[test]
fn project_file_lookup_follows_the_fixed_rules() {
    assert!(matches!(
        resolve_project_file(&Some("aws_e2b.toml".to_string()), true, false),
        Ok(ProjectFileAction::ParseExplicit)
    ));
    assert!(matches!(
        resolve_project_file(&None, false, true),
        Ok(ProjectFileAction::ParseDefault)
    ));
    assert!(matches!(
        resolve_project_file(&None, false, false),
        Ok(ProjectFileAction::UseEmpty)
    ));
    assert_eq!(project_file_name(), "aws_e2b.toml");
}

#[test]
fn user_config_lives_under_the_home_directory() {
    assert_eq!(user_config_path("/home/me"), "/home/me/.aws_e2b/config.toml");
}

#[test]
fn resolved_configuration_is_usable_as_a_whole() {
    let cfg: BuildConfiguration =
        resolve_build_configuration(&no_args(), &project(None, None), &None, &full_env()).unwrap();
    assert!(cfg.access_token.starts_with("Bearer "));
}
