use aws_e2b::args::ListArgs;
use aws_e2b::args::SandboxArgs;
use aws_e2b::commands::proxy_env_assignments;
use aws_e2b::commands::resolve_e2b_env_vars;
use aws_e2b::commands::run_template_list;
use aws_e2b::config::EnvValues;
use aws_e2b::config::UserConfig;
use aws_e2b::config::UserE2bSection;
use aws_e2b::docker::LoginSpec;
use aws_e2b::docker::build_command_args;
use aws_e2b::docker::login_command_args;
use aws_e2b::docker::pull_command_args;
use aws_e2b::docker::push_command_args;
use aws_e2b::docker::tag_command_args;
use aws_e2b::docker::temp_image_tag;
use aws_e2b::docker::fresh_temp_tag;
use aws_e2b::errors::BuildError;

fn user_with(team: Option<&str>, domain: Option<&str>) -> Option<UserConfig> {
    Some(UserConfig {
        aws: None,
        e2b: Some(UserE2bSection {
            e2b_domain: domain.map(|s| s.to_string()),
            e2b_access_token: None,
            e2b_api_key: None,
            e2b_team_id: team.map(|s| s.to_string()),
        }),
    })
}

#[test]
fn the_list_command_takes_the_per_run_team_first() {
    let v = run_template_list(
        &ListArgs { team: Some("team-a".to_string()) },
        &user_with(Some("team-b"), None),
    )
    .unwrap();
    assert_eq!(v, vec!["template", "list", "--team", "team-a"]);
}

#[test]
fn the_list_command_falls_back_to_the_user_file_team() {
    let v = run_template_list(&ListArgs { team: None }, &user_with(Some("team-b"), None)).unwrap();
    assert_eq!(v, vec!["template", "list", "--team", "team-b"]);
}

#[test]
fn a_missing_team_is_fatal() {
    let err = run_template_list(&ListArgs { team: None }, &None).unwrap_err();
    match err {
        BuildError::MissingRequiredField { field, sources } => {
            assert_eq!(field, "team identifier");
            assert_eq!(sources, "--team or [e2b].e2b_team_id in the configuration");
        }
        other => panic!("unexpected error: {:?}", other),
    }
}

#[test]
fn sandbox_arguments_are_forwarded_verbatim_after_the_subcommand() {
    let args = SandboxArgs { args: vec!["spawn".to_string(), "--id".to_string(), "7".to_string()] };
    let v = aws_e2b::commands::sandbox_forward_args(&args);
    assert_eq!(v, vec!["sandbox", "spawn", "--id", "7"]);
}

#[test]
fn proxy_values_prefer_the_environment() {
    let env = EnvValues {
        aws_region: None,
        e2b_domain: Some("env.dev".to_string()),
        e2b_access_token: None,
        e2b_api_key: None,
    };
    let (domain, token, api_key) = resolve_e2b_env_vars(&env, &user_with(None, Some("user.dev")));
    assert_eq!(domain.as_deref(), Some("env.dev"));
    assert_eq!(token, None);
    assert_eq!(api_key, None);
}

#[test]
fn proxy_assignments_cover_exactly_the_present_values() {
    let v = proxy_env_assignments(
        &Some("d.dev".to_string()),
        &None,
        &Some("key".to_string()),
    );
    assert_eq!(
        v,
        vec![
            ("E2B_DOMAIN".to_string(), "d.dev".to_string()),
            ("E2B_API_KEY".to_string(), "key".to_string())
        ]
    );
    assert!(proxy_env_assignments(&None, &None, &None).is_empty());
}

#[test]
fn engine_command_lines_are_fixed_and_keep_the_password_out() {
    assert_eq!(
        build_command_args("tmp:1", "a/Dockerfile", "a"),
        vec!["build", "--platform", "linux/amd64", "-t", "tmp:1", "-f", "a/Dockerfile", "a"]
    );
    let login = LoginSpec {
        server: "reg.example".to_string(),
        username: "AWS".to_string(),
        password_stdin: "secretpw".to_string(),
    };
    let args = login_command_args(&login);
    assert_eq!(args, vec!["login", "reg.example", "-u", "AWS", "--password-stdin"]);
    assert!(args.iter().all(|a| a != "secretpw"));
    assert_eq!(pull_command_args("img:1"), vec!["pull", "img:1"]);
    assert_eq!(tag_command_args("src", "dst"), vec!["tag", "src", "dst"]);
    assert_eq!(push_command_args("dst"), vec!["push", "dst"]);
}

#[test]
fn temporary_tags_are_time_derived() {
    assert_eq!(temp_image_tag(1700000000), "aws-e2b-temp:1700000000");
    assert_eq!(temp_image_tag(0), "aws-e2b-temp:0");
    assert_eq!(temp_image_tag(-5), "aws-e2b-temp:-5");
    let fresh = fresh_temp_tag();
    assert!(fresh.starts_with("aws-e2b-temp:"));
    assert!(fresh.len() > "aws-e2b-temp:".len());
}

#[test]
fn every_error_renders_a_readable_message() {
    let e = BuildError::RemoteAPIError { status: 500, body: "oops".to_string() };
    assert_eq!(e.message(), "failed to build template HTTP 500: oops");
    let e = BuildError::StatusQueryFailed { status: 404, body: "gone".to_string() };
    assert_eq!(e.message(), "failed to query status HTTP 404: gone");
    let e = BuildError::InputConflict;
    assert_eq!(
        e.message(),
        "The `--docker-file` and `--ecr-image` options cannot be used together"
    );
    let e = BuildError::MissingRequiredField {
        field: "AWS region".to_string(),
        sources: "AWS_REGION or [aws].aws_region in ~/.aws_e2b/config.toml".to_string(),
    };
    assert_eq!(
        e.message(),
        "Missing AWS region: set AWS_REGION or [aws].aws_region in ~/.aws_e2b/config.toml"
    );
    let e = BuildError::ConfigFileMalformed { path: "aws_e2b.toml".to_string() };
    assert_eq!(e.message(), "failed to parse TOML: aws_e2b.toml");
    let e = BuildError::DockerfileUnreadable { path: "sub/Dockerfile".to_string() };
    assert_eq!(e.message(), "failed to read Dockerfile: sub/Dockerfile");
    let e = BuildError::AuthError { reason: "denied".to_string() };
    assert_eq!(e.message(), "registry authentication failed: denied");
}
