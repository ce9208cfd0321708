use aws_e2b::auth::AuthorizationData;
use aws_e2b::config::BuildConfiguration;
use aws_e2b::docker::StagePlan;
use aws_e2b::errors::BuildError;
use aws_e2b::pipeline::PipelineAction;
use aws_e2b::pipeline::PipelineEvent;
use aws_e2b::pipeline::PipelinePhase;
use aws_e2b::pipeline::PipelineState;
use aws_e2b::pipeline::event_matches_phase;
use aws_e2b::pipeline::pipeline_start;
use aws_e2b::pipeline::pipeline_step;
use aws_e2b::strategy::BuildStrategy;

fn config() -> BuildConfiguration {
    BuildConfiguration {
        memory_mb: 4096,
        cpu_count: 4,
        start_cmd: None,
        ready_cmd: None,
        alias: None,
        template_id: None,
        region: "us-east-1".to_string(),
        domain: "example.dev".to_string(),
        access_token: "Bearer tok".to_string(),
        api_key: None,
    }
}

fn ok_create() -> PipelineEvent {
    PipelineEvent::CreateResponded {
        status: 200,
        body: r#"{"buildID":"b1","templateID":"t1"}"#.to_string(),
    }
}

fn ok_auth() -> PipelineEvent {
    PipelineEvent::AuthFetched {
        data: Some(AuthorizationData {
            // Base64 of "AWS:secretpw".
            authorization_token: Some("QVdTOnNlY3JldHB3".to_string()),
            proxy_endpoint: Some("https://123.dkr.ecr.us-east-1.amazonaws.com".to_string()),
        }),
    }
}

#[test]
fn the_happy_path_walks_the_whole_forward_chain() {
    let strategy = BuildStrategy::DefaultPull { image_reference: "foo:latest".to_string() };
    let (state, action) = pipeline_start(config(), strategy, None);
    match &action {
        PipelineAction::CallCreateTemplate { url, body, bearer } => {
            assert_eq!(url, "https://api.example.dev/templates");
            assert_eq!(bearer, "Bearer tok");
            assert!(body.contains(r#""dockerfile":"FROM foo:latest""#));
        }
        _ => panic!("first action must be the create call"),
    }

    let (state, action) = pipeline_step(state, ok_create());
    assert!(matches!(action, PipelineAction::FetchRegistryAuth));
    assert!(matches!(state.phase, PipelinePhase::AuthRequested));

    let (state, action) = pipeline_step(state, ok_auth());
    assert!(matches!(action, PipelineAction::EnsureRepository { name } if name == "e2bdev/base/t1"));

    let (state, action) = pipeline_step(state, PipelineEvent::RepoEnsured { result: Ok(()) });
    match &action {
        PipelineAction::StageImage { plan } => match plan {
            StagePlan::PullAnonymous { image } => assert_eq!(image, "foo:latest"),
            _ => panic!("a default pull stages anonymously"),
        },
        _ => panic!("staging must follow the repository check"),
    }

    let (state, action) =
        pipeline_step(state, PipelineEvent::Staged { result: Ok("foo:latest".to_string()) });
    match &action {
        PipelineAction::TagImage { source, target } => {
            assert_eq!(source, "foo:latest");
            assert_eq!(target, "123.dkr.ecr.us-east-1.amazonaws.com/e2bdev/base/t1:b1");
        }
        _ => panic!("tagging must follow staging"),
    }

    let (state, action) = pipeline_step(state, PipelineEvent::Tagged { result: Ok(()) });
    match &action {
        PipelineAction::PushImage { target, login } => {
            assert_eq!(target, "123.dkr.ecr.us-east-1.amazonaws.com/e2bdev/base/t1:b1");
            assert_eq!(login.username, "AWS");
            assert_eq!(login.password_stdin, "secretpw");
        }
        _ => panic!("the push must follow tagging"),
    }

    let (state, action) = pipeline_step(state, PipelineEvent::Pushed { result: Ok(()) });
    assert!(matches!(&action, PipelineAction::CallNotify { url, .. } if url == "https://api.example.dev/templates/t1/builds/b1"));

    let (state, action) =
        pipeline_step(state, PipelineEvent::NotifyResponded { status: 200, body: String::new() });
    assert!(matches!(&action, PipelineAction::CallStatus { url, .. } if url == "https://api.example.dev/templates/t1/builds/b1/status"));

    let (state, action) = pipeline_step(
        state,
        PipelineEvent::StatusResponded { status: 200, body: r#"{"status":"building"}"#.to_string() },
    );
    assert!(matches!(action, PipelineAction::Sleep { seconds: 10 }));
    assert!(matches!(state.phase, PipelinePhase::Sleeping));

    let (state, action) = pipeline_step(state, PipelineEvent::Slept);
    assert!(matches!(&action, PipelineAction::CallStatus { .. }));

    let (state, action) = pipeline_step(
        state,
        PipelineEvent::StatusResponded { status: 200, body: r#"{"status":"ready"}"#.to_string() },
    );
    assert!(matches!(&action, PipelineAction::ReportSuccess { final_status } if final_status == "ready"));
    assert!(matches!(state.phase, PipelinePhase::Succeeded));
    assert_eq!(state.final_status.as_deref(), Some("ready"));
    let session = state.session.as_ref().unwrap();
    assert_eq!(session.history, vec!["building".to_string(), "ready".to_string()]);
}

#[test]
fn a_create_failure_halts_the_machine_before_any_other_call() {
    let strategy = BuildStrategy::DefaultPull { image_reference: "foo:latest".to_string() };
    let (state, _) = pipeline_start(config(), strategy, None);
    let (state, action) = pipeline_step(
        state,
        PipelineEvent::CreateResponded { status: 500, body: "server error".to_string() },
    );
    assert!(matches!(action, PipelineAction::ReportFailure));
    assert!(matches!(state.phase, PipelinePhase::Failed));
    match state.error.as_ref().unwrap() {
        BuildError::RemoteAPIError { status, body } => {
            assert_eq!(*status, 500);
            assert_eq!(body, "server error");
        }
        other => panic!("unexpected error: {:?}", other),
    }
    // The failed machine waits for nothing: no staging, push, notify or
    // poll event fits it, so none of those calls is ever attempted.
    for event in [
        PipelineEvent::Staged { result: Ok("x".to_string()) },
        PipelineEvent::Pushed { result: Ok(()) },
        PipelineEvent::NotifyResponded { status: 200, body: String::new() },
        PipelineEvent::StatusResponded { status: 200, body: String::new() },
        PipelineEvent::Slept,
    ] {
        assert!(!event_matches_phase(&state, &event));
    }
}

#[test]
fn an_update_of_an_existing_template_posts_to_its_endpoint() {
    let mut cfg = config();
    cfg.template_id = Some("t-old".to_string());
    let strategy = BuildStrategy::DefaultPull { image_reference: "foo".to_string() };
    let (_, action) = pipeline_start(cfg, strategy, None);
    assert!(matches!(&action, PipelineAction::CallCreateTemplate { url, .. } if url == "https://api.example.dev/templates/t-old"));
}

#[test]
fn a_base_image_override_changes_what_is_pulled_but_not_the_content() {
    let strategy = BuildStrategy::DefaultPull { image_reference: "fallback:1".to_string() };
    let (state, action) = pipeline_start(config(), strategy, Some("override:2".to_string()));
    match &action {
        PipelineAction::CallCreateTemplate { body, .. } => {
            assert!(body.contains(r#""dockerfile":"FROM fallback:1""#));
        }
        _ => panic!("first action must be the create call"),
    }
    let (state, _) = pipeline_step(state, ok_create());
    let (state, _) = pipeline_step(state, ok_auth());
    let (_, action) = pipeline_step(state, PipelineEvent::RepoEnsured { result: Ok(()) });
    assert!(matches!(&action, PipelineAction::StageImage { plan: StagePlan::PullAnonymous { image } } if image == "override:2"));
}

#[test]
fn a_registry_image_strategy_pulls_with_credentials() {
    let strategy = BuildStrategy::RegistryImage { image_reference: "repo/img:3".to_string() };
    let (state, _) = pipeline_start(config(), strategy, None);
    let (state, _) = pipeline_step(state, ok_create());
    let (state, _) = pipeline_step(state, ok_auth());
    let (_, action) = pipeline_step(state, PipelineEvent::RepoEnsured { result: Ok(()) });
    match action {
        PipelineAction::StageImage { plan: StagePlan::PullWithAuth { image, login } } => {
            assert_eq!(image, "repo/img:3");
            assert_eq!(login.username, "AWS");
            assert_eq!(login.server, "https://123.dkr.ecr.us-east-1.amazonaws.com");
        }
        _ => panic!("a registry image is pulled with credentials"),
    }
}

#[test]
fn a_dockerfile_strategy_builds_locally_under_the_forced_platform() {
    let strategy = BuildStrategy::Dockerfile {
        path: "proj/sub/Dockerfile".to_string(),
        content: "FROM base".to_string(),
    };
    let (state, _) = pipeline_start(config(), strategy, None);
    let (state, _) = pipeline_step(state, ok_create());
    let (state, _) = pipeline_step(state, ok_auth());
    let (_, action) = pipeline_step(state, PipelineEvent::RepoEnsured { result: Ok(()) });
    match action {
        PipelineAction::StageImage { plan: StagePlan::BuildLocal { dockerfile_path, context_dir, tag } } => {
            assert_eq!(dockerfile_path, "proj/sub/Dockerfile");
            assert_eq!(context_dir, "proj/sub");
            assert!(tag.starts_with("aws-e2b-temp:"));
        }
        _ => panic!("a Dockerfile strategy builds locally"),
    }
}

#[test]
fn staging_failures_carry_the_strategy_specific_error() {
    let cases: Vec<(BuildStrategy, fn(&BuildError) -> bool)> = vec![
        (
            BuildStrategy::Dockerfile { path: "D".to_string(), content: "FROM x".to_string() },
            |e| matches!(e, BuildError::LocalBuildFailed { output } if output == "tool says no"),
        ),
        (
            BuildStrategy::RegistryImage { image_reference: "img".to_string() },
            |e| matches!(e, BuildError::PullAuthFailed { output } if output == "tool says no"),
        ),
        (
            BuildStrategy::DefaultPull { image_reference: "img".to_string() },
            |e| matches!(e, BuildError::PullFailed { output } if output == "tool says no"),
        ),
    ];
    for (strategy, check) in cases {
        let (state, _) = pipeline_start(config(), strategy, None);
        let (state, _) = pipeline_step(state, ok_create());
        let (state, _) = pipeline_step(state, ok_auth());
        let (state, _) = pipeline_step(state, PipelineEvent::RepoEnsured { result: Ok(()) });
        let (state, action) = pipeline_step(
            state,
            PipelineEvent::Staged { result: Err("tool says no".to_string()) },
        );
        assert!(matches!(action, PipelineAction::ReportFailure));
        assert!(matches!(state.phase, PipelinePhase::Failed));
        assert!(check(state.error.as_ref().unwrap()));
    }
}

#[test]
fn later_stage_failures_abort_with_their_own_errors() {
    let walk_to_tag = || -> PipelineState {
        let strategy = BuildStrategy::DefaultPull { image_reference: "foo".to_string() };
        let (state, _) = pipeline_start(config(), strategy, None);
        let (state, _) = pipeline_step(state, ok_create());
        let (state, _) = pipeline_step(state, ok_auth());
        let (state, _) = pipeline_step(state, PipelineEvent::RepoEnsured { result: Ok(()) });
        let (state, _) =
            pipeline_step(state, PipelineEvent::Staged { result: Ok("foo".to_string()) });
        state
    };

    let (state, _) = pipeline_step(
        walk_to_tag(),
        PipelineEvent::Tagged { result: Err("no tag".to_string()) },
    );
    assert!(matches!(state.error, Some(BuildError::TagFailed { output }) if output == "no tag"));

    let (state, _) = pipeline_step(walk_to_tag(), PipelineEvent::Tagged { result: Ok(()) });
    let (state, _) =
        pipeline_step(state, PipelineEvent::Pushed { result: Err("no push".to_string()) });
    assert!(matches!(state.error, Some(BuildError::PushFailed { output }) if output == "no push"));

    let (state, _) = pipeline_step(walk_to_tag(), PipelineEvent::Tagged { result: Ok(()) });
    let (state, _) = pipeline_step(state, PipelineEvent::Pushed { result: Ok(()) });
    let (state, _) = pipeline_step(
        state,
        PipelineEvent::NotifyResponded { status: 500, body: "down".to_string() },
    );
    assert!(matches!(state.error, Some(BuildError::NotifyFailed { status: 500, body }) if body == "down"));
}

#[test]
fn a_repository_failure_aborts_as_an_auth_error() {
    let strategy = BuildStrategy::DefaultPull { image_reference: "foo".to_string() };
    let (state, _) = pipeline_start(config(), strategy, None);
    let (state, _) = pipeline_step(state, ok_create());
    let (state, _) = pipeline_step(state, ok_auth());
    let (state, action) = pipeline_step(
        state,
        PipelineEvent::RepoEnsured { result: Err("permission denied".to_string()) },
    );
    assert!(matches!(action, PipelineAction::ReportFailure));
    assert!(matches!(state.error, Some(BuildError::AuthError { reason }) if reason == "permission denied"));
}

#[test]
fn an_empty_authorization_list_aborts_the_pipeline() {
    let strategy = BuildStrategy::DefaultPull { image_reference: "foo".to_string() };
    let (state, _) = pipeline_start(config(), strategy, None);
    let (state, _) = pipeline_step(state, ok_create());
    let (state, action) = pipeline_step(state, PipelineEvent::AuthFetched { data: None });
    assert!(matches!(action, PipelineAction::ReportFailure));
    assert!(matches!(state.error, Some(BuildError::AuthError { .. })));
}
