use vstd::prelude::*;
use vstd::string::*;
use vstd::pervasive::unreached;

use crate::api::BuildSession;
use crate::api::PollDecision;
use crate::api::POLL_INTERVAL_SECS;
use crate::api::create_body_of;
use crate::api::create_template_body;
use crate::api::create_template_url;
use crate::api::create_url_of;
use crate::api::http_success;
use crate::api::interpret_create_response;
use crate::api::interpret_notify_response;
use crate::api::notify_url;
use crate::api::notify_url_of;
use crate::api::poll_step;
use crate::api::reported_build_id;
use crate::api::reported_status;
use crate::api::reported_template_id;
use crate::api::status_url;
use crate::api::status_url_of;
use crate::auth::AuthorizationData;
use crate::auth::RegistryCredentials;
use crate::auth::auth_ok;
use crate::auth::authenticate;
use crate::auth::creds_match_grant;
use crate::auth::creds_wf;
use crate::auth::ecr_repo_name;
use crate::auth::push_tag;
use crate::auth::push_tag_of;
use crate::auth::repo_namespace;
use crate::config::BuildConfiguration;
use crate::config::config_wf;
use crate::docker::LoginSpec;
use crate::docker::StagePlan;
use crate::docker::fresh_temp_tag;
use crate::docker::login_spec;
use crate::docker::plan_stage;
use crate::docker::temp_tag_of;
use crate::errors::BuildError;
use crate::json::json_wf;
use crate::strategy::BuildStrategy;
use crate::strategy::strategy_content;
use crate::strategy::strategy_dockerfile_content;
use crate::text::opt_view;
use crate::text::parent_dir_of;

verus! {

/// Where the pipeline stands between two outside actions. The path is
/// strictly forward; only the status-query/sleep pair alternates, inside
/// the polling stage.
#[derive(Debug, PartialEq, Eq)]
pub enum PipelinePhase {
    /// The create-template call is in flight.
    CreateRequested,
    /// The registry authorization grant is being fetched.
    AuthRequested,
    /// The repository ensure-exists protocol is running.
    RepoEnsureRequested,
    /// The base image is being staged.
    StageRequested,
    /// The staged image is being retagged.
    TagRequested,
    /// The retagged image is being pushed.
    PushRequested,
    /// The completion notification is in flight.
    NotifyRequested,
    /// A status query is in flight.
    StatusRequested,
    /// The fixed-interval sleep before the next status query is running.
    Sleeping,
    /// Terminal: the remote build reported a status other than in-progress.
    Succeeded,
    /// Terminal: the pipeline aborted; the error is in the state.
    Failed,
}

/// Everything the pipeline carries between actions. Only the session and
/// the phase ever change after resolution.
pub struct PipelineState {
    pub phase: PipelinePhase,
    pub config: BuildConfiguration,
    pub strategy: BuildStrategy,
    pub base_override: Option<String>,
    pub session: Option<BuildSession>,
    pub creds: Option<RegistryCredentials>,
    pub staged: Option<String>,
    pub target_tag: Option<String>,
    pub final_status: Option<String>,
    pub error: Option<BuildError>,
}

/// What the runner must perform next. The runner does the outside work and
/// hands the outcome back as an event; it makes no decision of its own.
pub enum PipelineAction {
    /// POST the body to the create/update endpoint with the bearer token.
    CallCreateTemplate { url: String, body: String, bearer: String },
    /// Fetch the registry authorization grant from the control plane.
    FetchRegistryAuth,
    /// Run the ensure-exists protocol for this repository name.
    EnsureRepository { name: String },
    /// Stage the base image as the plan says.
    StageImage { plan: StagePlan },
    /// Retag the staged image.
    TagImage { source: String, target: String },
    /// Log in and push the target tag.
    PushImage { target: String, login: LoginSpec },
    /// POST the completion notification with the bearer token.
    CallNotify { url: String, bearer: String },
    /// GET the status endpoint with the bearer token.
    CallStatus { url: String, bearer: String },
    /// Sleep this many seconds, then report back.
    Sleep { seconds: u64 },
    /// Terminal: report the remote build's final status.
    ReportSuccess { final_status: String },
    /// Terminal: report the error held in the state.
    ReportFailure,
}

/// What the outside world reports back after performing an action.
pub enum PipelineEvent {
    /// Response of the create call.
    CreateResponded { status: u16, body: String },
    /// The authorization grant, or nothing when the control plane returned
    /// an empty list.
    AuthFetched { data: Option<AuthorizationData> },
    /// Outcome of the ensure-exists protocol, with the control plane's
    /// error text on failure.
    RepoEnsured { result: Result<(), String> },
    /// Outcome of staging: the local image reference, or the tool's output.
    Staged { result: Result<String, String> },
    /// Outcome of retagging, with the tool's output on failure.
    Tagged { result: Result<(), String> },
    /// Outcome of the push, with the tool's output on failure.
    Pushed { result: Result<(), String> },
    /// Response of the completion notification.
    NotifyResponded { status: u16, body: String },
    /// Response of one status query.
    StatusResponded { status: u16, body: String },
    /// The sleep finished.
    Slept,
}

/// The stage a phase belongs to, in pipeline order. A terminal phase ranks
/// above every working phase, and the status-query and sleep phases share a
/// rank: the pipeline moves strictly forward.
pub open spec fn phase_rank(p: &PipelinePhase) -> int {
    match p {
        PipelinePhase::CreateRequested => 0,
        PipelinePhase::AuthRequested => 1,
        PipelinePhase::RepoEnsureRequested => 2,
        PipelinePhase::StageRequested => 3,
        PipelinePhase::TagRequested => 4,
        PipelinePhase::PushRequested => 5,
        PipelinePhase::NotifyRequested => 6,
        PipelinePhase::StatusRequested => 7,
        PipelinePhase::Sleeping => 7,
        PipelinePhase::Succeeded => 8,
        PipelinePhase::Failed => 9,
    }
}

/// The phases that hold an open session.
pub open spec fn needs_session(p: &PipelinePhase) -> bool {
    match p {
        PipelinePhase::CreateRequested => false,
        PipelinePhase::Failed => false,
        _ => true,
    }
}

/// The phases that hold registry credentials.
pub open spec fn needs_creds(p: &PipelinePhase) -> bool {
    match p {
        PipelinePhase::RepoEnsureRequested => true,
        PipelinePhase::StageRequested => true,
        PipelinePhase::TagRequested => true,
        PipelinePhase::PushRequested => true,
        _ => false,
    }
}

/// The pipeline state's invariant: the configuration is well formed, every
/// phase holds what its actions need, and an error is held exactly in the
/// failed phase.
pub open spec fn state_wf(s: &PipelineState) -> bool {
    &&& config_wf(&s.config)
    &&& (needs_session(&s.phase) ==> s.session is Some)
    &&& (s.phase is CreateRequested ==> s.session is None)
    &&& (needs_creds(&s.phase) ==> (s.creds matches Some(c) && creds_wf(&c)))
    &&& (s.phase is TagRequested || s.phase is PushRequested ==> s.target_tag is Some)
    &&& ((s.phase is Failed) <==> (s.error is Some))
    &&& (s.phase is Succeeded ==> s.final_status is Some)
}

/// Whether an event is the outcome of the action the phase is waiting for.
/// Terminal phases wait for nothing: no event fits them, and the machine
/// issues no further action.
pub open spec fn event_fits(phase: &PipelinePhase, event: &PipelineEvent) -> bool {
    match (phase, event) {
        (PipelinePhase::CreateRequested, PipelineEvent::CreateResponded { .. }) => true,
        (PipelinePhase::AuthRequested, PipelineEvent::AuthFetched { .. }) => true,
        (PipelinePhase::RepoEnsureRequested, PipelineEvent::RepoEnsured { .. }) => true,
        (PipelinePhase::StageRequested, PipelineEvent::Staged { .. }) => true,
        (PipelinePhase::TagRequested, PipelineEvent::Tagged { .. }) => true,
        (PipelinePhase::PushRequested, PipelineEvent::Pushed { .. }) => true,
        (PipelinePhase::NotifyRequested, PipelineEvent::NotifyResponded { .. }) => true,
        (PipelinePhase::StatusRequested, PipelineEvent::StatusResponded { .. }) => true,
        (PipelinePhase::Sleeping, PipelineEvent::Slept) => true,
        _ => false,
    }
}

/// Whether an event is the outcome of the action the state is waiting for.
pub fn event_matches_phase(state: &PipelineState, event: &PipelineEvent) -> (b: bool)
    ensures
        b == event_fits(&state.phase, event),
{
    match (&state.phase, event) {
        (PipelinePhase::CreateRequested, PipelineEvent::CreateResponded { .. }) => true,
        (PipelinePhase::AuthRequested, PipelineEvent::AuthFetched { .. }) => true,
        (PipelinePhase::RepoEnsureRequested, PipelineEvent::RepoEnsured { .. }) => true,
        (PipelinePhase::StageRequested, PipelineEvent::Staged { .. }) => true,
        (PipelinePhase::TagRequested, PipelineEvent::Tagged { .. }) => true,
        (PipelinePhase::PushRequested, PipelineEvent::Pushed { .. }) => true,
        (PipelinePhase::NotifyRequested, PipelineEvent::NotifyResponded { .. }) => true,
        (PipelinePhase::StatusRequested, PipelineEvent::StatusResponded { .. }) => true,
        (PipelinePhase::Sleeping, PipelineEvent::Slept) => true,
        _ => false,
    }
}

/// Open the pipeline. The first action is the create-template call, made
/// before registry auth and staging so that a build and template identifier
/// pair exists to tag the image against.
pub fn pipeline_start(
    config: BuildConfiguration,
    strategy: BuildStrategy,
    base_override: Option<String>,
) -> (r: (PipelineState, PipelineAction))
    requires
        config_wf(&config),
    ensures
        state_wf(&r.0),
        r.0.phase is CreateRequested,
        r.0.config == config,
        r.0.strategy == strategy,
        r.0.base_override == base_override,
        r.0.session is None,
        r.0.creds is None,
        r.0.error is None,
        r.1 matches PipelineAction::CallCreateTemplate { url, body, bearer } && url@
            == create_url_of(config.domain@, opt_view(&config.template_id)) && body@
            == create_body_of(
            strategy_content(&strategy),
            config.memory_mb,
            config.cpu_count,
            opt_view(&config.start_cmd),
            opt_view(&config.ready_cmd),
            opt_view(&config.alias),
            opt_view(&config.template_id),
        ) && bearer == config.access_token,
{
    let url = create_template_url(config.domain.as_str(), &config.template_id);
    let content = strategy_dockerfile_content(&strategy);
    let body = create_template_body(&config, content.as_str());
    let bearer = config.access_token.clone();
    let state = PipelineState {
        phase: PipelinePhase::CreateRequested,
        config,
        strategy,
        base_override,
        session: None,
        creds: None,
        staged: None,
        target_tag: None,
        final_status: None,
        error: None,
    };
    (state, PipelineAction::CallCreateTemplate { url, body, bearer })
}

/// Advance the pipeline by one outside outcome: from the current state and
/// the event, the next state and the next action. Every failure puts the
/// machine in the failed phase, which accepts no further event, so nothing
/// is ever pushed, notified or polled after an earlier stage has failed.
#[verifier::rlimit(60)]
pub fn pipeline_step(state: PipelineState, event: PipelineEvent) -> (r: (
    PipelineState,
    PipelineAction,
))
    requires
        state_wf(&state),
        event_fits(&state.phase, &event),
    ensures
        state_wf(&r.0),
        phase_rank(&r.0.phase) >= phase_rank(&state.phase),
        r.0.config == state.config,
        r.0.strategy == state.strategy,
        r.0.base_override == state.base_override,
        state.session matches Some(s) ==> (r.0.session matches Some(s2) && s2.build_id
            == s.build_id && s2.template_id == s.template_id),
        state.phase is CreateRequested ==> (event matches PipelineEvent::CreateResponded {
            status,
            body,
        } ==> {
            &&& (!http_success(status) ==> (r.0.phase is Failed && (r.0.error matches Some(
                BuildError::RemoteAPIError { status: st, body: b },
            ) && st == status && b@ == body@) && r.1 is ReportFailure))
            &&& (http_success(status) && !json_wf(body@) ==> (r.0.phase is Failed && (
            r.0.error matches Some(BuildError::MalformedResponse { body: b }) && b@ == body@)
                && r.1 is ReportFailure))
            &&& (http_success(status) && json_wf(body@) ==> (r.0.phase is AuthRequested && (
            r.0.session matches Some(s) && s.build_id@ == reported_build_id(body@)
                && s.template_id@ == reported_template_id(body@) && s.status@ == "building"@
                && s.history@.len() == 0) && r.1 is FetchRegistryAuth))
        }),
        state.phase is AuthRequested ==> (event matches PipelineEvent::AuthFetched { data } ==> {
            &&& (!auth_ok(&data) ==> (r.0.phase is Failed && (r.0.error matches Some(e)
                && e is AuthError) && r.1 is ReportFailure))
            &&& (auth_ok(&data) ==> (r.0.phase is RepoEnsureRequested && (r.0.creds matches Some(c)
                && (data matches Some(d) ==> creds_match_grant(&c, &d))) && (
            state.session matches Some(s) ==> (r.1 matches PipelineAction::EnsureRepository { name }
                && name@ == repo_namespace() + s.template_id@))))
        }),
        state.phase is RepoEnsureRequested ==> (event matches PipelineEvent::RepoEnsured {
            result,
        } ==> {
            &&& (result matches Err(msg) ==> (r.0.phase is Failed && (r.0.error matches Some(
                BuildError::AuthError { reason },
            ) && reason == msg) && r.1 is ReportFailure))
            &&& (result is Ok ==> (r.0.phase is StageRequested && (r.1 matches
                PipelineAction::StageImage { plan } && {
                &&& (state.strategy matches BuildStrategy::Dockerfile { path, content } ==> (
                plan matches StagePlan::BuildLocal { dockerfile_path, context_dir, tag }
                    && dockerfile_path == path && context_dir@ == parent_dir_of(path@) && (
                exists|ts: int| tag@ == temp_tag_of(ts))))
                &&& (state.strategy matches BuildStrategy::RegistryImage { image_reference } ==> (
                plan matches StagePlan::PullWithAuth { image, login } && image == image_reference
                    && (state.creds matches Some(c) ==> (login.server == c.server && login.username
                    == c.username && login.password_stdin == c.password))))
                &&& (state.strategy matches BuildStrategy::DefaultPull { image_reference } ==> (
                plan matches StagePlan::PullAnonymous { image } && (state.base_override matches Some(
                    b,
                ) ==> image == b) && (state.base_override is None ==> image == image_reference)))
            })))
        }),
        state.phase is StageRequested ==> (event matches PipelineEvent::Staged { result } ==> {
            &&& (result matches Err(output) ==> (r.0.phase is Failed && r.1 is ReportFailure && {
                &&& (state.strategy is Dockerfile ==> (r.0.error matches Some(
                    BuildError::LocalBuildFailed { output: o },
                ) && o == output))
                &&& (state.strategy is RegistryImage ==> (r.0.error matches Some(
                    BuildError::PullAuthFailed { output: o },
                ) && o == output))
                &&& (state.strategy is DefaultPull ==> (r.0.error matches Some(
                    BuildError::PullFailed { output: o },
                ) && o == output))
            }))
            &&& (result matches Ok(local_ref) ==> (r.0.phase is TagRequested && r.0.staged == Some(
                local_ref,
            ) && (state.creds matches Some(c) ==> (state.session matches Some(s) ==> (
            r.0.target_tag matches Some(t) && t@ == push_tag_of(
                c.registry_root@,
                s.template_id@,
                s.build_id@,
            ) && (r.1 matches PipelineAction::TagImage { source, target } && source == local_ref
                && target == t))))))
        }),
        state.phase is TagRequested ==> (event matches PipelineEvent::Tagged { result } ==> {
            &&& (result matches Err(output) ==> (r.0.phase is Failed && (r.0.error matches Some(
                BuildError::TagFailed { output: o },
            ) && o == output) && r.1 is ReportFailure))
            &&& (result is Ok ==> (r.0.phase is PushRequested && (state.target_tag matches Some(
                t,
            ) ==> (r.1 matches PipelineAction::PushImage { target, login } && target == t && (
            state.creds matches Some(c) ==> (login.server == c.server && login.username
                == c.username && login.password_stdin == c.password))))))
        }),
        state.phase is PushRequested ==> (event matches PipelineEvent::Pushed { result } ==> {
            &&& (result matches Err(output) ==> (r.0.phase is Failed && (r.0.error matches Some(
                BuildError::PushFailed { output: o },
            ) && o == output) && r.1 is ReportFailure))
            &&& (result is Ok ==> (r.0.phase is NotifyRequested && (state.session matches Some(
                s,
            ) ==> (r.1 matches PipelineAction::CallNotify { url, bearer } && url@ == notify_url_of(
                state.config.domain@,
                s.template_id@,
                s.build_id@,
            ) && bearer == state.config.access_token))))
        }),
        state.phase is NotifyRequested ==> (event matches PipelineEvent::NotifyResponded {
            status,
            body,
        } ==> {
            &&& (!http_success(status) ==> (r.0.phase is Failed && (r.0.error matches Some(
                BuildError::NotifyFailed { status: st, body: b },
            ) && st == status && b@ == body@) && r.1 is ReportFailure))
            &&& (http_success(status) ==> (r.0.phase is StatusRequested && (
            state.session matches Some(s) ==> (r.1 matches PipelineAction::CallStatus {
                url,
                bearer,
            } && url@ == status_url_of(state.config.domain@, s.template_id@, s.build_id@) && bearer
                == state.config.access_token))))
        }),
        state.phase is StatusRequested ==> (event matches PipelineEvent::StatusResponded {
            status,
            body,
        } ==> {
            &&& (!http_success(status) ==> (r.0.phase is Failed && (r.0.error matches Some(
                BuildError::StatusQueryFailed { status: st, body: b },
            ) && st == status && b@ == body@) && r.1 is ReportFailure))
            &&& (http_success(status) && !json_wf(body@) ==> (r.0.phase is Failed && (
            r.0.error matches Some(BuildError::MalformedResponse { body: b }) && b@ == body@)
                && r.1 is ReportFailure))
            &&& (http_success(status) && json_wf(body@) ==> {
                &&& (r.0.session matches Some(s2) && s2.status@ == reported_status(body@) && (
                state.session matches Some(s) ==> s2.history.deep_view()
                    == s.history.deep_view().push(reported_status(body@))))
                &&& (reported_status(body@) == "building"@ ==> (r.0.phase is Sleeping && (
                r.1 matches PipelineAction::Sleep { seconds } && seconds == POLL_INTERVAL_SECS)))
                &&& (reported_status(body@) != "building"@ ==> (r.0.phase is Succeeded && (
                r.0.final_status matches Some(f) && f@ == reported_status(body@)) && (r.1 matches
                    PipelineAction::ReportSuccess { final_status } && final_status@
                    == reported_status(body@))))
            })
        }),
        state.phase is Sleeping ==> (event matches PipelineEvent::Slept ==> (r.0.phase
            is StatusRequested && (state.session matches Some(s) ==> (r.1 matches
            PipelineAction::CallStatus { url, bearer } && url@ == status_url_of(
            state.config.domain@,
            s.template_id@,
            s.build_id@,
        ) && bearer == state.config.access_token)))),
{
    let PipelineState {
        phase,
        config,
        strategy,
        base_override,
        session,
        creds,
        staged,
        target_tag,
        final_status,
        error,
    } = state;
    match (phase, event) {
        (PipelinePhase::CreateRequested, PipelineEvent::CreateResponded { status, body }) => {
            match interpret_create_response(status, body.as_str()) {
                Ok(s) => (
                    PipelineState {
                        phase: PipelinePhase::AuthRequested,
                        config,
                        strategy,
                        base_override,
                        session: Some(s),
                        creds,
                        staged,
                        target_tag,
                        final_status,
                        error,
                    },
                    PipelineAction::FetchRegistryAuth,
                ),
                Err(e) => (
                    PipelineState {
                        phase: PipelinePhase::Failed,
                        config,
                        strategy,
                        base_override,
                        session,
                        creds,
                        staged,
                        target_tag,
                        final_status,
                        error: Some(e),
                    },
                    PipelineAction::ReportFailure,
                ),
            }
        },
        (PipelinePhase::AuthRequested, PipelineEvent::AuthFetched { data }) => {
            match authenticate(&data) {
                Ok(c) => {
                    let name = match &session {
                        Some(s) => ecr_repo_name(s.template_id.as_str()),
                        None => unreached(),
                    };
                    (
                        PipelineState {
                            phase: PipelinePhase::RepoEnsureRequested,
                            config,
                            strategy,
                            base_override,
                            session,
                            creds: Some(c),
                            staged,
                            target_tag,
                            final_status,
                            error,
                        },
                        PipelineAction::EnsureRepository { name },
                    )
                },
                Err(e) => (
                    PipelineState {
                        phase: PipelinePhase::Failed,
                        config,
                        strategy,
                        base_override,
                        session,
                        creds,
                        staged,
                        target_tag,
                        final_status,
                        error: Some(e),
                    },
                    PipelineAction::ReportFailure,
                ),
            }
        },
        (PipelinePhase::RepoEnsureRequested, PipelineEvent::RepoEnsured { result }) => {
            match result {
                Ok(_) => {
                    let tag = fresh_temp_tag();
                    let plan = match &creds {
                        Some(c) => plan_stage(&strategy, &base_override, c, tag),
                        None => unreached(),
                    };
                    (
                        PipelineState {
                            phase: PipelinePhase::StageRequested,
                            config,
                            strategy,
                            base_override,
                            session,
                            creds,
                            staged,
                            target_tag,
                            final_status,
                            error,
                        },
                        PipelineAction::StageImage { plan },
                    )
                },
                Err(msg) => (
                    PipelineState {
                        phase: PipelinePhase::Failed,
                        config,
                        strategy,
                        base_override,
                        session,
                        creds,
                        staged,
                        target_tag,
                        final_status,
                        error: Some(BuildError::AuthError { reason: msg }),
                    },
                    PipelineAction::ReportFailure,
                ),
            }
        },
        (PipelinePhase::StageRequested, PipelineEvent::Staged { result }) => {
            match result {
                Ok(local_ref) => {
                    let target = match (&creds, &session) {
                        (Some(c), Some(s)) => push_tag(
                            c.registry_root.as_str(),
                            s.template_id.as_str(),
                            s.build_id.as_str(),
                        ),
                        _ => unreached(),
                    };
                    (
                        PipelineState {
                            phase: PipelinePhase::TagRequested,
                            config,
                            strategy,
                            base_override,
                            session,
                            creds,
                            staged: Some(local_ref.clone()),
                            target_tag: Some(target.clone()),
                            final_status,
                            error,
                        },
                        PipelineAction::TagImage { source: local_ref, target },
                    )
                },
                Err(output) => {
                    let e = match &strategy {
                        BuildStrategy::Dockerfile { .. } => BuildError::LocalBuildFailed { output },
                        BuildStrategy::RegistryImage { .. } => BuildError::PullAuthFailed {
                            output,
                        },
                        BuildStrategy::DefaultPull { .. } => BuildError::PullFailed { output },
                    };
                    (
                        PipelineState {
                            phase: PipelinePhase::Failed,
                            config,
                            strategy,
                            base_override,
                            session,
                            creds,
                            staged,
                            target_tag,
                            final_status,
                            error: Some(e),
                        },
                        PipelineAction::ReportFailure,
                    )
                },
            }
        },
        (PipelinePhase::TagRequested, PipelineEvent::Tagged { result }) => {
            match result {
                Ok(_) => {
                    let action = match (&target_tag, &creds) {
                        (Some(t), Some(c)) => PipelineAction::PushImage {
                            target: t.clone(),
                            login: login_spec(c),
                        },
                        _ => unreached(),
                    };
                    (
                        PipelineState {
                            phase: PipelinePhase::PushRequested,
                            config,
                            strategy,
                            base_override,
                            session,
                            creds,
                            staged,
                            target_tag,
                            final_status,
                            error,
                        },
                        action,
                    )
                },
                Err(output) => (
                    PipelineState {
                        phase: PipelinePhase::Failed,
                        config,
                        strategy,
                        base_override,
                        session,
                        creds,
                        staged,
                        target_tag,
                        final_status,
                        error: Some(BuildError::TagFailed { output }),
                    },
                    PipelineAction::ReportFailure,
                ),
            }
        },
        (PipelinePhase::PushRequested, PipelineEvent::Pushed { result }) => {
            match result {
                Ok(_) => {
                    let action = match &session {
                        Some(s) => PipelineAction::CallNotify {
                            url: notify_url(
                                config.domain.as_str(),
                                s.template_id.as_str(),
                                s.build_id.as_str(),
                            ),
                            bearer: config.access_token.clone(),
                        },
                        None => unreached(),
                    };
                    (
                        PipelineState {
                            phase: PipelinePhase::NotifyRequested,
                            config,
                            strategy,
                            base_override,
                            session,
                            creds,
                            staged,
                            target_tag,
                            final_status,
                            error,
                        },
                        action,
                    )
                },
                Err(output) => (
                    PipelineState {
                        phase: PipelinePhase::Failed,
                        config,
                        strategy,
                        base_override,
                        session,
                        creds,
                        staged,
                        target_tag,
                        final_status,
                        error: Some(BuildError::PushFailed { output }),
                    },
                    PipelineAction::ReportFailure,
                ),
            }
        },
        (PipelinePhase::NotifyRequested, PipelineEvent::NotifyResponded { status, body }) => {
            match interpret_notify_response(status, body.as_str()) {
                Ok(_) => {
                    let action = match &session {
                        Some(s) => PipelineAction::CallStatus {
                            url: status_url(
                                config.domain.as_str(),
                                s.template_id.as_str(),
                                s.build_id.as_str(),
                            ),
                            bearer: config.access_token.clone(),
                        },
                        None => unreached(),
                    };
                    (
                        PipelineState {
                            phase: PipelinePhase::StatusRequested,
                            config,
                            strategy,
                            base_override,
                            session,
                            creds,
                            staged,
                            target_tag,
                            final_status,
                            error,
                        },
                        action,
                    )
                },
                Err(e) => (
                    PipelineState {
                        phase: PipelinePhase::Failed,
                        config,
                        strategy,
                        base_override,
                        session,
                        creds,
                        staged,
                        target_tag,
                        final_status,
                        error: Some(e),
                    },
                    PipelineAction::ReportFailure,
                ),
            }
        },
        (PipelinePhase::StatusRequested, PipelineEvent::StatusResponded { status, body }) => {
            let mut sess = match session {
                Some(s) => s,
                None => unreached(),
            };
            match poll_step(&mut sess, status, body.as_str()) {
                Ok(PollDecision::SleepAndRetry) => (
                    PipelineState {
                        phase: PipelinePhase::Sleeping,
                        config,
                        strategy,
                        base_override,
                        session: Some(sess),
                        creds,
                        staged,
                        target_tag,
                        final_status,
                        error,
                    },
                    PipelineAction::Sleep { seconds: POLL_INTERVAL_SECS },
                ),
                Ok(PollDecision::Terminal { final_status: fs }) => (
                    PipelineState {
                        phase: PipelinePhase::Succeeded,
                        config,
                        strategy,
                        base_override,
                        session: Some(sess),
                        creds,
                        staged,
                        target_tag,
                        final_status: Some(fs.clone()),
                        error,
                    },
                    PipelineAction::ReportSuccess { final_status: fs },
                ),
                Err(e) => (
                    PipelineState {
                        phase: PipelinePhase::Failed,
                        config,
                        strategy,
                        base_override,
                        session: Some(sess),
                        creds,
                        staged,
                        target_tag,
                        final_status,
                        error: Some(e),
                    },
                    PipelineAction::ReportFailure,
                ),
            }
        },
        (PipelinePhase::Sleeping, PipelineEvent::Slept) => {
            let action = match &session {
                Some(s) => PipelineAction::CallStatus {
                    url: status_url(
                        config.domain.as_str(),
                        s.template_id.as_str(),
                        s.build_id.as_str(),
                    ),
                    bearer: config.access_token.clone(),
                },
                None => unreached(),
            };
            (
                PipelineState {
                    phase: PipelinePhase::StatusRequested,
                    config,
                    strategy,
                    base_override,
                    session,
                    creds,
                    staged,
                    target_tag,
                    final_status,
                    error,
                },
                action,
            )
        },
        _ => unreached(),
    }
}

} // verus!
