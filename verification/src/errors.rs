use vstd::prelude::*;
use vstd::string::*;

use crate::text::dec_rep;
use crate::text::u64_to_decimal;

verus! {

/// Every way the build pipeline can fail. None of these is retried; each
/// aborts the whole run.
#[derive(Debug, PartialEq, Eq)]
pub enum BuildError {
    /// A connection fact (region, domain, access token, team id) was absent
    /// from every source that is consulted for it.
    MissingRequiredField { field: String, sources: String },
    /// An explicitly named configuration file does not exist or cannot be
    /// read.
    ConfigFileUnreadable { path: String },
    /// A configuration file exists but does not parse.
    ConfigFileMalformed { path: String },
    /// A Dockerfile named by the invocation or the project file cannot be
    /// read.
    DockerfileUnreadable { path: String },
    /// Both a Dockerfile path and a registry image were supplied in the same
    /// invocation.
    InputConflict,
    /// The registry or the identity service failed, or its authorization
    /// token could not be decoded.
    AuthError { reason: String },
    /// The local image build subprocess failed; carries the tool's output.
    LocalBuildFailed { output: String },
    /// Pulling the registry image with credentials failed.
    PullAuthFailed { output: String },
    /// Pulling the fallback image failed.
    PullFailed { output: String },
    /// Retagging the staged image failed.
    TagFailed { output: String },
    /// Pushing the staged image failed.
    PushFailed { output: String },
    /// The create-template call returned a non-success HTTP status.
    RemoteAPIError { status: u16, body: String },
    /// The build-completion notification returned a non-success HTTP status.
    NotifyFailed { status: u16, body: String },
    /// A status query returned a non-success HTTP status.
    StatusQueryFailed { status: u16, body: String },
    /// A successful response from the template API did not parse as JSON.
    MalformedResponse { body: String },
}

/// The human-readable message of an error.
pub open spec fn message_of(e: &BuildError) -> Seq<char> {
    match e {
        BuildError::MissingRequiredField { field, sources } => "Missing "@ + field@ + ": set "@
            + sources@,
        BuildError::ConfigFileUnreadable { path } =>
        "Specified configuration file does not exist: "@ + path@,
        BuildError::ConfigFileMalformed { path } => "failed to parse TOML: "@ + path@,
        BuildError::DockerfileUnreadable { path } => "failed to read Dockerfile: "@ + path@,
        BuildError::InputConflict =>
        "The `--docker-file` and `--ecr-image` options cannot be used together"@,
        BuildError::AuthError { reason } => "registry authentication failed: "@ + reason@,
        BuildError::LocalBuildFailed { output } => "local image build failed: "@ + output@,
        BuildError::PullAuthFailed { output } => "failed to pull image with credentials: "@
            + output@,
        BuildError::PullFailed { output } => "failed to pull image: "@ + output@,
        BuildError::TagFailed { output } => "failed to tag image: "@ + output@,
        BuildError::PushFailed { output } => "failed to push image: "@ + output@,
        BuildError::RemoteAPIError { status, body } => "failed to build template HTTP "@ + dec_rep(
            *status as nat,
        ) + ": "@ + body@,
        BuildError::NotifyFailed { status, body } => "notification failed HTTP "@ + dec_rep(
            *status as nat,
        ) + ": "@ + body@,
        BuildError::StatusQueryFailed { status, body } => "failed to query status HTTP "@
            + dec_rep(*status as nat) + ": "@ + body@,
        BuildError::MalformedResponse { body } => "failed to parse API response: "@ + body@,
    }
}

impl BuildError {
    /// Render the error for the invoking surface.
    pub fn message(&self) -> (r: String)
        ensures
            r@ == message_of(self),
    {
        match self {
            BuildError::MissingRequiredField { field, sources } => {
                let mut s = String::from_str("Missing ");
                s.append(field.as_str());
                s.append(": set ");
                s.append(sources.as_str());
                s
            },
            BuildError::ConfigFileUnreadable { path } => {
                let mut s = String::from_str("Specified configuration file does not exist: ");
                s.append(path.as_str());
                s
            },
            BuildError::ConfigFileMalformed { path } => {
                let mut s = String::from_str("failed to parse TOML: ");
                s.append(path.as_str());
                s
            },
            BuildError::DockerfileUnreadable { path } => {
                let mut s = String::from_str("failed to read Dockerfile: ");
                s.append(path.as_str());
                s
            },
            BuildError::InputConflict => String::from_str(
                "The `--docker-file` and `--ecr-image` options cannot be used together",
            ),
            BuildError::AuthError { reason } => {
                let mut s = String::from_str("registry authentication failed: ");
                s.append(reason.as_str());
                s
            },
            BuildError::LocalBuildFailed { output } => {
                let mut s = String::from_str("local image build failed: ");
                s.append(output.as_str());
                s
            },
            BuildError::PullAuthFailed { output } => {
                let mut s = String::from_str("failed to pull image with credentials: ");
                s.append(output.as_str());
                s
            },
            BuildError::PullFailed { output } => {
                let mut s = String::from_str("failed to pull image: ");
                s.append(output.as_str());
                s
            },
            BuildError::TagFailed { output } => {
                let mut s = String::from_str("failed to tag image: ");
                s.append(output.as_str());
                s
            },
            BuildError::PushFailed { output } => {
                let mut s = String::from_str("failed to push image: ");
                s.append(output.as_str());
                s
            },
            BuildError::RemoteAPIError { status, body } => {
                let mut s = String::from_str("failed to build template HTTP ");
                let code = u64_to_decimal(*status as u64);
                s.append(code.as_str());
                s.append(": ");
                s.append(body.as_str());
                s
            },
            BuildError::NotifyFailed { status, body } => {
                let mut s = String::from_str("notification failed HTTP ");
                let code = u64_to_decimal(*status as u64);
                s.append(code.as_str());
                s.append(": ");
                s.append(body.as_str());
                s
            },
            BuildError::StatusQueryFailed { status, body } => {
                let mut s = String::from_str("failed to query status HTTP ");
                let code = u64_to_decimal(*status as u64);
                s.append(code.as_str());
                s.append(": ");
                s.append(body.as_str());
                s
            },
            BuildError::MalformedResponse { body } => {
                let mut s = String::from_str("failed to parse API response: ");
                s.append(body.as_str());
                s
            },
        }
    }
}

} // verus!
