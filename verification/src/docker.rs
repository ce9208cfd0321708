use vstd::prelude::*;
use vstd::string::*;

use crate::auth::RegistryCredentials;
use crate::strategy::BuildStrategy;
use crate::text::dec_rep_i64;
use crate::text::i64_to_decimal;
use crate::text::parent_dir;
use crate::text::parent_dir_of;

verus! {

/// The single target platform every local build is forced to: the remote
/// execution environment does not support the host's native architecture in
/// general, so cross-architecture emulation is always requested.
pub open spec fn forced_platform() -> Seq<char> {
    "linux/amd64"@
}

/// Relies on chrono::Utc::now: the clock's current instant as seconds since
/// the epoch. Nothing is promised of the value; callers treat every reading
/// alike.
#[verifier::external_body]
fn unix_timestamp_now() -> (r: i64) {
    chrono::Utc::now().timestamp()
}

/// The time-derived tag a temporary local image is built under.
pub open spec fn temp_tag_of(ts: int) -> Seq<char> {
    "aws-e2b-temp:"@ + dec_rep_i64(ts)
}

/// The local tag for a temporary image built at the given instant.
pub fn temp_image_tag(ts: i64) -> (r: String)
    ensures
        r@ == temp_tag_of(ts as int),
{
    let mut s = String::from_str("aws-e2b-temp:");
    let d = i64_to_decimal(ts);
    s.append(d.as_str());
    s
}

/// A fresh time-derived local tag, unique per clock reading.
pub fn fresh_temp_tag() -> (r: String)
    ensures
        exists|ts: int| r@ == temp_tag_of(ts),
{
    let ts = unix_timestamp_now();
    let r = temp_image_tag(ts);
    proof {
        assert(r@ == temp_tag_of(ts as int));
    }
    r
}

/// A registry login. The password stands apart from everything that
/// becomes an argument: it is piped to the login subprocess's standard
/// input and never written to a log or an argument list.
pub struct LoginSpec {
    pub server: String,
    pub username: String,
    pub password_stdin: String,
}

/// The login that uses the run's registry credentials.
pub fn login_spec(creds: &RegistryCredentials) -> (r: LoginSpec)
    ensures
        r.server == creds.server,
        r.username == creds.username,
        r.password_stdin == creds.password,
{
    LoginSpec {
        server: creds.server.clone(),
        username: creds.username.clone(),
        password_stdin: creds.password.clone(),
    }
}

/// Everything the container engine is told to do to stage the base image.
pub enum StagePlan {
    /// Build locally from the Dockerfile under the forced platform, tagged
    /// with a time-derived tag; the build context is the Dockerfile's
    /// directory.
    BuildLocal { dockerfile_path: String, context_dir: String, tag: String },
    /// Log in with the run's credentials, then pull the image.
    PullWithAuth { image: String, login: LoginSpec },
    /// Pull the image without credentials.
    PullAnonymous { image: String },
}

/// The local image reference staging leaves behind, ready to be retagged.
pub open spec fn staged_reference(p: &StagePlan) -> Seq<char> {
    match p {
        StagePlan::BuildLocal { dockerfile_path, context_dir, tag } => tag@,
        StagePlan::PullWithAuth { image, login } => image@,
        StagePlan::PullAnonymous { image } => image@,
    }
}

/// The local image reference staging leaves behind.
pub fn stage_plan_reference(p: &StagePlan) -> (r: String)
    ensures
        r@ == staged_reference(p),
{
    match p {
        StagePlan::BuildLocal { dockerfile_path: _, context_dir: _, tag } => tag.clone(),
        StagePlan::PullWithAuth { image, login: _ } => image.clone(),
        StagePlan::PullAnonymous { image } => image.clone(),
    }
}

/// Decide how the base image is staged under the chosen strategy: a local
/// build for a Dockerfile, an authenticated pull for a registry image, and
/// an anonymous pull of the per-run base-image override or the strategy's
/// fallback image otherwise.
pub fn plan_stage(
    strategy: &BuildStrategy,
    base_override: &Option<String>,
    creds: &RegistryCredentials,
    temp_tag: String,
) -> (r: StagePlan)
    ensures
        strategy matches BuildStrategy::Dockerfile { path, content } ==> (r matches
            StagePlan::BuildLocal { dockerfile_path, context_dir, tag } && dockerfile_path == path
            && context_dir@ == parent_dir_of(path@) && tag == temp_tag),
        strategy matches BuildStrategy::RegistryImage { image_reference } ==> (r matches
            StagePlan::PullWithAuth { image, login } && image == image_reference && login.server
            == creds.server && login.username == creds.username && login.password_stdin
            == creds.password),
        strategy matches BuildStrategy::DefaultPull { image_reference } ==> (r matches
            StagePlan::PullAnonymous { image } && (base_override matches Some(b) ==> image == b) && (
        base_override is None ==> image == image_reference)),
{
    match strategy {
        BuildStrategy::Dockerfile { path, content: _ } => {
            let context_dir = parent_dir(path.as_str());
            StagePlan::BuildLocal { dockerfile_path: path.clone(), context_dir, tag: temp_tag }
        },
        BuildStrategy::RegistryImage { image_reference } => StagePlan::PullWithAuth {
            image: image_reference.clone(),
            login: login_spec(creds),
        },
        BuildStrategy::DefaultPull { image_reference } => {
            let image = match base_override {
                Some(b) => b.clone(),
                None => image_reference.clone(),
            };
            StagePlan::PullAnonymous { image }
        },
    }
}

// ---------------------------------------------------------------------------
// Container-engine command lines
// ---------------------------------------------------------------------------

/// Arguments of the local build invocation; the platform is always the
/// forced one.
pub fn build_command_args(tag: &str, dockerfile_path: &str, context_dir: &str) -> (r: Vec<String>)
    ensures
        r.deep_view() == seq![
            "build"@,
            "--platform"@,
            forced_platform(),
            "-t"@,
            tag@,
            "-f"@,
            dockerfile_path@,
            context_dir@,
        ],
{
    let mut v: Vec<String> = Vec::new();
    v.push(String::from_str("build"));
    v.push(String::from_str("--platform"));
    v.push(String::from_str("linux/amd64"));
    v.push(String::from_str("-t"));
    v.push(String::from_str(tag));
    v.push(String::from_str("-f"));
    v.push(String::from_str(dockerfile_path));
    v.push(String::from_str(context_dir));
    proof {
        assert(v.deep_view() =~= seq![
            "build"@,
            "--platform"@,
            forced_platform(),
            "-t"@,
            tag@,
            "-f"@,
            dockerfile_path@,
            context_dir@,
        ]);
    }
    v
}

/// Arguments of the login invocation. The password is not among them: the
/// runner pipes `login.password_stdin` to the subprocess's standard input.
pub fn login_command_args(login: &LoginSpec) -> (r: Vec<String>)
    ensures
        r.deep_view() == seq![
            "login"@,
            login.server@,
            "-u"@,
            login.username@,
            "--password-stdin"@,
        ],
{
    let mut v: Vec<String> = Vec::new();
    v.push(String::from_str("login"));
    v.push(login.server.clone());
    v.push(String::from_str("-u"));
    v.push(login.username.clone());
    v.push(String::from_str("--password-stdin"));
    proof {
        assert(v.deep_view() =~= seq![
            "login"@,
            login.server@,
            "-u"@,
            login.username@,
            "--password-stdin"@,
        ]);
    }
    v
}

/// Arguments of the pull invocation.
pub fn pull_command_args(image: &str) -> (r: Vec<String>)
    ensures
        r.deep_view() == seq!["pull"@, image@],
{
    let mut v: Vec<String> = Vec::new();
    v.push(String::from_str("pull"));
    v.push(String::from_str(image));
    proof {
        assert(v.deep_view() =~= seq!["pull"@, image@]);
    }
    v
}

/// Arguments of the retag invocation.
pub fn tag_command_args(source: &str, target: &str) -> (r: Vec<String>)
    ensures
        r.deep_view() == seq!["tag"@, source@, target@],
{
    let mut v: Vec<String> = Vec::new();
    v.push(String::from_str("tag"));
    v.push(String::from_str(source));
    v.push(String::from_str(target));
    proof {
        assert(v.deep_view() =~= seq!["tag"@, source@, target@]);
    }
    v
}

/// Arguments of the push invocation.
pub fn push_command_args(target: &str) -> (r: Vec<String>)
    ensures
        r.deep_view() == seq!["push"@, target@],
{
    let mut v: Vec<String> = Vec::new();
    v.push(String::from_str("push"));
    v.push(String::from_str(target));
    proof {
        assert(v.deep_view() =~= seq!["push"@, target@]);
    }
    v
}

} // verus!
