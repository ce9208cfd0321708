use vstd::prelude::*;
use vstd::string::*;

use crate::args::E2bArgs;
use crate::errors::BuildError;
use crate::text::is_space;
use crate::text::trim;
use crate::text::trim_of;
use crate::text::lemma_ws_prefix;
use crate::text::lemma_ws_suffix;
use crate::text::lemma_trim_bounds;
use crate::text::ws_prefix_len;
use crate::text::ws_suffix_len;

verus! {

/// Compiled default for the template's memory size, in megabytes.
pub const DEFAULT_MEMORY_MB: u32 = 4096;

/// Compiled default for the template's CPU count.
pub const DEFAULT_CPU_COUNT: u32 = 4;

// ---------------------------------------------------------------------------
// Configuration sources
// ---------------------------------------------------------------------------

/// The `[e2b]` section of the project-level file.
pub struct E2bSection {
    pub memory_mb: Option<u32>,
    pub cpu_count: Option<u32>,
    pub start_cmd: Option<String>,
    pub ready_cmd: Option<String>,
    pub alias: Option<String>,
    pub template_id: Option<String>,
}

/// The `[docker]` section of the project-level file.
pub struct DockerSection {
    pub dockerfile: Option<String>,
    pub ecr_image: Option<String>,
    pub docker_image: Option<String>,
}

/// The whole project-level file.
pub struct E2bConfigToml {
    pub e2b: Option<E2bSection>,
    pub docker: Option<DockerSection>,
}

/// The `[aws]` section of the user-level file.
pub struct UserAwsSection {
    pub aws_region: Option<String>,
}

/// The `[e2b]` section of the user-level file.
pub struct UserE2bSection {
    pub e2b_domain: Option<String>,
    pub e2b_access_token: Option<String>,
    pub e2b_api_key: Option<String>,
    pub e2b_team_id: Option<String>,
}

/// The whole user-level file.
pub struct UserConfig {
    pub aws: Option<UserAwsSection>,
    pub e2b: Option<UserE2bSection>,
}

/// The environment variables the pipeline consults, read once at startup.
pub struct EnvValues {
    pub aws_region: Option<String>,
    pub e2b_domain: Option<String>,
    pub e2b_access_token: Option<String>,
    pub e2b_api_key: Option<String>,
}

impl E2bConfigToml {
    /// The configuration of a run without a project-level file.
    pub fn empty() -> (r: E2bConfigToml)
        ensures
            r.e2b is None,
            r.docker is None,
    {
        E2bConfigToml { e2b: None, docker: None }
    }
}

impl EnvValues {
    /// The environment of a run where none of the variables is set.
    pub fn empty() -> (r: EnvValues)
        ensures
            r.aws_region is None,
            r.e2b_domain is None,
            r.e2b_access_token is None,
            r.e2b_api_key is None,
    {
        EnvValues { aws_region: None, e2b_domain: None, e2b_access_token: None, e2b_api_key: None }
    }
}

// ---------------------------------------------------------------------------
// Precedence
// ---------------------------------------------------------------------------

/// The higher-precedence value where present, else the lower one.
pub open spec fn first_present<T>(a: Option<T>, b: Option<T>) -> Option<T> {
    if a is Some {
        a
    } else {
        b
    }
}

/// The value where present, else the compiled default.
pub open spec fn opt_or<T>(a: Option<T>, d: T) -> T {
    match a {
        Some(v) => v,
        None => d,
    }
}

pub open spec fn project_memory_mb(p: &E2bConfigToml) -> Option<u32> {
    match p.e2b {
        Some(ref s) => s.memory_mb,
        None => None,
    }
}

pub open spec fn project_cpu_count(p: &E2bConfigToml) -> Option<u32> {
    match p.e2b {
        Some(ref s) => s.cpu_count,
        None => None,
    }
}

pub open spec fn project_start_cmd(p: &E2bConfigToml) -> Option<String> {
    match p.e2b {
        Some(ref s) => s.start_cmd,
        None => None,
    }
}

pub open spec fn project_ready_cmd(p: &E2bConfigToml) -> Option<String> {
    match p.e2b {
        Some(ref s) => s.ready_cmd,
        None => None,
    }
}

pub open spec fn project_alias(p: &E2bConfigToml) -> Option<String> {
    match p.e2b {
        Some(ref s) => s.alias,
        None => None,
    }
}

pub open spec fn project_template_id(p: &E2bConfigToml) -> Option<String> {
    match p.e2b {
        Some(ref s) => s.template_id,
        None => None,
    }
}

pub open spec fn project_dockerfile(p: &E2bConfigToml) -> Option<String> {
    match p.docker {
        Some(ref s) => s.dockerfile,
        None => None,
    }
}

pub open spec fn project_ecr_image(p: &E2bConfigToml) -> Option<String> {
    match p.docker {
        Some(ref s) => s.ecr_image,
        None => None,
    }
}

pub open spec fn project_docker_image(p: &E2bConfigToml) -> Option<String> {
    match p.docker {
        Some(ref s) => s.docker_image,
        None => None,
    }
}

pub open spec fn user_aws_region(u: &Option<UserConfig>) -> Option<String> {
    match u {
        Some(c) => match c.aws {
            Some(ref a) => a.aws_region,
            None => None,
        },
        None => None,
    }
}

pub open spec fn user_domain(u: &Option<UserConfig>) -> Option<String> {
    match u {
        Some(c) => match c.e2b {
            Some(ref e) => e.e2b_domain,
            None => None,
        },
        None => None,
    }
}

pub open spec fn user_access_token(u: &Option<UserConfig>) -> Option<String> {
    match u {
        Some(c) => match c.e2b {
            Some(ref e) => e.e2b_access_token,
            None => None,
        },
        None => None,
    }
}

pub open spec fn user_api_key(u: &Option<UserConfig>) -> Option<String> {
    match u {
        Some(c) => match c.e2b {
            Some(ref e) => e.e2b_api_key,
            None => None,
        },
        None => None,
    }
}

pub open spec fn user_team_id(u: &Option<UserConfig>) -> Option<String> {
    match u {
        Some(c) => match c.e2b {
            Some(ref e) => e.e2b_team_id,
            None => None,
        },
        None => None,
    }
}

/// The region after applying environment-over-user-file precedence.
pub open spec fn resolved_region(u: &Option<UserConfig>, env: &EnvValues) -> Option<String> {
    first_present(env.aws_region, user_aws_region(u))
}

/// The domain after applying environment-over-user-file precedence.
pub open spec fn resolved_domain(u: &Option<UserConfig>, env: &EnvValues) -> Option<String> {
    first_present(env.e2b_domain, user_domain(u))
}

/// The raw access token after applying environment-over-user-file precedence.
pub open spec fn resolved_token(u: &Option<UserConfig>, env: &EnvValues) -> Option<String> {
    first_present(env.e2b_access_token, user_access_token(u))
}

/// The API key after applying environment-over-user-file precedence.
pub open spec fn resolved_api_key(u: &Option<UserConfig>, env: &EnvValues) -> Option<String> {
    first_present(env.e2b_api_key, user_api_key(u))
}

/// A copy of an optional string.
pub fn clone_opt_string(o: &Option<String>) -> (r: Option<String>)
    ensures
        r == *o,
{
    match o {
        Some(s) => Some(s.clone()),
        None => None,
    }
}

pub(crate) fn user_aws_region_exec(u: &Option<UserConfig>) -> (r: Option<String>)
    ensures
        r == user_aws_region(u),
{
    match u {
        Some(c) => match &c.aws {
            Some(a) => clone_opt_string(&a.aws_region),
            None => None,
        },
        None => None,
    }
}

pub(crate) fn user_domain_exec(u: &Option<UserConfig>) -> (r: Option<String>)
    ensures
        r == user_domain(u),
{
    match u {
        Some(c) => match &c.e2b {
            Some(e) => clone_opt_string(&e.e2b_domain),
            None => None,
        },
        None => None,
    }
}

pub(crate) fn user_access_token_exec(u: &Option<UserConfig>) -> (r: Option<String>)
    ensures
        r == user_access_token(u),
{
    match u {
        Some(c) => match &c.e2b {
            Some(e) => clone_opt_string(&e.e2b_access_token),
            None => None,
        },
        None => None,
    }
}

pub(crate) fn user_api_key_exec(u: &Option<UserConfig>) -> (r: Option<String>)
    ensures
        r == user_api_key(u),
{
    match u {
        Some(c) => match &c.e2b {
            Some(e) => clone_opt_string(&e.e2b_api_key),
            None => None,
        },
        None => None,
    }
}

// ---------------------------------------------------------------------------
// Bearer-token normalization
// ---------------------------------------------------------------------------

/// Whether the first seven characters spell `Bearer ` in any letter case.
pub open spec fn has_bearer_prefix(s: Seq<char>) -> bool {
    s.len() >= 7 && (s[0] == 'b' || s[0] == 'B') && (s[1] == 'e' || s[1] == 'E') && (s[2] == 'a'
        || s[2] == 'A') && (s[3] == 'r' || s[3] == 'R') && (s[4] == 'e' || s[4] == 'E') && (s[5]
        == 'r' || s[5] == 'R') && s[6] == ' '
}

/// The normalized form of an access token: trimmed, and given a `Bearer `
/// prefix when the trimmed form does not already carry one.
pub open spec fn bearer_formatted(s: Seq<char>) -> Seq<char> {
    if has_bearer_prefix(trim_of(s)) {
        trim_of(s)
    } else {
        "Bearer "@ + trim_of(s)
    }
}

/// Normalize an access token, inserting a `Bearer ` prefix if it is absent
/// and leaving the token unchanged if it is already present.
pub fn format_bearer_token(token: &str) -> (r: String)
    ensures
        r@ == bearer_formatted(token@),
{
    let t = trim(token);
    let tlen = t.unicode_len();
    let prefixed = tlen >= 7 && (t.get_char(0) == 'b' || t.get_char(0) == 'B') && (t.get_char(1)
        == 'e' || t.get_char(1) == 'E') && (t.get_char(2) == 'a' || t.get_char(2) == 'A') && (
    t.get_char(3) == 'r' || t.get_char(3) == 'R') && (t.get_char(4) == 'e' || t.get_char(4) == 'E')
        && (t.get_char(5) == 'r' || t.get_char(5) == 'R') && t.get_char(6) == ' ';
    if prefixed {
        String::from_str(t)
    } else {
        let mut s = String::from_str("Bearer ");
        s.append(t);
        s
    }
}

/// A trimmed sequence that starts and ends with non-space characters is its
/// own trimmed form.
pub proof fn lemma_trim_of_no_ws(s: Seq<char>)
    requires
        s.len() > 0,
        !is_space(s[0]),
        !is_space(s.last()),
    ensures
        trim_of(s) == s,
{
    assert(ws_prefix_len(s) == 0);
    assert(ws_suffix_len(s) == 0);
    assert(s.subrange(0, s.len() as int) =~= s);
}

/// A non-empty trimmed form starts and ends with non-space characters.
pub proof fn lemma_trim_of_props(s: Seq<char>)
    ensures
        trim_of(s).len() > 0 ==> !is_space(trim_of(s)[0]) && !is_space(trim_of(s).last()),
{
    lemma_ws_prefix(s);
    lemma_ws_suffix(s);
    lemma_trim_bounds(s);
    if trim_of(s).len() > 0 {
        assert(trim_of(s)[0] == s[ws_prefix_len(s) as int]);
        assert(trim_of(s).last() == s[s.len() - ws_suffix_len(s) - 1]);
    }
}

/// The normalizer's output always carries the bearer prefix, and so is never
/// empty.
pub proof fn lemma_bearer_formatted_prefixed(s: Seq<char>)
    ensures
        has_bearer_prefix(bearer_formatted(s)),
        bearer_formatted(s).len() >= 7,
{
    reveal_strlit("Bearer ");
    if !has_bearer_prefix(trim_of(s)) {
        assert(bearer_formatted(s)[0] == 'B');
        assert(bearer_formatted(s)[1] == 'e');
        assert(bearer_formatted(s)[2] == 'a');
        assert(bearer_formatted(s)[3] == 'r');
        assert(bearer_formatted(s)[4] == 'e');
        assert(bearer_formatted(s)[5] == 'r');
        assert(bearer_formatted(s)[6] == ' ');
    }
}

/// The bearer-token normalizer is idempotent on every token whose trimmed
/// form is non-empty: normalizing twice gives the same result as normalizing
/// once.
pub proof fn lemma_bearer_formatted_idempotent(s: Seq<char>)
    requires
        trim_of(s).len() > 0,
    ensures
        bearer_formatted(bearer_formatted(s)) == bearer_formatted(s),
{
    reveal_strlit("Bearer ");
    lemma_trim_of_props(s);
    let t = trim_of(s);
    if has_bearer_prefix(t) {
        lemma_trim_of_no_ws(t);
    } else {
        let u = "Bearer "@ + t;
        assert(u[0] == 'B');
        assert(u.last() == t.last());
        assert(!is_space(u[0]));
        lemma_trim_of_no_ws(u);
        assert(has_bearer_prefix(u));
    }
}

// ---------------------------------------------------------------------------
// The resolved configuration
// ---------------------------------------------------------------------------

/// The single immutable configuration of one run. Every field carries the
/// value of its highest-precedence present source.
#[derive(Debug)]
pub struct BuildConfiguration {
    pub memory_mb: u32,
    pub cpu_count: u32,
    pub start_cmd: Option<String>,
    pub ready_cmd: Option<String>,
    pub alias: Option<String>,
    pub template_id: Option<String>,
    pub region: String,
    pub domain: String,
    pub access_token: String,
    pub api_key: Option<String>,
}

/// The access token of a well-formed configuration is non-empty and carries
/// the bearer prefix.
pub open spec fn config_wf(c: &BuildConfiguration) -> bool {
    c.access_token@.len() >= 7 && has_bearer_prefix(c.access_token@)
}

/// Whether a configuration's access token is non-empty and carries the
/// bearer prefix, decided at run time.
pub fn config_is_wf(c: &BuildConfiguration) -> (b: bool)
    ensures
        b == config_wf(c),
{
    let t = c.access_token.as_str();
    t.unicode_len() >= 7 && (t.get_char(0) == 'b' || t.get_char(0) == 'B') && (t.get_char(1) == 'e'
        || t.get_char(1) == 'E') && (t.get_char(2) == 'a' || t.get_char(2) == 'A') && (t.get_char(3)
        == 'r' || t.get_char(3) == 'R') && (t.get_char(4) == 'e' || t.get_char(4) == 'E') && (
    t.get_char(5) == 'r' || t.get_char(5) == 'R') && t.get_char(6) == ' '
}

/// Merge per-run input, the project-level file, the user-level file, the
/// environment and the compiled defaults into one configuration. Every field
/// is resolved independently: per-run input over project file over default
/// for the template parameters, environment over user file for the
/// connection facts. A missing region, domain or access token is fatal, and
/// the three are checked in that order.
pub fn resolve_build_configuration(
    args: &E2bArgs,
    project: &E2bConfigToml,
    user: &Option<UserConfig>,
    env: &EnvValues,
) -> (r: Result<BuildConfiguration, BuildError>)
    ensures
        r is Ok <==> (resolved_region(user, env) is Some && resolved_domain(user, env) is Some
            && resolved_token(user, env) is Some),
        resolved_region(user, env) is None ==> (r matches Err(
            BuildError::MissingRequiredField { field, sources },
        ) && field@ == "AWS region"@ && sources@
            == "AWS_REGION or [aws].aws_region in ~/.aws_e2b/config.toml"@),
        resolved_region(user, env) is Some && resolved_domain(user, env) is None ==> (r matches Err(
            BuildError::MissingRequiredField { field, sources },
        ) && field@ == "e2b domain"@ && sources@
            == "E2B_DOMAIN or [e2b].e2b_domain in ~/.aws_e2b/config.toml"@),
        resolved_region(user, env) is Some && resolved_domain(user, env) is Some && resolved_token(
            user,
            env,
        ) is None ==> (r matches Err(BuildError::MissingRequiredField { field, sources })
            && field@ == "e2b access token"@ && sources@
            == "E2B_ACCESS_TOKEN or [e2b].e2b_access_token in ~/.aws_e2b/config.toml"@),
        r matches Ok(c) ==> {
            &&& c.memory_mb == opt_or(
                first_present(args.memory_mb, project_memory_mb(project)),
                DEFAULT_MEMORY_MB,
            )
            &&& c.cpu_count == opt_or(
                first_present(args.cpu_count, project_cpu_count(project)),
                DEFAULT_CPU_COUNT,
            )
            &&& c.start_cmd == first_present(args.start_cmd, project_start_cmd(project))
            &&& c.ready_cmd == first_present(args.ready_cmd, project_ready_cmd(project))
            &&& c.alias == first_present(args.alias, project_alias(project))
            &&& c.template_id == first_present(args.template_id, project_template_id(project))
            &&& (resolved_region(user, env) matches Some(reg) && c.region == reg)
            &&& (resolved_domain(user, env) matches Some(dom) && c.domain == dom)
            &&& (resolved_token(user, env) matches Some(tok) && c.access_token@
                == bearer_formatted(tok@))
            &&& c.api_key == resolved_api_key(user, env)
            &&& config_wf(&c)
        },
{
    let memory_mb = match args.memory_mb {
        Some(m) => m,
        None => match &project.e2b {
            Some(e) => match e.memory_mb {
                Some(m) => m,
                None => DEFAULT_MEMORY_MB,
            },
            None => DEFAULT_MEMORY_MB,
        },
    };
    let cpu_count = match args.cpu_count {
        Some(c) => c,
        None => match &project.e2b {
            Some(e) => match e.cpu_count {
                Some(c) => c,
                None => DEFAULT_CPU_COUNT,
            },
            None => DEFAULT_CPU_COUNT,
        },
    };
    let start_cmd = match &args.start_cmd {
        Some(s) => Some(s.clone()),
        None => match &project.e2b {
            Some(e) => clone_opt_string(&e.start_cmd),
            None => None,
        },
    };
    let ready_cmd = match &args.ready_cmd {
        Some(s) => Some(s.clone()),
        None => match &project.e2b {
            Some(e) => clone_opt_string(&e.ready_cmd),
            None => None,
        },
    };
    let alias = match &args.alias {
        Some(s) => Some(s.clone()),
        None => match &project.e2b {
            Some(e) => clone_opt_string(&e.alias),
            None => None,
        },
    };
    let template_id = match &args.template_id {
        Some(s) => Some(s.clone()),
        None => match &project.e2b {
            Some(e) => clone_opt_string(&e.template_id),
            None => None,
        },
    };
    let region_opt = if args_region_set(env) {
        clone_opt_string(&env.aws_region)
    } else {
        user_aws_region_exec(user)
    };
    let region = match region_opt {
        Some(r) => r,
        None => {
            return Err(
                BuildError::MissingRequiredField {
                    field: String::from_str("AWS region"),
                    sources: String::from_str(
                        "AWS_REGION or [aws].aws_region in ~/.aws_e2b/config.toml",
                    ),
                },
            );
        },
    };
    let domain_opt = if env.e2b_domain.is_some() {
        clone_opt_string(&env.e2b_domain)
    } else {
        user_domain_exec(user)
    };
    let domain = match domain_opt {
        Some(d) => d,
        None => {
            return Err(
                BuildError::MissingRequiredField {
                    field: String::from_str("e2b domain"),
                    sources: String::from_str(
                        "E2B_DOMAIN or [e2b].e2b_domain in ~/.aws_e2b/config.toml",
                    ),
                },
            );
        },
    };
    let token_opt = if env.e2b_access_token.is_some() {
        clone_opt_string(&env.e2b_access_token)
    } else {
        user_access_token_exec(user)
    };
    let raw_token = match token_opt {
        Some(t) => t,
        None => {
            return Err(
                BuildError::MissingRequiredField {
                    field: String::from_str("e2b access token"),
                    sources: String::from_str(
                        "E2B_ACCESS_TOKEN or [e2b].e2b_access_token in ~/.aws_e2b/config.toml",
                    ),
                },
            );
        },
    };
    let access_token = format_bearer_token(raw_token.as_str());
    proof {
        lemma_bearer_formatted_prefixed(raw_token@);
    }
    let api_key = if env.e2b_api_key.is_some() {
        clone_opt_string(&env.e2b_api_key)
    } else {
        user_api_key_exec(user)
    };
    Ok(
        BuildConfiguration {
            memory_mb,
            cpu_count,
            start_cmd,
            ready_cmd,
            alias,
            template_id,
            region,
            domain,
            access_token,
            api_key,
        },
    )
}

fn args_region_set(env: &EnvValues) -> (r: bool)
    ensures
        r == (env.aws_region is Some),
{
    env.aws_region.is_some()
}

// ---------------------------------------------------------------------------
// Locating the configuration files
// ---------------------------------------------------------------------------

/// What to do about the project-level file.
#[derive(Debug)]
pub enum ProjectFileAction {
    /// Parse the explicitly given path.
    ParseExplicit,
    /// Parse the fixed file name in the current working directory.
    ParseDefault,
    /// Run without a project-level file.
    UseEmpty,
}

/// Decide how the project-level file is obtained. An explicitly given path
/// that does not exist is fatal; the default file in the working directory
/// is optional.
pub fn resolve_project_file(explicit: &Option<String>, explicit_exists: bool, default_exists: bool) -> (r:
    Result<ProjectFileAction, BuildError>)
    ensures
        explicit matches Some(p) ==> (if explicit_exists {
            r matches Ok(ProjectFileAction::ParseExplicit)
        } else {
            r matches Err(BuildError::ConfigFileUnreadable { path }) && path@ == p@
        }),
        explicit is None && default_exists ==> r matches Ok(ProjectFileAction::ParseDefault),
        explicit is None && !default_exists ==> r matches Ok(ProjectFileAction::UseEmpty),
{
    match explicit {
        Some(p) => {
            if explicit_exists {
                Ok(ProjectFileAction::ParseExplicit)
            } else {
                Err(BuildError::ConfigFileUnreadable { path: p.clone() })
            }
        },
        None => {
            if default_exists {
                Ok(ProjectFileAction::ParseDefault)
            } else {
                Ok(ProjectFileAction::UseEmpty)
            }
        },
    }
}

/// The fixed name of the project-level file, under the working directory.
pub fn project_file_name() -> (r: String)
    ensures
        r@ == "aws_e2b.toml"@,
{
    String::from_str("aws_e2b.toml")
}

/// The fixed location of the user-level file, under the home directory.
pub fn user_config_path(home: &str) -> (r: String)
    ensures
        r@ == home@ + "/.aws_e2b/config.toml"@,
{
    let mut s = String::from_str(home);
    s.append("/.aws_e2b/config.toml");
    s
}

} // verus!
