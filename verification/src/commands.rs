use vstd::prelude::*;
use vstd::string::*;

use crate::args::ListArgs;
use crate::args::SandboxArgs;
use crate::config::EnvValues;
use crate::config::UserConfig;
use crate::config::clone_opt_string;
use crate::config::first_present;
use crate::config::user_access_token;
use crate::config::user_api_key;
use crate::config::user_api_key_exec;
use crate::config::user_access_token_exec;
use crate::config::user_domain;
use crate::config::user_domain_exec;
use crate::config::user_team_id;
use crate::errors::BuildError;
use crate::text::opt_view;

verus! {

/// Resolve the team for the list subcommand and build the argument vector
/// forwarded to the official CLI. The per-run team overrides the
/// user-level file; a team present nowhere is fatal.
pub fn run_template_list(args: &ListArgs, user: &Option<UserConfig>) -> (r: Result<
    Vec<String>,
    BuildError,
>)
    ensures
        r is Ok <==> first_present(args.team, user_team_id(user)) is Some,
        first_present(args.team, user_team_id(user)) matches Some(t) ==> (r matches Ok(v)
            && v@.len() == 4 && v@[0]@ == "template"@ && v@[1]@ == "list"@ && v@[2]@ == "--team"@
            && v@[3] == t),
        first_present(args.team, user_team_id(user)) is None ==> (r matches Err(
            BuildError::MissingRequiredField { field, sources },
        ) && field@ == "team identifier"@ && sources@
            == "--team or [e2b].e2b_team_id in the configuration"@),
{
    let team_opt = match &args.team {
        Some(t) => Some(t.clone()),
        None => match user {
            Some(c) => match &c.e2b {
                Some(e) => clone_opt_string(&e.e2b_team_id),
                None => None,
            },
            None => None,
        },
    };
    match team_opt {
        Some(team) => {
            let mut v: Vec<String> = Vec::new();
            v.push(String::from_str("template"));
            v.push(String::from_str("list"));
            v.push(String::from_str("--team"));
            v.push(team);
            Ok(v)
        },
        None => Err(
            BuildError::MissingRequiredField {
                field: String::from_str("team identifier"),
                sources: String::from_str("--team or [e2b].e2b_team_id in the configuration"),
            },
        ),
    }
}

/// The argument vector the sandbox subcommand forwards to the official CLI:
/// the word `sandbox`, then the captured arguments verbatim.
pub fn sandbox_forward_args(args: &SandboxArgs) -> (r: Vec<String>)
    ensures
        r.deep_view() == seq!["sandbox"@] + args.args.deep_view(),
{
    let mut v: Vec<String> = Vec::new();
    v.push(String::from_str("sandbox"));
    let mut i: usize = 0;
    while i < args.args.len()
        invariant
            i <= args.args.len(),
            v.deep_view() == seq!["sandbox"@] + args.args.deep_view().take(i as int),
        decreases args.args.len() - i,
    {
        let ghost pre = v.deep_view();
        v.push(args.args[i].clone());
        proof {
            assert(v.deep_view() =~= pre.push(args.args@[i as int]@));
            assert(pre.push(args.args@[i as int]@) =~= seq!["sandbox"@]
                + args.args.deep_view().take(i as int + 1));
        }
        i += 1;
    }
    proof {
        assert(args.args.deep_view().take(args.args.len() as int) =~= args.args.deep_view());
    }
    v
}

/// Resolve the domain, access token and API key the proxy hands to the
/// official CLI: each independently from the environment first, then the
/// user-level file, with no further fallback.
pub fn resolve_e2b_env_vars(env: &EnvValues, user: &Option<UserConfig>) -> (r: (
    Option<String>,
    Option<String>,
    Option<String>,
))
    ensures
        r.0 == first_present(env.e2b_domain, user_domain(user)),
        r.1 == first_present(env.e2b_access_token, user_access_token(user)),
        r.2 == first_present(env.e2b_api_key, user_api_key(user)),
{
    let domain = if env.e2b_domain.is_some() {
        clone_opt_string(&env.e2b_domain)
    } else {
        user_domain_exec(user)
    };
    let token = if env.e2b_access_token.is_some() {
        clone_opt_string(&env.e2b_access_token)
    } else {
        user_access_token_exec(user)
    };
    let api_key = if env.e2b_api_key.is_some() {
        clone_opt_string(&env.e2b_api_key)
    } else {
        user_api_key_exec(user)
    };
    (domain, token, api_key)
}

/// The views of a vector of environment assignments.
pub open spec fn pairs_view(v: &Vec<(String, String)>) -> Seq<(Seq<char>, Seq<char>)> {
    v@.map_values(|p: (String, String)| (p.0@, p.1@))
}

/// The environment assignments the proxy injects: one per resolved value,
/// in a fixed order, and none for an absent value.
pub open spec fn env_assignments_of(
    domain: Option<Seq<char>>,
    token: Option<Seq<char>>,
    api_key: Option<Seq<char>>,
) -> Seq<(Seq<char>, Seq<char>)> {
    (match domain {
        Some(d) => seq![("E2B_DOMAIN"@, d)],
        None => Seq::empty(),
    }) + (match token {
        Some(t) => seq![("E2B_ACCESS_TOKEN"@, t)],
        None => Seq::empty(),
    }) + (match api_key {
        Some(a) => seq![("E2B_API_KEY"@, a)],
        None => Seq::empty(),
    })
}

/// Build the environment assignments the proxy injects before forwarding a
/// command to the official CLI.
pub fn proxy_env_assignments(
    domain: &Option<String>,
    token: &Option<String>,
    api_key: &Option<String>,
) -> (r: Vec<(String, String)>)
    ensures
        pairs_view(&r) == env_assignments_of(opt_view(domain), opt_view(token), opt_view(api_key)),
{
    let mut v: Vec<(String, String)> = Vec::new();
    if let Some(d) = domain {
        v.push((String::from_str("E2B_DOMAIN"), d.clone()));
    }
    if let Some(t) = token {
        v.push((String::from_str("E2B_ACCESS_TOKEN"), t.clone()));
    }
    if let Some(a) = api_key {
        v.push((String::from_str("E2B_API_KEY"), a.clone()));
    }
    proof {
        assert(pairs_view(&v) =~= env_assignments_of(
            opt_view(domain),
            opt_view(token),
            opt_view(api_key),
        ));
    }
    v
}

} // verus!
