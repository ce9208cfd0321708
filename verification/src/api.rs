use vstd::prelude::*;
use vstd::string::*;

use crate::config::BuildConfiguration;
use crate::errors::BuildError;
use crate::json::json_opt_string;
use crate::json::json_opt_quote;
use crate::json::json_quote;
use crate::json::json_quoted;
use crate::json::json_str_field_of;
use crate::json::json_top_level_str_field;
use crate::json::json_wf;
use crate::text::dec_rep;
use crate::text::opt_view;
use crate::text::str_eq;
use crate::text::u64_to_decimal;

verus! {

/// Whether an HTTP status code reports success.
pub open spec fn http_success(status: u16) -> bool {
    200 <= status < 300
}

/// How long the poll loop sleeps between two status queries, in seconds.
pub const POLL_INTERVAL_SECS: u64 = 10;

// ---------------------------------------------------------------------------
// Endpoints
// ---------------------------------------------------------------------------

/// The endpoint that creates a template, or updates the named one.
pub open spec fn create_url_of(domain: Seq<char>, template_id: Option<Seq<char>>) -> Seq<char> {
    match template_id {
        Some(t) => "https://api."@ + domain + "/templates/"@ + t,
        None => "https://api."@ + domain + "/templates"@,
    }
}

/// The endpoint that creates a template, or updates the named one.
pub fn create_template_url(domain: &str, template_id: &Option<String>) -> (r: String)
    ensures
        r@ == create_url_of(domain@, opt_view(template_id)),
{
    let mut s = String::from_str("https://api.");
    s.append(domain);
    match template_id {
        Some(t) => {
            s.append("/templates/");
            s.append(t.as_str());
        },
        None => {
            s.append("/templates");
        },
    }
    s
}

/// The endpoint that is notified once the image has been delivered.
pub open spec fn notify_url_of(
    domain: Seq<char>,
    template_id: Seq<char>,
    build_id: Seq<char>,
) -> Seq<char> {
    "https://api."@ + domain + "/templates/"@ + template_id + "/builds/"@ + build_id
}

/// The endpoint that is notified once the image has been delivered.
pub fn notify_url(domain: &str, template_id: &str, build_id: &str) -> (r: String)
    ensures
        r@ == notify_url_of(domain@, template_id@, build_id@),
{
    let mut s = String::from_str("https://api.");
    s.append(domain);
    s.append("/templates/");
    s.append(template_id);
    s.append("/builds/");
    s.append(build_id);
    s
}

/// The endpoint the poll loop queries.
pub open spec fn status_url_of(
    domain: Seq<char>,
    template_id: Seq<char>,
    build_id: Seq<char>,
) -> Seq<char> {
    notify_url_of(domain, template_id, build_id) + "/status"@
}

/// The endpoint the poll loop queries.
pub fn status_url(domain: &str, template_id: &str, build_id: &str) -> (r: String)
    ensures
        r@ == status_url_of(domain@, template_id@, build_id@),
{
    let mut s = notify_url(domain, template_id, build_id);
    s.append("/status");
    s
}

// ---------------------------------------------------------------------------
// The create-template request
// ---------------------------------------------------------------------------

/// The JSON body of the create-template call.
pub open spec fn create_body_of(
    dockerfile: Seq<char>,
    memory_mb: u32,
    cpu_count: u32,
    start_cmd: Option<Seq<char>>,
    ready_cmd: Option<Seq<char>>,
    alias: Option<Seq<char>>,
    template_id: Option<Seq<char>>,
) -> Seq<char> {
    "{\"dockerfile\":"@ + json_quoted(dockerfile) + ",\"memoryMb\":"@ + dec_rep(memory_mb as nat)
        + ",\"cpuCount\":"@ + dec_rep(cpu_count as nat) + ",\"startCmd\":"@ + json_opt_string(
        start_cmd,
    ) + ",\"readyCmd\":"@ + json_opt_string(ready_cmd) + ",\"alias\":"@ + json_opt_string(alias)
        + ",\"templateID\":"@ + json_opt_string(template_id) + "}"@
}

/// Serialize the create-template request from the resolved configuration
/// and the strategy's Dockerfile content.
pub fn create_template_body(cfg: &BuildConfiguration, dockerfile: &str) -> (r: String)
    ensures
        r@ == create_body_of(
            dockerfile@,
            cfg.memory_mb,
            cfg.cpu_count,
            opt_view(&cfg.start_cmd),
            opt_view(&cfg.ready_cmd),
            opt_view(&cfg.alias),
            opt_view(&cfg.template_id),
        ),
{
    let mut s = String::from_str("{\"dockerfile\":");
    let quoted = json_quote(dockerfile);
    s.append(quoted.as_str());
    s.append(",\"memoryMb\":");
    let mem = u64_to_decimal(cfg.memory_mb as u64);
    s.append(mem.as_str());
    s.append(",\"cpuCount\":");
    let cpu = u64_to_decimal(cfg.cpu_count as u64);
    s.append(cpu.as_str());
    s.append(",\"startCmd\":");
    let start = json_opt_quote(&cfg.start_cmd);
    s.append(start.as_str());
    s.append(",\"readyCmd\":");
    let ready = json_opt_quote(&cfg.ready_cmd);
    s.append(ready.as_str());
    s.append(",\"alias\":");
    let alias = json_opt_quote(&cfg.alias);
    s.append(alias.as_str());
    s.append(",\"templateID\":");
    let tid = json_opt_quote(&cfg.template_id);
    s.append(tid.as_str());
    s.append("}");
    s
}

// ---------------------------------------------------------------------------
// The build session
// ---------------------------------------------------------------------------

/// The sole piece of mutable state of the pipeline: the identifiers the
/// create call yielded, the last reported status, and every status the poll
/// loop has observed, in order.
#[derive(Debug)]
pub struct BuildSession {
    pub build_id: String,
    pub template_id: String,
    pub status: String,
    pub history: Vec<String>,
}

/// The build id a successful create response reports, with a missing field
/// read as the empty string.
pub open spec fn reported_build_id(body: Seq<char>) -> Seq<char> {
    match json_str_field_of(body, "buildID"@) {
        Some(s) => s,
        None => Seq::empty(),
    }
}

/// The template id a successful create response reports, with a missing
/// field read as the empty string.
pub open spec fn reported_template_id(body: Seq<char>) -> Seq<char> {
    match json_str_field_of(body, "templateID"@) {
        Some(s) => s,
        None => Seq::empty(),
    }
}

/// The status a successful poll body reports, with a missing or non-string
/// field read as the empty string.
pub open spec fn reported_status(body: Seq<char>) -> Seq<char> {
    match json_str_field_of(body, "status"@) {
        Some(s) => s,
        None => Seq::empty(),
    }
}

/// Open a build session from the create call's response. A non-success
/// status is fatal and carries the status code and body; a success whose
/// body is not JSON is fatal; a missing id in a successful response is read
/// as the empty string rather than an error. A fresh session is in progress
/// with an empty history.
pub fn interpret_create_response(status: u16, body: &str) -> (r: Result<BuildSession, BuildError>)
    ensures
        r is Ok <==> (http_success(status) && json_wf(body@)),
        !http_success(status) ==> (r matches Err(BuildError::RemoteAPIError { status: st, body: b })
            && st == status && b@ == body@),
        http_success(status) && !json_wf(body@) ==> (r matches Err(
            BuildError::MalformedResponse { body: b },
        ) && b@ == body@),
        r matches Ok(s) ==> {
            &&& s.build_id@ == reported_build_id(body@)
            &&& s.template_id@ == reported_template_id(body@)
            &&& s.status@ == "building"@
            &&& s.history@.len() == 0
        },
{
    if !(200 <= status && status < 300) {
        return Err(BuildError::RemoteAPIError { status, body: String::from_str(body) });
    }
    let build_id = match json_top_level_str_field(body, "buildID") {
        Ok(Some(v)) => v,
        Ok(None) => String::new(),
        Err(_) => {
            return Err(BuildError::MalformedResponse { body: String::from_str(body) });
        },
    };
    let template_id = match json_top_level_str_field(body, "templateID") {
        Ok(Some(v)) => v,
        Ok(None) => String::new(),
        Err(_) => {
            return Err(BuildError::MalformedResponse { body: String::from_str(body) });
        },
    };
    Ok(
        BuildSession {
            build_id,
            template_id,
            status: String::from_str("building"),
            history: Vec::new(),
        },
    )
}

/// Read the response of the completion notification: only a success status
/// is accepted, and success only signals that the image has been delivered.
pub fn interpret_notify_response(status: u16, body: &str) -> (r: Result<(), BuildError>)
    ensures
        r is Ok <==> http_success(status),
        !http_success(status) ==> (r matches Err(BuildError::NotifyFailed { status: st, body: b })
            && st == status && b@ == body@),
{
    if 200 <= status && status < 300 {
        Ok(())
    } else {
        Err(BuildError::NotifyFailed { status, body: String::from_str(body) })
    }
}

/// What the poll loop does after one status query.
#[derive(Debug)]
pub enum PollDecision {
    /// The reported status is `building`: sleep the fixed interval, then
    /// query again.
    SleepAndRetry,
    /// Any other reported status is terminal and ends the loop.
    Terminal { final_status: String },
}

/// Interpret one poll response. A non-success status aborts the loop; a
/// success records the reported status in the session and continues exactly
/// when that status is `building`.
pub fn poll_step(session: &mut BuildSession, status: u16, body: &str) -> (r: Result<
    PollDecision,
    BuildError,
>)
    ensures
        r is Ok <==> (http_success(status) && json_wf(body@)),
        !http_success(status) ==> (*final(session) == *old(session) && (r matches Err(
            BuildError::StatusQueryFailed { status: st, body: b },
        ) && st == status && b@ == body@)),
        http_success(status) && !json_wf(body@) ==> (*final(session) == *old(session) && (
        r matches Err(BuildError::MalformedResponse { body: b }) && b@ == body@)),
        http_success(status) && json_wf(body@) ==> {
            &&& final(session).build_id == old(session).build_id
            &&& final(session).template_id == old(session).template_id
            &&& final(session).status@ == reported_status(body@)
            &&& final(session).history.deep_view() == old(session).history.deep_view().push(
                reported_status(body@),
            )
            &&& (reported_status(body@) == "building"@ ==> r matches Ok(
                PollDecision::SleepAndRetry,
            ))
            &&& (reported_status(body@) != "building"@ ==> (r matches Ok(
                PollDecision::Terminal { final_status },
            ) && final_status@ == reported_status(body@)))
        },
{
    if !(200 <= status && status < 300) {
        return Err(BuildError::StatusQueryFailed { status, body: String::from_str(body) });
    }
    let st = match json_top_level_str_field(body, "status") {
        Ok(Some(v)) => v,
        Ok(None) => String::new(),
        Err(_) => {
            return Err(BuildError::MalformedResponse { body: String::from_str(body) });
        },
    };
    let is_building = str_eq(st.as_str(), "building");
    session.history.push(st.clone());
    session.status = st.clone();
    proof {
        assert(session.history.deep_view() =~= old(session).history.deep_view().push(
            reported_status(body@),
        ));
    }
    if is_building {
        Ok(PollDecision::SleepAndRetry)
    } else {
        Ok(PollDecision::Terminal { final_status: st })
    }
}

// ---------------------------------------------------------------------------
// The poll loop over a fixed trace
// ---------------------------------------------------------------------------

/// Whether one poll response reports success with a well-formed body.
pub open spec fn poll_ok(p: (u16, Seq<char>)) -> bool {
    http_success(p.0) && json_wf(p.1)
}

/// A trace of poll responses as status codes and body characters.
pub open spec fn trace_view(responses: &Vec<(u16, String)>) -> Seq<(u16, Seq<char>)> {
    responses@.map_values(|p: (u16, String)| (p.0, p.1@))
}

/// How many leading responses of a trace report a well-formed, successful
/// `building` status.
pub open spec fn building_prefix_len(rs: Seq<(u16, Seq<char>)>) -> nat
    decreases rs.len(),
{
    if rs.len() == 0 {
        0
    } else if poll_ok(rs[0]) && reported_status(rs[0].1) == "building"@ {
        1 + building_prefix_len(rs.drop_first())
    } else {
        0
    }
}

pub proof fn lemma_building_prefix(rs: Seq<(u16, Seq<char>)>)
    ensures
        building_prefix_len(rs) <= rs.len(),
        forall|k: int|
            0 <= k < building_prefix_len(rs) ==> poll_ok(rs[k]) && reported_status(rs[k].1)
                == "building"@,
        building_prefix_len(rs) < rs.len() ==> !(poll_ok(rs[building_prefix_len(rs) as int])
            && reported_status(rs[building_prefix_len(rs) as int].1) == "building"@),
    decreases rs.len(),
{
    if rs.len() == 0 || !(poll_ok(rs[0]) && reported_status(rs[0].1) == "building"@) {
    } else {
        lemma_building_prefix(rs.drop_first());
        assert forall|k: int| 0 <= k < building_prefix_len(rs) implies poll_ok(rs[k])
            && reported_status(rs[k].1) == "building"@ by {
            if k >= 1 {
                assert(poll_ok(rs.drop_first()[k - 1]) && reported_status(rs.drop_first()[k - 1].1)
                    == "building"@);
            }
        }
        if building_prefix_len(rs) < rs.len() {
            assert(rs.drop_first()[building_prefix_len(rs.drop_first()) as int]
                == rs[building_prefix_len(rs) as int]);
        }
    }
}

/// The statuses the first `count` responses of a trace report.
pub open spec fn observed_statuses(rs: Seq<(u16, Seq<char>)>, count: int) -> Seq<Seq<char>> {
    Seq::new(count as nat, |i: int| reported_status(rs[i].1))
}

/// Drive the poll loop over a fixed trace of responses, applying
/// `poll_step` to each in turn. The loop ends at the first response that
/// fails or reports a status other than `building`, and one sleep interval
/// is due for every `building` response before it, so no sleep ever follows
/// a terminal status. The result carries the terminal status and that sleep
/// count, or nothing when the trace was exhausted while still building.
pub fn run_poll_trace(session: &mut BuildSession, responses: &Vec<(u16, String)>) -> (r: Result<
    Option<(String, usize)>,
    BuildError,
>)
    ensures
        final(session).build_id == old(session).build_id,
        final(session).template_id == old(session).template_id,
        ({
            let rs = trace_view(responses);
            let n = building_prefix_len(rs) as int;
            &&& (n == rs.len() ==> (r matches Ok(None) && final(session).history.deep_view()
                == old(session).history.deep_view() + observed_statuses(rs, n)))
            &&& (n < rs.len() && !http_success(rs[n].0) ==> (r matches Err(
                BuildError::StatusQueryFailed { status, body },
            ) && status == rs[n].0 && body@ == rs[n].1 && final(session).history.deep_view()
                == old(session).history.deep_view() + observed_statuses(rs, n)))
            &&& (n < rs.len() && http_success(rs[n].0) && !json_wf(rs[n].1) ==> (r matches Err(
                BuildError::MalformedResponse { body },
            ) && body@ == rs[n].1 && final(session).history.deep_view()
                == old(session).history.deep_view() + observed_statuses(rs, n)))
            &&& (n < rs.len() && poll_ok(rs[n]) ==> (r matches Ok(Some((st, sleeps)))
                && st@ == reported_status(rs[n].1) && st@ != "building"@ && sleeps == n
                && final(session).status@ == reported_status(rs[n].1)
                && final(session).history.deep_view() == old(session).history.deep_view()
                + observed_statuses(rs, n + 1)))
        }),
{
    proof {
        lemma_building_prefix(trace_view(responses));
    }
    let ghost rs = trace_view(responses);
    let ghost n = building_prefix_len(rs) as int;
    let mut i: usize = 0;
    while i < responses.len()
        invariant
            0 <= i <= n <= rs.len(),
            rs == trace_view(responses),
            n == building_prefix_len(rs) as int,
            rs.len() == responses.len(),
            building_prefix_len(rs) <= rs.len(),
            forall|k: int|
                0 <= k < n ==> poll_ok(rs[k]) && reported_status(rs[k].1) == "building"@,
            n < rs.len() ==> !(poll_ok(rs[n]) && reported_status(rs[n].1) == "building"@),
            session.build_id == old(session).build_id,
            session.template_id == old(session).template_id,
            session.history.deep_view() == old(session).history.deep_view() + observed_statuses(
                rs,
                i as int,
            ),
            i > 0 ==> session.status@ == "building"@,
            i == 0 ==> *session == *old(session),
        decreases responses.len() - i,
    {
        let code = responses[i].0;
        let body = &responses[i].1;
        proof {
            assert(rs[i as int] == (code, body@));
        }
        let step = poll_step(session, code, body.as_str());
        match step {
            Err(e) => {
                proof {
                    assert(!poll_ok(rs[i as int]));
                    assert(i == n);
                }
                return Err(e);
            },
            Ok(PollDecision::SleepAndRetry) => {
                proof {
                    assert(poll_ok(rs[i as int]));
                    assert(reported_status(rs[i as int].1) == "building"@);
                    assert(i < n) by {
                        if i as int == n {
                            assert(false);
                        }
                    }
                    assert(session.history.deep_view() =~= old(session).history.deep_view()
                        + observed_statuses(rs, i + 1));
                }
                i += 1;
            },
            Ok(PollDecision::Terminal { final_status }) => {
                proof {
                    assert(poll_ok(rs[i as int]));
                    assert(reported_status(rs[i as int].1) != "building"@);
                    assert(i == n);
                    assert(session.history.deep_view() =~= old(session).history.deep_view()
                        + observed_statuses(rs, n + 1));
                }
                return Ok(Some((final_status, i)));
            },
        }
    }
    proof {
        assert(i == rs.len());
        assert(n == rs.len());
    }
    Ok(None)
}

} // verus!
