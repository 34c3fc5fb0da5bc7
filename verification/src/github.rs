//! Classification of remote-session control interface output, and the
//! observed session records the lifecycle manager reconciles against.
//!
//! The surrounding binary runs the provider commands; every raw outcome is
//! handed to the verified functions here as plain values, and every decision
//! taken on such an outcome is specified and proved.

use vstd::prelude::*;
use crate::text::contains_seq;
use crate::text::contains_substr;
use crate::text::str_eq;
use crate::text::trim_spec;
use crate::text::trim_ws;
use vstd::string::StrSliceExecFns;
use vstd::string::StringExecFns;

verus! {

/// Error taxonomy of the remote-session control interface.
#[derive(Debug, Clone, PartialEq, Eq)]
pub enum GHError {
    CommandError(String),
    AuthError(String),
}

/// Mathematical model of a [`GHError`].
pub enum GHErrorModel {
    Command(Seq<char>),
    Auth(Seq<char>),
}

impl View for GHError {
    type V = GHErrorModel;

    open spec fn view(&self) -> GHErrorModel {
        match self {
            GHError::CommandError(s) => GHErrorModel::Command(s@),
            GHError::AuthError(s) => GHErrorModel::Auth(s@),
        }
    }
}

/// Raw outcome of one provider command, as observed by the binary.
/// `launched` is false when the command could not be started at all (the
/// provider binary missing or not executable); `stderr` then holds the
/// transport error's text.
#[derive(Debug, Clone)]
pub struct ProcessOutput {
    pub launched: bool,
    pub success: bool,
    pub stdout: String,
    pub stderr: String,
}

/// Whether the interface's error text names a credential failure.
pub open spec fn is_auth_failure(stderr: Seq<char>) -> bool {
    ||| contains_seq(stderr, "Bad credentials"@)
    ||| contains_seq(stderr, "authentication required"@)
    ||| contains_seq(stderr, "HTTP 401"@)
}

/// How one raw command outcome is read: a command that never launched is a
/// command error carrying the transport error's text; success hands back
/// trimmed output; a failure is an auth error when the error text says so,
/// is forgiven (an empty answer) when it only reports an empty session list
/// or nothing was printed, and is a command error otherwise.
pub open spec fn classify_spec(
    launched: bool,
    success: bool,
    stdout: Seq<char>,
    stderr: Seq<char>,
) -> Result<Seq<char>, GHErrorModel> {
    if !launched {
        Err(GHErrorModel::Command(stderr))
    } else if success {
        Ok(trim_spec(stdout))
    } else if is_auth_failure(stderr) {
        Err(GHErrorModel::Auth(stderr))
    } else if contains_seq(stderr, "no codespaces found"@) || trim_spec(stdout).len() == 0 {
        Ok(Seq::empty())
    } else {
        Err(GHErrorModel::Command(stderr))
    }
}

/// An executable result agrees with its model.
pub open spec fn gh_result_matches(r: Result<String, GHError>, m: Result<Seq<char>, GHErrorModel>) -> bool {
    match (r, m) {
        (Ok(s), Ok(v)) => s@ == v,
        (Err(e), Err(v)) => e@ == v,
        _ => false,
    }
}

/// Classify one raw command outcome exactly as [`classify_spec`] says.
pub fn classify_gh_output(out: &ProcessOutput) -> (r: Result<String, GHError>)
    ensures
        gh_result_matches(r, classify_spec(out.launched, out.success, out.stdout@, out.stderr@)),
{
    if !out.launched {
        Err(GHError::CommandError(out.stderr.clone()))
    } else if out.success {
        let trimmed = trim_ws(out.stdout.as_str());
        Ok(String::from_str(trimmed))
    } else if contains_substr(out.stderr.as_str(), "Bad credentials") || contains_substr(
        out.stderr.as_str(),
        "authentication required",
    ) || contains_substr(out.stderr.as_str(), "HTTP 401") {
        Err(GHError::AuthError(out.stderr.clone()))
    } else if contains_substr(out.stderr.as_str(), "no codespaces found") || trim_ws(
        out.stdout.as_str(),
    ).unicode_len() == 0 {
        Ok(String::new())
    } else {
        Err(GHError::CommandError(out.stderr.clone()))
    }
}

/// Resolve the owner login from the identity call's raw outcome.
pub fn get_username(out: &ProcessOutput) -> (r: Result<String, GHError>)
    ensures
        gh_result_matches(r, classify_spec(out.launched, out.success, out.stdout@, out.stderr@)),
{
    classify_gh_output(out)
}

/// Read a remote command execution's raw outcome back as its output text.
pub fn ssh_command(out: &ProcessOutput) -> (r: Result<String, GHError>)
    ensures
        gh_result_matches(r, classify_spec(out.launched, out.success, out.stdout@, out.stderr@)),
{
    classify_gh_output(out)
}

/// A session is verified exactly when the state query answered `Available`.
pub fn verify_codespace(state_result: &Result<String, GHError>) -> (r: bool)
    ensures
        r == (state_result matches Ok(s) && s@ == "Available"@),
{
    match state_result {
        Ok(s) => str_eq(s.as_str(), "Available"),
        Err(_) => false,
    }
}

/// A session is reachable exactly when the bring-up echo answered `ready`.
pub fn ssh_ready_check(probe_result: &Result<String, GHError>) -> (r: bool)
    ensures
        r == (probe_result matches Ok(s) && contains_seq(s@, "ready"@)),
{
    match probe_result {
        Ok(s) => contains_substr(s.as_str(), "ready"),
        Err(_) => false,
    }
}

/// A session is healthy exactly when the marker probe answered `healthy`:
/// the sentinel file left by a completed bootstrap was found over SSH.
pub fn health_check(probe_result: &Result<String, GHError>) -> (r: bool)
    ensures
        r == (probe_result matches Ok(s) && contains_seq(s@, "healthy"@)),
{
    match probe_result {
        Ok(s) => contains_substr(s.as_str(), "healthy"),
        Err(_) => false,
    }
}

/// Provider-reported session state.
#[derive(Clone, Copy, Debug, PartialEq, Eq, Structural)]
pub enum SessionState {
    Available,
    Running,
    Stopped,
    Other,
}

/// One session as observed in the provider's listing.
#[derive(Debug, Clone)]
pub struct SessionRecord {
    pub name: String,
    pub display_name: String,
    pub state: SessionState,
}

/// How a provider state string is read.
pub open spec fn state_of(s: Seq<char>) -> SessionState {
    if s == "Available"@ {
        SessionState::Available
    } else if s == "Running"@ {
        SessionState::Running
    } else if s == "Stopped"@ {
        SessionState::Stopped
    } else {
        SessionState::Other
    }
}

/// Read a provider state string into the state enum.
pub fn parse_session_state(s: &str) -> (r: SessionState)
    ensures
        r == state_of(s@),
{
    if str_eq(s, "Available") {
        SessionState::Available
    } else if str_eq(s, "Running") {
        SessionState::Running
    } else if str_eq(s, "Stopped") {
        SessionState::Stopped
    } else {
        SessionState::Other
    }
}

/// What the session-list JSON parses to: for each element of the array its
/// `name`, `displayName` and `state` string fields, in listing order, a
/// missing or non-string field as the empty string; `None` when the text is
/// not a JSON array.
pub uninterp spec fn session_list_of(s: Seq<char>) -> Option<Seq<(String, String, String)>>;

/// Relies on serde_json::from_str on a JSON array of objects: the parse is a
/// function of the input text alone; each object's "name", "displayName" and
/// "state" string fields are handed out, a missing or non-string field as
/// the empty string.
#[verifier::external_body]
fn parse_session_list(s: &str) -> (r: Option<Vec<(String, String, String)>>)
    ensures
        r matches Some(v) ==> session_list_of(s@) == Some(v@),
        r is None ==> session_list_of(s@) is None,
{
    match serde_json::from_str::<Vec<serde_json::Value>>(s) {
        Ok(vals) => Some(vals.iter().map(|v| (
            v["name"].as_str().unwrap_or("").to_string(),
            v["displayName"].as_str().unwrap_or("").to_string(),
            v["state"].as_str().unwrap_or("").to_string(),
        )).collect()),
        Err(_) => None,
    }
}

/// The records of `scan_sessions` correspond one to one to the parsed list.
pub open spec fn records_match_list(recs: Seq<SessionRecord>, l: Seq<(String, String, String)>) -> bool {
    &&& recs.len() == l.len()
    &&& forall|i: int|
        0 <= i < l.len() ==> {
            &&& (#[trigger] recs[i]).name@ == l[i].0@
            &&& recs[i].display_name@ == l[i].1@
            &&& recs[i].state == state_of(l[i].2@)
        }
}

/// Read the session-list output into records.  An empty answer or text that
/// does not parse means no sessions were observed, never an error: the
/// lifecycle manager then simply finds every slot absent.
pub fn scan_sessions(list_output: &str) -> (r: Vec<SessionRecord>)
    ensures
        list_output@.len() == 0 ==> r@.len() == 0,
        list_output@.len() > 0 && session_list_of(list_output@) is None ==> r@.len() == 0,
        list_output@.len() > 0 ==> (session_list_of(list_output@) matches Some(l)
            ==> records_match_list(r@, l)),
{
    if list_output.unicode_len() == 0 {
        return Vec::new();
    }
    match parse_session_list(list_output) {
        None => Vec::new(),
        Some(triples) => {
            let ghost l = session_list_of(list_output@).unwrap();
            let mut recs: Vec<SessionRecord> = Vec::new();
            let mut i: usize = 0;
            while i < triples.len()
                invariant
                    session_list_of(list_output@) == Some(triples@),
                    l == triples@,
                    i <= triples@.len(),
                    recs@.len() == i,
                    forall|k: int|
                        0 <= k < i ==> {
                            &&& (#[trigger] recs@[k]).name@ == triples@[k].0@
                            &&& recs@[k].display_name@ == triples@[k].1@
                            &&& recs@[k].state == state_of(triples@[k].2@)
                        },
                decreases triples@.len() - i,
            {
                let state = parse_session_state(triples[i].2.as_str());
                recs.push(
                    SessionRecord {
                        name: triples[i].0.clone(),
                        display_name: triples[i].1.clone(),
                        state,
                    },
                );
                i += 1;
            }
            recs
        },
    }
}

/// Index of the first observed session occupying the given display-name slot.
pub fn find_slot(records: &Vec<SessionRecord>, target_display: &str) -> (r: Option<usize>)
    ensures
        r matches Some(i) ==> {
            &&& i < records@.len()
            &&& records@[i as int].display_name@ == target_display@
            &&& forall|k: int| 0 <= k < i ==> records@[k].display_name@ != target_display@
        },
        r is None ==> forall|k: int|
            0 <= k < records@.len() ==> records@[k].display_name@ != target_display@,
{
    let mut i: usize = 0;
    while i < records.len()
        invariant
            i <= records@.len(),
            forall|k: int| 0 <= k < i ==> records@[k].display_name@ != target_display@,
        decreases records@.len() - i,
    {
        if str_eq(records[i].display_name.as_str(), target_display) {
            return Some(i);
        }
        i += 1;
    }
    None
}

/// Suffix of `s` after its last `/` (all of `s` when it has none).
pub open spec fn last_slash_before(s: Seq<char>, upto: int) -> int
    decreases upto,
{
    if upto <= 0 || upto > s.len() {
        -1
    } else if s[upto - 1] == '/' {
        upto - 1
    } else {
        last_slash_before(s, upto - 1)
    }
}

/// The repository's base name: what follows the last `/`.
pub open spec fn basename_spec(s: Seq<char>) -> Seq<char> {
    s.subrange(last_slash_before(s, s.len() as int) + 1, s.len() as int)
}

/// The remote bootstrap invocation for a repository: a login shell running
/// the repository's auto-start script under `/workspaces`.
pub open spec fn startup_command_spec(repo: Seq<char>) -> Seq<char> {
    "bash -l -c 'bash /workspaces/"@ + basename_spec(repo) + "/auto-start.sh'"@
}

/// What follows the last `/` of the repository identifier.
pub fn repo_basename(repo: &str) -> (r: &str)
    ensures
        r@ == basename_spec(repo@),
{
    let len = repo.unicode_len();
    let mut b: usize = len;
    while b > 0 && repo.get_char(b - 1) != '/'
        invariant
            len == repo@.len(),
            b <= len,
            last_slash_before(repo@, len as int) == last_slash_before(repo@, b as int),
        decreases b,
    {
        b -= 1;
    }
    proof {
        if b == 0 {
            assert(last_slash_before(repo@, len as int) == -1);
        } else {
            assert(last_slash_before(repo@, b as int) == b - 1);
        }
    }
    repo.substring_char(b, len)
}

/// Build the bootstrap command executed inside a session, both at bring-up
/// and on every keep-alive cycle.
pub fn startup_command(repo: &str) -> (r: String)
    ensures
        r@ == startup_command_spec(repo@),
{
    let base = repo_basename(repo);
    let head = String::from_str("bash -l -c 'bash /workspaces/");
    head.concat(base).concat("/auto-start.sh'")
}

} // verus!
