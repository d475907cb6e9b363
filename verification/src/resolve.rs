use vstd::prelude::*;
use vstd::string::StringExecFns;
use crate::json::Json;
use crate::record::{PrRecord, PrRecordV};
use crate::text::{dec_seq, u64_to_string};

verus! {

/// The API path that resolves a pull request to its head commit:
/// `{repo}/pulls/{number}`.
pub open spec fn pull_path_spec(pr: PrRecordV) -> Seq<char> {
    pr.repo + "/pulls/"@ + dec_seq(pr.number as nat)
}

/// The API path that resolves a commit to its aggregate CI status:
/// `{repo}/commits/{sha}/status`.
pub open spec fn status_path_spec(pr: PrRecordV, sha: Seq<char>) -> Seq<char> {
    pr.repo + "/commits/"@ + sha + "/status"@
}

/// One report line: `{repo} {sha} {state}`.
pub open spec fn report_line_spec(pr: PrRecordV, sha: Seq<char>, state: Seq<char>) -> Seq<char> {
    pr.repo + " "@ + sha + " "@ + state
}

pub fn pull_path(pr: &PrRecord) -> (p: String)
    ensures
        p@ == pull_path_spec(pr@),
{
    let mut p = pr.repo.clone();
    p.append("/pulls/");
    let number = u64_to_string(pr.number);
    p.append(number.as_str());
    proof {
        assert(p@ =~= pull_path_spec(pr@));
    }
    p
}

pub fn status_path(pr: &PrRecord, sha: &str) -> (p: String)
    ensures
        p@ == status_path_spec(pr@, sha@),
{
    let mut p = pr.repo.clone();
    p.append("/commits/");
    p.append(sha);
    p.append("/status");
    proof {
        assert(p@ =~= status_path_spec(pr@, sha@));
    }
    p
}

pub fn report_line(pr: &PrRecord, sha: &str, state: &str) -> (line: String)
    ensures
        line@ == report_line_spec(pr@, sha@, state@),
{
    let mut line = pr.repo.clone();
    line.append(" ");
    line.append(sha);
    line.append(" ");
    line.append(state);
    proof {
        assert(line@ =~= report_line_spec(pr@, sha@, state@));
    }
    line
}

/// Request paths are reproducible from the record and the commit SHA
/// alone: equal inputs always give equal paths.
pub proof fn lemma_paths_deterministic(a: PrRecordV, b: PrRecordV, sha_a: Seq<char>, sha_b: Seq<char>)
    requires
        a.repo == b.repo,
        a.number == b.number,
        sha_a == sha_b,
    ensures
        pull_path_spec(a) == pull_path_spec(b),
        status_path_spec(a, sha_a) == status_path_spec(b, sha_b),
{
}

/// The head commit SHA a pull-request response resolves to: the string
/// under `head.sha`, or `None` when that path is absent or not a string.
pub open spec fn head_sha_spec(resp: Json) -> Option<Seq<char>> {
    match resp.spec_get("head"@) {
        Some(head) => match head.spec_get("sha"@) {
            Some(sha) => sha.str_value(),
            None => None,
        },
        None => None,
    }
}

/// The aggregate CI state a status response carries: the string under the
/// top-level `state`, or `None` when absent or not a string.
pub open spec fn status_state_spec(resp: Json) -> Option<Seq<char>> {
    match resp.spec_get("state"@) {
        Some(state) => state.str_value(),
        None => None,
    }
}

/// Extracts the head commit SHA from a pull-request response. Absence is
/// a tolerated outcome, not an error.
pub fn head_sha(resp: &Json) -> (r: Option<String>)
    ensures
        match r {
            Some(sha) => head_sha_spec(*resp) == Some(sha@),
            None => head_sha_spec(*resp) is None,
        },
{
    match resp.get("head") {
        Some(head) => match head.get("sha") {
            Some(sha) => match sha.as_str() {
                Some(s) => Some(s.clone()),
                None => None,
            },
            None => None,
        },
        None => None,
    }
}

/// Extracts the aggregate CI state from a commit-status response.
pub fn status_state(resp: &Json) -> (r: Option<String>)
    ensures
        match r {
            Some(state) => status_state_spec(*resp) == Some(state@),
            None => status_state_spec(*resp) is None,
        },
{
    match resp.get("state") {
        Some(state) => match state.as_str() {
            Some(s) => Some(s.clone()),
            None => None,
        },
        None => None,
    }
}

} // verus!
