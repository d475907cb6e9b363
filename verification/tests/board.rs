use gh_board::json::Json;
use gh_board::pipeline::Pipeline;
use gh_board::record::{Credential, PrRecord, RunError, Stage};
use gh_board::request::build_request;
use gh_board::resolve::{head_sha, pull_path, report_line, status_path, status_state};
use gh_board::search::{parse_search, search_query};
use gh_board::text::{str_eq, u64_to_string};

fn obj(fields: Vec<(&str, Json)>) -> Json {
    Json::Obj(fields.into_iter().map(|(k, v)| (k.to_string(), v)).collect())
}

fn s(text: &str) -> Json {
    Json::Str(text.to_string())
}

fn item(repo: &str, number: u64) -> Json {
    obj(vec![("repository_url", s(repo)), ("number", Json::Num(number))])
}

fn search_resp(items: Vec<Json>) -> Json {
    obj(vec![("items", Json::Arr(items))])
}

fn head_resp(sha: &str) -> Json {
    obj(vec![("head", obj(vec![("sha", s(sha))]))])
}

fn status_resp(state: &str) -> Json {
    obj(vec![("state", s(state))])
}

fn pr(repo: &str, number: u64) -> PrRecord {
    PrRecord { repo: repo.to_string(), number }
}

#[test]
fn query_embeds_user_verbatim() {
    assert_eq!(search_query("alice"), "author:alice type:pr is:open");
    assert_eq!(search_query("a b&c"), "author:a b&c type:pr is:open");
}

#[test]
fn search_returns_one_record_per_item_in_order() {
    let resp = search_resp(vec![item("repo1", 1), item("repo2", 2), item("repo3", 3)]);
    let recs = parse_search(&resp).unwrap();
    assert_eq!(recs.len(), 3);
    assert_eq!(recs[0].repo, "repo1");
    assert_eq!(recs[0].number, 1);
    assert_eq!(recs[1].repo, "repo2");
    assert_eq!(recs[1].number, 2);
    assert_eq!(recs[2].repo, "repo3");
    assert_eq!(recs[2].number, 3);
}

#[test]
fn search_with_absent_items_is_empty() {
    let resp = obj(vec![("total_count", Json::Num(0))]);
    assert_eq!(parse_search(&resp).unwrap().len(), 0);
}

#[test]
fn search_with_empty_items_is_empty() {
    let resp = search_resp(vec![]);
    assert_eq!(parse_search(&resp).unwrap().len(), 0);
}

#[test]
fn search_with_non_array_items_is_empty() {
    let resp = obj(vec![("items", s("nothing"))]);
    assert_eq!(parse_search(&resp).unwrap().len(), 0);
}

#[test]
fn search_item_without_repository_is_malformed() {
    let resp = search_resp(vec![obj(vec![("number", Json::Num(4))])]);
    let err = parse_search(&resp).unwrap_err();
    assert_eq!(err, RunError::MalformedRecord { index: 0 });
}

#[test]
fn search_item_without_number_is_malformed() {
    let resp = search_resp(vec![obj(vec![("repository_url", s("repo1"))])]);
    let err = parse_search(&resp).unwrap_err();
    assert_eq!(err, RunError::MalformedRecord { index: 0 });
}

#[test]
fn search_reports_first_malformed_item() {
    let resp = search_resp(vec![item("repo1", 1), obj(vec![]), obj(vec![])]);
    let err = parse_search(&resp).unwrap_err();
    assert_eq!(err, RunError::MalformedRecord { index: 1 });
}

#[test]
fn search_rejects_empty_repository_and_zero_number() {
    let resp = search_resp(vec![item("", 1)]);
    assert_eq!(parse_search(&resp).unwrap_err(), RunError::MalformedRecord { index: 0 });
    let resp = search_resp(vec![item("repo1", 0)]);
    assert_eq!(parse_search(&resp).unwrap_err(), RunError::MalformedRecord { index: 0 });
}

#[test]
fn pull_path_is_repo_pulls_number() {
    let record = pr("https://api.github.com/repos/alice/repo1", 17);
    assert_eq!(pull_path(&record), "https://api.github.com/repos/alice/repo1/pulls/17");
}

#[test]
fn status_path_is_repo_commits_sha_status() {
    let record = pr("https://api.github.com/repos/alice/repo1", 17);
    assert_eq!(
        status_path(&record, "abc123"),
        "https://api.github.com/repos/alice/repo1/commits/abc123/status"
    );
}

#[test]
fn paths_are_reproducible_from_their_inputs() {
    let a = pr("repo1", 5);
    let b = pr("repo1", 5);
    assert_eq!(pull_path(&a), pull_path(&b));
    assert_eq!(status_path(&a, "abc123"), status_path(&b, "abc123"));
}

#[test]
fn decimal_rendering() {
    assert_eq!(u64_to_string(0), "0");
    assert_eq!(u64_to_string(7), "7");
    assert_eq!(u64_to_string(10), "10");
    assert_eq!(u64_to_string(123), "123");
    assert_eq!(u64_to_string(u64::MAX), "18446744073709551615");
}

#[test]
fn string_comparison() {
    assert!(str_eq("abc", "abc"));
    assert!(!str_eq("abc", "abd"));
    assert!(!str_eq("abc", "abcd"));
    assert!(str_eq("", ""));
}

#[test]
fn head_sha_present() {
    assert_eq!(head_sha(&head_resp("abc123")), Some("abc123".to_string()));
}

#[test]
fn head_sha_absent_head_object() {
    assert_eq!(head_sha(&obj(vec![("state", s("open"))])), None);
}

#[test]
fn head_sha_absent_sha_field() {
    assert_eq!(head_sha(&obj(vec![("head", obj(vec![("label", s("x"))]))])), None);
}

#[test]
fn head_sha_non_string_sha() {
    assert_eq!(head_sha(&obj(vec![("head", obj(vec![("sha", Json::Num(1))]))])), None);
}

#[test]
fn status_state_present() {
    assert_eq!(status_state(&status_resp("success")), Some("success".to_string()));
}

#[test]
fn status_state_absent() {
    assert_eq!(status_state(&obj(vec![("sha", s("abc"))])), None);
    assert_eq!(status_state(&obj(vec![("state", Json::Null)])), None);
}

#[test]
fn report_line_format() {
    let record = pr("repo1", 1);
    assert_eq!(report_line(&record, "abc123", "success"), "repo1 abc123 success");
}

#[test]
fn json_object_lookup_first_binding_wins() {
    let doc = obj(vec![("k", s("first")), ("k", s("second"))]);
    let v = doc.get("k").unwrap();
    assert_eq!(v.as_str().map(|t| t.as_str()), Some("first"));
    assert!(doc.get("missing").is_none());
    assert!(s("text").get("k").is_none());
}

#[test]
fn json_accessors() {
    assert_eq!(Json::Num(9).as_u64(), Some(9));
    assert_eq!(s("x").as_u64(), None);
    assert!(s("x").as_str().is_some());
    assert!(Json::Null.as_str().is_none());
    assert_eq!(Json::Arr(vec![Json::Null, Json::Null]).as_array().map(|v| v.len()), Some(2));
    assert!(Json::Null.as_array().is_none());
}

#[test]
fn pipeline_reports_resolved_pr_and_skips_headless_pr() {
    // User alice has two open pull requests; the first resolves fully,
    // the second's head-resolution response has no head object.
    let resp = search_resp(vec![item("repo1", 1), item("repo2", 2)]);
    let recs = parse_search(&resp).unwrap();
    let mut p = Pipeline::new(recs);
    let mut lines: Vec<String> = Vec::new();

    let req = p.next_request().unwrap();
    assert_eq!(req, "repo1/pulls/1");
    assert_eq!(p.on_response(&head_resp("abc123")), None);

    let req = p.next_request().unwrap();
    assert_eq!(req, "repo1/commits/abc123/status");
    let line = p.on_response(&status_resp("success"));
    if let Some(line) = line {
        lines.push(line);
    }

    let req = p.next_request().unwrap();
    assert_eq!(req, "repo2/pulls/2");
    assert_eq!(p.on_response(&obj(vec![("message", s("Not Found"))])), None);

    assert!(p.next_request().is_none());
    assert_eq!(lines, vec!["repo1 abc123 success".to_string()]);
}

#[test]
fn pipeline_skips_pr_without_status_state() {
    let mut p = Pipeline::new(vec![pr("repo1", 1), pr("repo2", 2)]);
    assert_eq!(p.next_request().unwrap(), "repo1/pulls/1");
    assert_eq!(p.on_response(&head_resp("abc123")), None);
    assert_eq!(p.next_request().unwrap(), "repo1/commits/abc123/status");
    // No state field: this pull request is skipped, the run continues.
    assert_eq!(p.on_response(&obj(vec![("sha", s("abc123"))])), None);
    assert_eq!(p.next_request().unwrap(), "repo2/pulls/2");
}

#[test]
fn pipeline_empty_search_terminates_with_no_lines() {
    let resp = search_resp(vec![]);
    let recs = parse_search(&resp).unwrap();
    let p = Pipeline::new(recs);
    assert!(p.next_request().is_none());
    assert!(!p.aborted);
}

#[test]
fn pipeline_transport_failure_ends_the_run() {
    let mut p = Pipeline::new(vec![pr("repo1", 1), pr("repo2", 2)]);
    assert!(p.next_request().is_some());
    p.on_transport_failure();
    assert!(p.aborted);
    assert!(p.next_request().is_none());
}

#[test]
fn requests_differ_only_in_bearer_header() {
    let cred = Credential { login: "alice".to_string(), token: "SECRET-REDACTED".to_string() };
    let anon = build_request("search/issues".to_string(), &None);
    let auth = build_request("search/issues".to_string(), &Some(cred));
    assert_eq!(anon.path, auth.path);
    assert!(anon.bearer.is_none());
    assert_eq!(auth.bearer.as_deref(), Some("Bearer SECRET-REDACTED"));
}

#[test]
fn error_values_compare_by_structure() {
    assert_eq!(RunError::Configuration, RunError::Configuration);
    assert_eq!(
        RunError::Transport { stage: Stage::Head },
        RunError::Transport { stage: Stage::Head }
    );
    assert_ne!(
        RunError::Transport { stage: Stage::Search },
        RunError::Transport { stage: Stage::Status }
    );
    assert_ne!(RunError::MalformedRecord { index: 0 }, RunError::MalformedRecord { index: 1 });
}
