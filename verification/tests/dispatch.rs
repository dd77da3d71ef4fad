// Tests of the dispatch engine: first-match selection, method-absent rules,
// and the fixed failure response.

use yams::load_mocks;
use yams::resolve;
use yams::Mock;

fn load(text: &str) -> Vec<Mock> {
    load_mocks(text).unwrap()
}

#[test]
fn serves_the_matching_rule_verbatim() {
    let mocks = load(
        "
---
- request:
    path: /
  response:
    status: 201
    body: hi
",
    );
    let r = resolve(&mocks, "GET", "/");
    assert_eq!(r.status(), 201);
    assert_eq!(r.body(), "hi");
    assert_eq!(r.headers().len(), 0);
}

#[test]
fn method_mismatch_falls_through_to_later_rule() {
    let mocks = load(
        "
---
- request:
    method: GET
    path: /a
  response: {}
- request:
    path: /a
  response:
    status: 404
",
    );
    let r = resolve(&mocks, "POST", "/a");
    assert_eq!(r.status(), 404);
    assert_eq!(r.body(), "");
}

#[test]
fn carries_headers_in_document_order() {
    let mocks = load(
        "
---
- request:
    path: /
  response:
    headers:
      - h1: v1
      - h2: v2
",
    );
    let r = resolve(&mocks, "GET", "/");
    let headers = r.headers();
    assert_eq!(headers.len(), 2);
    assert_eq!(headers[0].key().as_str(), "h1");
    assert_eq!(headers[0].val().as_str(), "v1");
    assert_eq!(headers[1].key().as_str(), "h2");
    assert_eq!(headers[1].val().as_str(), "v2");
}

#[test]
fn unmatched_path_yields_the_failure_response() {
    let mocks = load(
        "
---
- request:
    path: /present
  response:
    status: 200
",
    );
    let r = resolve(&mocks, "GET", "/missing");
    assert_eq!(r.status(), 500);
    assert_eq!(r.body(), "no matching mock found");
    assert_eq!(r.headers().len(), 0);
}

#[test]
fn first_matching_rule_wins() {
    let mocks = load(
        "
---
- request:
    path: /dup
  response:
    status: 201
- request:
    path: /dup
  response:
    status: 202
",
    );
    let r = resolve(&mocks, "GET", "/dup");
    assert_eq!(r.status(), 201);
}

#[test]
fn method_absent_rule_matches_any_method() {
    let mocks = load(
        "
---
- request:
    path: /any
  response:
    status: 204
",
    );
    for method in ["GET", "POST", "DELETE", "NOSUCH"] {
        let r = resolve(&mocks, method, "/any");
        assert_eq!(r.status(), 204);
    }
}

#[test]
fn method_bound_rule_rejects_other_methods() {
    let mocks = load(
        "
---
- request:
    method: GET
    path: /only-get
  response:
    status: 200
",
    );
    assert_eq!(resolve(&mocks, "GET", "/only-get").status(), 200);
    assert_eq!(resolve(&mocks, "POST", "/only-get").status(), 500);
}

#[test]
fn paths_match_exactly_and_case_sensitively() {
    let mocks = load(
        "
---
- request:
    path: /a
  response:
    status: 200
",
    );
    assert_eq!(resolve(&mocks, "GET", "/a").status(), 200);
    assert_eq!(resolve(&mocks, "GET", "/a/").status(), 500);
    assert_eq!(resolve(&mocks, "GET", "/A").status(), 500);
    assert_eq!(resolve(&mocks, "GET", "a").status(), 500);
}

#[test]
fn find_mock_result_returns_no_response_without_a_match() {
    let mocks = load(
        "
---
- request:
    path: /x
  response:
    status: 200
",
    );
    assert!(yams::find_mock_result(&mocks, "GET", "/y").is_none());
    let found = yams::find_mock_result(&mocks, "GET", "/x");
    assert_eq!(found.unwrap().status(), 200);
}

#[test]
fn empty_rule_list_yields_the_failure_response() {
    let mocks: Vec<Mock> = Vec::new();
    let r = resolve(&mocks, "GET", "/");
    assert_eq!(r.status(), 500);
    assert_eq!(r.body(), "no matching mock found");
}
