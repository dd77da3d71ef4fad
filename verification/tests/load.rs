// Tests of the config loader: extraction of each field, its default, and the
// errors that abort a load.

use yams::load_mocks;
use yams::LoadError;
use yams::Method;

fn load_err(text: &str) -> LoadError {
    match load_mocks(text) {
        Err(e) => e,
        Ok(_) => panic!("expected a load error"),
    }
}

// request tests

#[test]
fn loads_request_method_if_present() {
    let yaml_text = "
---
- request:
    method: GET
    path: /
  response:
    status: 200
";

    let expected = Some(Method::Get);
    let mocks = load_mocks(yaml_text).unwrap();

    assert_eq!(mocks.len(), 1);
    assert_eq!(mocks[0].matcher().method(), &expected);
}

#[test]
fn loads_request_method_if_missing() {
    let yaml_text = "
---
- request:
    path: /
  response:
    status: 200
";
    let expected = None;
    let mocks = load_mocks(yaml_text).unwrap();

    assert_eq!(mocks.len(), 1);
    assert_eq!(mocks[0].matcher().method(), &expected);
}

#[test]
fn loads_request_path_if_present() {
    let yaml_text = "
---
- request:
    path: /
  response:
    status: 200
";

    let expected = "/";
    let mocks = load_mocks(yaml_text).unwrap();

    assert_eq!(mocks.len(), 1);
    assert_eq!(mocks[0].matcher().path().as_str(), expected);
}

// response tests

#[test]
fn loads_response_status_if_present() {
    let yaml_text = "
---
- request:
    path: /
  response:
    status: 201
";

    let expected: u16 = 201;
    let mocks = load_mocks(yaml_text).unwrap();

    assert_eq!(mocks.len(), 1);
    assert_eq!(mocks[0].response().status(), expected);
}

#[test]
fn loads_response_status_as_default_if_not_present() {
    let yaml_text = "
---
- request:
    path: /
  response:
    other: val
";

    let expected: u16 = 200;
    let mocks = load_mocks(yaml_text).unwrap();

    assert_eq!(mocks.len(), 1);
    assert_eq!(mocks[0].response().status(), expected);
}

#[test]
fn loads_response_body_if_present() {
    let yaml_text = "
---
- request:
    path: /
  response:
    body: the body
";

    let expected = "the body";
    let mocks = load_mocks(yaml_text).unwrap();

    assert_eq!(mocks.len(), 1);
    assert_eq!(mocks[0].response().body(), expected);
}

#[test]
fn loads_response_body_as_default_if_not_present() {
    let yaml_text = "
---
- request:
    path: /
  response:
    other: val
";

    let expected = "";
    let mocks = load_mocks(yaml_text).unwrap();

    assert_eq!(mocks.len(), 1);
    assert_eq!(mocks[0].response().body(), expected);
}

#[test]
fn loads_response_headers_as_default_if_not_present() {
    let yaml_text = "
---
- request:
    path: /
  response:
    other: val
";

    let mocks = load_mocks(yaml_text).unwrap();

    assert_eq!(mocks.len(), 1);
    assert_eq!(mocks[0].response().headers().len(), 0);
}

#[test]
fn loads_response_headers_if_present() {
    let yaml_text = "
---
- request:
    path: /
  response:
    other: val
    headers:
      - header1: val1
      - header2: val2
";

    let mocks = load_mocks(yaml_text).unwrap();

    assert_eq!(mocks.len(), 1);
    let headers = mocks[0].response().headers();
    assert_eq!(headers.len(), 2);
    assert_eq!(headers[0].key().as_str(), "header1");
    assert_eq!(headers[0].val().as_str(), "val1");
    assert_eq!(headers[1].key().as_str(), "header2");
    assert_eq!(headers[1].val().as_str(), "val2");
}

// recoverable per-entry anomalies

#[test]
fn unrecognized_method_matches_any() {
    let yaml_text = "
---
- request:
    method: NOSUCH
    path: /
  response:
    status: 200
";
    let mocks = load_mocks(yaml_text).unwrap();
    assert_eq!(mocks.len(), 1);
    assert_eq!(mocks[0].matcher().method(), &None);
}

#[test]
fn method_tokens_are_case_sensitive() {
    let yaml_text = "
---
- request:
    method: get
    path: /
  response:
    status: 200
";
    let mocks = load_mocks(yaml_text).unwrap();
    assert_eq!(mocks.len(), 1);
    assert_eq!(mocks[0].matcher().method(), &None);
}

#[test]
fn recognizes_every_method_token() {
    let tokens = vec![
        ("OPTIONS", Method::Options),
        ("GET", Method::Get),
        ("POST", Method::Post),
        ("PUT", Method::Put),
        ("DELETE", Method::Delete),
        ("HEAD", Method::Head),
        ("TRACE", Method::Trace),
        ("CONNECT", Method::Connect),
        ("PATCH", Method::Patch),
    ];
    for (token, expected) in tokens {
        let yaml_text = format!(
            "
---
- request:
    method: {}
    path: /
  response:
    status: 200
",
            token
        );
        let mocks = load_mocks(&yaml_text).unwrap();
        assert_eq!(mocks[0].matcher().method(), &Some(expected));
    }
}

#[test]
fn multi_key_header_object_uses_first_pair() {
    let yaml_text = "
---
- request:
    path: /
  response:
    headers:
      - h1: v1
        h2: v2
";
    let mocks = load_mocks(yaml_text).unwrap();
    let headers = mocks[0].response().headers();
    assert_eq!(headers.len(), 1);
    assert_eq!(headers[0].key().as_str(), "h1");
    assert_eq!(headers[0].val().as_str(), "v1");
}

#[test]
fn keeps_duplicate_header_keys_in_order() {
    let yaml_text = "
---
- request:
    path: /
  response:
    headers:
      - h1: v1
      - h1: v2
";
    let mocks = load_mocks(yaml_text).unwrap();
    let headers = mocks[0].response().headers();
    assert_eq!(headers.len(), 2);
    assert_eq!(headers[0].key().as_str(), "h1");
    assert_eq!(headers[0].val().as_str(), "v1");
    assert_eq!(headers[1].key().as_str(), "h1");
    assert_eq!(headers[1].val().as_str(), "v2");
}

// fatal load errors

#[test]
fn fails_on_malformed_yaml() {
    let yaml_text = "
---
- request: [unclosed
";
    assert_eq!(load_err(yaml_text), LoadError::Syntax);
}

#[test]
fn fails_on_empty_text() {
    assert_eq!(load_err(""), LoadError::NoDocument);
}

#[test]
fn fails_when_top_level_is_not_a_sequence() {
    let yaml_text = "
---
request:
  path: /
";
    assert_eq!(load_err(yaml_text), LoadError::NotSequence);
}

#[test]
fn fails_when_path_is_missing() {
    let yaml_text = "
---
- request:
    method: GET
  response:
    status: 200
";
    assert_eq!(load_err(yaml_text), LoadError::MissingPath);
}

#[test]
fn fails_on_status_below_valid_range() {
    let yaml_text = "
---
- request:
    path: /
  response:
    status: 99
";
    assert_eq!(load_err(yaml_text), LoadError::InvalidStatus);
}

#[test]
fn fails_on_status_above_valid_range() {
    let yaml_text = "
---
- request:
    path: /
  response:
    status: 65836
";
    assert_eq!(load_err(yaml_text), LoadError::InvalidStatus);
}

#[test]
fn fails_on_non_integer_status() {
    let yaml_text = "
---
- request:
    path: /
  response:
    status: created
";
    assert_eq!(load_err(yaml_text), LoadError::InvalidStatus);
}

#[test]
fn fails_on_header_element_that_is_not_a_mapping() {
    let yaml_text = "
---
- request:
    path: /
  response:
    headers:
      - just a string
";
    assert_eq!(load_err(yaml_text), LoadError::InvalidHeader);
}

#[test]
fn fails_on_header_with_non_string_value() {
    let yaml_text = "
---
- request:
    path: /
  response:
    headers:
      - h1: 7
";
    assert_eq!(load_err(yaml_text), LoadError::InvalidHeader);
}

#[test]
fn one_bad_entry_aborts_the_whole_load() {
    let yaml_text = "
---
- request:
    path: /good
  response:
    status: 200
- request:
    method: GET
  response:
    status: 200
";
    assert_eq!(load_err(yaml_text), LoadError::MissingPath);
}

#[test]
fn load_errors_carry_a_descriptive_message() {
    assert_eq!(
        LoadError::MissingPath.message(),
        "a mock entry has no request.path"
    );
    assert_eq!(
        load_err("").message(),
        "configuration holds no document"
    );
}

#[test]
fn loads_entries_in_document_order() {
    let yaml_text = "
---
- request:
    path: /first
  response:
    status: 201
- request:
    path: /second
  response:
    status: 202
";
    let mocks = load_mocks(yaml_text).unwrap();
    assert_eq!(mocks.len(), 2);
    assert_eq!(mocks[0].matcher().path().as_str(), "/first");
    assert_eq!(mocks[0].response().status(), 201);
    assert_eq!(mocks[1].matcher().path().as_str(), "/second");
    assert_eq!(mocks[1].response().status(), 202);
}
