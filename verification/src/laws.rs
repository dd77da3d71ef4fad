//! The library's guarantees, written down and proved: how each field of a
//! configuration entry determines the loaded rule, and that dispatch is
//! strictly first-match.

use vstd::prelude::*;

use crate::dispatch::spec_first_match;
use crate::dispatch::spec_first_match_from;
use crate::dispatch::spec_matches;
use crate::document::node_as_text;
use crate::document::node_get;
use crate::document::node_has_key;
use crate::document::YamlNode;
use crate::load::spec_body_of;
use crate::load::spec_header_of;
use crate::load::spec_headers_from;
use crate::load::spec_method_of;
use crate::load::spec_path_of;
use crate::load::spec_rule_of;
use crate::load::spec_rules_from;
use crate::load::spec_status_of;
use crate::load::LoadError;
use crate::model::method_token;
use crate::model::spec_parse_method;
use crate::model::HeaderView;
use crate::model::Method;
use crate::model::MockView;

verus! {

/// Parsing a method's own token yields that method.
pub proof fn lemma_parse_method_token(m: Method)
    ensures
        spec_parse_method(method_token(m)) == Some(m),
{
    reveal_strlit("OPTIONS");
    reveal_strlit("GET");
    reveal_strlit("POST");
    reveal_strlit("PUT");
    reveal_strlit("DELETE");
    reveal_strlit("HEAD");
    reveal_strlit("TRACE");
    reveal_strlit("CONNECT");
    reveal_strlit("PATCH");
    assert("OPTIONS"@.len() == 7);
    assert("GET"@.len() == 3);
    assert("POST"@.len() == 4);
    assert("PUT"@.len() == 3);
    assert("DELETE"@.len() == 6);
    assert("HEAD"@.len() == 4);
    assert("TRACE"@.len() == 5);
    assert("CONNECT"@.len() == 7);
    assert("PATCH"@.len() == 5);
    assert("GET"@[0] == 'G' && "PUT"@[0] == 'P');
    assert("POST"@[0] == 'P' && "HEAD"@[0] == 'H');
    assert("TRACE"@[0] == 'T' && "PATCH"@[0] == 'P');
    assert("OPTIONS"@[0] == 'O' && "CONNECT"@[0] == 'C');
    match m {
        Method::Options => assert(spec_parse_method(method_token(m)) == Some(Method::Options)),
        Method::Get => assert(spec_parse_method(method_token(m)) == Some(Method::Get)),
        Method::Post => assert(spec_parse_method(method_token(m)) == Some(Method::Post)),
        Method::Put => assert(spec_parse_method(method_token(m)) == Some(Method::Put)),
        Method::Delete => assert(spec_parse_method(method_token(m)) == Some(Method::Delete)),
        Method::Head => assert(spec_parse_method(method_token(m)) == Some(Method::Head)),
        Method::Trace => assert(spec_parse_method(method_token(m)) == Some(Method::Trace)),
        Method::Connect => assert(spec_parse_method(method_token(m)) == Some(Method::Connect)),
        Method::Patch => assert(spec_parse_method(method_token(m)) == Some(Method::Patch)),
    }
}

/// A string that parses as a method is that method's token.
pub proof fn lemma_parse_method_is_token(s: Seq<char>, m: Method)
    requires
        spec_parse_method(s) == Some(m),
    ensures
        s == method_token(m),
{
}

/// An entry whose `request.method` is a recognized method token loads, if it
/// loads at all, into a rule with exactly that matcher method.
pub proof fn lemma_method_recognized(e: YamlNode, m: Method)
    requires
        node_as_text(node_get(node_get(e, "request"@), "method"@)) == Some(method_token(m)),
    ensures
        spec_method_of(e) == Some(m),
        spec_rule_of(e) matches Ok(r) ==> r.matcher.method == Some(m),
{
    lemma_parse_method_token(m);
}

/// An entry whose `request.method` is absent, not a string, or not a
/// recognized method token loads, if it loads at all, into a rule whose
/// matcher method is absent.
pub proof fn lemma_method_absent_or_unrecognized(e: YamlNode)
    requires
        forall|m: Method|
            node_as_text(node_get(node_get(e, "request"@), "method"@)) != Some(method_token(m)),
    ensures
        spec_method_of(e) is None,
        spec_rule_of(e) matches Ok(r) ==> r.matcher.method is None,
{
    match node_as_text(node_get(node_get(e, "request"@), "method"@)) {
        None => {},
        Some(s) => {
            if let Some(m) = spec_parse_method(s) {
                lemma_parse_method_is_token(s, m);
                assert(false);
            }
        },
    }
}

/// A loaded rule's path is the entry's `request.path` string, unchanged.
pub proof fn lemma_rule_path(e: YamlNode)
    requires
        spec_rule_of(e) is Ok,
    ensures
        spec_path_of(e) is Some,
        (spec_rule_of(e)->Ok_0).matcher.path == spec_path_of(e)->Some_0,
{
}

/// An entry with no `response.status` key loads, if it loads at all, into a
/// rule whose status is 200.
pub proof fn lemma_status_default(e: YamlNode)
    requires
        !node_has_key(node_get(e, "response"@), "status"@),
    ensures
        spec_status_of(e) == Ok::<u16, LoadError>(200u16),
        spec_rule_of(e) matches Ok(r) ==> r.response.status == 200,
{
}

/// An entry whose `response.status` is an integer between 100 and 599 loads,
/// if it loads at all, into a rule with exactly that status.
pub proof fn lemma_status_given(e: YamlNode, i: i64)
    requires
        node_has_key(node_get(e, "response"@), "status"@),
        node_get(node_get(e, "response"@), "status"@) == YamlNode::IntVal(i),
        100 <= i <= 599,
    ensures
        spec_status_of(e) == Ok::<u16, LoadError>(i as u16),
        spec_rule_of(e) matches Ok(r) ==> r.response.status == i,
{
}

/// An entry with a path whose `response.status` is present but is not an
/// integer between 100 and 599 makes loading fail.
pub proof fn lemma_status_invalid(e: YamlNode)
    requires
        spec_path_of(e) is Some,
        node_has_key(node_get(e, "response"@), "status"@),
        match node_get(node_get(e, "response"@), "status"@) {
            YamlNode::IntVal(i) => !(100 <= i <= 599),
            _ => true,
        },
    ensures
        spec_rule_of(e) == Err::<MockView, LoadError>(LoadError::InvalidStatus),
{
}

/// An entry with no `response.body` string loads, if it loads at all, into a
/// rule whose body is empty.
pub proof fn lemma_body_default(e: YamlNode)
    requires
        node_as_text(node_get(node_get(e, "response"@), "body"@)) is None,
    ensures
        spec_body_of(e) == Seq::<char>::empty(),
        spec_rule_of(e) matches Ok(r) ==> r.response.body.len() == 0,
{
}

/// An entry whose `response.body` is a string loads, if it loads at all, into
/// a rule with exactly that body.
pub proof fn lemma_body_given(e: YamlNode, s: Seq<char>)
    requires
        node_as_text(node_get(node_get(e, "response"@), "body"@)) == Some(s),
    ensures
        spec_body_of(e) == s,
        spec_rule_of(e) matches Ok(r) ==> r.response.body == s,
{
}

/// An entry whose `response.headers` is absent or not a sequence loads, if it
/// loads at all, into a rule with no headers.
pub proof fn lemma_headers_default(e: YamlNode)
    requires
        !(node_get(node_get(e, "response"@), "headers"@) is List),
    ensures
        spec_rule_of(e) matches Ok(r) ==> r.response.headers.len() == 0,
{
}

/// A header list that loads has one header per element, in order, each the
/// first key/value pair of its element.
proof fn lemma_headers_from_ok(ns: Seq<YamlNode>, i: int)
    requires
        0 <= i <= ns.len(),
        spec_headers_from(ns, i) is Ok,
    ensures
        (spec_headers_from(ns, i)->Ok_0).len() == ns.len() - i,
        forall|j: int|
            i <= j < ns.len() ==> spec_header_of(ns[j]) == Ok::<HeaderView, LoadError>(
                (spec_headers_from(ns, i)->Ok_0)[j - i],
            ),
    decreases ns.len() - i,
{
    if i < ns.len() {
        lemma_headers_from_ok(ns, i + 1);
    }
}

/// An entry whose `response.headers` is a sequence loads, if it loads at all,
/// into a rule with exactly one header per element of that sequence, in
/// document order, each taken from the first key/value pair of its element.
pub proof fn lemma_headers_loaded(e: YamlNode, ns: Seq<YamlNode>)
    requires
        node_get(node_get(e, "response"@), "headers"@) == YamlNode::List(ns),
        spec_rule_of(e) is Ok,
    ensures
        (spec_rule_of(e)->Ok_0).response.headers.len() == ns.len(),
        forall|j: int|
            0 <= j < ns.len() ==> spec_header_of(ns[j]) == Ok::<HeaderView, LoadError>(
                (spec_rule_of(e)->Ok_0).response.headers[j],
            ),
{
    lemma_headers_from_ok(ns, 0);
}

/// Every loaded rule carries a valid three-digit status: between 100 and 599.
pub proof fn lemma_rule_status_valid(e: YamlNode)
    requires
        spec_rule_of(e) is Ok,
    ensures
        100 <= (spec_rule_of(e)->Ok_0).response.status <= 599,
{
}

/// A document that loads yields exactly one rule per entry, in document
/// order: the rule of each entry as the per-entry laws describe it.
pub proof fn lemma_rules_one_per_entry(es: Seq<YamlNode>)
    requires
        spec_rules_from(es, 0) is Ok,
    ensures
        (spec_rules_from(es, 0)->Ok_0).len() == es.len(),
        forall|j: int|
            0 <= j < es.len() ==> spec_rule_of(es[j]) == Ok::<MockView, LoadError>(
                (spec_rules_from(es, 0)->Ok_0)[j],
            ),
{
    lemma_rules_from_ok(es, 0);
}

proof fn lemma_rules_from_ok(es: Seq<YamlNode>, i: int)
    requires
        0 <= i <= es.len(),
        spec_rules_from(es, i) is Ok,
    ensures
        (spec_rules_from(es, i)->Ok_0).len() == es.len() - i,
        forall|j: int|
            i <= j < es.len() ==> spec_rule_of(es[j]) == Ok::<MockView, LoadError>(
                (spec_rules_from(es, i)->Ok_0)[j - i],
            ),
    decreases es.len() - i,
{
    if i < es.len() {
        lemma_rules_from_ok(es, i + 1);
    }
}

/// Every rule of a document that loads carries a valid status: the whole
/// loaded configuration satisfies the rules' invariant.
pub proof fn lemma_loaded_statuses_valid(es: Seq<YamlNode>)
    requires
        spec_rules_from(es, 0) is Ok,
    ensures
        forall|j: int|
            0 <= j < (spec_rules_from(es, 0)->Ok_0).len() ==> 100 <= (#[trigger] (spec_rules_from(
                es,
                0,
            )->Ok_0)[j]).response.status <= 599,
{
    lemma_rules_one_per_entry(es);
    assert forall|j: int| 0 <= j < (spec_rules_from(es, 0)->Ok_0).len() implies 100 <= (#[trigger] (
    spec_rules_from(es, 0)->Ok_0)[j]).response.status <= 599 by {
        lemma_rule_status_valid(es[j]);
    }
}

/// What the first-match position means: the rule there matches, every rule
/// before it does not, and when there is none, no rule matches at all.
pub proof fn lemma_first_match_characterization(
    rules: Seq<MockView>,
    method: Seq<char>,
    path: Seq<char>,
)
    ensures
        match spec_first_match(rules, method, path) {
            Some(i) => 0 <= i < rules.len() && spec_matches(rules[i], method, path) && (forall|
                j: int,
            |
                0 <= j < i ==> !spec_matches(rules[j], method, path)),
            None => forall|j: int| 0 <= j < rules.len() ==> !spec_matches(rules[j], method, path),
        },
{
    lemma_first_match_from_characterization(rules, method, path, 0);
}

proof fn lemma_first_match_from_characterization(
    rules: Seq<MockView>,
    method: Seq<char>,
    path: Seq<char>,
    i: int,
)
    requires
        0 <= i <= rules.len(),
    ensures
        match spec_first_match_from(rules, method, path, i) {
            Some(k) => i <= k < rules.len() && spec_matches(rules[k], method, path) && (forall|
                j: int,
            |
                i <= j < k ==> !spec_matches(rules[j], method, path)),
            None => forall|j: int| i <= j < rules.len() ==> !spec_matches(rules[j], method, path),
        },
    decreases rules.len() - i,
{
    if i < rules.len() && !spec_matches(rules[i], method, path) {
        lemma_first_match_from_characterization(rules, method, path, i + 1);
    }
}

/// Dispatch is first-match: when two rules both accept a request, the rule
/// dispatch picks is never later than the earlier of the two.
pub proof fn lemma_first_match_wins(
    rules: Seq<MockView>,
    method: Seq<char>,
    path: Seq<char>,
    i: int,
    j: int,
)
    requires
        0 <= i < j < rules.len(),
        spec_matches(rules[i], method, path),
        spec_matches(rules[j], method, path),
    ensures
        spec_first_match(rules, method, path) matches Some(k) && k <= i,
{
    lemma_first_match_characterization(rules, method, path);
}

/// A rule without a method accepts every request whose path equals its own.
pub proof fn lemma_method_absent_matches_any(m: MockView, method: Seq<char>, path: Seq<char>)
    requires
        m.matcher.method is None,
        m.matcher.path == path,
    ensures
        spec_matches(m, method, path),
{
}

/// When no rule accepts the request, dispatch finds no match, and so serves
/// the fixed failure response.
pub proof fn lemma_no_match_failure(rules: Seq<MockView>, method: Seq<char>, path: Seq<char>)
    requires
        forall|j: int| 0 <= j < rules.len() ==> !spec_matches(rules[j], method, path),
    ensures
        spec_first_match(rules, method, path) is None,
{
    lemma_first_match_characterization(rules, method, path);
}

} // verus!
