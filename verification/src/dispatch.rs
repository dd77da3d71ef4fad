//! The dispatch engine: scans the ordered rule list and answers a request
//! with the response of the first rule that matches it, or with the fixed
//! failure response (HTTP 500, no headers, a fixed message) when none does.

use vstd::prelude::*;

use crate::model::method_token;
use crate::model::mock_views;
use crate::model::str_eq;
use crate::model::Mock;
use crate::model::MockView;
use crate::model::Response;
use crate::model::ResponseView;

verus! {

/// Whether a rule accepts a request: the paths are equal character for
/// character, and the rule's method is absent or its token equals the
/// request's method string exactly.
pub open spec fn spec_matches(m: MockView, method: Seq<char>, path: Seq<char>) -> bool {
    &&& m.matcher.path == path
    &&& match m.matcher.method {
        None => true,
        Some(t) => method_token(t) == method,
    }
}

/// The position of the first rule that accepts the request, from `i` on.
pub open spec fn spec_first_match_from(
    rules: Seq<MockView>,
    method: Seq<char>,
    path: Seq<char>,
    i: int,
) -> Option<int>
    decreases rules.len() - i,
{
    if i < 0 || i >= rules.len() {
        None
    } else if spec_matches(rules[i], method, path) {
        Some(i)
    } else {
        spec_first_match_from(rules, method, path, i + 1)
    }
}

/// The position of the first rule that accepts the request, if any.
pub open spec fn spec_first_match(rules: Seq<MockView>, method: Seq<char>, path: Seq<char>) -> Option<
    int,
> {
    spec_first_match_from(rules, method, path, 0)
}

/// The fixed response served when no rule matches.
pub open spec fn spec_failure_response() -> ResponseView {
    ResponseView { status: 500u16, headers: Seq::empty(), body: "no matching mock found"@ }
}

impl Mock {
    /// Whether this rule accepts a request with the given method and path.
    pub fn matches(&self, method: &str, path: &str) -> (r: bool)
        ensures
            r == spec_matches(self@, method@, path@),
    {
        let path_matches = str_eq(self.matcher().path().as_str(), path);
        let method_matches = match self.matcher().method() {
            None => true,
            Some(m) => str_eq(m.token(), method),
        };
        path_matches && method_matches
    }
}

/// The response of the first rule that accepts the request, or `None`.
pub fn find_mock_result<'a>(mocks: &'a Vec<Mock>, method: &str, path: &str) -> (r: Option<
    &'a Response,
>)
    ensures
        match spec_first_match(mock_views(mocks@), method@, path@) {
            Some(i) => r matches Some(resp) && resp@ == mock_views(mocks@)[i].response,
            None => r is None,
        },
{
    let ghost rules = mock_views(mocks@);
    let n: usize = mocks.len();
    for i in 0..n
        invariant
            n == mocks.len(),
            rules == mock_views(mocks@),
            spec_first_match(rules, method@, path@) == spec_first_match_from(
                rules,
                method@,
                path@,
                i as int,
            ),
    {
        proof {
            assert(rules[i as int] == mocks@[i as int]@);
        }
        if mocks[i].matches(method, path) {
            return Some(mocks[i].response());
        }
    }
    None
}

/// Answers a request against the rule list: the canned response of the first
/// matching rule, copied verbatim, or the fixed failure response.
pub fn resolve(mocks: &Vec<Mock>, method: &str, path: &str) -> (r: Response)
    ensures
        match spec_first_match(mock_views(mocks@), method@, path@) {
            Some(i) => r@ == mock_views(mocks@)[i].response,
            None => r@ == spec_failure_response(),
        },
{
    match find_mock_result(mocks, method, path) {
        Some(resp) => resp.duplicate(),
        None => {
            let body: String = "no matching mock found".to_owned();
            let headers: Vec<crate::model::Header> = Vec::new();
            let r = crate::model::Response::new(500, headers, body);
            proof {
                assert(crate::model::header_views(Seq::<crate::model::Header>::empty()) =~= Seq::<
                    crate::model::HeaderView,
                >::empty());
                assert(r@ == spec_failure_response());
            }
            r
        },
    }
}

} // verus!
