//! The data model: a mock rule pairs a matcher (optional HTTP method plus a
//! required exact path) with a canned response (status, ordered header list
//! with duplicate keys preserved, body text).

use vstd::prelude::*;

verus! {

/// A recognized HTTP method token. A configuration entry whose method string
/// is none of these is treated as if the method were absent.
#[derive(Clone, Copy, PartialEq, Eq, Structural, Debug)]
pub enum Method {
    Options,
    Get,
    Post,
    Put,
    Delete,
    Head,
    Trace,
    Connect,
    Patch,
}

/// The token that names a method on the wire, as a sequence of characters.
pub open spec fn method_token(m: Method) -> Seq<char> {
    match m {
        Method::Options => "OPTIONS"@,
        Method::Get => "GET"@,
        Method::Post => "POST"@,
        Method::Put => "PUT"@,
        Method::Delete => "DELETE"@,
        Method::Head => "HEAD"@,
        Method::Trace => "TRACE"@,
        Method::Connect => "CONNECT"@,
        Method::Patch => "PATCH"@,
    }
}

/// Which method, if any, a given string names.
pub open spec fn spec_parse_method(s: Seq<char>) -> Option<Method> {
    if s == "OPTIONS"@ {
        Some(Method::Options)
    } else if s == "GET"@ {
        Some(Method::Get)
    } else if s == "POST"@ {
        Some(Method::Post)
    } else if s == "PUT"@ {
        Some(Method::Put)
    } else if s == "DELETE"@ {
        Some(Method::Delete)
    } else if s == "HEAD"@ {
        Some(Method::Head)
    } else if s == "TRACE"@ {
        Some(Method::Trace)
    } else if s == "CONNECT"@ {
        Some(Method::Connect)
    } else if s == "PATCH"@ {
        Some(Method::Patch)
    } else {
        None
    }
}

/// True of two string slices exactly when they hold the same characters.
pub fn str_eq(a: &str, b: &str) -> (r: bool)
    ensures
        r == (a@ == b@),
{
    let x: String = a.to_owned();
    let y: String = b.to_owned();
    x == y
}

impl Method {
    /// The method's wire token.
    pub fn token(&self) -> (r: &'static str)
        ensures
            r@ == method_token(*self),
    {
        match self {
            Method::Options => "OPTIONS",
            Method::Get => "GET",
            Method::Post => "POST",
            Method::Put => "PUT",
            Method::Delete => "DELETE",
            Method::Head => "HEAD",
            Method::Trace => "TRACE",
            Method::Connect => "CONNECT",
            Method::Patch => "PATCH",
        }
    }

    /// Parses a method string; `None` for anything but a recognized token.
    pub fn parse(s: &str) -> (r: Option<Method>)
        ensures
            r == spec_parse_method(s@),
    {
        if str_eq(s, "OPTIONS") {
            Some(Method::Options)
        } else if str_eq(s, "GET") {
            Some(Method::Get)
        } else if str_eq(s, "POST") {
            Some(Method::Post)
        } else if str_eq(s, "PUT") {
            Some(Method::Put)
        } else if str_eq(s, "DELETE") {
            Some(Method::Delete)
        } else if str_eq(s, "HEAD") {
            Some(Method::Head)
        } else if str_eq(s, "TRACE") {
            Some(Method::Trace)
        } else if str_eq(s, "CONNECT") {
            Some(Method::Connect)
        } else if str_eq(s, "PATCH") {
            Some(Method::Patch)
        } else {
            None
        }
    }
}

/// One response header line: a key and a value. Several headers may share a
/// key; each is kept and transmitted on its own line.
pub struct Header {
    key: String,
    val: String,
}

pub struct HeaderView {
    pub key: Seq<char>,
    pub val: Seq<char>,
}

impl View for Header {
    type V = HeaderView;

    closed spec fn view(&self) -> HeaderView {
        HeaderView { key: self.key@, val: self.val@ }
    }
}

impl Header {
    pub fn key(&self) -> (r: &String)
        ensures
            r@ == self@.key,
    {
        &self.key
    }

    pub fn val(&self) -> (r: &String)
        ensures
            r@ == self@.val,
    {
        &self.val
    }

    pub(crate) fn new(key: String, val: String) -> (r: Header)
        ensures
            r@.key == key@,
            r@.val == val@,
    {
        Header { key, val }
    }

    pub(crate) fn duplicate(&self) -> (r: Header)
        ensures
            r@ == self@,
    {
        Header { key: self.key.clone(), val: self.val.clone() }
    }
}

/// The views of a sequence of headers, in order.
pub open spec fn header_views(hs: Seq<Header>) -> Seq<HeaderView> {
    hs.map_values(|h: Header| h@)
}

/// The predicate part of a rule: an optional method and a required path.
pub struct Matcher {
    method: Option<Method>,
    path: String,
}

pub struct MatcherView {
    pub method: Option<Method>,
    pub path: Seq<char>,
}

impl View for Matcher {
    type V = MatcherView;

    closed spec fn view(&self) -> MatcherView {
        MatcherView { method: self.method, path: self.path@ }
    }
}

impl Matcher {
    pub fn method(&self) -> (r: &Option<Method>)
        ensures
            *r == self@.method,
    {
        &self.method
    }

    pub fn path(&self) -> (r: &String)
        ensures
            r@ == self@.path,
    {
        &self.path
    }

    pub(crate) fn new(method: Option<Method>, path: String) -> (r: Matcher)
        ensures
            r@.method == method,
            r@.path == path@,
    {
        Matcher { method, path }
    }
}

/// The canned response of a rule: status, header lines in order, body text.
pub struct Response {
    status: u16,
    headers: Vec<Header>,
    body: String,
}

pub struct ResponseView {
    pub status: u16,
    pub headers: Seq<HeaderView>,
    pub body: Seq<char>,
}

impl View for Response {
    type V = ResponseView;

    closed spec fn view(&self) -> ResponseView {
        ResponseView { status: self.status, headers: header_views(self.headers@), body: self.body@ }
    }
}

impl Response {
    pub fn status(&self) -> (r: u16)
        ensures
            r == self@.status,
    {
        self.status
    }

    pub fn headers(&self) -> (r: &Vec<Header>)
        ensures
            header_views(r@) == self@.headers,
    {
        &self.headers
    }

    pub fn body(&self) -> (r: String)
        ensures
            r@ == self@.body,
    {
        self.body.clone()
    }

    pub(crate) fn new(status: u16, headers: Vec<Header>, body: String) -> (r: Response)
        ensures
            r@.status == status,
            r@.headers == header_views(headers@),
            r@.body == body@,
    {
        Response { status, headers, body }
    }

    /// A field-for-field copy, equal to the original in view.
    pub fn duplicate(&self) -> (r: Response)
        ensures
            r@ == self@,
    {
        let mut headers: Vec<Header> = Vec::new();
        let n: usize = self.headers.len();
        for i in 0..n
            invariant
                n == self.headers.len(),
                headers@.len() == i,
                forall|j: int| 0 <= j < i ==> headers@[j]@ == self.headers@[j]@,
        {
            headers.push(self.headers[i].duplicate());
        }
        let r = Response { status: self.status, headers, body: self.body.clone() };
        proof {
            assert(header_views(r.headers@) =~= header_views(self.headers@));
        }
        r
    }
}

/// One configured stub: a matcher and the response it serves.
pub struct Mock {
    matcher: Matcher,
    response: Response,
}

pub struct MockView {
    pub matcher: MatcherView,
    pub response: ResponseView,
}

impl View for Mock {
    type V = MockView;

    closed spec fn view(&self) -> MockView {
        MockView { matcher: self.matcher@, response: self.response@ }
    }
}

/// The views of a sequence of mock rules, in order.
pub open spec fn mock_views(ms: Seq<Mock>) -> Seq<MockView> {
    ms.map_values(|m: Mock| m@)
}

impl Mock {
    pub fn matcher(&self) -> (r: &Matcher)
        ensures
            r@ == self@.matcher,
    {
        &self.matcher
    }

    pub fn response(&self) -> (r: &Response)
        ensures
            r@ == self@.response,
    {
        &self.response
    }

    pub(crate) fn new(matcher: Matcher, response: Response) -> (r: Mock)
        ensures
            r@.matcher == matcher@,
            r@.response == response@,
    {
        Mock { matcher, response }
    }
}

} // verus!
