//! The config loader: turns one YAML configuration document into the ordered
//! list of mock rules, applying the defaulting rules and failing fast on the
//! first malformed entry.
//!
//! The whole loading semantics is written down as spec functions over the
//! document model ([`spec_load`] and its parts); [`load_mocks`] is proved to
//! return exactly what they say.

use vstd::prelude::*;

use crate::document::node_as_text;
use crate::document::node_get;
use crate::document::node_has_key;
use crate::document::nodes_of;
use crate::document::yaml_as_i64;
use crate::document::yaml_as_str;
use crate::document::yaml_as_vec;
use crate::document::yaml_first_entry;
use crate::document::yaml_get;
use crate::document::yaml_has_key;
use crate::document::yaml_node_of;
use crate::document::yaml_parse;
use crate::document::YamlNode;
use crate::model::header_views;
use crate::model::mock_views;
use crate::model::spec_parse_method;
use crate::model::Header;
use crate::model::HeaderView;
use crate::model::Matcher;
use crate::model::MatcherView;
use crate::model::Method;
use crate::model::Mock;
use crate::model::MockView;
use crate::model::Response;
use crate::model::ResponseView;

verus! {

/// Why a configuration document was rejected. Every variant is fatal: one bad
/// entry aborts the whole load.
#[derive(Clone, Copy, PartialEq, Eq, Structural, Debug)]
pub enum LoadError {
    /// The text is not well-formed YAML.
    Syntax,
    /// The text holds no document at all.
    NoDocument,
    /// The document's top level is not a sequence of entries.
    NotSequence,
    /// An entry has no `request.path` string.
    MissingPath,
    /// An entry's `response.status` is present but is not an integer between
    /// 100 and 599.
    InvalidStatus,
    /// An entry's `response.headers` element is not a mapping with at least
    /// one pair of string key and string value.
    InvalidHeader,
}

/// The descriptive message of each load error, as shown to the operator when
/// startup is aborted.
pub open spec fn spec_load_error_message(e: LoadError) -> Seq<char> {
    match e {
        LoadError::Syntax => "configuration is not well-formed YAML"@,
        LoadError::NoDocument => "configuration holds no document"@,
        LoadError::NotSequence => "configuration must be a sequence of entries"@,
        LoadError::MissingPath => "a mock entry has no request.path"@,
        LoadError::InvalidStatus => "a mock entry's response.status is not a valid status code"@,
        LoadError::InvalidHeader => "a mock entry's response.headers element is not a single-key object of strings"@,
    }
}

impl LoadError {
    /// A descriptive message naming what aborted the load.
    pub fn message(&self) -> (r: &'static str)
        ensures
            r@ == spec_load_error_message(*self),
    {
        match self {
            LoadError::Syntax => "configuration is not well-formed YAML",
            LoadError::NoDocument => "configuration holds no document",
            LoadError::NotSequence => "configuration must be a sequence of entries",
            LoadError::MissingPath => "a mock entry has no request.path",
            LoadError::InvalidStatus => "a mock entry's response.status is not a valid status code",
            LoadError::InvalidHeader => "a mock entry's response.headers element is not a single-key object of strings",
        }
    }
}

/// The matcher method of an entry: the method string under `request.method`,
/// if it is present and names a recognized token; absent otherwise.
pub open spec fn spec_method_of(entry: YamlNode) -> Option<Method> {
    match node_as_text(node_get(node_get(entry, "request"@), "method"@)) {
        Some(s) => spec_parse_method(s),
        None => None,
    }
}

/// The path of an entry: the string under `request.path`, if any.
pub open spec fn spec_path_of(entry: YamlNode) -> Option<Seq<char>> {
    node_as_text(node_get(node_get(entry, "request"@), "path"@))
}

/// The status of an entry: 200 when `response.status` is absent, its value
/// when that is an integer between 100 and 599, and `Err` otherwise.
pub open spec fn spec_status_of(entry: YamlNode) -> Result<u16, LoadError> {
    let resp = node_get(entry, "response"@);
    if !node_has_key(resp, "status"@) {
        Ok(200u16)
    } else {
        match node_get(resp, "status"@) {
            YamlNode::IntVal(i) => if 100 <= i && i <= 599 {
                Ok(i as u16)
            } else {
                Err(LoadError::InvalidStatus)
            },
            _ => Err(LoadError::InvalidStatus),
        }
    }
}

/// The body of an entry: the string under `response.body`, or empty.
pub open spec fn spec_body_of(entry: YamlNode) -> Seq<char> {
    match node_as_text(node_get(node_get(entry, "response"@), "body"@)) {
        Some(s) => s,
        None => Seq::empty(),
    }
}

/// The header that one element of `response.headers` contributes: the first
/// key/value pair of the mapping, both strings; anything else is an error.
pub open spec fn spec_header_of(n: YamlNode) -> Result<HeaderView, LoadError> {
    match n {
        YamlNode::Mapping(entries) => if entries.len() == 0 {
            Err(LoadError::InvalidHeader)
        } else {
            match (entries[0].0, entries[0].1) {
                (YamlNode::Text(k), YamlNode::Text(v)) => Ok(HeaderView { key: k, val: v }),
                _ => Err(LoadError::InvalidHeader),
            }
        },
        _ => Err(LoadError::InvalidHeader),
    }
}

/// The headers contributed by the elements of `ns` from position `i` on, one
/// per element in order, or the first element's error.
pub open spec fn spec_headers_from(ns: Seq<YamlNode>, i: int) -> Result<Seq<HeaderView>, LoadError>
    decreases ns.len() - i,
{
    if i < 0 || i >= ns.len() {
        Ok(Seq::empty())
    } else {
        match spec_header_of(ns[i]) {
            Err(e) => Err(e),
            Ok(h) => match spec_headers_from(ns, i + 1) {
                Err(e) => Err(e),
                Ok(rest) => Ok(seq![h] + rest),
            },
        }
    }
}

/// The header list that a parsed `response` value yields: one header per
/// element of its `headers` sequence in document order, or empty when that is
/// absent or not a sequence.
pub open spec fn spec_headers_of_resp(resp: YamlNode) -> Result<Seq<HeaderView>, LoadError> {
    match node_get(resp, "headers"@) {
        YamlNode::List(ns) => spec_headers_from(ns, 0),
        _ => Ok(Seq::empty()),
    }
}

/// The header list of an entry.
pub open spec fn spec_headers_of(entry: YamlNode) -> Result<Seq<HeaderView>, LoadError> {
    spec_headers_of_resp(node_get(entry, "response"@))
}

/// The rule that one entry yields, or the error that makes loading fail. A
/// missing path is reported before an invalid status, and that before a bad
/// header element.
pub open spec fn spec_rule_of(entry: YamlNode) -> Result<MockView, LoadError> {
    match spec_path_of(entry) {
        None => Err(LoadError::MissingPath),
        Some(path) => match spec_status_of(entry) {
            Err(e) => Err(e),
            Ok(status) => match spec_headers_of(entry) {
                Err(e) => Err(e),
                Ok(headers) => Ok(
                    MockView {
                        matcher: MatcherView { method: spec_method_of(entry), path },
                        response: ResponseView { status, headers, body: spec_body_of(entry) },
                    },
                ),
            },
        },
    }
}

/// The rules that the entries of `es` yield from position `i` on, in order,
/// or the first entry's error.
pub open spec fn spec_rules_from(es: Seq<YamlNode>, i: int) -> Result<Seq<MockView>, LoadError>
    decreases es.len() - i,
{
    if i < 0 || i >= es.len() {
        Ok(Seq::empty())
    } else {
        match spec_rule_of(es[i]) {
            Err(e) => Err(e),
            Ok(m) => match spec_rules_from(es, i + 1) {
                Err(e) => Err(e),
                Ok(rest) => Ok(seq![m] + rest),
            },
        }
    }
}

/// What loading a configuration text yields: the rules of the first
/// document's entries in order, or the error that aborts the load.
pub open spec fn spec_load(text: Seq<char>) -> Result<Seq<MockView>, LoadError> {
    match crate::document::yaml_doc_nodes(text) {
        None => Err(LoadError::Syntax),
        Some(docs) => if docs.len() == 0 {
            Err(LoadError::NoDocument)
        } else {
            match docs[0] {
                YamlNode::List(es) => spec_rules_from(es, 0),
                _ => Err(LoadError::NotSequence),
            }
        },
    }
}

/// Builds the header that one element of `response.headers` contributes.
fn build_header(n: &yaml_rust::Yaml) -> (r: Result<Header, LoadError>)
    ensures
        match r {
            Ok(h) => spec_header_of(yaml_node_of(*n)) == Ok::<HeaderView, LoadError>(h@),
            Err(e) => spec_header_of(yaml_node_of(*n)) == Err::<HeaderView, LoadError>(e),
        },
{
    match yaml_first_entry(n) {
        None => Err(LoadError::InvalidHeader),
        Some(None) => Err(LoadError::InvalidHeader),
        Some(Some((k, v))) => {
            let key = match yaml_as_str(&k) {
                None => {
                    return Err(LoadError::InvalidHeader);
                },
                Some(s) => s,
            };
            let val = match yaml_as_str(&v) {
                None => {
                    return Err(LoadError::InvalidHeader);
                },
                Some(s) => s,
            };
            Ok(Header::new(key, val))
        },
    }
}

/// Builds an entry's header list from the parsed `response.headers` value.
fn build_headers(resp: &yaml_rust::Yaml) -> (r: Result<Vec<Header>, LoadError>)
    ensures
        match r {
            Ok(hs) => spec_headers_of_resp(yaml_node_of(*resp)) == Ok::<
                Seq<HeaderView>,
                LoadError,
            >(header_views(hs@)),
            Err(e) => spec_headers_of_resp(yaml_node_of(*resp)) == Err::<
                Seq<HeaderView>,
                LoadError,
            >(e),
        },
{
    let list = match yaml_as_vec(&yaml_get(resp, "headers")) {
        None => {
            let empty: Vec<Header> = Vec::new();
            proof {
                assert(header_views(empty@) =~= Seq::<HeaderView>::empty());
            }
            return Ok(empty);
        },
        Some(list) => list,
    };
    let ghost ns = nodes_of(list@);
    let mut headers: Vec<Header> = Vec::new();
    let n: usize = list.len();
    proof {
        assert(header_views(headers@) =~= Seq::<HeaderView>::empty());
        if spec_headers_from(ns, 0) is Ok {
            assert(header_views(headers@) + spec_headers_from(ns, 0)->Ok_0 =~= spec_headers_from(
                ns,
                0,
            )->Ok_0);
        }
    }
    for i in 0..n
        invariant
            n == list.len(),
            ns == nodes_of(list@),
            spec_headers_of_resp(yaml_node_of(*resp)) == spec_headers_from(ns, 0),
            spec_headers_from(ns, 0) == (match spec_headers_from(ns, i as int) {
                Ok(rest) => Ok::<Seq<HeaderView>, LoadError>(header_views(headers@) + rest),
                Err(e) => Err::<Seq<HeaderView>, LoadError>(e),
            }),
    {
        proof {
            assert(ns[i as int] == yaml_node_of(list@[i as int]));
        }
        match build_header(&list[i]) {
            Err(e) => {
                proof {
                    assert(spec_headers_from(ns, i as int) == Err::<Seq<HeaderView>, LoadError>(e));
                }
                return Err(e);
            },
            Ok(h) => {
                let ghost old_headers = headers@;
                headers.push(h);
                proof {
                    assert(header_views(headers@) =~= header_views(old_headers) + seq![h@]);
                    if spec_headers_from(ns, i + 1) is Ok {
                        assert(header_views(old_headers) + (seq![h@] + spec_headers_from(
                            ns,
                            i + 1,
                        )->Ok_0) =~= header_views(headers@) + spec_headers_from(ns, i + 1)->Ok_0);
                    }
                }
            },
        }
    }
    proof {
        assert(spec_headers_from(ns, n as int) == Ok::<Seq<HeaderView>, LoadError>(
            Seq::<HeaderView>::empty(),
        ));
        assert(header_views(headers@) + Seq::<HeaderView>::empty() =~= header_views(headers@));
    }
    Ok(headers)
}

/// Builds the rule of one configuration entry, or the error that makes the
/// load fail on it.
fn build_rule(entry: &yaml_rust::Yaml) -> (r: Result<Mock, LoadError>)
    ensures
        match r {
            Ok(m) => spec_rule_of(yaml_node_of(*entry)) == Ok::<MockView, LoadError>(m@),
            Err(e) => spec_rule_of(yaml_node_of(*entry)) == Err::<MockView, LoadError>(e),
        },
{
    let req = yaml_get(entry, "request");
    let resp = yaml_get(entry, "response");

    let path: String = match yaml_as_str(&yaml_get(&req, "path")) {
        None => {
            return Err(LoadError::MissingPath);
        },
        Some(p) => p,
    };

    let method: Option<Method> = match yaml_as_str(&yaml_get(&req, "method")) {
        None => None,
        Some(s) => Method::parse(s.as_str()),
    };

    let status: u16 = if yaml_has_key(&resp, "status") {
        match yaml_as_i64(&yaml_get(&resp, "status")) {
            None => {
                return Err(LoadError::InvalidStatus);
            },
            Some(i) => if 100 <= i && i <= 599 {
                i as u16
            } else {
                return Err(LoadError::InvalidStatus);
            },
        }
    } else {
        200
    };

    let body: String = match yaml_as_str(&yaml_get(&resp, "body")) {
        None => String::new(),
        Some(b) => b,
    };

    let headers: Vec<Header> = match build_headers(&resp) {
        Err(e) => {
            return Err(e);
        },
        Ok(hs) => hs,
    };

    Ok(Mock::new(Matcher::new(method, path), Response::new(status, headers, body)))
}

/// Loads a configuration text into the ordered list of mock rules, exactly as
/// [`spec_load`] describes: defaults applied per entry, document order kept,
/// and the first malformed piece of the document aborting the whole load.
pub fn load_mocks(config_yaml: &str) -> (r: Result<Vec<Mock>, LoadError>)
    ensures
        match r {
            Ok(mocks) => spec_load(config_yaml@) == Ok::<Seq<MockView>, LoadError>(
                mock_views(mocks@),
            ),
            Err(e) => spec_load(config_yaml@) == Err::<Seq<MockView>, LoadError>(e),
        },
{
    let docs = match yaml_parse(config_yaml) {
        Err(_) => {
            return Err(LoadError::Syntax);
        },
        Ok(docs) => docs,
    };
    if docs.len() == 0 {
        return Err(LoadError::NoDocument);
    }
    proof {
        assert(nodes_of(docs@)[0] == yaml_node_of(docs@[0]));
    }
    let entries = match yaml_as_vec(&docs[0]) {
        None => {
            return Err(LoadError::NotSequence);
        },
        Some(entries) => entries,
    };
    let ghost es = nodes_of(entries@);
    let mut mocks: Vec<Mock> = Vec::new();
    let n: usize = entries.len();
    proof {
        assert(mock_views(mocks@) =~= Seq::<MockView>::empty());
        if spec_rules_from(es, 0) is Ok {
            assert(Seq::<MockView>::empty() + spec_rules_from(es, 0)->Ok_0 =~= spec_rules_from(
                es,
                0,
            )->Ok_0);
        }
    }
    for i in 0..n
        invariant
            n == entries.len(),
            es == nodes_of(entries@),
            spec_load(config_yaml@) == spec_rules_from(es, 0),
            spec_rules_from(es, 0) == (match spec_rules_from(es, i as int) {
                Ok(rest) => Ok::<Seq<MockView>, LoadError>(mock_views(mocks@) + rest),
                Err(e) => Err::<Seq<MockView>, LoadError>(e),
            }),
    {
        proof {
            assert(es[i as int] == yaml_node_of(entries@[i as int]));
        }
        match build_rule(&entries[i]) {
            Err(e) => {
                proof {
                    assert(spec_rules_from(es, i as int) == Err::<Seq<MockView>, LoadError>(e));
                }
                return Err(e);
            },
            Ok(m) => {
                let ghost old_mocks = mocks@;
                mocks.push(m);
                proof {
                    assert(mock_views(mocks@) =~= mock_views(old_mocks) + seq![m@]);
                    if spec_rules_from(es, i + 1) is Ok {
                        assert(mock_views(old_mocks) + (seq![m@] + spec_rules_from(
                            es,
                            i + 1,
                        )->Ok_0) =~= mock_views(mocks@) + spec_rules_from(es, i + 1)->Ok_0);
                    }
                }
            },
        }
    }
    proof {
        assert(spec_rules_from(es, n as int) == Ok::<Seq<MockView>, LoadError>(
            Seq::<MockView>::empty(),
        ));
        assert(mock_views(mocks@) + Seq::<MockView>::empty() =~= mock_views(mocks@));
    }
    Ok(mocks)
}

} // verus!
