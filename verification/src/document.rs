//! A mathematical model of a parsed YAML document, and trusted wrappers
//! around the `yaml_rust` calls the loader makes.
//!
//! A parsed node is modelled by [`YamlNode`]: text and integer scalars, a
//! sequence, a mapping as its key/value pairs in document order, and `Other`
//! for every node the loader does not read (floats, booleans, null, aliases,
//! and the marker `yaml_rust` returns for absent children). `yaml_node_of`
//! names the model of a `yaml_rust::Yaml` value; each wrapper's contract
//! relates what the call returns to that model.

use vstd::prelude::*;

verus! {

/// The abstract shape of one parsed YAML node.
pub enum YamlNode {
    /// A string scalar.
    Text(Seq<char>),
    /// An integer scalar.
    IntVal(i64),
    /// A sequence of nodes, in document order.
    List(Seq<YamlNode>),
    /// A mapping, as its key/value pairs in document order. A parsed mapping
    /// never holds two equal keys.
    Mapping(Seq<(YamlNode, YamlNode)>),
    /// Any other node: float, boolean, null, alias, or the marker for an
    /// absent child.
    Other,
}

/// The model of a `yaml_rust::Yaml` value: which [`YamlNode`] it stands for.
pub uninterp spec fn yaml_node_of(y: yaml_rust::Yaml) -> YamlNode;

/// The models of the documents that parsing a text yields, or `None` when the
/// text is not well-formed YAML. Parsing is a function of the text alone.
pub uninterp spec fn yaml_doc_nodes(text: Seq<char>) -> Option<Seq<YamlNode>>;

/// The models of a sequence of parsed nodes, in order.
pub open spec fn nodes_of(docs: Seq<yaml_rust::Yaml>) -> Seq<YamlNode> {
    docs.map_values(|d: yaml_rust::Yaml| yaml_node_of(d))
}

/// The value under the first pair of `entries` whose key is the text `key`.
pub open spec fn node_lookup(entries: Seq<(YamlNode, YamlNode)>, key: Seq<char>) -> Option<
    YamlNode,
>
    decreases entries.len(),
{
    if entries.len() == 0 {
        None
    } else if entries[0].0 == YamlNode::Text(key) {
        Some(entries[0].1)
    } else {
        node_lookup(entries.drop_first(), key)
    }
}

/// The child of `n` under the text key `key`; `Other` when `n` is not a
/// mapping or has no such key, as `yaml_rust`'s indexing behaves.
pub open spec fn node_get(n: YamlNode, key: Seq<char>) -> YamlNode {
    match n {
        YamlNode::Mapping(entries) => match node_lookup(entries, key) {
            Some(v) => v,
            None => YamlNode::Other,
        },
        _ => YamlNode::Other,
    }
}

/// Whether `n` is a mapping that holds the text key `key`.
pub open spec fn node_has_key(n: YamlNode, key: Seq<char>) -> bool {
    match n {
        YamlNode::Mapping(entries) => node_lookup(entries, key) is Some,
        _ => false,
    }
}

/// The characters of a text node, `None` for every other node.
pub open spec fn node_as_text(n: YamlNode) -> Option<Seq<char>> {
    match n {
        YamlNode::Text(s) => Some(s),
        _ => None,
    }
}

#[verifier::external_type_specification]
#[verifier::external_body]
pub struct ExYaml(yaml_rust::Yaml);

#[verifier::external_type_specification]
#[verifier::external_body]
pub struct ExScanError(yaml_rust::ScanError);

/// Relies on `yaml_rust::YamlLoader::load_from_str`: parses a text into its
/// documents, deterministically, failing exactly on malformed YAML.
#[verifier::external_body]
pub(crate) fn yaml_parse(text: &str) -> (r: Result<Vec<yaml_rust::Yaml>, yaml_rust::ScanError>)
    ensures
        match r {
            Ok(docs) => yaml_doc_nodes(text@) == Some(nodes_of(docs@)),
            Err(_) => yaml_doc_nodes(text@) is None,
        },
{
    yaml_rust::YamlLoader::load_from_str(text)
}

/// Relies on `yaml_rust::Yaml`'s `Index<&str>` impl: on a mapping it returns
/// the value stored under the given string key, and `Yaml::BadValue` when the
/// key is absent or the node is not a mapping.
#[verifier::external_body]
pub(crate) fn yaml_get(y: &yaml_rust::Yaml, key: &str) -> (r: yaml_rust::Yaml)
    ensures
        yaml_node_of(r) == node_get(yaml_node_of(*y), key@),
{
    y[key].clone()
}

/// Relies on `yaml_rust::Yaml::as_hash` and `LinkedHashMap::contains_key`: a
/// parsed mapping holds a string key exactly when `contains_key` says so.
#[verifier::external_body]
pub(crate) fn yaml_has_key(y: &yaml_rust::Yaml, key: &str) -> (r: bool)
    ensures
        r == node_has_key(yaml_node_of(*y), key@),
{
    match y.as_hash() {
        Some(h) => h.contains_key(&yaml_rust::Yaml::String(key.to_owned())),
        None => false,
    }
}

/// Relies on `yaml_rust::Yaml::as_str`: `Some` exactly on a string scalar,
/// returning its characters.
#[verifier::external_body]
pub(crate) fn yaml_as_str(y: &yaml_rust::Yaml) -> (r: Option<String>)
    ensures
        match r {
            Some(s) => node_as_text(yaml_node_of(*y)) == Some(s@),
            None => node_as_text(yaml_node_of(*y)) is None,
        },
{
    y.as_str().map(|s| s.to_owned())
}

/// Relies on `yaml_rust::Yaml::as_i64`: `Some` exactly on an integer scalar,
/// returning its value.
#[verifier::external_body]
pub(crate) fn yaml_as_i64(y: &yaml_rust::Yaml) -> (r: Option<i64>)
    ensures
        match r {
            Some(i) => yaml_node_of(*y) == YamlNode::IntVal(i),
            None => !(yaml_node_of(*y) is IntVal),
        },
{
    y.as_i64()
}

/// Relies on `yaml_rust::Yaml::as_vec`: `Some` exactly on a sequence node,
/// returning its elements in document order.
#[verifier::external_body]
pub(crate) fn yaml_as_vec(y: &yaml_rust::Yaml) -> (r: Option<Vec<yaml_rust::Yaml>>)
    ensures
        match r {
            Some(v) => yaml_node_of(*y) == YamlNode::List(nodes_of(v@)),
            None => !(yaml_node_of(*y) is List),
        },
{
    y.as_vec().map(|v| v.clone())
}

/// Relies on `yaml_rust::Yaml::as_hash` and `LinkedHashMap::iter`: iteration
/// yields a mapping's pairs in insertion (document) order, so `iter().next()`
/// is its first pair. `None` when the node is not a mapping; `Some(None)`
/// when the mapping is empty.
#[verifier::external_body]
pub(crate) fn yaml_first_entry(y: &yaml_rust::Yaml) -> (r: Option<
    Option<(yaml_rust::Yaml, yaml_rust::Yaml)>,
>)
    ensures
        match r {
            Some(first) => match first {
                Some(kv) => yaml_node_of(*y) matches YamlNode::Mapping(entries)
                    && entries.len() > 0 && yaml_node_of(kv.0) == entries[0].0 && yaml_node_of(
                    kv.1,
                ) == entries[0].1,
                None => yaml_node_of(*y) matches YamlNode::Mapping(entries) && entries.len() == 0,
            },
            None => !(yaml_node_of(*y) is Mapping),
        },
{
    match y.as_hash() {
        Some(h) => Some(h.iter().next().map(|(k, v)| (k.clone(), v.clone()))),
        None => None,
    }
}

} // verus!
