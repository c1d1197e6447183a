//! The document tree a configuration file parses into.
//!
//! `serde_yaml` turns the file's bytes into a `serde_yaml::Value`; that value
//! is carried over, one variant to one variant, into the crate's own `Node`
//! tree, which holds plain values only. Everything read out of the tree after
//! that point is verified code.
use vstd::prelude::*;

verus! {

/// A node of a parsed configuration document.
///
/// Numbers that fit an unsigned 64-bit integer come through as `UInt`; every
/// other scalar the format offers but the schema has no use for (negative or
/// oversized numbers, floating point, tagged values) comes through as
/// `Other`, which no schema rule accepts.
pub enum Node {
    Null,
    Bool(bool),
    UInt(u64),
    Str(String),
    Arr(Vec<Node>),
    Dict(Vec<(Node, Node)>),
    Other,
}

/// The mathematical shape of a `Node`: the same tree over `Seq`.
pub enum NodeV {
    Null,
    Bool(bool),
    UInt(u64),
    Str(Seq<char>),
    Arr(Seq<NodeV>),
    Dict(Seq<(NodeV, NodeV)>),
    Other,
}

/// The shape a node stands for.
pub open spec fn node_view(n: Node) -> NodeV
    decreases n,
{
    match n {
        Node::Null => NodeV::Null,
        Node::Bool(b) => NodeV::Bool(b),
        Node::UInt(u) => NodeV::UInt(u),
        Node::Str(s) => NodeV::Str(s@),
        Node::Arr(items) => NodeV::Arr(
            Seq::new(
                items@.len(),
                |i: int|
                    if 0 <= i < items@.len() {
                        node_view(items@[i])
                    } else {
                        NodeV::Null
                    },
            ),
        ),
        Node::Dict(pairs) => NodeV::Dict(
            Seq::new(
                pairs@.len(),
                |i: int|
                    if 0 <= i < pairs@.len() {
                        (node_view(pairs@[i].0), node_view(pairs@[i].1))
                    } else {
                        (NodeV::Null, NodeV::Null)
                    },
            ),
        ),
        Node::Other => NodeV::Other,
    }
}

impl View for Node {
    type V = NodeV;

    open spec fn view(&self) -> NodeV {
        node_view(*self)
    }
}

/// The value the first entry of `pairs` whose key is the string `key` maps
/// to, if any: how a field of a configuration mapping is read.
pub open spec fn lookup(pairs: Seq<(NodeV, NodeV)>, key: Seq<char>) -> Option<NodeV>
    decreases pairs.len(),
{
    if pairs.len() == 0 {
        None
    } else if pairs[0].0 == NodeV::Str(key) {
        Some(pairs[0].1)
    } else {
        lookup(pairs.drop_first(), key)
    }
}

proof fn lemma_lookup_none(pairs: Seq<(NodeV, NodeV)>, key: Seq<char>)
    requires
        forall|j: int| 0 <= j < pairs.len() ==> #[trigger] pairs[j].0 != NodeV::Str(key),
    ensures
        lookup(pairs, key) is None,
    decreases pairs.len(),
{
    if pairs.len() > 0 {
        lemma_lookup_none(pairs.drop_first(), key);
    }
}

proof fn lemma_lookup_found(pairs: Seq<(NodeV, NodeV)>, key: Seq<char>, i: int)
    requires
        0 <= i < pairs.len(),
        pairs[i].0 == NodeV::Str(key),
        forall|j: int| 0 <= j < i ==> #[trigger] pairs[j].0 != NodeV::Str(key),
    ensures
        lookup(pairs, key) == Some(pairs[i].1),
    decreases pairs.len(),
{
    if i > 0 {
        lemma_lookup_found(pairs.drop_first(), key, i - 1);
    }
}

/// Tells whether `s` equals the text `lit`.
pub(crate) fn str_eq_lit(s: &String, lit: &str) -> (b: bool)
    ensures
        b == (s@ == lit@),
{
    let owned: String = lit.to_owned();
    *s == owned
}

/// Looks `key` up among `pairs` as `lookup` reads it, handing back a
/// reference to the first matching entry's value.
pub fn dict_get<'a>(pairs: &'a Vec<(Node, Node)>, key: &str) -> (r: Option<&'a Node>)
    ensures
        match r {
            Some(v) => lookup(dict_view(pairs), key@) == Some(v@),
            None => lookup(dict_view(pairs), key@) is None,
        },
{
    let ghost pv = dict_view(pairs);
    let mut i: usize = 0;
    while i < pairs.len()
        invariant
            0 <= i <= pairs.len(),
            pv == dict_view(pairs),
            forall|j: int| 0 <= j < i ==> #[trigger] pv[j].0 != NodeV::Str(key@),
        decreases pairs.len() - i,
    {
        match &pairs[i].0 {
            Node::Str(s) => {
                if str_eq_lit(s, key) {
                    proof {
                        lemma_lookup_found(pv, key@, i as int);
                    }
                    return Some(&pairs[i].1);
                }
            },
            _ => {},
        }
        proof {
            assert(pv[i as int].0 != NodeV::Str(key@));
        }
        i = i + 1;
    }
    proof {
        lemma_lookup_none(pv, key@);
    }
    None
}

/// The view of a dictionary's entry list, pair by pair.
pub open spec fn dict_view(pairs: &Vec<(Node, Node)>) -> Seq<(NodeV, NodeV)> {
    Seq::new(pairs@.len(), |i: int| (pairs@[i].0@, pairs@[i].1@))
}

/// The view of a list's nodes, in order.
pub open spec fn arr_view(items: &Vec<Node>) -> Seq<NodeV> {
    Seq::new(items@.len(), |i: int| items@[i]@)
}

#[verifier::external_type_specification]
#[verifier::external_body]
pub struct ExValue(serde_yaml::Value);

/// The document the bytes `data` parse to, or `None` where they are not a
/// well-formed document: the name for what `serde_yaml::from_slice` answers.
pub uninterp spec fn parsed_doc(data: Seq<u8>) -> Option<NodeV>;

/// Relies on `serde_yaml::Value`: each variant of the parsed value is
/// carried over to the matching `Node` variant; numbers that do not fit an
/// unsigned 64-bit integer, and tagged values, fold to `Node::Other`.
#[verifier::external_body]
fn node_of_value(v: serde_yaml::Value) -> Node {
    match v {
        serde_yaml::Value::Null => Node::Null,
        serde_yaml::Value::Bool(b) => Node::Bool(b),
        serde_yaml::Value::Number(n) => n.as_u64().map(Node::UInt).unwrap_or(Node::Other),
        serde_yaml::Value::String(s) => Node::Str(s),
        serde_yaml::Value::Sequence(items) => Node::Arr(
            items.into_iter().map(node_of_value).collect(),
        ),
        serde_yaml::Value::Mapping(m) => Node::Dict(
            m.into_iter().map(|(k, w)| (node_of_value(k), node_of_value(w))).collect(),
        ),
        serde_yaml::Value::Tagged(_) => Node::Other,
    }
}

/// Relies on `serde_yaml::from_slice`: the same bytes always parse to the
/// same document or always fail, and a mapping keeps the order its entries
/// have in the file. On failure the parser's diagnostic is handed back.
#[verifier::external_body]
pub(crate) fn parse_doc(data: &[u8]) -> (r: Result<Node, String>)
    ensures
        match r {
            Ok(n) => parsed_doc(data@) == Some(n@),
            Err(_) => parsed_doc(data@) is None,
        },
{
    match serde_yaml::from_slice::<serde_yaml::Value>(data) {
        Ok(v) => Ok(node_of_value(v)),
        Err(e) => Err(format!("{}", e)),
    }
}

} // verus!
