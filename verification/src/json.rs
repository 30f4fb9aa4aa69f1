//! JSON documents as the provider sends them.
//!
//! Documents are parsed and held by `serde_json`. Verified code never looks
//! inside a `serde_json::Value`; it reads one through the accessors below,
//! whose contracts are stated over [`JsonTree`], the mathematical shape of a
//! document.

use crate::outcome::LookupFailure;
use vstd::prelude::*;

verus! {

/// The shape of a JSON document.
///
/// Numbers carry no payload: no lookup reads one.
pub enum JsonTree {
    Null,
    Bool(bool),
    Number,
    Text(Seq<char>),
    Array(Seq<JsonTree>),
    Object(Map<Seq<char>, JsonTree>),
}

impl JsonTree {
    /// The member stored under `key`, if this is an object that has one.
    pub open spec fn member(self, key: Seq<char>) -> Option<JsonTree> {
        match self {
            JsonTree::Object(members) => if members.dom().contains(key) {
                Some(members[key])
            } else {
                None
            },
            _ => None,
        }
    }

    /// The characters of this value, if it is a string.
    pub open spec fn text(self) -> Option<Seq<char>> {
        match self {
            JsonTree::Text(chars) => Some(chars),
            _ => None,
        }
    }

    /// The elements of this value, if it is an array.
    pub open spec fn items(self) -> Option<Seq<JsonTree>> {
        match self {
            JsonTree::Array(elements) => Some(elements),
            _ => None,
        }
    }
}

/// Trusted: `serde_json::Value`, a parsed document. Nothing inside it is
/// visible to verified code.
#[verifier::external_type_specification]
#[verifier::external_body]
pub struct ExJsonValue(serde_json::Value);

/// Trusted: `serde_json::Error`, the reason why a body was rejected. It is
/// never read.
#[verifier::external_type_specification]
#[verifier::external_body]
pub struct ExJsonError(serde_json::Error);

/// The document that a `serde_json::Value` holds.
pub uninterp spec fn tree_of(value: serde_json::Value) -> JsonTree;

/// The document that `serde_json` reads from `body`, or `None` where it
/// rejects `body`.
pub uninterp spec fn decoded(body: Seq<u8>) -> Option<JsonTree>;

/// The trees of a run of values, in order.
pub open spec fn trees_of(values: Seq<serde_json::Value>) -> Seq<JsonTree> {
    Seq::new(values.len(), |i: int| tree_of(values[i]))
}

/// Trusted: `serde_json::from_slice` at type `Value`.
///
/// Parsing depends on the bytes alone. The contract names what it yields
/// [`decoded`] and claims nothing else of it.
#[verifier::external_body]
pub(crate) fn from_slice(body: &[u8]) -> (parsed: Result<serde_json::Value, serde_json::Error>)
    ensures
        match parsed {
            Ok(value) => decoded(body@) == Some(tree_of(value)),
            Err(_) => decoded(body@) is None,
        },
{
    serde_json::from_slice(body)
}

/// Trusted: `serde_json::Value::as_array`.
///
/// An array hands out its elements, in order; any other value gives `None`.
#[verifier::external_body]
pub(crate) fn as_array(value: &serde_json::Value) -> (elements: Option<&Vec<serde_json::Value>>)
    ensures
        match elements {
            Some(found) => tree_of(*value).items() == Some(trees_of(found@)),
            None => tree_of(*value).items() is None,
        },
{
    value.as_array()
}

/// Trusted: `serde_json::Value::as_str`.
///
/// A string hands out its characters; any other value gives `None`.
#[verifier::external_body]
pub(crate) fn as_str(value: &serde_json::Value) -> (chars: Option<&str>)
    ensures
        match chars {
            Some(found) => tree_of(*value).text() == Some(found@),
            None => tree_of(*value).text() is None,
        },
{
    value.as_str()
}

/// Trusted: `serde_json::Value::get` with a string key.
///
/// An object hands out the member stored under `key`, if it has one; an
/// object without that key, and any value that is no object, gives `None`.
#[verifier::external_body]
pub(crate) fn get<'a>(value: &'a serde_json::Value, key: &str) -> (found: Option<&'a serde_json::Value>)
    ensures
        match found {
            Some(inner) => tree_of(*value).member(key@) == Some(tree_of(*inner)),
            None => tree_of(*value).member(key@) is None,
        },
{
    value.get(key)
}

/// One answer of the provider, not yet examined.
pub struct RawEntry {
    root: serde_json::Value,
}

impl View for RawEntry {
    type V = JsonTree;

    closed spec fn view(&self) -> JsonTree {
        tree_of(self.root)
    }
}

impl RawEntry {
    /// Wraps a document that was parsed elsewhere.
    pub fn from_value(root: serde_json::Value) -> (entry: RawEntry)
        ensures
            entry@ == tree_of(root),
    {
        RawEntry { root }
    }

    /// Reads the body of a response.
    ///
    /// A body that is not JSON counts as a failed fetch.
    pub fn parse(body: &[u8]) -> (entry: Result<RawEntry, LookupFailure>)
        ensures
            match decoded(body@) {
                Some(tree) => entry matches Ok(read) && read@ == tree,
                None => entry matches Err(failure) && failure == LookupFailure::Network,
            },
    {
        match from_slice(body) {
            Ok(root) => Ok(RawEntry { root }),
            Err(_) => Err(LookupFailure::Network),
        }
    }

    /// The document itself.
    pub fn root(&self) -> (root: &serde_json::Value)
        ensures
            tree_of(*root) == self@,
    {
        &self.root
    }
}

} // verus!
