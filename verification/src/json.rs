//! JSON values of `serde_json`, and what this crate believes of them.
//!
//! Reading and printing JSON text is left to `serde_json`. A value of its
//! `Value` type is opaque to the verifier; this module gives it a
//! mathematical reading, [`JsonTree`], and states for each `serde_json`
//! function the crate calls how its result relates to that reading. None of
//! these statements is proved: they are the assumptions the rest of the crate
//! stands on.
//!
//! `serde_json` is built with its `preserve_order` feature: an object keeps
//! its members in the order in which they were inserted, and prints them in
//! that order.

use vstd::prelude::*;

verus! {

/// A JSON document as a tree.
///
/// The members of an object are kept in document order, since that is the
/// order in which they are printed.
pub ghost enum JsonTree {
    Null,
    Bool(bool),
    /// A number, by the digits `serde_json` prints for it.
    Number(Seq<char>),
    Text(Seq<char>),
    List(Seq<JsonTree>),
    Dict(Seq<(Seq<char>, JsonTree)>),
}

/// The value of the first member of `members` named `key`, if there is one.
pub open spec fn first_named(members: Seq<(Seq<char>, JsonTree)>, key: Seq<char>) -> Option<
    JsonTree,
>
    decreases members.len(),
{
    if members.len() == 0 {
        None
    } else if members[0].0 == key {
        Some(members[0].1)
    } else {
        first_named(members.drop_first(), key)
    }
}

/// Whether no two members share a name.
pub open spec fn distinct_names(members: Seq<(Seq<char>, JsonTree)>) -> bool {
    forall|i: int, j: int|
        0 <= i < j < members.len() ==> (#[trigger] members[i]).0 != (#[trigger] members[j]).0
}

/// Among members with different names, each is the first of its name.
pub proof fn lemma_first_named_of_distinct(members: Seq<(Seq<char>, JsonTree)>, i: int)
    requires
        distinct_names(members),
        0 <= i < members.len(),
    ensures
        first_named(members, members[i].0) == Some(members[i].1),
    decreases i,
{
    if i > 0 {
        let rest = members.drop_first();
        assert forall|a: int, b: int| 0 <= a < b < rest.len() implies (#[trigger] rest[a]).0 != (
        #[trigger] rest[b]).0 by {
            assert(rest[a] == members[a + 1]);
            assert(rest[b] == members[b + 1]);
        }
        lemma_first_named_of_distinct(rest, i - 1);
    }
}

impl JsonTree {
    /// The member `key` of an object; `None` for a missing member and for
    /// anything that is not an object.
    pub open spec fn member(self, key: Seq<char>) -> Option<JsonTree> {
        match self {
            JsonTree::Dict(members) => first_named(members, key),
            _ => None,
        }
    }
}

/// `serde_json::Value`, a JSON value; nothing of its inside is visible to
/// the verifier.
#[verifier::external_type_specification]
#[verifier::external_body]
pub struct ExValue(serde_json::Value);

/// `serde_json::Error`, the error of the JSON reader and printer; the crate
/// only passes it on.
#[verifier::external_type_specification]
#[verifier::external_body]
pub struct ExError(serde_json::Error);

/// The tree that a `serde_json::Value` holds.
pub uninterp spec fn tree_of(v: serde_json::Value) -> JsonTree;

/// The tree that `serde_json` reads from a text, if it accepts the text.
pub uninterp spec fn parsed_tree(text: Seq<char>) -> Option<JsonTree>;

/// The text that `serde_json` pretty-prints for a tree, if it prints one.
pub uninterp spec fn pretty_text(tree: JsonTree) -> Option<Seq<char>>;

/// The trees of a vector of values, in order.
pub open spec fn trees_of(items: Seq<serde_json::Value>) -> Seq<JsonTree> {
    items.map_values(|v: serde_json::Value| tree_of(v))
}

/// The members that a vector of named values stands for, in order.
pub open spec fn members_of(entries: Seq<(String, serde_json::Value)>) -> Seq<
    (Seq<char>, JsonTree),
> {
    entries.map_values(|e: (String, serde_json::Value)| (e.0@, tree_of(e.1)))
}

/// `Value::is_null`: true exactly for the null value.
pub assume_specification[ serde_json::Value::is_null ](v: &serde_json::Value) -> (r: bool)
    ensures
        r == (tree_of(*v) is Null),
;

/// `Value::is_object`: true exactly for an object value.
pub assume_specification[ serde_json::Value::is_object ](v: &serde_json::Value) -> (r: bool)
    ensures
        r == (tree_of(*v) is Dict),
;

/// `Value::as_bool`: the boolean of a boolean value, `None` for any other.
pub assume_specification[ serde_json::Value::as_bool ](v: &serde_json::Value) -> (r: Option<bool>)
    ensures
        r == match tree_of(*v) {
            JsonTree::Bool(b) => Some(b),
            _ => None,
        },
;

/// `Value::as_str`: the text of a string value, `None` for any other.
pub assume_specification[ serde_json::Value::as_str ](v: &serde_json::Value) -> (r: Option<&str>)
    ensures
        match r {
            Some(s) => tree_of(*v) == JsonTree::Text(s@),
            None => !(tree_of(*v) is Text),
        },
;

/// `Value::as_array`: the elements of an array value, `None` for any other.
pub assume_specification[ serde_json::Value::as_array ](v: &serde_json::Value) -> (r: Option<
    &Vec<serde_json::Value>,
>)
    ensures
        match r {
            Some(items) => tree_of(*v) == JsonTree::List(trees_of(items@)),
            None => !(tree_of(*v) is List),
        },
;

/// `Value::get` with a string index: the member of that name of an object
/// value; `None` where there is no such member or the value is no object.
#[verifier::external_body]
pub(crate) fn member<'a>(v: &'a serde_json::Value, key: &str) -> (r: Option<&'a serde_json::Value>)
    ensures
        match r {
            Some(m) => tree_of(*v).member(key@) == Some(tree_of(*m)),
            None => tree_of(*v).member(key@) is None,
        },
{
    v.get(key)
}

/// `serde_json::from_str` at type `Value`: the value read from a JSON text,
/// or the error for a text that is not one JSON document. The empty text is
/// never accepted.
#[verifier::external_body]
pub(crate) fn parse_value(text: &str) -> (r: Result<serde_json::Value, serde_json::Error>)
    ensures
        match r {
            Ok(v) => parsed_tree(text@) == Some(tree_of(v)),
            Err(_) => parsed_tree(text@) is None,
        },
        text@.len() == 0 ==> r is Err,
{
    serde_json::from_str::<serde_json::Value>(text)
}

/// `serde_json::to_string_pretty` on a `Value`: the pretty-printed text of
/// the value's tree, or the error where the printer gives none.
#[verifier::external_body]
pub(crate) fn render_pretty(v: &serde_json::Value) -> (r: Result<String, serde_json::Error>)
    ensures
        match r {
            Ok(s) => pretty_text(tree_of(*v)) == Some(s@),
            Err(_) => pretty_text(tree_of(*v)) is None,
        },
{
    serde_json::to_string_pretty(v)
}

/// `Value::Null`.
#[verifier::external_body]
pub(crate) fn null_value() -> (v: serde_json::Value)
    ensures
        tree_of(v) == JsonTree::Null,
{
    serde_json::Value::Null
}

/// `Value::Bool`.
#[verifier::external_body]
pub(crate) fn bool_value(b: bool) -> (v: serde_json::Value)
    ensures
        tree_of(v) == JsonTree::Bool(b),
{
    serde_json::Value::Bool(b)
}

/// `Value::String`.
#[verifier::external_body]
pub(crate) fn text_value(s: String) -> (v: serde_json::Value)
    ensures
        tree_of(v) == JsonTree::Text(s@),
{
    serde_json::Value::String(s)
}

/// `Value::Array`: the array of the given elements, in order.
#[verifier::external_body]
pub(crate) fn list_value(items: Vec<serde_json::Value>) -> (v: serde_json::Value)
    ensures
        tree_of(v) == JsonTree::List(trees_of(items@)),
{
    serde_json::Value::Array(items)
}

/// `Value::from_iter` on pairs of a name and a value, which collects them
/// into an object: with names that are all different, the object holds the
/// pairs as its members, in the order given.
#[verifier::external_body]
pub(crate) fn dict_value(entries: Vec<(String, serde_json::Value)>) -> (v: serde_json::Value)
    requires
        distinct_names(members_of(entries@)),
    ensures
        tree_of(v) == JsonTree::Dict(members_of(entries@)),
{
    serde_json::Value::from_iter(entries)
}

} // verus!
