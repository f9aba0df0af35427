//! Documents: JSON or YAML text, read into a tree, and the tree read value
//! by value.
//!
//! The parsers and the tree are `serde_json`'s and `serde_yaml`'s. What a
//! text parses to and what a node of the tree holds is named here, not
//! defined; everything that is made of it is defined in terms of these
//! names.

use crate::error::{ErrorKind, NmstateError};
use crate::model::{opt_view, views};
use vstd::prelude::*;
use vstd::string::StringExecFns;

verus! {

/// A node of a document tree.
#[verifier::external_type_specification]
#[verifier::external_body]
pub struct ExValue(serde_json::Value);

/// The tree that a JSON text stands for, or the parser's message.
pub uninterp spec fn json_parse(text: Seq<char>) -> Result<serde_json::Value, Seq<char>>;

/// The tree that a YAML text stands for, or the parser's message.
pub uninterp spec fn yaml_parse(text: Seq<char>) -> Result<serde_json::Value, Seq<char>>;

/// Whether a node is the null node.
pub uninterp spec fn is_null_of(v: serde_json::Value) -> bool;

/// The text of a node that is a string.
pub uninterp spec fn text_of(v: serde_json::Value) -> Option<Seq<char>>;

/// The truth value of a node that is a boolean.
pub uninterp spec fn bool_of(v: serde_json::Value) -> Option<bool>;

/// The number of a node that is an integer from 0 to 2^64 - 1.
pub uninterp spec fn u64_of(v: serde_json::Value) -> Option<u64>;

/// The number of a node that is an integer from -2^63 to 2^63 - 1.
pub uninterp spec fn i64_of(v: serde_json::Value) -> Option<i64>;

/// The items of a node that is an array, in their order.
pub uninterp spec fn items_of(v: serde_json::Value) -> Option<Seq<serde_json::Value>>;

/// The members of a node that is an object, by their keys.
pub uninterp spec fn members_of(v: serde_json::Value) -> Option<Map<Seq<char>, serde_json::Value>>;

/// The keys of a node that is an object, in the order in which the object
/// gives them.
pub uninterp spec fn keys_of(v: serde_json::Value) -> Option<Seq<Seq<char>>>;

/// `serde_json::from_str` for a tree: the tree of the text, or the message
/// of the parser's error.
#[verifier::external_body]
pub(crate) fn parse_json(text: &str) -> (r: Result<serde_json::Value, String>)
    ensures
        match r {
            Ok(v) => json_parse(text@) == Ok::<serde_json::Value, Seq<char>>(v),
            Err(e) => json_parse(text@) == Err::<serde_json::Value, Seq<char>>(e@),
        },
{
    serde_json::from_str::<serde_json::Value>(text).map_err(|e| e.to_string())
}

/// `serde_yaml::from_str` for a tree: the tree of the text, or the message
/// of the parser's error.
#[verifier::external_body]
pub(crate) fn parse_yaml(text: &str) -> (r: Result<serde_json::Value, String>)
    ensures
        match r {
            Ok(v) => yaml_parse(text@) == Ok::<serde_json::Value, Seq<char>>(v),
            Err(e) => yaml_parse(text@) == Err::<serde_json::Value, Seq<char>>(e@),
        },
{
    serde_yaml::from_str::<serde_json::Value>(text).map_err(|e| e.to_string())
}

/// `serde_json::Value::is_null`.
#[verifier::external_body]
pub(crate) fn value_is_null(v: &serde_json::Value) -> (r: bool)
    ensures
        r == is_null_of(*v),
{
    v.is_null()
}

/// `serde_json::Value::as_str`: the text of a node that is a string, nothing
/// for another node.
#[verifier::external_body]
pub(crate) fn value_text(v: &serde_json::Value) -> (r: Option<&str>)
    ensures
        match r {
            Some(s) => text_of(*v) == Some(s@),
            None => text_of(*v) is None,
        },
{
    v.as_str()
}

/// `serde_json::Value::as_bool`: the truth value of a node that is a
/// boolean, nothing for another node.
#[verifier::external_body]
pub(crate) fn value_bool(v: &serde_json::Value) -> (r: Option<bool>)
    ensures
        r == bool_of(*v),
{
    v.as_bool()
}

/// `serde_json::Value::as_u64`: the number of a node that is an integer
/// without sign of at most 64 bits, nothing for another node.
#[verifier::external_body]
pub(crate) fn value_u64(v: &serde_json::Value) -> (r: Option<u64>)
    ensures
        r == u64_of(*v),
{
    v.as_u64()
}

/// `serde_json::Value::as_i64`: the number of a node that is an integer of
/// at most 64 bits with sign, nothing for another node.
#[verifier::external_body]
pub(crate) fn value_i64(v: &serde_json::Value) -> (r: Option<i64>)
    ensures
        r == i64_of(*v),
{
    v.as_i64()
}

/// `serde_json::Value::as_array`: the items of a node that is an array,
/// nothing for another node.
#[verifier::external_body]
pub(crate) fn value_items(v: &serde_json::Value) -> (r: Option<&Vec<serde_json::Value>>)
    ensures
        match r {
            Some(a) => items_of(*v) == Some(a@),
            None => items_of(*v) is None,
        },
{
    v.as_array()
}

/// `serde_json::Value::get` with a key: the member of that key, where the
/// node is an object that has one; nothing where the node is no object or
/// the object has no such key.
#[verifier::external_body]
pub(crate) fn value_member<'a>(v: &'a serde_json::Value, key: &str) -> (r: Option<
    &'a serde_json::Value,
>)
    ensures
        match r {
            Some(m) => members_of(*v) matches Some(ms) && ms.contains_key(key@) && ms[key@] == *m,
            None => members_of(*v) matches Some(ms) ==> !ms.contains_key(key@),
        },
{
    v.get(key)
}

/// `serde_json::Value::as_object` and `serde_json::Map::keys`: the keys of a
/// node that is an object, nothing for another node. The keys are those of
/// the members, each once.
#[verifier::external_body]
pub(crate) fn value_keys(v: &serde_json::Value) -> (r: Option<Vec<String>>)
    ensures
        match r {
            Some(keys) => {
                &&& keys_of(*v) == Some(views(keys@))
                &&& views(keys@).no_duplicates()
                &&& members_of(*v) matches Some(ms) && forall|k: Seq<char>|
                    ms.contains_key(k) <==> views(keys@).contains(k)
            },
            None => keys_of(*v) is None && members_of(*v) is None,
        },
{
    v.as_object().map(|m| m.keys().cloned().collect())
}

/// The JSON text of a tree, or the message of the serializer's error.
pub uninterp spec fn json_text(v: serde_json::Value) -> Result<Seq<char>, Seq<char>>;

/// The YAML text of a tree, or the message of the serializer's error.
pub uninterp spec fn yaml_text(v: serde_json::Value) -> Result<Seq<char>, Seq<char>>;

/// `serde_json::to_string` of a tree: its JSON text, or the message of the
/// serializer's error.
#[verifier::external_body]
pub(crate) fn value_json_text(v: &serde_json::Value) -> (r: Result<String, String>)
    ensures
        match r {
            Ok(t) => json_text(*v) == Ok::<Seq<char>, Seq<char>>(t@),
            Err(e) => json_text(*v) == Err::<Seq<char>, Seq<char>>(e@),
        },
{
    serde_json::to_string(v).map_err(|e| e.to_string())
}

/// `serde_yaml::to_string` of a tree: its YAML text, or the message of the
/// serializer's error.
#[verifier::external_body]
pub(crate) fn value_yaml_text(v: &serde_json::Value) -> (r: Result<String, String>)
    ensures
        match r {
            Ok(t) => yaml_text(*v) == Ok::<Seq<char>, Seq<char>>(t@),
            Err(e) => yaml_text(*v) == Err::<Seq<char>, Seq<char>>(e@),
        },
{
    serde_yaml::to_string(v).map_err(|e| e.to_string())
}

/// `serde_json::Value::Null`: the null node.
#[verifier::external_body]
pub(crate) fn null_node() -> (r: serde_json::Value)
    ensures
        is_null_of(r),
{
    serde_json::Value::Null
}

/// `serde_json::Value::from` a string: the node of that text.
#[verifier::external_body]
pub(crate) fn text_node(s: &str) -> (r: serde_json::Value)
    ensures
        text_of(r) == Some(s@),
        !is_null_of(r),
{
    serde_json::Value::from(s)
}

/// `serde_json::Value::from` a boolean: the node of that truth value.
#[verifier::external_body]
pub(crate) fn bool_node(b: bool) -> (r: serde_json::Value)
    ensures
        bool_of(r) == Some(b),
        !is_null_of(r),
{
    serde_json::Value::from(b)
}

/// `serde_json::Value::from` an integer without sign: the node of that
/// number.
#[verifier::external_body]
pub(crate) fn u64_node(n: u64) -> (r: serde_json::Value)
    ensures
        u64_of(r) == Some(n),
        !is_null_of(r),
{
    serde_json::Value::from(n)
}

/// `serde_json::Value::from` an integer with sign: the node of that number.
#[verifier::external_body]
pub(crate) fn i64_node(n: i64) -> (r: serde_json::Value)
    ensures
        i64_of(r) == Some(n),
        !is_null_of(r),
{
    serde_json::Value::from(n)
}

/// `serde_json::Value::Array`: the array of the given items.
#[verifier::external_body]
pub(crate) fn list_node(items: Vec<serde_json::Value>) -> (r: serde_json::Value)
    ensures
        items_of(r) == Some(items@),
        !is_null_of(r),
{
    serde_json::Value::Array(items)
}

/// `serde_json::Map::new` in a `serde_json::Value::Object`: the object
/// without members.
#[verifier::external_body]
pub(crate) fn empty_object() -> (r: serde_json::Value)
    ensures
        members_of(r) == Some(Map::<Seq<char>, serde_json::Value>::empty()),
        keys_of(r) == Some(Seq::<Seq<char>>::empty()),
        !is_null_of(r),
{
    serde_json::Value::Object(serde_json::Map::new())
}

/// `serde_json::Map::insert` on the map of an object: the object with the
/// member `node` under `key`, in place of the member that it had there, if
/// any. Its keys are those of its members, each once. A node that is no
/// object comes back as it is.
#[verifier::external_body]
pub(crate) fn with_member(obj: serde_json::Value, key: &str, node: serde_json::Value) -> (r:
    serde_json::Value)
    ensures
        members_of(obj) is None ==> r == obj,
        members_of(obj) is Some ==> members_of(r) == Some(
            members_of(obj)->0.insert(key@, node),
        ),
        members_of(obj) is Some ==> !is_null_of(r),
        members_of(obj) is Some ==> keys_of(r) is Some && keys_of(r)->0.no_duplicates(),
        members_of(obj) is Some ==> (forall|k: Seq<char>|
            keys_of(r)->0.contains(k) <==> members_of(obj)->0.insert(key@, node).contains_key(k)),
{
    let mut obj = obj;
    if let serde_json::Value::Object(m) = &mut obj {
        m.insert(key.to_string(), node);
    }
    obj
}

/// An error of the class of the malformed documents.
pub fn invalid(msg: String) -> (e: NmstateError)
    ensures
        e@.kind == ErrorKind::InvalidArgument,
        e@.msg == msg@,
{
    NmstateError::new(ErrorKind::InvalidArgument, msg)
}

/// Whether the two texts are the same.
pub fn same_text(a: &str, b: &str) -> (r: bool)
    ensures
        r == (a@ == b@),
{
    String::from_str(a) == String::from_str(b)
}

/// A value that a node of a document can stand for.
pub trait Decode: View + Sized {
    /// What the node stands for, if it stands for a value of this type.
    spec fn decoded(v: serde_json::Value) -> Option<Self::V>;

    /// Reads the node.
    fn decode(v: &serde_json::Value) -> (r: Result<Self, NmstateError>)
        ensures
            match r {
                Ok(x) => Self::decoded(*v) == Some(x@),
                Err(e) => Self::decoded(*v) is None && e@.kind == ErrorKind::InvalidArgument,
            },
    ;
}

impl Decode for String {
    open spec fn decoded(v: serde_json::Value) -> Option<Seq<char>> {
        text_of(v)
    }

    fn decode(v: &serde_json::Value) -> (r: Result<Self, NmstateError>) {
        match value_text(v) {
            Some(s) => Ok(String::from_str(s)),
            None => Err(invalid(String::from_str("a string is expected"))),
        }
    }
}

impl Decode for bool {
    open spec fn decoded(v: serde_json::Value) -> Option<bool> {
        bool_of(v)
    }

    fn decode(v: &serde_json::Value) -> (r: Result<Self, NmstateError>) {
        match value_bool(v) {
            Some(b) => Ok(b),
            None => Err(invalid(String::from_str("a boolean is expected"))),
        }
    }
}

impl Decode for u64 {
    open spec fn decoded(v: serde_json::Value) -> Option<u64> {
        u64_of(v)
    }

    fn decode(v: &serde_json::Value) -> (r: Result<Self, NmstateError>) {
        match value_u64(v) {
            Some(n) => Ok(n),
            None => Err(invalid(String::from_str("an unsigned integer is expected"))),
        }
    }
}

impl Decode for u32 {
    open spec fn decoded(v: serde_json::Value) -> Option<u32> {
        match u64_of(v) {
            Some(n) => if n <= u32::MAX {
                Some(n as u32)
            } else {
                None
            },
            None => None,
        }
    }

    fn decode(v: &serde_json::Value) -> (r: Result<Self, NmstateError>) {
        match value_u64(v) {
            Some(n) => if n <= 0xffff_ffff {
                Ok(n as u32)
            } else {
                Err(invalid(String::from_str("the integer does not fit 32 bits")))
            },
            None => Err(invalid(String::from_str("an unsigned integer is expected"))),
        }
    }
}

impl Decode for i64 {
    open spec fn decoded(v: serde_json::Value) -> Option<i64> {
        i64_of(v)
    }

    fn decode(v: &serde_json::Value) -> (r: Result<Self, NmstateError>) {
        match value_i64(v) {
            Some(n) => Ok(n),
            None => Err(invalid(String::from_str("an integer is expected"))),
        }
    }
}

/// The member of that key, where the node is an object that has one and the
/// member is not null.
pub open spec fn member_of(v: serde_json::Value, key: Seq<char>) -> Option<serde_json::Value> {
    match members_of(v) {
        Some(ms) => if ms.contains_key(key) && !is_null_of(ms[key]) {
            Some(ms[key])
        } else {
            None
        },
        None => None,
    }
}

/// The node is an object, and each of its keys is one of `known`.
pub open spec fn only_keys(v: serde_json::Value, known: Seq<Seq<char>>) -> bool {
    members_of(v) matches Some(ms) && forall|k: Seq<char>|
        ms.contains_key(k) ==> known.contains(k)
}

/// The value under a key that may be missing: nothing where the member is
/// missing or null, the value that the member stands for, or `None` where the
/// member stands for no value of the type.
pub open spec fn opt_field_of<T: Decode>(v: serde_json::Value, key: Seq<char>) -> Option<
    Option<T::V>,
> {
    match member_of(v, key) {
        Some(m) => match T::decoded(m) {
            Some(x) => Some(Some(x)),
            None => None,
        },
        None => Some(None),
    }
}

/// The value under a key that must be there.
pub open spec fn req_field_of<T: Decode>(v: serde_json::Value, key: Seq<char>) -> Option<T::V> {
    match member_of(v, key) {
        Some(m) => T::decoded(m),
        None => None,
    }
}

/// The values that the items of an array stand for, or `None` where the node
/// is no array or an item stands for no value of the type.
pub open spec fn decoded_list<T: Decode>(v: serde_json::Value) -> Option<Seq<T::V>> {
    match items_of(v) {
        Some(items) => if forall|i: int|
            0 <= i < items.len() ==> (#[trigger] T::decoded(items[i])) is Some {
            Some(Seq::new(items.len(), |i: int| T::decoded(items[i])->0))
        } else {
            None
        },
        None => None,
    }
}

/// The list under a key that may be missing.
pub open spec fn opt_list_of<T: Decode>(v: serde_json::Value, key: Seq<char>) -> Option<
    Option<Seq<T::V>>,
> {
    match member_of(v, key) {
        Some(m) => match decoded_list::<T>(m) {
            Some(x) => Some(Some(x)),
            None => None,
        },
        None => Some(None),
    }
}

/// The member of that key, where the node is an object that has one and the
/// member is not null.
pub fn member<'a>(v: &'a serde_json::Value, key: &str) -> (r: Option<&'a serde_json::Value>)
    ensures
        match r {
            Some(m) => member_of(*v, key@) == Some(*m),
            None => member_of(*v, key@) is None,
        },
{
    match value_member(v, key) {
        Some(m) => if value_is_null(m) {
            None
        } else {
            Some(m)
        },
        None => None,
    }
}

/// Whether `name` is one of the texts of `list`.
pub fn text_among(list: &Vec<&str>, name: &str) -> (r: bool)
    ensures
        r == views(list@).contains(name@),
{
    let mut i: usize = 0;
    while i < list.len()
        invariant
            i <= list.len(),
            forall|k: int| 0 <= k < i ==> list@[k]@ != name@,
        decreases list.len() - i,
    {
        if same_text(list[i], name) {
            assert(views(list@)[i as int] == name@);
            return true;
        }
        i += 1;
    }
    false
}

/// Refuses a node that is no object, and an object with a key that is not
/// one of `known`.
pub fn check_keys(v: &serde_json::Value, known: &Vec<&str>) -> (r: Result<(), NmstateError>)
    ensures
        match r {
            Ok(_) => only_keys(*v, views(known@)),
            Err(e) => !only_keys(*v, views(known@)) && e@.kind == ErrorKind::InvalidArgument,
        },
{
    match value_keys(v) {
        Some(keys) => {
            let mut i: usize = 0;
            while i < keys.len()
                invariant
                    i <= keys.len(),
                    members_of(*v) is Some,
                    forall|k: Seq<char>|
                        members_of(*v)->0.contains_key(k) <==> views(keys@).contains(k),
                    forall|j: int| 0 <= j < i ==> views(known@).contains(#[trigger] keys@[j]@),
                decreases keys.len() - i,
            {
                if !text_among(known, keys[i].as_str()) {
                    assert(views(keys@)[i as int] == keys@[i as int]@);
                    assert(views(keys@).contains(keys@[i as int]@));
                    let msg = String::from_str("unknown field `").concat(keys[i].as_str()).concat(
                        "`",
                    );
                    return Err(invalid(msg));
                }
                i += 1;
            }
            assert forall|k: Seq<char>| members_of(*v)->0.contains_key(k) implies views(
                known@,
            ).contains(k) by {
                let j = choose|j: int| 0 <= j < views(keys@).len() && views(keys@)[j] == k;
                assert(views(known@).contains(keys@[j]@));
            }
            Ok(())
        },
        None => Err(invalid(String::from_str("a mapping is expected"))),
    }
}

/// Reads the value under a key that may be missing.
pub fn opt_field<T: Decode>(v: &serde_json::Value, key: &str) -> (r: Result<
    Option<T>,
    NmstateError,
>)
    ensures
        match r {
            Ok(o) => opt_field_of::<T>(*v, key@) == Some(opt_view(o)),
            Err(e) => opt_field_of::<T>(*v, key@) is None && e@.kind == ErrorKind::InvalidArgument,
        },
{
    match member(v, key) {
        Some(m) => match T::decode(m) {
            Ok(x) => Ok(Some(x)),
            Err(e) => Err(in_field(key, e)),
        },
        None => Ok(None),
    }
}

/// Reads the value under a key that must be there.
pub fn req_field<T: Decode>(v: &serde_json::Value, key: &str) -> (r: Result<T, NmstateError>)
    ensures
        match r {
            Ok(x) => req_field_of::<T>(*v, key@) == Some(x@),
            Err(e) => req_field_of::<T>(*v, key@) is None && e@.kind == ErrorKind::InvalidArgument,
        },
{
    match member(v, key) {
        Some(m) => match T::decode(m) {
            Ok(x) => Ok(x),
            Err(e) => Err(in_field(key, e)),
        },
        None => Err(invalid(String::from_str("missing field `").concat(key).concat("`"))),
    }
}

/// Reads the items of an array.
pub fn decode_list<T: Decode>(v: &serde_json::Value) -> (r: Result<Vec<T>, NmstateError>)
    ensures
        match r {
            Ok(l) => decoded_list::<T>(*v) == Some(views(l@)),
            Err(e) => decoded_list::<T>(*v) is None && e@.kind == ErrorKind::InvalidArgument,
        },
{
    match value_items(v) {
        Some(items) => {
            let mut out: Vec<T> = Vec::new();
            let mut i: usize = 0;
            while i < items.len()
                invariant
                    i <= items.len(),
                    items_of(*v) == Some(items@),
                    out@.len() == i,
                    forall|k: int|
                        0 <= k < i ==> (#[trigger] T::decoded(items@[k])) == Some(out@[k]@),
                decreases items.len() - i,
            {
                match T::decode(&items[i]) {
                    Ok(x) => {
                        out.push(x);
                    },
                    Err(e) => {
                        assert(T::decoded(items@[i as int]) is None);
                        return Err(e);
                    },
                }
                i += 1;
            }
            assert(views(out@) =~= Seq::new(items@.len(), |i: int| T::decoded(items@[i])->0));
            Ok(out)
        },
        None => Err(invalid(String::from_str("a sequence is expected"))),
    }
}

/// Reads the list under a key that may be missing.
pub fn opt_list<T: Decode>(v: &serde_json::Value, key: &str) -> (r: Result<
    Option<Vec<T>>,
    NmstateError,
>)
    ensures
        match r {
            Ok(o) => opt_list_of::<T>(*v, key@) == Some(crate::model::opt_views(o)),
            Err(e) => opt_list_of::<T>(*v, key@) is None && e@.kind == ErrorKind::InvalidArgument,
        },
{
    match member(v, key) {
        Some(m) => match decode_list::<T>(m) {
            Ok(x) => Ok(Some(x)),
            Err(e) => Err(in_field(key, e)),
        },
        None => Ok(None),
    }
}

/// The error `e`, with the key under which it arose put before its message.
pub fn in_field(key: &str, e: NmstateError) -> (r: NmstateError)
    ensures
        r@.kind == e@.kind,
        r@.msg == key@ + ": "@ + e@.msg,
{
    let msg = String::from_str(key).concat(": ").concat(e.msg());
    NmstateError::new(e.kind(), msg)
}

} // verus!
