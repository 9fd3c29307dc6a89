//! JSON values through serde_json: the tree that a `serde_json::Value`
//! holds, parsing and building values, and reading an object's members
//! with the meaning that a derived deserializer gives to required and
//! optional fields.

use vstd::prelude::*;
use serde_json::Value;

verus! {

#[verifier::external_type_specification]
#[verifier::external_body]
pub struct ExValue(serde_json::Value);

/// A JSON number as serde_json keeps it: a non-negative integer, a negative
/// integer, or a float, the latter known by the text serde_json writes for it.
pub enum JsonNumber {
    PosInt(u64),
    NegInt(i64),
    Float(Seq<char>),
}

/// The tree of a JSON value.
pub enum JsonTree {
    Null,
    Bool(bool),
    Number(JsonNumber),
    Str(Seq<char>),
    Array(Seq<JsonTree>),
    Object(Map<Seq<char>, JsonTree>),
}

/// The tree that a `serde_json::Value` holds.
pub uninterp spec fn json_tree(v: serde_json::Value) -> JsonTree;

/// What `serde_json::from_slice` makes of a byte string: `None` where it
/// reports an error.
pub uninterp spec fn json_text_tree(b: Seq<u8>) -> Option<JsonTree>;

pub open spec fn trees(s: Seq<Value>) -> Seq<JsonTree> {
    s.map_values(|x: Value| json_tree(x))
}

/// Relies on `serde_json::from_slice`: a value exactly where the bytes are
/// one JSON text, and then the tree it denotes.
#[verifier::external_body]
pub fn parse_json(b: &[u8]) -> (r: Option<Value>)
    ensures
        r is Some <==> json_text_tree(b@) is Some,
        r matches Some(v) ==> json_tree(v) == json_text_tree(b@)->Some_0,
{
    serde_json::from_slice::<Value>(b).ok()
}

/// Relies on `Value::as_str`: the text of a string value.
pub assume_specification<'a>[ serde_json::Value::as_str ](v: &'a Value) -> (r: Option<&'a str>)
    ensures
        match json_tree(*v) {
            JsonTree::Str(s) => r matches Some(t) && t@ == s,
            _ => r is None,
        },
;

/// Relies on `Value::as_array`: the elements of an array value.
pub assume_specification<'a>[ serde_json::Value::as_array ](v: &'a Value) -> (r: Option<&'a Vec<Value>>)
    ensures
        match json_tree(*v) {
            JsonTree::Array(s) => r matches Some(a) && trees(a@) == s,
            _ => r is None,
        },
;

/// Relies on `Value::as_u64`: the integer of a number held as a
/// non-negative integer.
pub assume_specification[ serde_json::Value::as_u64 ](v: &Value) -> (r: Option<u64>)
    ensures
        match json_tree(*v) {
            JsonTree::Number(JsonNumber::PosInt(n)) => r == Some(n),
            _ => r is None,
        },
;

/// Relies on `Value::as_bool`: the boolean of a boolean value.
pub assume_specification[ serde_json::Value::as_bool ](v: &Value) -> (r: Option<bool>)
    ensures
        match json_tree(*v) {
            JsonTree::Bool(b) => r == Some(b),
            _ => r is None,
        },
;

/// Relies on `Value::is_object`.
pub assume_specification[ serde_json::Value::is_object ](v: &Value) -> (r: bool)
    ensures
        r == (json_tree(*v) is Object),
;

/// Relies on `Value::is_null`.
pub assume_specification[ serde_json::Value::is_null ](v: &Value) -> (r: bool)
    ensures
        r == (json_tree(*v) is Null),
;

/// The member `k` of an object.
pub open spec fn member_of(t: JsonTree, k: Seq<char>) -> Option<JsonTree> {
    match t {
        JsonTree::Object(m) => if m.contains_key(k) {
            Some(m[k])
        } else {
            None
        },
        _ => None,
    }
}

/// Relies on `Value::get` with a `&str` index: the member of that name of
/// an object value, `None` for a missing member or a value of another kind.
#[verifier::external_body]
pub fn member<'a>(v: &'a Value, k: &str) -> (r: Option<&'a Value>)
    ensures
        match member_of(json_tree(*v), k@) {
            Some(t) => r matches Some(c) && json_tree(*c) == t,
            None => r is None,
        },
{
    v.get(k)
}

/// Relies on `Value::String`: a string value.
#[verifier::external_body]
pub fn string_value(s: String) -> (r: Value)
    ensures
        json_tree(r) == JsonTree::Str(s@),
{
    Value::String(s)
}

/// Relies on `Value::Bool`: a boolean value.
#[verifier::external_body]
pub fn bool_value(b: bool) -> (r: Value)
    ensures
        json_tree(r) == JsonTree::Bool(b),
{
    Value::Bool(b)
}

/// Relies on `Value::from(u64)`: a number held as a non-negative integer.
#[verifier::external_body]
pub fn uint_value(n: u64) -> (r: Value)
    ensures
        json_tree(r) == JsonTree::Number(JsonNumber::PosInt(n)),
{
    Value::from(n)
}

/// Relies on `Value::Array`: an array of the given elements, in order.
#[verifier::external_body]
pub fn array_value(items: Vec<Value>) -> (r: Value)
    ensures
        json_tree(r) == JsonTree::Array(trees(items@)),
{
    Value::Array(items)
}

/// The members that a list of distinct names and values makes.
pub open spec fn members_map(entries: Seq<(String, Value)>) -> Map<Seq<char>, JsonTree>
    decreases entries.len(),
{
    if entries.len() == 0 {
        Map::empty()
    } else {
        members_map(entries.drop_last()).insert(entries.last().0@, json_tree(entries.last().1))
    }
}

pub open spec fn distinct_names(entries: Seq<(String, Value)>) -> bool {
    forall|i: int, j: int|
        0 <= i < j < entries.len() ==> (#[trigger] entries[i]).0@ != (#[trigger] entries[j]).0@
}

/// Relies on collecting name and value pairs into a `Value::Object`: with
/// distinct names, an object of exactly those members.
#[verifier::external_body]
pub fn object_value(entries: Vec<(String, Value)>) -> (r: Value)
    requires
        distinct_names(entries@),
    ensures
        json_tree(r) == JsonTree::Object(members_map(entries@)),
{
    Value::Object(entries.into_iter().collect())
}

// Reading members as a derived deserializer reads struct fields: a required
// field must be present with a value of its type; an optional one may be
// missing or `null`. The outer `None` of each reader means that the member
// does not fit, which makes the whole value fail to decode.

pub open spec fn is_absent(o: Option<JsonTree>) -> bool {
    o is None || o == Some(JsonTree::Null)
}

pub open spec fn text_of(o: Option<JsonTree>) -> Option<Seq<char>> {
    match o {
        Some(JsonTree::Str(s)) => Some(s),
        _ => None,
    }
}

pub open spec fn req_text(t: JsonTree, k: Seq<char>) -> Option<Seq<char>> {
    text_of(member_of(t, k))
}

pub open spec fn opt_text(t: JsonTree, k: Seq<char>) -> Option<Option<Seq<char>>> {
    let o = member_of(t, k);
    if is_absent(o) {
        Some(None)
    } else {
        match text_of(o) {
            Some(s) => Some(Some(s)),
            None => None,
        }
    }
}

pub open spec fn uint_of(o: Option<JsonTree>, max: u64) -> Option<u64> {
    match o {
        Some(JsonTree::Number(JsonNumber::PosInt(n))) => if n <= max {
            Some(n)
        } else {
            None
        },
        _ => None,
    }
}

pub open spec fn req_uint(t: JsonTree, k: Seq<char>, max: u64) -> Option<u64> {
    uint_of(member_of(t, k), max)
}

pub open spec fn opt_uint(t: JsonTree, k: Seq<char>, max: u64) -> Option<Option<u64>> {
    let o = member_of(t, k);
    if is_absent(o) {
        Some(None)
    } else {
        match uint_of(o, max) {
            Some(n) => Some(Some(n)),
            None => None,
        }
    }
}

pub open spec fn req_bool(t: JsonTree, k: Seq<char>) -> Option<bool> {
    match member_of(t, k) {
        Some(JsonTree::Bool(b)) => Some(b),
        _ => None,
    }
}

pub open spec fn req_items(t: JsonTree, k: Seq<char>) -> Option<Seq<JsonTree>> {
    match member_of(t, k) {
        Some(JsonTree::Array(s)) => Some(s),
        _ => None,
    }
}

pub open spec fn opt_items(t: JsonTree, k: Seq<char>) -> Option<Option<Seq<JsonTree>>> {
    let o = member_of(t, k);
    if is_absent(o) {
        Some(None)
    } else {
        match o {
            Some(JsonTree::Array(s)) => Some(Some(s)),
            _ => None,
        }
    }
}

pub open spec fn text_view(o: Option<String>) -> Option<Seq<char>> {
    match o {
        Some(s) => Some(s@),
        None => None,
    }
}

pub open spec fn opt_text_view(o: Option<Option<String>>) -> Option<Option<Seq<char>>> {
    match o {
        Some(i) => Some(text_view(i)),
        None => None,
    }
}

fn absent(o: Option<&Value>) -> (r: bool)
    ensures
        r == is_absent(
            match o {
                Some(v) => Some(json_tree(*v)),
                None => None,
            },
        ),
{
    match o {
        None => true,
        Some(v) => v.is_null(),
    }
}

pub fn read_req_text(v: &Value, k: &str) -> (r: Option<String>)
    ensures
        text_view(r) == req_text(json_tree(*v), k@),
{
    match member(v, k) {
        Some(c) => match c.as_str() {
            Some(s) => Some(String::from_str(s)),
            None => None,
        },
        None => None,
    }
}

pub fn read_opt_text(v: &Value, k: &str) -> (r: Option<Option<String>>)
    ensures
        opt_text_view(r) == opt_text(json_tree(*v), k@),
{
    let o = member(v, k);
    if absent(o) {
        return Some(None);
    }
    match o {
        Some(c) => match c.as_str() {
            Some(s) => Some(Some(String::from_str(s))),
            None => None,
        },
        None => None,
    }
}

fn read_uint(c: &Value, max: u64) -> (r: Option<u64>)
    ensures
        r == uint_of(Some(json_tree(*c)), max),
{
    match c.as_u64() {
        Some(n) => if n <= max {
            Some(n)
        } else {
            None
        },
        None => None,
    }
}

pub fn read_req_uint(v: &Value, k: &str, max: u64) -> (r: Option<u64>)
    ensures
        r == req_uint(json_tree(*v), k@, max),
{
    match member(v, k) {
        Some(c) => read_uint(c, max),
        None => None,
    }
}

pub fn read_opt_uint(v: &Value, k: &str, max: u64) -> (r: Option<Option<u64>>)
    ensures
        r == opt_uint(json_tree(*v), k@, max),
{
    let o = member(v, k);
    if absent(o) {
        return Some(None);
    }
    match o {
        Some(c) => match read_uint(c, max) {
            Some(n) => Some(Some(n)),
            None => None,
        },
        None => None,
    }
}

pub fn read_req_bool(v: &Value, k: &str) -> (r: Option<bool>)
    ensures
        r == req_bool(json_tree(*v), k@),
{
    match member(v, k) {
        Some(c) => c.as_bool(),
        None => None,
    }
}

pub fn read_req_items<'a>(v: &'a Value, k: &str) -> (r: Option<&'a Vec<Value>>)
    ensures
        match req_items(json_tree(*v), k@) {
            Some(s) => r matches Some(a) && trees(a@) == s,
            None => r is None,
        },
{
    match member(v, k) {
        Some(c) => c.as_array(),
        None => None,
    }
}

/// An optional array member: `Ok(None)` when it is missing or `null`,
/// `Err(())` when it is there but no array.
pub fn read_opt_items<'a>(v: &'a Value, k: &str) -> (r: Result<Option<&'a Vec<Value>>, ()>)
    ensures
        match opt_items(json_tree(*v), k@) {
            Some(Some(s)) => r matches Ok(Some(a)) && trees(a@) == s,
            Some(None) => r == Ok::<Option<&'a Vec<Value>>, ()>(None),
            None => r is Err,
        },
{
    let o = member(v, k);
    if absent(o) {
        return Ok(None);
    }
    match o {
        Some(c) => match c.as_array() {
            Some(a) => Ok(Some(a)),
            None => Err(()),
        },
        None => Err(()),
    }
}

/// A type read from a JSON value the way a derived deserializer reads it.
pub trait FromJson: View + Sized {
    /// What a tree decodes to, or `None` where it does not fit.
    spec fn decoded(t: JsonTree) -> Option<Self::V>;

    fn from_json(v: &Value) -> (r: Option<Self>)
        ensures
            match Self::decoded(json_tree(*v)) {
                Some(x) => r matches Some(y) && y@ == x,
                None => r is None,
            },
    ;
}

impl FromJson for String {
    open spec fn decoded(t: JsonTree) -> Option<Seq<char>> {
        match t {
            JsonTree::Str(s) => Some(s),
            _ => None,
        }
    }

    fn from_json(v: &Value) -> (r: Option<String>) {
        match v.as_str() {
            Some(s) => Some(String::from_str(s)),
            None => None,
        }
    }
}

/// Every element decoded, or `None` if one does not fit.
pub open spec fn decode_all<T: FromJson>(s: Seq<JsonTree>) -> Option<Seq<T::V>> {
    if forall|i: int| 0 <= i < s.len() ==> (#[trigger] T::decoded(s[i])) is Some {
        Some(s.map_values(|t: JsonTree| T::decoded(t)->Some_0))
    } else {
        None
    }
}

pub open spec fn views_of<T: View>(v: Seq<T>) -> Seq<T::V> {
    v.map_values(|x: T| x@)
}

pub fn decode_items<T: FromJson>(a: &Vec<Value>) -> (r: Option<Vec<T>>)
    ensures
        match decode_all::<T>(trees(a@)) {
            Some(s) => r matches Some(out) && views_of(out@) == s,
            None => r is None,
        },
{
    let ghost s = trees(a@);
    let mut out: Vec<T> = Vec::new();
    let mut i: usize = 0;
    while i < a.len()
        invariant
            i <= a@.len(),
            s == trees(a@),
            forall|j: int| 0 <= j < i ==> (#[trigger] T::decoded(s[j])) is Some,
            views_of(out@) == s.take(i as int).map_values(|t: JsonTree| T::decoded(t)->Some_0),
        decreases a@.len() - i,
    {
        match T::from_json(&a[i]) {
            Some(x) => {
                let ghost o0 = out@;
                out.push(x);
                assert(views_of(out@) =~= views_of(o0).push(x@));
                assert(s.take(i + 1) =~= s.take(i as int).push(s[i as int]));
                assert(s.take(i + 1).map_values(|t: JsonTree| T::decoded(t)->Some_0) =~= s.take(
                    i as int,
                ).map_values(|t: JsonTree| T::decoded(t)->Some_0).push(T::decoded(s[i as int])->Some_0));
            },
            None => {
                assert(T::decoded(s[i as int]) is None);
                return None;
            },
        }
        i = i + 1;
    }
    assert(s.take(i as int) =~= s);
    Some(out)
}

/// A required member decoded as `T`.
pub open spec fn req_decoded<T: FromJson>(t: JsonTree, k: Seq<char>) -> Option<T::V> {
    match member_of(t, k) {
        Some(c) => T::decoded(c),
        None => None,
    }
}

/// An optional member decoded as `T`: `Some(None)` when missing or `null`.
pub open spec fn opt_decoded<T: FromJson>(t: JsonTree, k: Seq<char>) -> Option<Option<T::V>> {
    let o = member_of(t, k);
    if is_absent(o) {
        Some(None)
    } else {
        match T::decoded(o->Some_0) {
            Some(x) => Some(Some(x)),
            None => None,
        }
    }
}

/// An optional array member with every element decoded as `T`.
pub open spec fn opt_list<T: FromJson>(t: JsonTree, k: Seq<char>) -> Option<Option<Seq<T::V>>> {
    match opt_items(t, k) {
        Some(Some(s)) => match decode_all::<T>(s) {
            Some(xs) => Some(Some(xs)),
            None => None,
        },
        Some(None) => Some(None),
        None => None,
    }
}

/// A required array member with every element decoded as `T`.
pub open spec fn req_list<T: FromJson>(t: JsonTree, k: Seq<char>) -> Option<Seq<T::V>> {
    match req_items(t, k) {
        Some(s) => decode_all::<T>(s),
        None => None,
    }
}

pub open spec fn opt_views<T: View>(o: Option<T>) -> Option<T::V> {
    match o {
        Some(x) => Some(x@),
        None => None,
    }
}

pub open spec fn opt_list_views<T: View>(o: Option<Vec<T>>) -> Option<Seq<T::V>> {
    match o {
        Some(v) => Some(views_of(v@)),
        None => None,
    }
}

pub fn read_req<T: FromJson>(v: &Value, k: &str) -> (r: Option<T>)
    ensures
        match req_decoded::<T>(json_tree(*v), k@) {
            Some(x) => r matches Some(y) && y@ == x,
            None => r is None,
        },
{
    match member(v, k) {
        Some(c) => T::from_json(c),
        None => None,
    }
}

/// An optional member: `Ok(None)` when missing or `null`, `Err(())` when it
/// does not fit.
pub fn read_opt<T: FromJson>(v: &Value, k: &str) -> (r: Result<Option<T>, ()>)
    ensures
        match opt_decoded::<T>(json_tree(*v), k@) {
            Some(x) => r matches Ok(y) && opt_views(y) == x,
            None => r is Err,
        },
{
    let o = member(v, k);
    if absent(o) {
        return Ok(None);
    }
    match o {
        Some(c) => match T::from_json(c) {
            Some(x) => Ok(Some(x)),
            None => Err(()),
        },
        None => Err(()),
    }
}

pub fn read_opt_list<T: FromJson>(v: &Value, k: &str) -> (r: Result<Option<Vec<T>>, ()>)
    ensures
        match opt_list::<T>(json_tree(*v), k@) {
            Some(x) => r matches Ok(y) && opt_list_views(y) == x,
            None => r is Err,
        },
{
    match read_opt_items(v, k) {
        Ok(Some(a)) => match decode_items::<T>(a) {
            Some(xs) => Ok(Some(xs)),
            None => Err(()),
        },
        Ok(None) => Ok(None),
        Err(()) => Err(()),
    }
}

pub fn read_req_list<T: FromJson>(v: &Value, k: &str) -> (r: Option<Vec<T>>)
    ensures
        match req_list::<T>(json_tree(*v), k@) {
            Some(x) => r matches Some(y) && views_of(y@) == x,
            None => r is None,
        },
{
    match read_req_items(v, k) {
        Some(a) => decode_items::<T>(a),
        None => None,
    }
}

/// Appends a member to a list of members under construction.
pub fn push_member(entries: &mut Vec<(String, Value)>, k: &str, v: Value)
    ensures
        final(entries)@.len() == old(entries)@.len() + 1,
        forall|i: int| 0 <= i < old(entries)@.len() ==> final(entries)@[i] == old(entries)@[i],
        final(entries)@.last().0@ == k@,
        final(entries)@.last().1 == v,
        final(entries)@.drop_last() == old(entries)@,
{
    let ghost e0 = entries@;
    entries.push((String::from_str(k), v));
    assert(entries@.drop_last() =~= e0);
}

/// The names of a list of members grow strictly longer, so no two agree.
pub open spec fn names_grow(e: Seq<(String, Value)>) -> bool {
    forall|i: int, j: int|
        0 <= i < j < e.len() ==> (#[trigger] e[i]).0@.len() < (#[trigger] e[j]).0@.len()
}

/// Appends a member whose name is longer than every name before it.
pub fn push_longer(entries: &mut Vec<(String, Value)>, k: &str, v: Value)
    requires
        names_grow(old(entries)@),
        forall|i: int| 0 <= i < old(entries)@.len() ==> (#[trigger] old(entries)@[i]).0@.len() < k@.len(),
    ensures
        names_grow(final(entries)@),
        forall|i: int| 0 <= i < final(entries)@.len() ==> (#[trigger] final(entries)@[i]).0@.len() <= k@.len(),
        members_map(final(entries)@) == members_map(old(entries)@).insert(k@, json_tree(v)),
{
    push_member(entries, k, v);
    assert(forall|i: int| 0 <= i < old(entries)@.len() ==> entries@[i] == old(entries)@[i]);
}

/// An object of members whose names grow strictly longer.
pub fn object_growing(entries: Vec<(String, Value)>) -> (r: Value)
    requires
        names_grow(entries@),
    ensures
        json_tree(r) == JsonTree::Object(members_map(entries@)),
{
    assert forall|i: int, j: int| 0 <= i < j < entries@.len() implies (#[trigger] entries@[i]).0@
        != (#[trigger] entries@[j]).0@ by {
        assert(entries@[i].0@.len() < entries@[j].0@.len());
    }
    object_value(entries)
}

/// An object of one member.
pub fn object1(k: &str, v: Value) -> (r: Value)
    ensures
        json_tree(r) == JsonTree::Object(map![k@ => json_tree(v)]),
{
    let mut e: Vec<(String, Value)> = Vec::new();
    push_member(&mut e, k, v);
    assert(e@.drop_last() =~= Seq::<(String, Value)>::empty());
    let ghost m = members_map(e@);
    proof {
        reveal_with_fuel(members_map, 4);
    }
    assert(m =~= map![k@ => json_tree(v)]);
    object_value(e)
}

/// An object of two members with distinct names.
pub fn object2(k1: &str, v1: Value, k2: &str, v2: Value) -> (r: Value)
    requires
        k1@ != k2@,
    ensures
        json_tree(r) == JsonTree::Object(map![k1@ => json_tree(v1), k2@ => json_tree(v2)]),
{
    let mut e: Vec<(String, Value)> = Vec::new();
    push_member(&mut e, k1, v1);
    push_member(&mut e, k2, v2);
    assert(e@.drop_last().drop_last() =~= Seq::<(String, Value)>::empty());
    let ghost m = members_map(e@);
    proof {
        reveal_with_fuel(members_map, 4);
    }
    assert(m =~= map![k1@ => json_tree(v1), k2@ => json_tree(v2)]);
    object_value(e)
}

/// An object of three members with distinct names.
pub fn object3(k1: &str, v1: Value, k2: &str, v2: Value, k3: &str, v3: Value) -> (r: Value)
    requires
        k1@ != k2@,
        k1@ != k3@,
        k2@ != k3@,
    ensures
        json_tree(r) == JsonTree::Object(
            map![k1@ => json_tree(v1), k2@ => json_tree(v2), k3@ => json_tree(v3)],
        ),
{
    let mut e: Vec<(String, Value)> = Vec::new();
    push_member(&mut e, k1, v1);
    push_member(&mut e, k2, v2);
    push_member(&mut e, k3, v3);
    assert(e@.drop_last().drop_last().drop_last() =~= Seq::<(String, Value)>::empty());
    let ghost m = members_map(e@);
    proof {
        reveal_with_fuel(members_map, 4);
    }
    assert(m =~= map![k1@ => json_tree(v1), k2@ => json_tree(v2), k3@ => json_tree(v3)]);
    object_value(e)
}

} // verus!
