//! A JSON value, as `cargo metadata` reports it, and the accessors that the
//! metadata readers use.

use vstd::prelude::*;

verus! {

/// A JSON value. An object keeps its members in the order the document
/// gives them; lookups find the first member with the key.
#[derive(Debug)]
pub enum JsonValue {
    /// `null`.
    Null,
    /// `true` or `false`.
    Bool(bool),
    /// A number, as its JSON text.
    Number(String),
    /// A string.
    Text(String),
    /// An array.
    Array(Vec<JsonValue>),
    /// An object: its members as (key, value) pairs.
    Object(Vec<(String, JsonValue)>),
}

// ---------------------------------------------------------------------------
// Reading JSON text (serde_json)
// ---------------------------------------------------------------------------

#[verifier::external_type_specification]
#[verifier::external_body]
pub struct ExJsonDocument(serde_json::Value);

/// The value that `serde_json::from_slice::<serde_json::Value>` reads from
/// `bytes`, written as a [`JsonValue`] (numbers by their JSON text, object
/// members in the order serde_json keeps them); nothing when `bytes` is not
/// one JSON document.
pub uninterp spec fn parsed_json(bytes: Seq<u8>) -> Option<JsonValue>;

/// Writes a `serde_json::Value` as a [`JsonValue`], variant by variant.
#[verifier::external_body]
fn json_of_document(value: serde_json::Value) -> JsonValue {
    match value {
        serde_json::Value::Null => JsonValue::Null,
        serde_json::Value::Bool(b) => JsonValue::Bool(b),
        serde_json::Value::Number(n) => JsonValue::Number(n.to_string()),
        serde_json::Value::String(t) => JsonValue::Text(t),
        serde_json::Value::Array(items) => JsonValue::Array(items.into_iter().map(json_of_document).collect()),
        serde_json::Value::Object(members) => {
            JsonValue::Object(members.into_iter().map(|(k, v)| (k, json_of_document(v))).collect())
        },
    }
}

/// Parses `bytes` as one JSON document with `serde_json::from_slice`, which
/// depends on the bytes alone.
#[verifier::external_body]
pub(crate) fn parse_json(bytes: &[u8]) -> (r: Option<JsonValue>)
    ensures
        r == parsed_json(bytes@),
{
    match serde_json::from_slice::<serde_json::Value>(bytes) {
        Ok(value) => Some(json_of_document(value)),
        Err(_) => None,
    }
}

/// The value of the first member of `members` whose key is `key`.
pub open spec fn member_lookup(members: Seq<(String, JsonValue)>, key: Seq<char>) -> Option<
    JsonValue,
>
    decreases members.len(),
{
    if members.len() == 0 {
        None
    } else if members[0].0@ == key {
        Some(members[0].1)
    } else {
        member_lookup(members.drop_first(), key)
    }
}

/// The member `key` of `v` (`Value::get`): nothing when `v` is not an
/// object or has no such member.
pub open spec fn json_get(v: JsonValue, key: Seq<char>) -> Option<JsonValue> {
    match v {
        JsonValue::Object(members) => member_lookup(members@, key),
        _ => None,
    }
}

/// The member `key` of `v`, or `null` (`Value`'s index by a string).
pub open spec fn json_field(v: JsonValue, key: Seq<char>) -> JsonValue {
    match json_get(v, key) {
        Some(x) => x,
        None => JsonValue::Null,
    }
}

/// The elements of `v` when it is an array (`Value::as_array`).
pub open spec fn json_array(v: JsonValue) -> Option<Seq<JsonValue>> {
    match v {
        JsonValue::Array(items) => Some(items@),
        _ => None,
    }
}

/// The text of `v` when it is a string (`Value::as_str`).
pub open spec fn json_str(v: JsonValue) -> Option<Seq<char>> {
    match v {
        JsonValue::Text(s) => Some(s@),
        _ => None,
    }
}

/// The truth value of `v` when it is a boolean (`Value::as_bool`).
pub open spec fn json_bool(v: JsonValue) -> Option<bool> {
    match v {
        JsonValue::Bool(b) => Some(b),
        _ => None,
    }
}

/// Whether `v` is an object (`Value::as_object` gives a map).
pub open spec fn json_is_object(v: JsonValue) -> bool {
    v is Object
}

/// Structural equality of JSON values (`Value`'s `==`).
pub open spec fn json_equal(a: JsonValue, b: JsonValue) -> bool
    decreases a,
{
    match a {
        JsonValue::Null => b is Null,
        JsonValue::Bool(x) => b matches JsonValue::Bool(y) && x == y,
        JsonValue::Number(x) => b matches JsonValue::Number(y) && x@ == y@,
        JsonValue::Text(x) => b matches JsonValue::Text(y) && x@ == y@,
        JsonValue::Array(xs) => match b {
            JsonValue::Array(ys) => {
                proof {
                    assert(decreases_to!(a => xs));
                }
                items_equal(xs@, ys@)
            },
            _ => false,
        },
        JsonValue::Object(xs) => match b {
            JsonValue::Object(ys) => {
                proof {
                    assert(decreases_to!(a => xs));
                }
                members_equal(xs@, ys@)
            },
            _ => false,
        },
    }
}

/// Element-wise equality of two sequences of JSON values.
pub open spec fn items_equal(xs: Seq<JsonValue>, ys: Seq<JsonValue>) -> bool
    decreases xs,
{
    if xs.len() != ys.len() {
        false
    } else if xs.len() == 0 {
        true
    } else {
        proof {
            assert(decreases_to!(xs => xs.subrange(1, xs.len() as int)));
        }
        json_equal(xs[0], ys[0]) && items_equal(
            xs.subrange(1, xs.len() as int),
            ys.subrange(1, ys.len() as int),
        )
    }
}

/// Member-wise equality of two sequences of object members: equal keys and
/// equal values, in the same order.
pub open spec fn members_equal(xs: Seq<(String, JsonValue)>, ys: Seq<(String, JsonValue)>) -> bool
    decreases xs,
{
    if xs.len() != ys.len() {
        false
    } else if xs.len() == 0 {
        true
    } else {
        proof {
            assert(decreases_to!(xs => xs[0]));
            assert(decreases_to!(xs => xs.subrange(1, xs.len() as int)));
        }
        xs[0].0@ == ys[0].0@ && json_equal(xs[0].1, ys[0].1) && members_equal(
            xs.subrange(1, xs.len() as int),
            ys.subrange(1, ys.len() as int),
        )
    }
}

/// Whether some element of `items` equals `v` (`slice::contains`).
pub open spec fn json_contains(items: Seq<JsonValue>, v: JsonValue) -> bool {
    exists|i: int| 0 <= i < items.len() && #[trigger] json_equal(items[i], v)
}

impl JsonValue {
    /// Returns the member `key` of this value, when it is an object that
    /// has one.
    pub fn get(&self, key: &str) -> (r: Option<&JsonValue>)
        ensures
            match json_get(*self, key@) {
                Some(x) => r matches Some(y) && *y == x,
                None => r is None,
            },
    {
        match self {
            JsonValue::Object(members) => {
                let k = key.to_owned();
                let mut i: usize = 0;
                assert(members@.subrange(0, members@.len() as int) =~= members@);
                while i < members.len()
                    invariant
                        *self == JsonValue::Object(*members),
                        i <= members@.len(),
                        k@ == key@,
                        member_lookup(members@, key@) == member_lookup(
                            members@.subrange(i as int, members@.len() as int),
                            key@,
                        ),
                    decreases members.len() - i,
                {
                    let ghost rest = members@.subrange(i as int, members@.len() as int);
                    assert(rest[0] == members@[i as int]);
                    if members[i].0 == k {
                        return Some(&members[i].1);
                    }
                    assert(rest.drop_first() =~= members@.subrange(i + 1, members@.len() as int));
                    i += 1;
                }
                None
            },
            _ => None,
        }
    }

    /// Returns the member `key` of this value, or `null`.
    pub fn field(&self, key: &str) -> (r: &JsonValue)
        ensures
            *r == json_field(*self, key@),
    {
        match self.get(key) {
            Some(v) => v,
            None => &JsonValue::Null,
        }
    }

    /// Returns the elements of this value, when it is an array.
    pub fn as_array(&self) -> (r: Option<&Vec<JsonValue>>)
        ensures
            match json_array(*self) {
                Some(items) => r matches Some(v) && v@ == items,
                None => r is None,
            },
    {
        match self {
            JsonValue::Array(items) => Some(items),
            _ => None,
        }
    }

    /// Returns the text of this value, when it is a string.
    pub fn as_str(&self) -> (r: Option<&str>)
        ensures
            match json_str(*self) {
                Some(t) => r matches Some(s) && s@ == t,
                None => r is None,
            },
    {
        match self {
            JsonValue::Text(s) => Some(s.as_str()),
            _ => None,
        }
    }

    /// Returns the truth value of this value, when it is a boolean.
    pub fn as_bool(&self) -> (r: Option<bool>)
        ensures
            r == json_bool(*self),
    {
        match self {
            JsonValue::Bool(b) => Some(*b),
            _ => None,
        }
    }

    /// Returns whether this value is an object.
    pub fn is_object(&self) -> (r: bool)
        ensures
            r == json_is_object(*self),
    {
        match self {
            JsonValue::Object(_) => true,
            _ => false,
        }
    }
}

/// Returns whether two JSON values are equal.
pub fn json_eq(a: &JsonValue, b: &JsonValue) -> (r: bool)
    ensures
        r == json_equal(*a, *b),
    decreases *a,
{
    match a {
        JsonValue::Null => matches!(b, JsonValue::Null),
        JsonValue::Bool(x) => match b {
            JsonValue::Bool(y) => *x == *y,
            _ => false,
        },
        JsonValue::Number(x) => match b {
            JsonValue::Number(y) => *x == *y,
            _ => false,
        },
        JsonValue::Text(x) => match b {
            JsonValue::Text(y) => *x == *y,
            _ => false,
        },
        JsonValue::Array(xs) => match b {
            JsonValue::Array(ys) => {
                if xs.len() != ys.len() {
                    return false;
                }
                let mut i: usize = 0;
                assert(xs@.subrange(0, xs@.len() as int) =~= xs@);
                assert(ys@.subrange(0, ys@.len() as int) =~= ys@);
                while i < xs.len()
                    invariant
                        *a == JsonValue::Array(*xs),
                        *b == JsonValue::Array(*ys),
                        xs@.len() == ys@.len(),
                        i <= xs@.len(),
                        items_equal(xs@, ys@) == items_equal(
                            xs@.subrange(i as int, xs@.len() as int),
                            ys@.subrange(i as int, ys@.len() as int),
                        ),
                    decreases xs.len() - i,
                {
                    let ghost xr = xs@.subrange(i as int, xs@.len() as int);
                    let ghost yr = ys@.subrange(i as int, ys@.len() as int);
                    assert(xr.subrange(1, xr.len() as int) =~= xs@.subrange(i + 1, xs@.len() as int));
                    assert(yr.subrange(1, yr.len() as int) =~= ys@.subrange(i + 1, ys@.len() as int));
                    assert(xr[0] == xs@[i as int] && yr[0] == ys@[i as int]);
                    assert(decreases_to!(*a => (*a)->Array_0));
                    assert(decreases_to!((*a)->Array_0 => (*a)->Array_0@));
                    assert(decreases_to!((*a)->Array_0@ => (*a)->Array_0@[i as int]));
                    if !json_eq(&xs[i], &ys[i]) {
                        return false;
                    }
                    i += 1;
                }
                true
            },
            _ => false,
        },
        JsonValue::Object(xs) => match b {
            JsonValue::Object(ys) => {
                if xs.len() != ys.len() {
                    return false;
                }
                let mut i: usize = 0;
                assert(xs@.subrange(0, xs@.len() as int) =~= xs@);
                assert(ys@.subrange(0, ys@.len() as int) =~= ys@);
                while i < xs.len()
                    invariant
                        *a == JsonValue::Object(*xs),
                        *b == JsonValue::Object(*ys),
                        xs@.len() == ys@.len(),
                        i <= xs@.len(),
                        members_equal(xs@, ys@) == members_equal(
                            xs@.subrange(i as int, xs@.len() as int),
                            ys@.subrange(i as int, ys@.len() as int),
                        ),
                    decreases xs.len() - i,
                {
                    let ghost xr = xs@.subrange(i as int, xs@.len() as int);
                    let ghost yr = ys@.subrange(i as int, ys@.len() as int);
                    assert(xr.subrange(1, xr.len() as int) =~= xs@.subrange(i + 1, xs@.len() as int));
                    assert(yr.subrange(1, yr.len() as int) =~= ys@.subrange(i + 1, ys@.len() as int));
                    assert(xr[0] == xs@[i as int] && yr[0] == ys@[i as int]);
                    if xs[i].0 != ys[i].0 {
                        return false;
                    }
                    assert(decreases_to!(*a => (*a)->Object_0));
                    assert(decreases_to!((*a)->Object_0 => (*a)->Object_0@));
                    assert(decreases_to!((*a)->Object_0@ => (*a)->Object_0@[i as int]));
                    assert(decreases_to!((*a)->Object_0@[i as int] => (*a)->Object_0@[i as int].1));
                    if !json_eq(&xs[i].1, &ys[i].1) {
                        return false;
                    }
                    i += 1;
                }
                true
            },
            _ => false,
        },
    }
}

/// Returns whether some element of `items` equals `v`.
pub fn json_vec_contains(items: &Vec<JsonValue>, v: &JsonValue) -> (r: bool)
    ensures
        r == json_contains(items@, *v),
{
    let mut i: usize = 0;
    while i < items.len()
        invariant
            i <= items@.len(),
            forall|k: int| 0 <= k < i ==> !json_equal(#[trigger] items@[k], *v),
        decreases items.len() - i,
    {
        if json_eq(&items[i], v) {
            return true;
        }
        i += 1;
    }
    false
}

} // verus!
