//! The library's model of a parsed JSON document.
//!
//! Response bodies reach the library as a `JsonValue` tree of plain values;
//! the schema decoders in `decode` walk this tree.  Numbers that the forge's
//! schemas use are unsigned integers, so any other number is carried opaquely
//! as `OtherNumber` and no decoder reads it.

use vstd::prelude::*;

verus! {

/// A JSON document over plain values.  Object members keep the order in
/// which they appeared; a lookup takes the first member with the wanted key.
pub enum JsonValue {
    Null,
    Bool(bool),
    UInt(u64),
    Str(String),
    Arr(Vec<JsonValue>),
    Obj(Vec<(String, JsonValue)>),
    OtherNumber,
}

/// The first member of `entries` whose key reads `name`, if any.
pub open spec fn lookup(entries: Seq<(String, JsonValue)>, name: Seq<char>) -> Option<JsonValue>
    decreases entries.len(),
{
    if entries.len() == 0 {
        None
    } else if entries[0].0@ == name {
        Some(entries[0].1)
    } else {
        lookup(entries.drop_first(), name)
    }
}

/// The member `name` of `v`, when `v` is an object that has it.
pub open spec fn field_of(v: JsonValue, name: Seq<char>) -> Option<JsonValue> {
    match v {
        JsonValue::Obj(entries) => lookup(entries@, name),
        _ => None,
    }
}

/// The member `name` of `v`, when it is a string.
pub open spec fn str_field(v: JsonValue, name: Seq<char>) -> Option<Seq<char>> {
    match field_of(v, name) {
        Some(JsonValue::Str(s)) => Some(s@),
        _ => None,
    }
}

/// The member `name` of `v`, when it is an unsigned integer.
pub open spec fn uint_field(v: JsonValue, name: Seq<char>) -> Option<u64> {
    match field_of(v, name) {
        Some(JsonValue::UInt(n)) => Some(n),
        _ => None,
    }
}

/// The member `name` of `v`, when it is a boolean.
pub open spec fn bool_field(v: JsonValue, name: Seq<char>) -> Option<bool> {
    match field_of(v, name) {
        Some(JsonValue::Bool(b)) => Some(b),
        _ => None,
    }
}

/// Character-wise string equality.
pub fn str_eq(a: &str, b: &str) -> (r: bool)
    ensures
        r == (a@ == b@),
{
    let a_len = a.unicode_len();
    let b_len = b.unicode_len();
    if a_len != b_len {
        return false;
    }
    let mut i: usize = 0;
    while i < a_len
        invariant
            a_len == a@.len(),
            b_len == b@.len(),
            a_len == b_len,
            i <= a_len,
            forall|j: int| 0 <= j < i ==> a@[j] == b@[j],
        decreases a_len - i,
    {
        if a.get_char(i) != b.get_char(i) {
            return false;
        }
        i += 1;
    }
    proof {
        assert(a@ =~= b@);
    }
    true
}

impl JsonValue {
    /// The member `name` of this value, searched in order, when this value
    /// is an object that has such a member.
    pub fn get<'a>(&'a self, name: &str) -> (r: Option<&'a JsonValue>)
        ensures
            match r {
                Some(f) => field_of(*self, name@) == Some(*f),
                None => field_of(*self, name@) is None,
            },
    {
        match self {
            JsonValue::Obj(entries) => {
                let n = entries.len();
                proof {
                    assert(entries@.subrange(0, n as int) =~= entries@);
                }
                let mut i: usize = 0;
                while i < n
                    invariant
                        *self == JsonValue::Obj(*entries),
                        n == entries@.len(),
                        i <= n,
                        lookup(entries@, name@) == lookup(
                            entries@.subrange(i as int, n as int),
                            name@,
                        ),
                    decreases n - i,
                {
                    if str_eq(entries[i].0.as_str(), name) {
                        proof {
                            assert(entries@.subrange(i as int, n as int)[0] == entries@[i as int]);
                        }
                        return Some(&entries[i].1);
                    }
                    proof {
                        assert(entries@.subrange(i as int, n as int).drop_first() =~= entries@
                            .subrange(i as int + 1, n as int));
                    }
                    i += 1;
                }
                None
            },
            _ => None,
        }
    }
}

} // verus!
