//! A JSON document as plain values: what the decoders of daemon answers read.
use vstd::prelude::*;

verus! {

/// A JSON value. An object holds its members in the order they were given; the decoders of
/// this library look members up by name, so that order does not change what they read.
#[derive(Debug, PartialEq)]
pub enum JsonValue {
    Null,
    Bool(bool),
    /// A number that is an integer in the range of `i64`.
    Integer(i64),
    /// A number with a fraction or exponent, or an integer out of the range of `i64`.
    OtherNumber,
    Str(String),
    Array(Vec<JsonValue>),
    Object(Vec<(String, JsonValue)>),
}

/// The reason an answer of the daemon could not be read.
#[derive(Debug, PartialEq, Eq, Clone, Copy)]
pub enum ParseError {
    /// The text is no JSON document.
    Malformed,
    /// The document does not have the shape that was expected.
    Shape,
    /// The envelope reports a status code outside `200..=299`.
    Status(u16),
}

/// Whether `a` and `b` hold the same text.
pub fn text_eq(a: &str, b: &str) -> (r: bool)
    ensures
        r == (a@ == b@),
{
    let n = a.unicode_len();
    let m = b.unicode_len();
    if n != m {
        return false;
    }
    let mut i: usize = 0;
    while i < n
        invariant
            n == a@.len(),
            m == b@.len(),
            n == m,
            i <= n,
            forall|j: int| 0 <= j < i ==> a@[j] == b@[j],
        decreases n - i,
    {
        if a.get_char(i) != b.get_char(i) {
            return false;
        }
        i = i + 1;
    }
    assert(a@ =~= b@);
    true
}

/// The index of the first member of `members` named `key`.
pub open spec fn member_index(members: Seq<(String, JsonValue)>, key: Seq<char>) -> Option<int> {
    if exists|i: int| 0 <= i < members.len() && members[i].0@ == key
        && forall|j: int| 0 <= j < i ==> members[j].0@ != key {
        Some(
            choose|i: int|
                0 <= i < members.len() && members[i].0@ == key && forall|j: int|
                    0 <= j < i ==> members[j].0@ != key,
        )
    } else {
        None
    }
}

/// The value of the first member of `members` named `key`.
pub open spec fn member(members: Seq<(String, JsonValue)>, key: Seq<char>) -> Option<JsonValue> {
    match member_index(members, key) {
        Some(i) => Some(members[i].1),
        None => None,
    }
}

/// The value of member `key` of `v`, where `v` is an object that has one.
pub open spec fn field(v: JsonValue, key: Seq<char>) -> Option<JsonValue> {
    match v {
        JsonValue::Object(members) => member(members@, key),
        _ => None,
    }
}

/// The text of member `key` of `v`, where `v` is an object and that member a string.
pub open spec fn str_field(v: JsonValue, key: Seq<char>) -> Option<Seq<char>> {
    match field(v, key) {
        Some(JsonValue::Str(s)) => Some(s@),
        _ => None,
    }
}

impl JsonValue {
    /// The value of member `key`, where this is an object that has one.
    pub fn get(&self, key: &str) -> (r: Option<&JsonValue>)
        ensures
            match r {
                Some(x) => field(*self, key@) == Some(*x),
                None => field(*self, key@).is_none(),
            },
    {
        match self {
            JsonValue::Object(members) => {
                let mut i: usize = 0;
                while i < members.len()
                    invariant
                        i <= members@.len(),
                        field(*self, key@) == member(members@, key@),
                        forall|j: int| 0 <= j < i ==> members@[j].0@ != key@,
                    decreases members@.len() - i,
                {
                    if text_eq(members[i].0.as_str(), key) {
                        proof {
                            let ms = members@;
                            assert(0 <= i < ms.len() && ms[i as int].0@ == key@ && forall|j: int|
                                0 <= j < i ==> ms[j].0@ != key@);
                            let k = choose|k: int|
                                0 <= k < ms.len() && ms[k].0@ == key@ && forall|j: int|
                                    0 <= j < k ==> ms[j].0@ != key@;
                            if k < i {
                            } else if k > i {
                                assert(ms[i as int].0@ == key@);
                            }
                            assert(k == i);
                        }
                        return Some(&members[i].1);
                    }
                    i = i + 1;
                }
                None
            },
            _ => None,
        }
    }

    /// The text of member `key`, where this is an object and that member a string.
    pub fn get_str(&self, key: &str) -> (r: Option<&String>)
        ensures
            match r {
                Some(s) => str_field(*self, key@) == Some(s@),
                None => str_field(*self, key@).is_none(),
            },
    {
        match self.get(key) {
            Some(JsonValue::Str(s)) => Some(s),
            _ => None,
        }
    }
}

/// Whether no two members of `ms` have the same name.
pub open spec fn keys_distinct(ms: Seq<(String, JsonValue)>) -> bool {
    forall|i: int, j: int| 0 <= i < j < ms.len() ==> ms[i].0@ != ms[j].0@
}

/// Whether no two members of `ms` have the same name.
pub fn distinct_keys(ms: &Vec<(String, JsonValue)>) -> (r: bool)
    ensures
        r == keys_distinct(ms@),
{
    let n = ms.len();
    let mut i: usize = 0;
    while i < n
        invariant
            n == ms@.len(),
            i <= n,
            forall|a: int, b: int| 0 <= a < i && a < b < n ==> ms@[a].0@ != ms@[b].0@,
        decreases n - i,
    {
        let mut j: usize = i + 1;
        while j < n
            invariant
                n == ms@.len(),
                i < n,
                i + 1 <= j <= n,
                forall|a: int, b: int| 0 <= a < i && a < b < n ==> ms@[a].0@ != ms@[b].0@,
                forall|b: int| i < b < j ==> ms@[i as int].0@ != ms@[b].0@,
            decreases n - j,
        {
            if text_eq(ms[i].0.as_str(), ms[j].0.as_str()) {
                return false;
            }
            j = j + 1;
        }
        i = i + 1;
    }
    true
}

} // verus!
