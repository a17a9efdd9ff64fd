//! JSON documents as this library reads them, and the serde_json parser
//! that produces them.

use vstd::prelude::*;

verus! {

/// A JSON number, as serde_json classifies it: a non-negative integer that
/// fits in a `u64`, a negative integer that fits in an `i64`, or anything
/// else (carried as a float by serde_json, whose value is not kept here).
#[derive(Clone, Copy, Debug, PartialEq, Eq, Structural)]
pub enum JsonNumber {
    PosInt(u64),
    NegInt(i64),
    Float,
}

/// A JSON value. An object's members come in the order in which serde_json's
/// map hands them out, one member per key.
pub enum JsonValue {
    Null,
    Bool(bool),
    Number(JsonNumber),
    String(String),
    Array(Vec<JsonValue>),
    Object(Vec<(String, JsonValue)>),
}

/// The value of the first member of `members` whose key is `key`.
pub open spec fn member_value(members: Seq<(String, JsonValue)>, key: Seq<char>) -> Option<JsonValue>
    decreases members.len(),
{
    if members.len() == 0 {
        None
    } else if members[0].0@ == key {
        Some(members[0].1)
    } else {
        member_value(members.drop_first(), key)
    }
}

impl JsonValue {
    /// The member `key` of an object; `None` for a missing key or a value
    /// that is not an object.
    pub open spec fn spec_get(self, key: Seq<char>) -> Option<JsonValue> {
        match self {
            JsonValue::Object(members) => member_value(members@, key),
            _ => None,
        }
    }

    /// The value as a `u64`, when it is a number that fits one.
    pub open spec fn spec_as_u64(self) -> Option<u64> {
        match self {
            JsonValue::Number(JsonNumber::PosInt(u)) => Some(u),
            _ => None,
        }
    }

    /// The member `key` of an object, read as a `u64`.
    pub open spec fn spec_get_u64(self, key: Seq<char>) -> Option<u64> {
        match self.spec_get(key) {
            Some(v) => v.spec_as_u64(),
            None => None,
        }
    }

    /// The member `key` of an object; `None` for a missing key or a value
    /// that is not an object.
    pub fn get(&self, key: &str) -> (r: Option<&JsonValue>)
        ensures
            match r {
                Some(v) => self.spec_get(key@) == Some(*v),
                None => self.spec_get(key@) is None,
            },
    {
        match self {
            JsonValue::Object(members) => {
                let wanted = key.to_owned();
                let ghost s = members@;
                let mut i: usize = 0;
                proof {
                    assert(s.skip(0) =~= s);
                }
                while i < members.len()
                    invariant
                        0 <= i <= members.len(),
                        s == members@,
                        wanted@ == key@,
                        self.spec_get(key@) == member_value(s, key@),
                        member_value(s, key@) == member_value(s.skip(i as int), key@),
                    decreases members.len() - i,
                {
                    proof {
                        assert(s.skip(i as int)[0] == s[i as int]);
                        assert(s.skip(i as int).drop_first() =~= s.skip(i + 1));
                    }
                    if members[i].0 == wanted {
                        proof {
                            assert(s[i as int].0@ == key@);
                            assert(member_value(s.skip(i as int), key@) == Some(s[i as int].1));
                        }
                        return Some(&members[i].1);
                    }
                    i = i + 1;
                }
                proof {
                    assert(s.skip(i as int) =~= Seq::<(String, JsonValue)>::empty());
                }
                None
            },
            _ => None,
        }
    }

    /// The value as a `u64`, when it is a number that fits one.
    pub fn as_u64(&self) -> (r: Option<u64>)
        ensures
            r == self.spec_as_u64(),
    {
        match self {
            JsonValue::Number(JsonNumber::PosInt(u)) => Some(*u),
            _ => None,
        }
    }

    /// The member `key` of an object, read as a `u64`.
    pub fn get_u64(&self, key: &str) -> (r: Option<u64>)
        ensures
            r == self.spec_get_u64(key@),
    {
        match self.get(key) {
            Some(v) => v.as_u64(),
            None => None,
        }
    }
}

#[verifier::external_type_specification]
#[verifier::external_body]
pub struct ExSerdeJsonValue(serde_json::Value);

/// What serde_json reads from `text` as a `serde_json::Value`: the document,
/// carried over into a `JsonValue`, or the text of serde_json's error.
pub uninterp spec fn serde_json_value(text: Seq<char>) -> Result<JsonValue, Seq<char>>;

/// Parses `text` with `serde_json::from_str::<serde_json::Value>`; an error
/// is handed back as its `Display` text. Trusted: the outcome is a function
/// of the text alone, named `serde_json_value`; nothing more is claimed of
/// what serde_json accepts or how it reads it.
#[verifier::external_body]
pub(crate) fn parse_json_value(text: &str) -> (r: Result<JsonValue, String>)
    ensures
        match r {
            Ok(v) => serde_json_value(text@) == Ok::<JsonValue, Seq<char>>(v),
            Err(d) => serde_json_value(text@) == Err::<JsonValue, Seq<char>>(d@),
        },
{
    serde_json::from_str::<serde_json::Value>(text).map(json_value_from_serde).map_err(|e| e.to_string())
}

/// Carries a `serde_json::Value` over into a `JsonValue`, variant by
/// variant; numbers are told apart with `Number::as_u64` and `Number::as_i64`.
#[verifier::external_body]
fn json_value_from_serde(v: serde_json::Value) -> JsonValue {
    match v {
        serde_json::Value::Null => JsonValue::Null,
        serde_json::Value::Bool(b) => JsonValue::Bool(b),
        serde_json::Value::Number(n) => JsonValue::Number(match (n.as_u64(), n.as_i64()) {
            (Some(u), _) => JsonNumber::PosInt(u),
            (None, Some(i)) => JsonNumber::NegInt(i),
            (None, None) => JsonNumber::Float,
        }),
        serde_json::Value::String(s) => JsonValue::String(s),
        serde_json::Value::Array(a) => JsonValue::Array(a.into_iter().map(json_value_from_serde).collect()),
        serde_json::Value::Object(m) => JsonValue::Object(m.into_iter().map(|(k, x)| (k, json_value_from_serde(x))).collect()),
    }
}

} // verus!
