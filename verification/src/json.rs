//! A decoded JSON document, as far as the providers read one, and its
//! decoding by `serde_json`.

use vstd::prelude::*;

verus! {

/// A JSON number by its two readings.
#[derive(Clone, Copy, Debug, PartialEq, Eq, Structural)]
pub struct JsonNumber {
    /// The number as a signed 64-bit integer, where it is one.
    pub integer: Option<i64>,
    /// The IEEE 754 binary64 bit pattern of the number.
    pub bits: u64,
}

/// A decoded JSON value.
#[derive(Debug)]
pub enum Json {
    Null,
    Bool(bool),
    Number(JsonNumber),
    Text(String),
    Array(Vec<Json>),
    Object(Vec<Member>),
}

/// One named member of a JSON object.
#[derive(Debug)]
pub struct Member {
    pub name: String,
    pub value: Json,
}

#[verifier::external_type_specification]
#[verifier::external_body]
pub struct ExJsonError(serde_json::Error);

#[verifier::external_type_specification]
#[verifier::external_body]
pub struct ExJsonValue(serde_json::Value);

/// The document that `serde_json` decodes `text` to, where `text` is JSON.
pub uninterp spec fn decoded_json(text: Seq<char>) -> Option<Json>;

/// Carries a `serde_json::Value` over into a `Json`, variant by variant: a
/// number by `Number::as_i64` and by the bits of `Number::as_f64`, an
/// object by its members in the order in which `serde_json` walks them.
/// Nothing is claimed of the result here.
#[verifier::external_body]
fn json_of(value: &serde_json::Value) -> (result: Json) {
    match value {
        serde_json::Value::Null => Json::Null,
        serde_json::Value::Bool(flag) => Json::Bool(*flag),
        serde_json::Value::Number(n) => Json::Number(
            JsonNumber { integer: n.as_i64(), bits: n.as_f64().map(|x| x.to_bits()).unwrap_or_default() },
        ),
        serde_json::Value::String(text) => Json::Text(text.clone()),
        serde_json::Value::Array(items) => Json::Array(items.iter().map(json_of).collect()),
        serde_json::Value::Object(members) => Json::Object(
            members.iter().map(|(name, v)| Member { name: name.clone(), value: json_of(v) }).collect(),
        ),
    }
}

/// `serde_json::from_str` for a `serde_json::Value`: on success the result
/// is the document that this library calls `decoded_json`; on failure the
/// text is no JSON and there is no such document.
#[verifier::external_body]
pub(crate) fn decode(text: &str) -> (result: Result<Json, serde_json::Error>)
    ensures
        match result {
            Ok(body) => decoded_json(text@) == Some(body),
            Err(_) => decoded_json(text@).is_none(),
        },
{
    match serde_json::from_str::<serde_json::Value>(text) {
        Ok(value) => Ok(json_of(&value)),
        Err(error) => Err(error),
    }
}

/// The value of the first member called `key`, if there is one.
pub open spec fn member_of(members: Seq<Member>, key: Seq<char>) -> Option<Json>
    decreases members.len(),
{
    if members.len() == 0 {
        None
    } else if members[0].name@ == key {
        Some(members[0].value)
    } else {
        member_of(members.skip(1), key)
    }
}

impl Json {
    /// The member `key` of an object; nothing for any other value.
    pub open spec fn member(self, key: Seq<char>) -> Option<Json> {
        match self {
            Json::Object(members) => member_of(members@, key),
            _ => None,
        }
    }

    /// The member `second` of the member `first`.
    pub open spec fn member2(self, first: Seq<char>, second: Seq<char>) -> Option<Json> {
        match self.member(first) {
            Some(inner) => inner.member(second),
            None => None,
        }
    }

    /// The characters of a string value.
    pub open spec fn text(self) -> Option<Seq<char>> {
        match self {
            Json::Text(s) => Some(s@),
            _ => None,
        }
    }

    /// The items of an array value.
    pub open spec fn items(self) -> Option<Seq<Json>> {
        match self {
            Json::Array(items) => Some(items@),
            _ => None,
        }
    }

    /// The last item of a non-empty array value.
    pub open spec fn last_item(self) -> Option<Json> {
        match self {
            Json::Array(items) => if items@.len() > 0 {
                Some(items@[items@.len() - 1])
            } else {
                None
            },
            _ => None,
        }
    }

    /// The integer reading of a number value.
    pub open spec fn integer(self) -> Option<i64> {
        match self {
            Json::Number(n) => n.integer,
            _ => None,
        }
    }

    /// The binary64 bit pattern of a number value.
    pub open spec fn real_bits(self) -> Option<u64> {
        match self {
            Json::Number(n) => Some(n.bits),
            _ => None,
        }
    }

    /// Looks up a member of an object by name.
    pub fn get(&self, key: &str) -> (result: Option<&Json>)
        ensures
            match result {
                Some(found) => self.member(key@) == Some(*found),
                None => self.member(key@).is_none(),
            },
    {
        match self {
            Json::Object(members) => {
                let wanted: String = key.to_owned();
                let mut i: usize = 0;
                proof {
                    assert(members@.skip(0) =~= members@);
                }
                while i < members.len()
                    invariant
                        i <= members.len(),
                        wanted@ == key@,
                        self.member(key@) == member_of(members@, key@),
                        member_of(members@, key@) == member_of(members@.skip(i as int), key@),
                    decreases members.len() - i,
                {
                    proof {
                        assert(members@.skip(i as int)[0] == members@[i as int]);
                        assert(members@.skip(i as int).skip(1) =~= members@.skip(i as int + 1));
                    }
                    if members[i].name == wanted {
                        return Some(&members[i].value);
                    }
                    i = i + 1;
                }
                None
            },
            _ => None,
        }
    }

    /// Looks up a member of a member.
    pub fn get2(&self, first: &str, second: &str) -> (result: Option<&Json>)
        ensures
            match result {
                Some(found) => self.member2(first@, second@) == Some(*found),
                None => self.member2(first@, second@).is_none(),
            },
    {
        match self.get(first) {
            Some(inner) => inner.get(second),
            None => None,
        }
    }

    /// The text of a string value.
    pub fn as_str(&self) -> (result: Option<&str>)
        ensures
            match result {
                Some(s) => self.text() == Some(s@),
                None => self.text().is_none(),
            },
    {
        match self {
            Json::Text(s) => Some(s.as_str()),
            _ => None,
        }
    }

    /// The items of an array value.
    pub fn as_array(&self) -> (result: Option<&Vec<Json>>)
        ensures
            match result {
                Some(items) => self.items() == Some(items@),
                None => self.items().is_none(),
            },
    {
        match self {
            Json::Array(items) => Some(items),
            _ => None,
        }
    }

    /// The last item of an array value.
    pub fn last(&self) -> (result: Option<&Json>)
        ensures
            match result {
                Some(item) => self.last_item() == Some(*item),
                None => self.last_item().is_none(),
            },
    {
        match self {
            Json::Array(items) => {
                if items.len() > 0 {
                    Some(&items[items.len() - 1])
                } else {
                    None
                }
            },
            _ => None,
        }
    }

    /// The integer reading of a number value.
    pub fn as_i64(&self) -> (result: Option<i64>)
        ensures
            result == self.integer(),
    {
        match self {
            Json::Number(n) => n.integer,
            _ => None,
        }
    }

    /// The binary64 bit pattern of a number value.
    pub fn as_bits(&self) -> (result: Option<u64>)
        ensures
            result == self.real_bits(),
    {
        match self {
            Json::Number(n) => Some(n.bits),
            _ => None,
        }
    }
}

} // verus!
