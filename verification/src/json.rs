//! A plain model of a parsed JSON document, the accessors the shell reads
//! through, and the one entry point that has `serde_json` parse text.

use vstd::prelude::*;
use crate::text::join;

verus! {

#[verifier::external_type_specification]
#[verifier::external_body]
pub struct ExJsonValue(serde_json::Value);

#[verifier::external_type_specification]
#[verifier::external_body]
pub struct ExJsonNumber(serde_json::Number);

/// A JSON number as `serde_json` keeps it: a non-negative integer, a negative
/// integer, or a float (whose value nothing here reads).
#[derive(Clone, Copy, Debug, PartialEq, Eq)]
pub enum JsonNumber {
    PosInt(u64),
    NegInt(i64),
    Float,
}

/// A parsed JSON value. An object lists its members in the order serde_json's
/// map yields them (sorted by key, its default); `get` reads the first member
/// with a given key, and a map from serde_json holds each key once.
#[derive(Debug)]
pub enum JsonValue {
    Null,
    Bool(bool),
    Number(JsonNumber),
    Str(String),
    Array(Vec<JsonValue>),
    Object(Vec<(String, JsonValue)>),
}

/// The number as an `i64`, when it is an integer that fits.
pub open spec fn number_as_i64(n: JsonNumber) -> Option<i64> {
    match n {
        JsonNumber::PosInt(u) => if u <= i64::MAX { Some(u as i64) } else { None },
        JsonNumber::NegInt(i) => Some(i),
        JsonNumber::Float => None,
    }
}

/// Index of the first member of `members` whose key is `key`, if any.
pub open spec fn member_index(members: Seq<(String, JsonValue)>, key: Seq<char>) -> Option<int>
    decreases members.len(),
{
    if members.len() == 0 {
        None
    } else if members[0].0@ == key {
        Some(0)
    } else {
        match member_index(members.drop_first(), key) {
            Some(i) => Some(i + 1),
            None => None,
        }
    }
}

impl JsonValue {
    /// The member `key` of an object; nothing for other values.
    pub open spec fn get_spec(self, key: Seq<char>) -> Option<JsonValue> {
        match self {
            JsonValue::Object(members) => match member_index(members@, key) {
                Some(i) => Some(members@[i].1),
                None => None,
            },
            _ => None,
        }
    }

    pub open spec fn as_i64_spec(self) -> Option<i64> {
        match self {
            JsonValue::Number(n) => number_as_i64(n),
            _ => None,
        }
    }

    pub open spec fn as_str_spec(self) -> Option<Seq<char>> {
        match self {
            JsonValue::Str(s) => Some(s@),
            _ => None,
        }
    }

    pub open spec fn as_array_spec(self) -> Option<Seq<JsonValue>> {
        match self {
            JsonValue::Array(items) => Some(items@),
            _ => None,
        }
    }

    /// The member `key` of an object (`serde_json::Value::get` with a string key).
    pub fn get(&self, key: &str) -> (r: Option<&JsonValue>)
        ensures
            r matches Some(v) ==> self.get_spec(key@) == Some(*v),
            r is None ==> self.get_spec(key@) is None,
    {
        match self {
            JsonValue::Object(members) => {
                let mut i: usize = 0;
                assert(members@.skip(0) =~= members@);
                while i < members.len()
                    invariant
                        *self == JsonValue::Object(*members),
                        i <= members@.len(),
                        member_index(members@, key@) == match member_index(members@.skip(i as int), key@) {
                            Some(j) => Some(j + i),
                            None => None::<int>,
                        },
                    decreases members@.len() - i,
                {
                    assert(members@.skip(i as int).drop_first() =~= members@.skip(i + 1));
                    assert(members@.skip(i as int)[0] == members@[i as int]);
                    if crate::text::str_eq(members[i].0.as_str(), key) {
                        return Some(&members[i].1);
                    }
                    i = i + 1;
                }
                None
            },
            _ => None,
        }
    }

    /// The value as an `i64` (`serde_json::Value::as_i64`).
    pub fn as_i64(&self) -> (r: Option<i64>)
        ensures
            r == self.as_i64_spec(),
    {
        match self {
            JsonValue::Number(JsonNumber::PosInt(u)) => if *u <= i64::MAX as u64 {
                Some(*u as i64)
            } else {
                None
            },
            JsonValue::Number(JsonNumber::NegInt(i)) => Some(*i),
            _ => None,
        }
    }

    /// The value as a string (`serde_json::Value::as_str`).
    pub fn as_str(&self) -> (r: Option<&str>)
        ensures
            r matches Some(s) ==> self.as_str_spec() == Some(s@),
            r is None ==> self.as_str_spec() is None,
    {
        match self {
            JsonValue::Str(s) => Some(s.as_str()),
            _ => None,
        }
    }

    /// The value as an array (`serde_json::Value::as_array`).
    pub fn as_array(&self) -> (r: Option<&Vec<JsonValue>>)
        ensures
            r matches Some(a) ==> self.as_array_spec() == Some(a@),
            r is None ==> self.as_array_spec() is None,
    {
        match self {
            JsonValue::Array(items) => Some(items),
            _ => None,
        }
    }
}

/// What `serde_json::from_str::<serde_json::Value>` makes of `text`, copied into
/// `JsonValue`; nothing when the text is not one JSON document.
pub uninterp spec fn parsed_json(text: Seq<char>) -> Option<JsonValue>;

/// Parses `text` with `serde_json::from_str::<serde_json::Value>`. Claimed: the
/// result depends on the text alone, and is `None` exactly when serde_json
/// returns an error. What the tree holds for a given text is left to serde_json.
#[verifier::external_body]
pub(crate) fn parse_json(text: &str) -> (r: Option<JsonValue>)
    ensures
        r == parsed_json(text@),
{
    match serde_json::from_str::<serde_json::Value>(text) {
        Ok(v) => Some(json_model(&v)),
        Err(_) => None,
    }
}

/// Copies a `serde_json::Value` into `JsonValue`, variant for variant, keeping
/// the order of array items and of object members. Nothing is claimed of it.
#[verifier::external_body]
fn json_model(v: &serde_json::Value) -> JsonValue {
    match v {
        serde_json::Value::Null => JsonValue::Null,
        serde_json::Value::Bool(b) => JsonValue::Bool(*b),
        serde_json::Value::Number(n) => JsonValue::Number(number_model(n)),
        serde_json::Value::String(s) => JsonValue::Str(s.clone()),
        serde_json::Value::Array(a) => JsonValue::Array(a.iter().map(json_model).collect()),
        serde_json::Value::Object(m) => JsonValue::Object(
            m.iter().map(|(k, x)| (k.clone(), json_model(x))).collect(),
        ),
    }
}

/// Tells the variants of a `serde_json::Number` apart through its public
/// accessors (`as_u64` holds exactly for the non-negative integers, `as_i64`
/// then for the negative ones). Nothing is claimed of it.
#[verifier::external_body]
fn number_model(n: &serde_json::Number) -> JsonNumber {
    match (n.as_u64(), n.as_i64()) {
        (Some(u), _) => JsonNumber::PosInt(u),
        (None, Some(i)) => JsonNumber::NegInt(i),
        (None, None) => JsonNumber::Float,
    }
}

/// A hexadecimal digit (lower case) for `d` in 0..16.
pub open spec fn hex_digit(d: nat) -> char {
    if d < 10 { (48 + d) as char } else { (87 + d) as char }
}

/// Whether `c` is a control character, which JSON text cannot hold raw.
pub open spec fn is_control(c: char) -> bool {
    (c as u32) < 0x20
}

/// The JSON text of one character inside a string (RFC 8259, section 7):
/// quote and backslash are escaped with a backslash, control characters as
/// `\u00XX`, every other character stands for itself.
pub open spec fn escape_char(c: char) -> Seq<char> {
    if c == '"' {
        seq!['\\', '"']
    } else if c == '\\' {
        seq!['\\', '\\']
    } else if is_control(c) {
        seq!['\\', 'u', '0', '0', hex_digit((c as u32 / 16) as nat), hex_digit((c as u32 % 16) as nat)]
    } else {
        seq![c]
    }
}

/// The characters of `s` as they stand inside a JSON string.
pub open spec fn escape_json(s: Seq<char>) -> Seq<char>
    decreases s.len(),
{
    if s.len() == 0 {
        Seq::empty()
    } else {
        escape_json(s.drop_last()) + escape_char(s.last())
    }
}

/// The JSON text of the string `s`.
pub open spec fn json_string_text(s: Seq<char>) -> Seq<char> {
    seq!['"'] + escape_json(s) + seq!['"']
}

/// The JSON text of one member `"key":"value"` of an object of strings.
pub open spec fn json_member_text(member: (Seq<char>, Seq<char>)) -> Seq<char> {
    json_string_text(member.0) + seq![':'] + json_string_text(member.1)
}

/// The JSON text (without white space) of an object whose members, in this
/// order, have string values.
pub open spec fn json_object_text(members: Seq<(Seq<char>, Seq<char>)>) -> Seq<char> {
    seq!['{'] + join(members.map_values(|m: (Seq<char>, Seq<char>)| json_member_text(m)), seq![',']) + seq!['}']
}

/// A string with no quote, backslash or control character stands for itself
/// inside a JSON string.
pub proof fn plain_text_needs_no_escape(s: Seq<char>)
    requires
        forall|i: int| 0 <= i < s.len() ==> #[trigger] s[i] != '"' && s[i] != '\\' && !is_control(s[i]),
    ensures
        escape_json(s) == s,
    decreases s.len(),
{
    if s.len() > 0 {
        plain_text_needs_no_escape(s.drop_last());
        assert(s.drop_last().push(s.last()) =~= s);
    }
}

} // verus!
