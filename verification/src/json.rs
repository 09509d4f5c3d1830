//! JSON values as plain data, and the text of JSON strings.

use vstd::prelude::*;

use crate::text;

verus! {

/// A JSON number: its value where it is an unsigned integer, and its text.
#[derive(Debug, PartialEq, Eq)]
pub struct JsonNumber {
    pub unsigned: Option<u64>,
    pub text: String,
}

/// A field of a JSON object.
#[derive(Debug, PartialEq, Eq)]
pub struct JsonField {
    pub name: String,
    pub value: JsonValue,
}

/// A JSON value.
#[derive(Debug, PartialEq, Eq)]
pub enum JsonValue {
    Null,
    Bool(bool),
    Number(JsonNumber),
    Text(String),
    Array(Vec<JsonValue>),
    Object(Vec<JsonField>),
}

/// The value of the field `name`, if there is one.
pub open spec fn field_of(fields: Seq<JsonField>, name: Seq<char>) -> Option<JsonValue>
    decreases fields.len(),
{
    if fields.len() == 0 {
        None
    } else if fields[0].name@ == name {
        Some(fields[0].value)
    } else {
        field_of(fields.drop_first(), name)
    }
}

/// The value of the field `name`, if there is one.
pub fn find_field<'a>(fields: &'a Vec<JsonField>, name: &str) -> (r: Option<&'a JsonValue>)
    ensures
        match r {
            Some(value) => field_of(fields@, name@) == Some(*value),
            None => field_of(fields@, name@) is None,
        },
{
    let mut i: usize = 0;
    assert(fields@.skip(0) =~= fields@);
    while i < fields.len()
        invariant
            i <= fields@.len(),
            field_of(fields@, name@) == field_of(fields@.skip(i as int), name@),
        decreases fields@.len() - i,
    {
        let ghost rest = fields@.skip(i as int);
        assert(rest[0] == fields@[i as int]);
        if text::same_text(fields[i].name.as_str(), name) {
            return Some(&fields[i].value);
        }
        assert(rest.drop_first() =~= fields@.skip(i + 1));
        i += 1;
    }
    None
}

impl JsonValue {
    /// The field `name` of an object.
    pub open spec fn field(self, name: Seq<char>) -> Option<JsonValue> {
        match self {
            JsonValue::Object(fields) => field_of(fields@, name),
            _ => None,
        }
    }

    /// The field `name` of an object, if it is a string.
    pub open spec fn text_field(self, name: Seq<char>) -> Option<Seq<char>> {
        match self.field(name) {
            Some(value) => value.as_text(),
            None => None,
        }
    }

    /// The characters of a string.
    pub open spec fn as_text(self) -> Option<Seq<char>> {
        match self {
            JsonValue::Text(s) => Some(s@),
            _ => None,
        }
    }

    pub fn get(&self, name: &str) -> (r: Option<&JsonValue>)
        ensures
            match r {
                Some(value) => self.field(name@) == Some(*value),
                None => self.field(name@) is None,
            },
    {
        match self {
            JsonValue::Object(fields) => find_field(fields, name),
            _ => None,
        }
    }

    pub fn as_str(&self) -> (r: Option<&str>)
        ensures
            match r {
                Some(s) => self.as_text() == Some(s@),
                None => self.as_text() is None,
            },
    {
        match self {
            JsonValue::Text(s) => Some(s.as_str()),
            _ => None,
        }
    }

    pub fn get_str(&self, name: &str) -> (r: Option<&str>)
        ensures
            match r {
                Some(s) => self.text_field(name@) == Some(s@),
                None => self.text_field(name@) is None,
            },
    {
        match self.get(name) {
            Some(value) => value.as_str(),
            None => None,
        }
    }

    pub fn as_bool(&self) -> (r: Option<bool>)
        ensures
            r == match self {
                JsonValue::Bool(b) => Some(*b),
                _ => None,
            },
    {
        match self {
            JsonValue::Bool(b) => Some(*b),
            _ => None,
        }
    }
}

// ---------------------------------------------------------------------------
// The text of JSON
// ---------------------------------------------------------------------------
/// A hexadecimal digit, in lower case.
pub open spec fn hex_digit(d: int) -> char {
    if d < 10 {
        (48 + d) as char
    } else {
        (87 + d) as char
    }
}

/// A character within the JSON text of a string: a quote, a backslash and the control
/// characters are escaped, with the short escape where there is one.
pub open spec fn escaped_char(c: char) -> Seq<char> {
    if c == '"' || c == '\\' {
        seq!['\\', c]
    } else if c == '\u{8}' {
        seq!['\\', 'b']
    } else if c == '\t' {
        seq!['\\', 't']
    } else if c == '\n' {
        seq!['\\', 'n']
    } else if c == '\u{c}' {
        seq!['\\', 'f']
    } else if c == '\r' {
        seq!['\\', 'r']
    } else if (c as int) < 32 {
        seq!['\\', 'u', '0', '0', hex_digit(c as int / 16), hex_digit(c as int % 16)]
    } else {
        seq![c]
    }
}

/// The characters of `s`, each as it stands within the JSON text of a string.
pub open spec fn escaped(s: Seq<char>) -> Seq<char>
    decreases s.len(),
{
    if s.len() == 0 {
        s
    } else {
        escaped(s.drop_last()) + escaped_char(s.last())
    }
}

/// The JSON text of a string: quoted, with what needs it escaped.
pub open spec fn json_string(s: Seq<char>) -> Seq<char> {
    seq!['"'] + escaped(s) + seq!['"']
}

/// Writes a `serde_json::Value::String` with its `Display`: the characters between
/// quotes, with a quote, a backslash and the control characters below U+0020 escaped.
#[verifier::external_body]
pub(crate) fn quote(s: &str) -> (out: String)
    ensures
        out@ == json_string(s@),
{
    serde_json::Value::String(s.to_owned()).to_string()
}

/// The JSON of an optional string.
pub open spec fn optional_json(value: Option<Seq<char>>) -> Seq<char> {
    match value {
        Some(value) => json_string(value),
        None => "null"@,
    }
}

/// The JSON of an optional string.
pub fn quote_optional(value: &Option<String>) -> (out: String)
    ensures
        out@ == optional_json(text::opt_text(*value)),
{
    match value {
        Some(value) => quote(value.as_str()),
        None => "null".to_owned(),
    }
}

/// The compact text of the JSON value that `s` holds, if it holds one.
pub uninterp spec fn compact_json(s: Seq<char>) -> Option<Seq<char>>;

/// Calls `serde_json::from_str` and writes the `Value` with its `Display`. Whether
/// the text parses, and what it is then written as, depends on the text alone.
#[verifier::external_body]
pub(crate) fn compact(s: &str) -> (out: Option<String>)
    ensures
        text::opt_text(out) == compact_json(s@),
{
    serde_json::from_str::<serde_json::Value>(s).ok().map(|value| value.to_string())
}

} // verus!
