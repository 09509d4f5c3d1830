//! What is found in a JSON value, and how a string is written.

use vstd::prelude::*;

use crate::json;
use crate::json::{JsonField, JsonValue};

verus! {

proof fn lemma_first_field(fields: Seq<JsonField>, name: Seq<char>, k: int)
    requires
        0 <= k <= fields.len(),
        forall|j: int| 0 <= j < k ==> (#[trigger] fields[j]).name@ != name,
    ensures
        k < fields.len() && fields[k].name@ == name ==> json::field_of(fields, name) == Some(
            fields[k].value,
        ),
        k == fields.len() ==> json::field_of(fields, name) is None,
    decreases fields.len(),
{
    if k > 0 {
        let rest = fields.drop_first();
        assert(fields[0].name@ != name);
        assert forall|j: int| 0 <= j < k - 1 implies (#[trigger] rest[j]).name@ != name by {
            assert(rest[j] == fields[j + 1]);
        }
        lemma_first_field(rest, name, k - 1);
        if k < fields.len() {
            assert(rest[k - 1] == fields[k]);
        }
    }
}

/// A field is found by its name, and of several with one name the first; under a name that no
/// field has, nothing is found.
pub proof fn law_first_field_of_a_name_is_found(
    fields: Vec<JsonField>,
    name: &str,
    r: Option<&JsonValue>,
    got: Option<&JsonValue>,
    k: int,
)
    requires
        call_ensures(json::find_field, (&fields, name), r),
        call_ensures(JsonValue::get, (&JsonValue::Object(fields), name), got),
        0 <= k <= fields@.len(),
        forall|j: int| 0 <= j < k ==> (#[trigger] fields@[j]).name@ != name@,
    ensures
        k < fields@.len() && fields@[k].name@ == name@ ==> r is Some && *r->0 == fields@[k].value
            && got is Some && *got->0 == fields@[k].value,
        k == fields@.len() ==> r is None && got is None,
{
    lemma_first_field(fields@, name@, k);
}

/// Only an object has fields, and only a string is read as a text.
pub proof fn law_value_is_read_as_what_it_is(
    value: JsonValue,
    name: &str,
    field: Option<&JsonValue>,
    text: Option<&str>,
    field_text: Option<&str>,
    flag: Option<bool>,
)
    requires
        call_ensures(JsonValue::get, (&value, name), field),
        call_ensures(JsonValue::as_str, (&value,), text),
        call_ensures(JsonValue::get_str, (&value, name), field_text),
        call_ensures(JsonValue::as_bool, (&value,), flag),
    ensures
        !(value is Object) ==> field is None && field_text is None,
        match value {
            JsonValue::Text(s) => text is Some && text->0@ == s@,
            _ => text is None,
        },
        match value {
            JsonValue::Bool(b) => flag == Some(b),
            _ => flag is None,
        },
        match field {
            Some(JsonValue::Text(s)) => field_text is Some && field_text->0@ == s@,
            _ => field_text is None,
        },
{
}

proof fn lemma_plain_is_not_escaped(s: Seq<char>)
    requires
        forall|i: int|
            0 <= i < s.len() ==> (#[trigger] s[i]) as int >= 32 && s[i] != '"' && s[i] != '\\',
    ensures
        json::escaped(s) == s,
    decreases s.len(),
{
    if s.len() > 0 {
        let rest = s.drop_last();
        assert forall|i: int| 0 <= i < rest.len() implies (#[trigger] rest[i]) as int >= 32
            && rest[i] != '"' && rest[i] != '\\' by {
            assert(rest[i] == s[i]);
        }
        lemma_plain_is_not_escaped(rest);
        let last = s[s.len() - 1];
        assert(last as int >= 32);
        assert(s =~= rest + seq![last]);
    }
}

/// A text in which nothing has to be escaped stands between quotes as it is; what is not there
/// is `null`.
pub proof fn law_plain_text_is_quoted(value: Option<String>, out: String)
    requires
        call_ensures(json::quote_optional, (&value,), out),
    ensures
        value is None ==> out@ == "null"@,
        value matches Some(s) ==> ((forall|i: int|
            0 <= i < s@.len() ==> (#[trigger] s@[i]) as int >= 32 && s@[i] != '"' && s@[i] != '\\')
            ==> out@ == seq!['"'] + s@ + seq!['"']),
{
    if value is Some {
        let s = value->0;
        if forall|i: int|
            0 <= i < s@.len() ==> (#[trigger] s@[i]) as int >= 32 && s@[i] != '"' && s@[i] != '\\' {
            lemma_plain_is_not_escaped(s@);
        }
    }
}

} // verus!
