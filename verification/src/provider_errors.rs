//! Recognising the errors of a provider in what it prints.

use vstd::prelude::*;

use crate::json::{find_field, JsonField, JsonValue};
use crate::json;
use crate::text;

verus! {

// ---------------------------------------------------------------------------
// Errors in prose
// ---------------------------------------------------------------------------
/// A text in lower case says that the prompt is too long.
pub open spec fn says_prompt_too_long(lower: Seq<char>) -> bool {
    ||| text::has_text(lower, "prompt is too long"@)
    ||| text::has_text(lower, "prompt too long"@)
    ||| text::has_text(lower, "context_length_exceeded"@)
    ||| text::has_text(lower, "conversation too long"@)
    ||| text::has_text(lower, "context window"@)
}

/// Whether a text in lower case says that the prompt is too long.
pub fn lowered_prompt_too_long(lower: &str) -> (r: bool)
    ensures
        r == says_prompt_too_long(lower@),
{
    text::contains(lower, "prompt is too long") || text::contains(lower, "prompt too long")
        || text::contains(lower, "context_length_exceeded") || text::contains(
        lower,
        "conversation too long",
    ) || text::contains(lower, "context window")
}

/// Whether a text says, in upper or lower case, that the prompt is too long.
pub fn is_prompt_too_long_message(text: &str) -> (r: bool)
    ensures
        r == says_prompt_too_long(text::lowercase(text@)),
{
    lowered_prompt_too_long(text::to_lower(text).as_str())
}

/// A text in lower case says that the provider is not logged in.
pub open spec fn says_auth_error(lower: Seq<char>) -> bool {
    ||| text::has_text(lower, "not logged in"@)
    ||| text::has_text(lower, "authentication error"@)
    ||| text::has_text(lower, "unauthorized"@)
    ||| text::has_text(lower, "please run /login"@)
    ||| text::has_text(lower, "oauth"@)
    ||| text::has_text(lower, "access token could not be refreshed"@)
    ||| text::has_text(lower, "refresh token"@) && (text::has_text(lower, "expired"@)
        || text::has_text(lower, "invalid"@) || text::has_text(lower, "revoked"@)
        || text::has_text(lower, "already used"@))
    ||| text::has_text(lower, "please log out and sign in again"@)
    ||| text::has_text(lower, "token expired"@)
    ||| text::has_text(lower, "invalid api key"@)
    ||| text::has_text(lower, "api key"@) && (text::has_text(lower, "missing"@) || text::has_text(
        lower,
        "invalid"@,
    ) || text::has_text(lower, "expired"@))
}

/// Whether a text in lower case says that the provider is not logged in.
pub fn lowered_auth_error(lower: &str) -> (r: bool)
    ensures
        r == says_auth_error(lower@),
{
    text::contains(lower, "not logged in") || text::contains(lower, "authentication error")
        || text::contains(lower, "unauthorized") || text::contains(lower, "please run /login")
        || text::contains(lower, "oauth") || text::contains(
        lower,
        "access token could not be refreshed",
    ) || (text::contains(lower, "refresh token") && (text::contains(lower, "expired")
        || text::contains(lower, "invalid") || text::contains(lower, "revoked") || text::contains(
        lower,
        "already used",
    ))) || text::contains(lower, "please log out and sign in again") || text::contains(
        lower,
        "token expired",
    ) || text::contains(lower, "invalid api key") || (text::contains(lower, "api key") && (
    text::contains(lower, "missing") || text::contains(lower, "invalid") || text::contains(
        lower,
        "expired",
    )))
}

/// Whether a text says, in upper or lower case, that the provider is not logged in.
pub fn is_auth_error_message(text: &str) -> (r: bool)
    ensures
        r == says_auth_error(text::lowercase(text@)),
{
    lowered_auth_error(text::to_lower(text).as_str())
}

/// A text in lower case says that the provider is overloaded.
pub open spec fn says_overloaded(lower: Seq<char>) -> bool {
    ||| text::has_text(lower, "selected model is at capacity"@)
    ||| text::has_text(lower, "model is at capacity"@)
    ||| text::has_text(lower, "at capacity"@) && text::has_text(lower, "model"@)
    ||| text::has_text(lower, "try a different model"@)
    ||| text::has_text(lower, "rate limit"@)
    ||| text::has_text(lower, "hit your limit"@)
    ||| text::has_text(lower, "usage limit"@)
    ||| text::has_text(lower, "limit to reset"@)
    ||| text::has_text(lower, "too many requests"@)
    ||| text::has_text(lower, "provider overloaded"@)
    ||| text::has_text(lower, "server overloaded"@)
    ||| text::has_text(lower, "service overloaded"@)
    ||| text::has_text(lower, "overloaded"@)
    ||| text::has_text(lower, "please try again later"@)
}

/// Whether a text in lower case says that the provider is overloaded.
pub fn lowered_overloaded(lower: &str) -> (r: bool)
    ensures
        r == says_overloaded(lower@),
{
    text::contains(lower, "selected model is at capacity") || text::contains(
        lower,
        "model is at capacity",
    ) || (text::contains(lower, "at capacity") && text::contains(lower, "model"))
        || text::contains(lower, "try a different model") || text::contains(lower, "rate limit")
        || text::contains(lower, "hit your limit") || text::contains(lower, "usage limit")
        || text::contains(lower, "limit to reset") || text::contains(lower, "too many requests")
        || text::contains(lower, "provider overloaded") || text::contains(
        lower,
        "server overloaded",
    ) || text::contains(lower, "service overloaded") || text::contains(lower, "overloaded")
        || text::contains(lower, "please try again later")
}

/// The text without the white space around it, if it says that the provider is
/// overloaded.
pub fn detect_provider_overload_message(text: &str) -> (r: Option<String>)
    ensures
        ({
            let trimmed = text::trimmed(text@);
            text::opt_text(r) == if trimmed.len() > 0 && says_overloaded(
                text::lowercase(trimmed),
            ) {
                Some(trimmed)
            } else {
                None
            }
        }),
{
    let trimmed = text::trim(text);
    if trimmed.is_empty() {
        return None;
    }
    if lowered_overloaded(text::to_lower(trimmed).as_str()) {
        Some(trimmed.to_owned())
    } else {
        None
    }
}

// ---------------------------------------------------------------------------
// Errors with structure
// ---------------------------------------------------------------------------
/// Why a provider counts as overloaded.
#[derive(Debug, Clone, Copy, PartialEq, Eq)]
pub enum ProviderOverloadReason {
    HttpStatus(u16),
    ErrorCode(&'static str),
}

pub enum ReasonView {
    HttpStatus(u16),
    ErrorCode(Seq<char>),
}

impl View for ProviderOverloadReason {
    type V = ReasonView;

    open spec fn view(&self) -> ReasonView {
        match self {
            ProviderOverloadReason::HttpStatus(status) => ReasonView::HttpStatus(*status),
            ProviderOverloadReason::ErrorCode(code) => ReasonView::ErrorCode(code@),
        }
    }
}

/// An optional reason by its view.
pub open spec fn reason_view(reason: Option<ProviderOverloadReason>) -> Option<ReasonView> {
    match reason {
        Some(reason) => Some(reason@),
        None => None,
    }
}

/// A code for too many requests.
pub open spec fn is_rate_limit_code(code: Seq<char>) -> bool {
    ||| code == "rate_limit"@
    ||| code == "rate_limited"@
    ||| code == "rate_limit_error"@
    ||| code == "too_many_requests"@
}

/// A code for too little capacity.
pub open spec fn is_overload_code(code: Seq<char>) -> bool {
    ||| code == "overloaded"@
    ||| code == "overloaded_error"@
    ||| code == "provider_overloaded"@
}

/// The reason that is given to the outside.
pub open spec fn public_reason_text(reason: ReasonView) -> Seq<char> {
    match reason {
        ReasonView::HttpStatus(status) => if status == 429 {
            "provider_http_429_capacity_response"@
        } else if status == 529 {
            "provider_http_529_capacity_response"@
        } else {
            "provider_capacity_response"@
        },
        ReasonView::ErrorCode(code) => if is_rate_limit_code(code) {
            "provider_rate_limit_response"@
        } else if is_overload_code(code) {
            "provider_overload_response"@
        } else {
            "provider_capacity_response"@
        },
    }
}

impl ProviderOverloadReason {
    /// The reason that is given to the outside.
    pub fn public_reason(self) -> (r: &'static str)
        ensures
            r@ == public_reason_text(self@),
    {
        match self {
            ProviderOverloadReason::HttpStatus(status) => if status == 429 {
                "provider_http_429_capacity_response"
            } else if status == 529 {
                "provider_http_529_capacity_response"
            } else {
                "provider_capacity_response"
            },
            ProviderOverloadReason::ErrorCode(code) => {
                if text::same_text(code, "rate_limit") || text::same_text(code, "rate_limited")
                    || text::same_text(code, "rate_limit_error") || text::same_text(
                    code,
                    "too_many_requests",
                ) {
                    "provider_rate_limit_response"
                } else if text::same_text(code, "overloaded") || text::same_text(
                    code,
                    "overloaded_error",
                ) || text::same_text(code, "provider_overloaded") {
                    "provider_overload_response"
                } else {
                    "provider_capacity_response"
                }
            },
        }
    }
}

/// The known error code that `value` is.
fn known_code(value: &str) -> (r: Option<&'static str>)
    ensures
        match r {
            Some(code) => code@ == value@ && (is_rate_limit_code(value@) || is_overload_code(
                value@,
            )),
            None => !is_rate_limit_code(value@) && !is_overload_code(value@),
        },
{
    if text::same_text(value, "rate_limit") {
        Some("rate_limit")
    } else if text::same_text(value, "rate_limited") {
        Some("rate_limited")
    } else if text::same_text(value, "rate_limit_error") {
        Some("rate_limit_error")
    } else if text::same_text(value, "too_many_requests") {
        Some("too_many_requests")
    } else if text::same_text(value, "overloaded") {
        Some("overloaded")
    } else if text::same_text(value, "overloaded_error") {
        Some("overloaded_error")
    } else if text::same_text(value, "provider_overloaded") {
        Some("provider_overloaded")
    } else {
        None
    }
}

/// The status that a value holds: an unsigned number, or a string that denotes one.
pub open spec fn status_code_of(value: JsonValue) -> Option<nat> {
    match value {
        JsonValue::Number(number) => match number.unsigned {
            Some(n) => Some(n as nat),
            None => None,
        },
        JsonValue::Text(s) => text::parsed_unsigned(text::trimmed(s@), u64::MAX as nat),
        _ => None,
    }
}

/// The status that a value holds: an unsigned number, or a string that denotes one.
pub fn structured_status_code(value: &JsonValue) -> (r: Option<u64>)
    ensures
        match r {
            Some(n) => status_code_of(*value) == Some(n as nat),
            None => status_code_of(*value) is None,
        },
{
    match value {
        JsonValue::Number(number) => number.unsigned,
        JsonValue::Text(s) => text::parse_unsigned(text::trim(s.as_str()), u64::MAX),
        _ => None,
    }
}

/// The status under the key `key`, if it is one of an overload.
pub open spec fn overload_status_at(fields: Seq<JsonField>, key: Seq<char>) -> Option<ReasonView> {
    match json::field_of(fields, key) {
        Some(value) => if status_code_of(value) == Some(429nat) {
            Some(ReasonView::HttpStatus(429))
        } else if status_code_of(value) == Some(529nat) {
            Some(ReasonView::HttpStatus(529))
        } else {
            None
        },
        None => None,
    }
}

fn status_reason_at(fields: &Vec<JsonField>, key: &str) -> (r: Option<ProviderOverloadReason>)
    ensures
        reason_view(r) == overload_status_at(fields@, key@),
{
    match find_field(fields, key) {
        Some(value) => match structured_status_code(value) {
            Some(status) => if status == 429 {
                Some(ProviderOverloadReason::HttpStatus(429))
            } else if status == 529 {
                Some(ProviderOverloadReason::HttpStatus(529))
            } else {
                None
            },
            None => None,
        },
        None => None,
    }
}

/// `_` in place of `-` and of a space.
pub open spec fn underscore_char(c: char) -> char {
    if c == '-' || c == ' ' {
        '_'
    } else {
        c
    }
}

/// `-` and spaces become `_`.
pub open spec fn underscored(s: Seq<char>) -> Seq<char> {
    s.map_values(|c: char| underscore_char(c))
}

fn underscore(s: &str) -> (out: String)
    ensures
        out@ == underscored(s@),
{
    let v = text::chars_of(s);
    let mut out: String = String::new();
    let mut i: usize = 0;
    while i < v.len()
        invariant
            v@ == s@,
            i <= v@.len(),
            out@ == underscored(s@.take(i as int)),
        decreases v@.len() - i,
    {
        let c = if v[i] == '-' || v[i] == ' ' {
            '_'
        } else {
            v[i]
        };
        out.push(c);
        assert(underscored(s@.take(i + 1)) =~= underscored(s@.take(i as int)).push(c));
        i += 1;
    }
    assert(s@.take(i as int) =~= s@);
    out
}

/// The error code under the key `key`, if it is one of an overload.
pub open spec fn overload_code_at(fields: Seq<JsonField>, key: Seq<char>) -> Option<ReasonView> {
    match json::field_of(fields, key) {
        Some(JsonValue::Text(s)) => {
            let code = underscored(text::ascii_lower(text::trimmed(s@)));
            if is_rate_limit_code(code) || is_overload_code(code) {
                Some(ReasonView::ErrorCode(code))
            } else {
                None
            }
        },
        _ => None,
    }
}

fn code_reason_at(fields: &Vec<JsonField>, key: &str) -> (r: Option<ProviderOverloadReason>)
    ensures
        reason_view(r) == overload_code_at(fields@, key@),
{
    match find_field(fields, key) {
        Some(JsonValue::Text(s)) => {
            let code = underscore(text::to_ascii_lower(text::trim(s.as_str())).as_str());
            match known_code(code.as_str()) {
                Some(code) => Some(ProviderOverloadReason::ErrorCode(code)),
                None => None,
            }
        },
        _ => None,
    }
}

/// The first of two reasons that is there.
pub open spec fn first_reason(a: Option<ReasonView>, b: Option<ReasonView>) -> Option<ReasonView> {
    if a is Some {
        a
    } else {
        b
    }
}

/// Why an error object speaks of an overload: by its status if it has one of an
/// overload, else by its code.
pub open spec fn object_reason(fields: Seq<JsonField>) -> Option<ReasonView> {
    first_reason(
        overload_status_at(fields, "status"@),
        first_reason(
            overload_status_at(fields, "status_code"@),
            first_reason(
                overload_status_at(fields, "statusCode"@),
                first_reason(
                    overload_status_at(fields, "http_status"@),
                    first_reason(
                        overload_code_at(fields, "code"@),
                        first_reason(
                            overload_code_at(fields, "error_code"@),
                            first_reason(
                                overload_code_at(fields, "errorCode"@),
                                overload_code_at(fields, "type"@),
                            ),
                        ),
                    ),
                ),
            ),
        ),
    )
}

fn or_reason(
    a: Option<ProviderOverloadReason>,
    b: Option<ProviderOverloadReason>,
) -> (r: Option<ProviderOverloadReason>)
    ensures
        reason_view(r) == first_reason(reason_view(a), reason_view(b)),
{
    match a {
        Some(reason) => Some(reason),
        None => b,
    }
}

/// Why an error object speaks of an overload.
pub fn error_object_reason(fields: &Vec<JsonField>) -> (r: Option<ProviderOverloadReason>)
    ensures
        reason_view(r) == object_reason(fields@),
{
    let codes = or_reason(
        code_reason_at(fields, "code"),
        or_reason(
            code_reason_at(fields, "error_code"),
            or_reason(code_reason_at(fields, "errorCode"), code_reason_at(fields, "type")),
        ),
    );
    or_reason(
        status_reason_at(fields, "status"),
        or_reason(
            status_reason_at(fields, "status_code"),
            or_reason(
                status_reason_at(fields, "statusCode"),
                or_reason(status_reason_at(fields, "http_status"), codes),
            ),
        ),
    )
}

/// Why the object under `name`, if there is one, speaks of an overload.
pub open spec fn nested_reason(value: JsonValue, name: Seq<char>) -> Option<ReasonView> {
    match value.field(name) {
        Some(JsonValue::Object(fields)) => object_reason(fields@),
        _ => None,
    }
}

fn nested_object_reason(value: &JsonValue, name: &str) -> (r: Option<ProviderOverloadReason>)
    ensures
        reason_view(r) == nested_reason(*value, name@),
{
    match value.get(name) {
        Some(JsonValue::Object(fields)) => error_object_reason(fields),
        _ => None,
    }
}

/// Why a value, or one of the error objects in it, speaks of an overload.
pub open spec fn structured_reason(value: JsonValue) -> Option<ReasonView> {
    first_reason(
        match value {
            JsonValue::Object(fields) => object_reason(fields@),
            _ => None,
        },
        first_reason(
            nested_reason(value, "error"@),
            first_reason(
                nested_reason(value, "provider_error"@),
                first_reason(nested_reason(value, "response"@), nested_reason(value, "cause"@)),
            ),
        ),
    )
}

/// Why a value, or one of the error objects in it, speaks of an overload.
pub fn structured_error_objects(value: &JsonValue) -> (r: Option<ProviderOverloadReason>)
    ensures
        reason_view(r) == structured_reason(*value),
{
    let own = match value {
        JsonValue::Object(fields) => error_object_reason(fields),
        _ => None,
    };
    or_reason(
        own,
        or_reason(
            nested_object_reason(value, "error"),
            or_reason(
                nested_object_reason(value, "provider_error"),
                or_reason(
                    nested_object_reason(value, "response"),
                    nested_object_reason(value, "cause"),
                ),
            ),
        ),
    )
}

// ---------------------------------------------------------------------------
// The envelope of an API error
// ---------------------------------------------------------------------------
/// A character of a word: an ASCII letter or digit, or `_`.
pub open spec fn is_word_char(c: char) -> bool {
    ('a' <= c <= 'z') || ('A' <= c <= 'Z') || ('0' <= c <= '9') || c == '_'
}

/// A space in place of a character that belongs to no word.
pub open spec fn mask_char(c: char) -> char {
    if is_word_char(c) {
        c
    } else {
        ' '
    }
}

/// Every character that belongs to no word becomes a space.
pub open spec fn masked(s: Seq<char>) -> Seq<char> {
    s.map_values(|c: char| mask_char(c))
}

fn mask(s: &str) -> (out: String)
    ensures
        out@ == masked(s@),
{
    let v = text::chars_of(s);
    let mut out: String = String::new();
    let mut i: usize = 0;
    while i < v.len()
        invariant
            v@ == s@,
            i <= v@.len(),
            out@ == masked(s@.take(i as int)),
        decreases v@.len() - i,
    {
        let c = v[i];
        let word = ('a' <= c && c <= 'z') || ('A' <= c && c <= 'Z') || ('0' <= c && c <= '9') || c
            == '_';
        let kept = if word {
            c
        } else {
            ' '
        };
        out.push(kept);
        assert(masked(s@.take(i + 1)) =~= masked(s@.take(i as int)).push(kept));
        i += 1;
    }
    assert(s@.take(i as int) =~= s@);
    out
}

/// The words of `s`, and empty texts where separators stand side by side.
pub open spec fn tokens_of(s: Seq<char>) -> Seq<Seq<char>> {
    text::split_on(masked(s), ' ')
}

/// The first number among the tokens.
pub open spec fn first_number(tokens: Seq<Seq<char>>) -> Option<nat>
    decreases tokens.len(),
{
    if tokens.len() == 0 {
        None
    } else if text::parsed_unsigned(tokens[0], u64::MAX as nat) is Some {
        text::parsed_unsigned(tokens[0], u64::MAX as nat)
    } else {
        first_number(tokens.drop_first())
    }
}

fn find_number(tokens: &Vec<String>) -> (r: Option<u64>)
    ensures
        match r {
            Some(n) => first_number(text::texts(tokens@)) == Some(n as nat),
            None => first_number(text::texts(tokens@)) is None,
        },
{
    let ghost all = text::texts(tokens@);
    let mut i: usize = 0;
    assert(all.skip(0) =~= all);
    while i < tokens.len()
        invariant
            all == text::texts(tokens@),
            i <= tokens@.len(),
            first_number(all) == first_number(all.skip(i as int)),
        decreases tokens@.len() - i,
    {
        let ghost rest = all.skip(i as int);
        assert(rest[0] == tokens@[i as int]@);
        match text::parse_unsigned(tokens[i].as_str(), u64::MAX) {
            Some(n) => {
                return Some(n);
            },
            None => {},
        }
        assert(rest.drop_first() =~= all.skip(i + 1));
        i += 1;
    }
    None
}

/// The first known error code among the tokens.
pub open spec fn first_code(tokens: Seq<Seq<char>>) -> Option<ReasonView>
    decreases tokens.len(),
{
    if tokens.len() == 0 {
        None
    } else if is_rate_limit_code(tokens[0]) || is_overload_code(tokens[0]) {
        Some(ReasonView::ErrorCode(tokens[0]))
    } else {
        first_code(tokens.drop_first())
    }
}

fn find_code(tokens: &Vec<String>) -> (r: Option<ProviderOverloadReason>)
    ensures
        reason_view(r) == first_code(text::texts(tokens@)),
{
    let ghost all = text::texts(tokens@);
    let mut i: usize = 0;
    assert(all.skip(0) =~= all);
    while i < tokens.len()
        invariant
            all == text::texts(tokens@),
            i <= tokens@.len(),
            first_code(all) == first_code(all.skip(i as int)),
        decreases tokens@.len() - i,
    {
        let ghost rest = all.skip(i as int);
        assert(rest[0] == tokens@[i as int]@);
        match known_code(tokens[i].as_str()) {
            Some(code) => {
                return Some(ProviderOverloadReason::ErrorCode(code));
            },
            None => {},
        }
        assert(rest.drop_first() =~= all.skip(i + 1));
        i += 1;
    }
    None
}

/// A character that an envelope's detail may not hold.
pub open spec fn breaks_envelope(c: char) -> bool {
    c == '[' || c == ']' || c == '\n' || c == '\r'
}

/// A text holds a character that an envelope's detail may not hold.
pub open spec fn has_envelope_break(s: Seq<char>) -> bool {
    exists|i: int| 0 <= i < s.len() && breaks_envelope(#[trigger] s[i])
}

/// The detail of an API error that a text is an envelope of: `[API Error: detail]`,
/// with nothing around it and no bracket or line break inside.
pub open spec fn envelope_detail(s: Seq<char>) -> Option<Seq<char>> {
    let t = text::trimmed(s);
    if text::has_prefix(t, "["@) && text::has_suffix(t.skip("["@.len() as int), "]"@) {
        let open = t.skip("["@.len() as int);
        let inner = open.take(open.len() - "]"@.len());
        let body = if text::has_prefix(inner, "API Error:"@) {
            Some(inner.skip("API Error:"@.len() as int))
        } else if text::has_prefix(inner, "api error:"@) {
            Some(inner.skip("api error:"@.len() as int))
        } else {
            None
        };
        match body {
            Some(body) => {
                let detail = text::trimmed(body);
                if detail.len() > 0 && !has_envelope_break(detail) {
                    Some(detail)
                } else {
                    None
                }
            },
            None => None,
        }
    } else {
        None
    }
}

fn holds_envelope_break(s: &str) -> (r: bool)
    ensures
        r == has_envelope_break(s@),
{
    let v = text::chars_of(s);
    let mut i: usize = 0;
    while i < v.len()
        invariant
            v@ == s@,
            i <= v@.len(),
            forall|k: int| 0 <= k < i ==> !breaks_envelope(#[trigger] s@[k]),
        decreases v@.len() - i,
    {
        let c = v[i];
        if c == '[' || c == ']' || c == '\n' || c == '\r' {
            assert(breaks_envelope(s@[i as int]));
            return true;
        }
        i += 1;
    }
    false
}

fn parse_envelope<'a>(text: &'a str) -> (r: Option<&'a str>)
    ensures
        match r {
            Some(detail) => envelope_detail(text@) == Some(detail@),
            None => envelope_detail(text@) is None,
        },
{
    let trimmed = text::trim(text);
    let open = match text::strip_prefix(trimmed, "[") {
        Some(open) => open,
        None => {
            return None;
        },
    };
    let inner = match text::strip_suffix(open, "]") {
        Some(inner) => inner,
        None => {
            return None;
        },
    };
    let body = match text::strip_prefix(inner, "API Error:") {
        Some(body) => body,
        None => match text::strip_prefix(inner, "api error:") {
            Some(body) => body,
            None => {
                return None;
            },
        },
    };
    let detail = text::trim(body);
    if detail.is_empty() || holds_envelope_break(detail) {
        return None;
    }
    Some(detail)
}

/// Why the envelope of an API error speaks of an overload: its first number if that
/// is a status of an overload, else its first known error code.
pub open spec fn envelope_reason(s: Seq<char>) -> Option<ReasonView> {
    match envelope_detail(s) {
        Some(detail) => {
            let tokens = tokens_of(text::ascii_lower(detail));
            if first_number(tokens) == Some(429nat) {
                Some(ReasonView::HttpStatus(429))
            } else if first_number(tokens) == Some(529nat) {
                Some(ReasonView::HttpStatus(529))
            } else {
                first_code(tokens)
            }
        },
        None => None,
    }
}

/// Why the envelope of an API error speaks of an overload.
pub fn detect_api_error_overload_envelope(text: &str) -> (r: Option<ProviderOverloadReason>)
    ensures
        reason_view(r) == envelope_reason(text@),
{
    let detail = match parse_envelope(text) {
        Some(detail) => detail,
        None => {
            return None;
        },
    };
    let lower = text::to_ascii_lower(detail);
    let tokens = text::split(mask(lower.as_str()).as_str(), ' ');
    match find_number(&tokens) {
        Some(status) => {
            if status == 429 {
                return Some(ProviderOverloadReason::HttpStatus(429));
            }
            if status == 529 {
                return Some(ProviderOverloadReason::HttpStatus(529));
            }
        },
        None => {},
    }
    find_code(&tokens)
}

/// The first envelope among a list's strings that speaks of an overload.
pub open spec fn first_envelope(values: Seq<JsonValue>) -> Option<ReasonView>
    decreases values.len(),
{
    if values.len() == 0 {
        None
    } else {
        first_reason(
            match values[0].as_text() {
                Some(s) => envelope_reason(s),
                None => None,
            },
            first_envelope(values.drop_first()),
        )
    }
}

fn find_envelope(values: &Vec<JsonValue>) -> (r: Option<ProviderOverloadReason>)
    ensures
        reason_view(r) == first_envelope(values@),
{
    let mut i: usize = 0;
    assert(values@.skip(0) =~= values@);
    while i < values.len()
        invariant
            i <= values@.len(),
            first_envelope(values@) == first_envelope(values@.skip(i as int)),
        decreases values@.len() - i,
    {
        let ghost rest = values@.skip(i as int);
        assert(rest[0] == values@[i as int]);
        if let Some(s) = values[i].as_str() {
            if let Some(reason) = detect_api_error_overload_envelope(s) {
                return Some(reason);
            }
        }
        assert(rest.drop_first() =~= values@.skip(i + 1));
        i += 1;
    }
    None
}

/// Why the error texts of a result speak of an overload: the strings of its list of
/// errors, and the result itself if it is a string.
pub open spec fn error_text_reason(value: JsonValue) -> Option<ReasonView> {
    first_reason(
        match value.field("errors"@) {
            Some(JsonValue::Array(values)) => first_envelope(values@),
            _ => None,
        },
        match value.text_field("result"@) {
            Some(s) => envelope_reason(s),
            None => None,
        },
    )
}

/// Why the error texts of a result speak of an overload.
pub fn result_error_texts(value: &JsonValue) -> (r: Option<ProviderOverloadReason>)
    ensures
        reason_view(r) == error_text_reason(*value),
{
    let listed = match value.get("errors") {
        Some(JsonValue::Array(values)) => find_envelope(values),
        _ => None,
    };
    match listed {
        Some(reason) => Some(reason),
        None => match value.get_str("result") {
            Some(s) => detect_api_error_overload_envelope(s),
            None => None,
        },
    }
}

/// A value is the result of a turn, and an error.
pub open spec fn is_error_result(value: JsonValue) -> bool {
    value.text_field("type"@) == Some("result"@) && value.field("is_error"@) == Some(
        JsonValue::Bool(true),
    )
}

/// Why a value says that the provider is overloaded: only the result of a turn that
/// is marked as an error says so, by its error objects or by its error texts.
pub fn detect_structured_provider_overload(value: &JsonValue) -> (r: Option<ProviderOverloadReason>)
    ensures
        reason_view(r) == if is_error_result(*value) {
            first_reason(structured_reason(*value), error_text_reason(*value))
        } else {
            None
        },
{
    let is_result = match value.get_str("type") {
        Some(kind) => text::same_text(kind, "result"),
        None => false,
    };
    let is_error = match value.get("is_error") {
        Some(flag) => match flag.as_bool() {
            Some(b) => b,
            None => false,
        },
        None => false,
    };
    if !is_result || !is_error {
        return None;
    }
    match structured_error_objects(value) {
        Some(reason) => Some(reason),
        None => result_error_texts(value),
    }
}

} // verus!
