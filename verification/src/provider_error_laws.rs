//! What the recognition of provider errors tells apart.

use vstd::prelude::*;

use crate::json;
use crate::json::{JsonField, JsonValue};
use crate::provider_errors::{
    detect_api_error_overload_envelope, detect_provider_overload_message,
    detect_structured_provider_overload, error_object_reason, is_auth_error_message,
    is_prompt_too_long_message, lowered_auth_error, lowered_overloaded, lowered_prompt_too_long,
    result_error_texts, structured_error_objects, structured_status_code, ProviderOverloadReason,
};
use crate::provider_errors;
use crate::text;

verus! {

// ---------------------------------------------------------------------------
// Errors in prose
// ---------------------------------------------------------------------------
proof fn lemma_text_within(before: Seq<char>, phrase: Seq<char>, after: Seq<char>)
    ensures
        text::has_text(before + phrase + after, phrase),
{
    let whole = before + phrase + after;
    assert(whole.subrange(before.len() as int, before.len() as int + phrase.len()) =~= phrase);
    assert(text::occurs_at(whole, phrase, before.len() as int));
}

/// A text that holds one of these phrases, with anything around it, says that the prompt is
/// too long.
pub proof fn law_prompt_too_long_phrase_is_recognised(
    before: Seq<char>,
    phrase: Seq<char>,
    after: Seq<char>,
    lower: &str,
    r: bool,
)
    requires
        call_ensures(lowered_prompt_too_long, (lower,), r),
        lower@ == before + phrase + after,
        ({
            ||| phrase == "prompt is too long"@
            ||| phrase == "prompt too long"@
            ||| phrase == "context_length_exceeded"@
            ||| phrase == "conversation too long"@
            ||| phrase == "context window"@
        }),
    ensures
        r,
{
    lemma_text_within(before, phrase, after);
}

/// A text without any of the phrases does not say that the prompt is too long.
pub proof fn law_nothing_else_is_prompt_too_long(lower: &str, r: bool)
    requires
        call_ensures(lowered_prompt_too_long, (lower,), r),
        !text::has_text(lower@, "prompt is too long"@),
        !text::has_text(lower@, "prompt too long"@),
        !text::has_text(lower@, "context_length_exceeded"@),
        !text::has_text(lower@, "conversation too long"@),
        !text::has_text(lower@, "context window"@),
    ensures
        !r,
{
}

/// A text that holds one of these phrases, with anything around it, says that the provider
/// is not logged in.
pub proof fn law_auth_error_phrase_is_recognised(
    before: Seq<char>,
    phrase: Seq<char>,
    after: Seq<char>,
    lower: &str,
    r: bool,
)
    requires
        call_ensures(lowered_auth_error, (lower,), r),
        lower@ == before + phrase + after,
        ({
            ||| phrase == "not logged in"@
            ||| phrase == "authentication error"@
            ||| phrase == "unauthorized"@
            ||| phrase == "please run /login"@
            ||| phrase == "oauth"@
            ||| phrase == "access token could not be refreshed"@
            ||| phrase == "please log out and sign in again"@
            ||| phrase == "token expired"@
            ||| phrase == "invalid api key"@
        }),
    ensures
        r,
{
    lemma_text_within(before, phrase, after);
}

/// The words `refresh token` alone say nothing; with one of the words that belong to them, they do.
pub proof fn law_auth_error_refresh_token_needs_its_trouble(before: Seq<char>, after: Seq<char>, word: Seq<char>, lower: &str, r: bool)
    requires
        call_ensures(lowered_auth_error, (lower,), r),
        lower@ == before + "refresh token"@ + after,
        text::has_text(lower@, word),
        ({
            ||| word == "expired"@
            ||| word == "invalid"@
            ||| word == "revoked"@
            ||| word == "already used"@
        }),
    ensures
        r,
{
    lemma_text_within(before, "refresh token"@, after);
}

/// The words `api key` alone say nothing; with one of the words that belong to them, they do.
pub proof fn law_auth_error_api_key_needs_its_trouble(before: Seq<char>, after: Seq<char>, word: Seq<char>, lower: &str, r: bool)
    requires
        call_ensures(lowered_auth_error, (lower,), r),
        lower@ == before + "api key"@ + after,
        text::has_text(lower@, word),
        ({
            ||| word == "missing"@
            ||| word == "invalid"@
            ||| word == "expired"@
        }),
    ensures
        r,
{
    lemma_text_within(before, "api key"@, after);
}

/// A text without any of the phrases does not say that the provider is not logged in.
pub proof fn law_nothing_else_is_auth_error(lower: &str, r: bool)
    requires
        call_ensures(lowered_auth_error, (lower,), r),
        !text::has_text(lower@, "not logged in"@),
        !text::has_text(lower@, "authentication error"@),
        !text::has_text(lower@, "unauthorized"@),
        !text::has_text(lower@, "please run /login"@),
        !text::has_text(lower@, "oauth"@),
        !text::has_text(lower@, "access token could not be refreshed"@),
        !text::has_text(lower@, "please log out and sign in again"@),
        !text::has_text(lower@, "token expired"@),
        !text::has_text(lower@, "invalid api key"@),
        !text::has_text(lower@, "refresh token"@) || (!text::has_text(lower@, "expired"@) && !text::has_text(lower@, "invalid"@) && !text::has_text(lower@, "revoked"@) && !text::has_text(lower@, "already used"@)),
        !text::has_text(lower@, "api key"@) || (!text::has_text(lower@, "missing"@) && !text::has_text(lower@, "invalid"@) && !text::has_text(lower@, "expired"@)),
    ensures
        !r,
{
}

/// A text that holds one of these phrases, with anything around it, says that the provider
/// is overloaded.
pub proof fn law_overload_phrase_is_recognised(
    before: Seq<char>,
    phrase: Seq<char>,
    after: Seq<char>,
    lower: &str,
    r: bool,
)
    requires
        call_ensures(lowered_overloaded, (lower,), r),
        lower@ == before + phrase + after,
        ({
            ||| phrase == "selected model is at capacity"@
            ||| phrase == "model is at capacity"@
            ||| phrase == "try a different model"@
            ||| phrase == "rate limit"@
            ||| phrase == "hit your limit"@
            ||| phrase == "usage limit"@
            ||| phrase == "limit to reset"@
            ||| phrase == "too many requests"@
            ||| phrase == "provider overloaded"@
            ||| phrase == "server overloaded"@
            ||| phrase == "service overloaded"@
            ||| phrase == "overloaded"@
            ||| phrase == "please try again later"@
        }),
    ensures
        r,
{
    lemma_text_within(before, phrase, after);
}

/// The words `at capacity` alone say nothing; with one of the words that belong to them, they do.
pub proof fn law_overload_at_capacity_needs_its_trouble(before: Seq<char>, after: Seq<char>, word: Seq<char>, lower: &str, r: bool)
    requires
        call_ensures(lowered_overloaded, (lower,), r),
        lower@ == before + "at capacity"@ + after,
        text::has_text(lower@, word),
        ({
            ||| word == "model"@
        }),
    ensures
        r,
{
    lemma_text_within(before, "at capacity"@, after);
}

/// A text without any of the phrases does not say that the provider is overloaded.
pub proof fn law_nothing_else_is_overload(lower: &str, r: bool)
    requires
        call_ensures(lowered_overloaded, (lower,), r),
        !text::has_text(lower@, "selected model is at capacity"@),
        !text::has_text(lower@, "model is at capacity"@),
        !text::has_text(lower@, "try a different model"@),
        !text::has_text(lower@, "rate limit"@),
        !text::has_text(lower@, "hit your limit"@),
        !text::has_text(lower@, "usage limit"@),
        !text::has_text(lower@, "limit to reset"@),
        !text::has_text(lower@, "too many requests"@),
        !text::has_text(lower@, "provider overloaded"@),
        !text::has_text(lower@, "server overloaded"@),
        !text::has_text(lower@, "service overloaded"@),
        !text::has_text(lower@, "overloaded"@),
        !text::has_text(lower@, "please try again later"@),
        !text::has_text(lower@, "at capacity"@) || (!text::has_text(lower@, "model"@)),
    ensures
        !r,
{
}

/// Upper and lower case make no difference: a text is recognised just where its lower case
/// is, and an overload is reported with the text itself, without the white space around it.
pub proof fn law_case_makes_no_difference(
    text: &str,
    lower: &str,
    prompt: bool,
    prompt_lower: bool,
    auth: bool,
    auth_lower: bool,
)
    requires
        lower@ == text::lowercase(text@),
        call_ensures(is_prompt_too_long_message, (text,), prompt),
        call_ensures(lowered_prompt_too_long, (lower,), prompt_lower),
        call_ensures(is_auth_error_message, (text,), auth),
        call_ensures(lowered_auth_error, (lower,), auth_lower),
    ensures
        prompt == prompt_lower,
        auth == auth_lower,
{
}

/// An overload in prose is reported with the whole text, without the white space around it.
pub proof fn law_overload_message_is_the_text(
    text: &str,
    lower: &str,
    says: bool,
    r: Option<String>,
)
    requires
        lower@ == text::lowercase(text::trimmed(text@)),
        call_ensures(lowered_overloaded, (lower,), says),
        call_ensures(detect_provider_overload_message, (text,), r),
    ensures
        r is Some <==> says && text::trimmed(text@).len() > 0,
        r matches Some(message) ==> message@ == text::trimmed(text@),
{
}

// ---------------------------------------------------------------------------
// The envelope of an API error
// ---------------------------------------------------------------------------
/// The words of a text in lower case: what its letters, digits and underscores make up.
pub open spec fn lower_words(detail: Seq<char>) -> Seq<Seq<char>> {
    text::split_on(
        Seq::new(
            detail.len(),
            |i: int|
                {
                    let c = detail[i];
                    if 'A' <= c <= 'Z' {
                        ((c as u32) + 32) as char
                    } else if ('a' <= c <= 'z') || ('0' <= c <= '9') || c == '_' {
                        c
                    } else {
                        ' '
                    }
                },
        ),
        ' ',
    )
}

/// The text is an envelope of `detail`: `[API Error: detail]`, or the same with `api error`,
/// with nothing but white space around it, and no bracket or line break inside.
pub open spec fn is_envelope_of(s: Seq<char>, body: Seq<char>) -> bool {
    let t = text::trimmed(s);
    let detail = text::trimmed(body);
    &&& t == "["@ + "API Error:"@ + body + "]"@ || t == "["@ + "api error:"@ + body + "]"@
    &&& detail.len() > 0
    &&& forall|i: int|
        0 <= i < detail.len() ==> (#[trigger] detail[i]) != '[' && detail[i] != ']' && detail[i]
            != '\n' && detail[i] != '\r'
}

proof fn lemma_first_number(tokens: Seq<Seq<char>>, i: int)
    requires
        0 <= i < tokens.len(),
        text::parsed_unsigned(tokens[i], u64::MAX as nat) is Some,
        forall|k: int|
            0 <= k < i ==> text::parsed_unsigned(#[trigger] tokens[k], u64::MAX as nat) is None,
    ensures
        provider_errors::first_number(tokens) == text::parsed_unsigned(
            tokens[i],
            u64::MAX as nat,
        ),
    decreases i,
{
    if i > 0 {
        let rest = tokens.drop_first();
        assert(text::parsed_unsigned(tokens[0], u64::MAX as nat) is None);
        assert forall|k: int| 0 <= k < i - 1 implies text::parsed_unsigned(
            #[trigger] rest[k],
            u64::MAX as nat,
        ) is None by {
            assert(rest[k] == tokens[k + 1]);
        }
        lemma_first_number(rest, i - 1);
    }
}

proof fn lemma_no_number(tokens: Seq<Seq<char>>)
    requires
        forall|k: int|
            0 <= k < tokens.len() ==> text::parsed_unsigned(
                #[trigger] tokens[k],
                u64::MAX as nat,
            ) is None,
    ensures
        provider_errors::first_number(tokens) is None,
    decreases tokens.len(),
{
    if tokens.len() > 0 {
        let rest = tokens.drop_first();
        assert(text::parsed_unsigned(tokens[0], u64::MAX as nat) is None);
        assert forall|k: int| 0 <= k < rest.len() implies text::parsed_unsigned(
            #[trigger] rest[k],
            u64::MAX as nat,
        ) is None by {
            assert(rest[k] == tokens[k + 1]);
        }
        lemma_no_number(rest);
    }
}

/// A word that names an overload.
pub open spec fn names_overload(word: Seq<char>) -> bool {
    ||| word == "rate_limit"@
    ||| word == "rate_limited"@
    ||| word == "rate_limit_error"@
    ||| word == "too_many_requests"@
    ||| word == "overloaded"@
    ||| word == "overloaded_error"@
    ||| word == "provider_overloaded"@
}

proof fn lemma_first_code(tokens: Seq<Seq<char>>, i: int)
    requires
        0 <= i < tokens.len(),
        names_overload(tokens[i]),
        forall|k: int| 0 <= k < i ==> !names_overload(#[trigger] tokens[k]),
    ensures
        provider_errors::first_code(tokens) == Some(
            provider_errors::ReasonView::ErrorCode(tokens[i]),
        ),
    decreases i,
{
    if i > 0 {
        let rest = tokens.drop_first();
        assert(!names_overload(tokens[0]));
        assert forall|k: int| 0 <= k < i - 1 implies !names_overload(#[trigger] rest[k]) by {
            assert(rest[k] == tokens[k + 1]);
        }
        lemma_first_code(rest, i - 1);
    }
}

proof fn lemma_no_code(tokens: Seq<Seq<char>>)
    requires
        forall|k: int| 0 <= k < tokens.len() ==> !names_overload(#[trigger] tokens[k]),
    ensures
        provider_errors::first_code(tokens) is None,
    decreases tokens.len(),
{
    if tokens.len() > 0 {
        let rest = tokens.drop_first();
        assert(!names_overload(tokens[0]));
        assert forall|k: int| 0 <= k < rest.len() implies !names_overload(#[trigger] rest[k]) by {
            assert(rest[k] == tokens[k + 1]);
        }
        lemma_no_code(rest);
    }
}

proof fn lemma_envelope(s: Seq<char>, body: Seq<char>)
    requires
        is_envelope_of(s, body),
    ensures
        provider_errors::envelope_detail(s) == Some(text::trimmed(body)),
        provider_errors::tokens_of(text::ascii_lower(text::trimmed(body))) == lower_words(
            text::trimmed(body),
        ),
{
    let t = text::trimmed(s);
    let detail = text::trimmed(body);
    reveal_strlit("[");
    reveal_strlit("]");
    reveal_strlit("API Error:");
    reveal_strlit("api error:");
    let head = if t == "["@ + "API Error:"@ + body + "]"@ {
        "API Error:"@
    } else {
        "api error:"@
    };
    assert(t == "["@ + head + body + "]"@);
    assert(t.take(1) =~= "["@);
    let open = t.skip(1);
    assert(open =~= head + body + "]"@);
    assert(open.skip(open.len() - 1) =~= "]"@);
    let inner = open.take(open.len() - 1);
    assert(inner =~= head + body);
    assert(inner.take(10) =~= head);
    assert(inner.skip(10) =~= body);
    assert(head[0] == 'a' ==> inner.take(10)[0] != "API Error:"@[0]);
    assert(!provider_errors::has_envelope_break(detail));
    let masked = provider_errors::masked(text::ascii_lower(detail));
    assert(masked =~= Seq::new(
        detail.len(),
        |i: int|
            {
                let c = detail[i];
                if 'A' <= c <= 'Z' {
                    ((c as u32) + 32) as char
                } else if ('a' <= c <= 'z') || ('0' <= c <= '9') || c == '_' {
                    c
                } else {
                    ' '
                }
            },
    ));
}

/// An envelope whose first number is 429 or 529 speaks of an overload by just that status,
/// whatever else it says.
pub proof fn law_envelope_status_is_the_reason(
    text: &str,
    body: Seq<char>,
    i: int,
    status: nat,
    r: Option<ProviderOverloadReason>,
)
    requires
        call_ensures(detect_api_error_overload_envelope, (text,), r),
        is_envelope_of(text@, body),
        0 <= i < lower_words(text::trimmed(body)).len(),
        text::parsed_unsigned(lower_words(text::trimmed(body))[i], u64::MAX as nat) == Some(status),
        forall|k: int|
            0 <= k < i ==> text::parsed_unsigned(
                #[trigger] lower_words(text::trimmed(body))[k],
                u64::MAX as nat,
            ) is None,
        status == 429 || status == 529,
    ensures
        r == Some(ProviderOverloadReason::HttpStatus(status as u16)),
{
    lemma_envelope(text@, body);
    lemma_first_number(lower_words(text::trimmed(body)), i);
}

/// An envelope without such a status speaks of an overload by the first of its words that
/// names one, and not at all where no word does.
pub proof fn law_envelope_code_is_the_reason(
    text: &str,
    body: Seq<char>,
    i: int,
    r: Option<ProviderOverloadReason>,
)
    requires
        call_ensures(detect_api_error_overload_envelope, (text,), r),
        is_envelope_of(text@, body),
        forall|k: int|
            0 <= k < lower_words(text::trimmed(body)).len() ==> text::parsed_unsigned(
                #[trigger] lower_words(text::trimmed(body))[k],
                u64::MAX as nat,
            ) is None,
    ensures
        0 <= i < lower_words(text::trimmed(body)).len() && names_overload(
            lower_words(text::trimmed(body))[i],
        ) && (forall|k: int|
            0 <= k < i ==> !names_overload(#[trigger] lower_words(text::trimmed(body))[k])) ==> (
        r matches Some(ProviderOverloadReason::ErrorCode(code)) && code@ == lower_words(
            text::trimmed(body),
        )[i]),
        (forall|k: int|
            0 <= k < lower_words(text::trimmed(body)).len() ==> !names_overload(
                #[trigger] lower_words(text::trimmed(body))[k],
            )) ==> r is None,
{
    let words = lower_words(text::trimmed(body));
    lemma_envelope(text@, body);
    lemma_no_number(words);
    if 0 <= i < words.len() && names_overload(words[i]) && (forall|k: int|
        0 <= k < i ==> !names_overload(#[trigger] words[k])) {
        lemma_first_code(words, i);
    }
    if forall|k: int| 0 <= k < words.len() ==> !names_overload(#[trigger] words[k]) {
        lemma_no_code(words);
    }
}

/// A status of another kind is no overload, and neither is a text that is no envelope, be it
/// one with an envelope in the middle of prose.
pub proof fn law_only_an_envelope_speaks(
    text: &str,
    body: Seq<char>,
    i: int,
    status: nat,
    r: Option<ProviderOverloadReason>,
)
    requires
        call_ensures(detect_api_error_overload_envelope, (text,), r),
    ensures
        !(text::trimmed(text@).len() > 0 && text::trimmed(text@)[0] == '[') ==> r is None,
        !(text::trimmed(text@).len() > 0 && text::trimmed(text@).last() == ']') ==> r is None,
        r matches Some(ProviderOverloadReason::HttpStatus(code)) ==> code == 429 || code == 529,
        r matches Some(ProviderOverloadReason::ErrorCode(code)) ==> names_overload(code@),
        is_envelope_of(text@, body) && 0 <= i < lower_words(text::trimmed(body)).len()
            && text::parsed_unsigned(lower_words(text::trimmed(body))[i], u64::MAX as nat) == Some(
            status,
        ) && (forall|k: int|
            0 <= k < i ==> text::parsed_unsigned(
                #[trigger] lower_words(text::trimmed(body))[k],
                u64::MAX as nat,
            ) is None) && status != 429 && status != 529 ==> !(
        r matches Some(ProviderOverloadReason::HttpStatus(_))),
{
    let t = text::trimmed(text@);
    reveal_strlit("[");
    reveal_strlit("]");
    if text::has_prefix(t, "["@) {
        assert(t.take(1)[0] == t[0]);
        let open = t.skip(1);
        if text::has_suffix(open, "]"@) {
            assert(open.skip(open.len() - 1)[0] == t.last());
        }
    }
    if provider_errors::envelope_detail(text@) is Some {
        let tokens = provider_errors::tokens_of(
            text::ascii_lower(provider_errors::envelope_detail(text@)->0),
        );
        lemma_codes_are_known(tokens);
    }
    if is_envelope_of(text@, body) {
        lemma_envelope(text@, body);
        let words = lower_words(text::trimmed(body));
        if 0 <= i < words.len() && text::parsed_unsigned(words[i], u64::MAX as nat) is Some && (
        forall|k: int|
            0 <= k < i ==> text::parsed_unsigned(#[trigger] words[k], u64::MAX as nat) is None) {
            lemma_first_number(words, i);
        }
    }
}

/// Where an envelope speaks of an overload, it is whole: the text within its brackets begins
/// with the words of an API error, says something behind them, and holds no other bracket and
/// no line break.
pub proof fn law_speaking_envelope_is_whole(text: &str, r: Option<ProviderOverloadReason>)
    requires
        call_ensures(detect_api_error_overload_envelope, (text,), r),
        r is Some,
    ensures
        text::trimmed(text@).len() >= 12,
        is_envelope_of(
            text@,
            text::trimmed(text@).subrange(11, text::trimmed(text@).len() - 1),
        ),
{
    let t = text::trimmed(text@);
    reveal_strlit("[");
    reveal_strlit("]");
    reveal_strlit("API Error:");
    reveal_strlit("api error:");
    assert(provider_errors::envelope_detail(text@) is Some);
    let open = t.skip(1);
    let inner = open.take(open.len() - 1);
    assert(inner.skip(10) =~= t.subrange(11, t.len() - 1));
    let body = inner.skip(10);
    let head = inner.take(10);
    assert(t.take(1) =~= "["@);
    assert(open.skip(open.len() - 1) =~= "]"@);
    assert(open =~= inner + "]"@);
    assert(inner =~= head + body);
    assert(t =~= "["@ + head + body + "]"@);
    let detail = text::trimmed(body);
    assert(!provider_errors::has_envelope_break(detail));
    assert forall|i: int| 0 <= i < detail.len() implies (#[trigger] detail[i]) != '[' && detail[i]
        != ']' && detail[i] != '\n' && detail[i] != '\r' by {
        assert(!provider_errors::breaks_envelope(detail[i]));
    }
}

proof fn lemma_codes_are_known(tokens: Seq<Seq<char>>)
    ensures
        provider_errors::first_code(tokens) matches Some(reason) ==> (
        reason matches provider_errors::ReasonView::ErrorCode(code) && names_overload(code)),
    decreases tokens.len(),
{
    if tokens.len() > 0 {
        lemma_codes_are_known(tokens.drop_first());
    }
}

// ---------------------------------------------------------------------------
// Errors with structure
// ---------------------------------------------------------------------------
/// The field `key` holds the status `status`, as a number or as the text of one.
pub open spec fn holds_status(fields: Seq<JsonField>, key: Seq<char>, status: u64) -> bool {
    match json::field_of(fields, key) {
        Some(JsonValue::Number(number)) => number.unsigned == Some(status),
        Some(JsonValue::Text(s)) => text::parsed_unsigned(text::trimmed(s@), u64::MAX as nat)
            == Some(status as nat),
        _ => false,
    }
}

/// The field `key` holds the code `code`, in any case, with hyphens or spaces for the
/// underscores.
pub open spec fn holds_code(fields: Seq<JsonField>, key: Seq<char>, code: Seq<char>) -> bool {
    match json::field_of(fields, key) {
        Some(JsonValue::Text(s)) => {
            let t = text::trimmed(s@);
            code == Seq::new(
                t.len(),
                |i: int|
                    if t[i] == '-' || t[i] == ' ' {
                        '_'
                    } else if 'A' <= t[i] <= 'Z' {
                        ((t[i] as u32) + 32) as char
                    } else {
                        t[i]
                    },
            )
        },
        _ => false,
    }
}

/// No status of an overload stands under `key`.
pub open spec fn status_is_quiet(fields: Seq<JsonField>, key: Seq<char>) -> bool {
    !holds_status(fields, key, 429) && !holds_status(fields, key, 529)
}

/// No code of an overload stands under `key`.
pub open spec fn code_is_quiet(fields: Seq<JsonField>, key: Seq<char>) -> bool {
    forall|code: Seq<char>| #[trigger] holds_code(fields, key, code) ==> !names_overload(code)
}

proof fn lemma_status(fields: Seq<JsonField>, key: Seq<char>, status: u64)
    requires
        status == 429 || status == 529,
    ensures
        holds_status(fields, key, status) ==> provider_errors::overload_status_at(fields, key)
            == Some(provider_errors::ReasonView::HttpStatus(status as u16)),
        status_is_quiet(fields, key) ==> provider_errors::overload_status_at(fields, key) is None,
{
}

proof fn lemma_code(fields: Seq<JsonField>, key: Seq<char>, code: Seq<char>)
    ensures
        holds_code(fields, key, code) && names_overload(code) ==> provider_errors::overload_code_at(
            fields,
            key,
        ) == Some(provider_errors::ReasonView::ErrorCode(code)),
        code_is_quiet(fields, key) ==> provider_errors::overload_code_at(fields, key) is None,
{
    match json::field_of(fields, key) {
        Some(JsonValue::Text(s)) => {
            let t = text::trimmed(s@);
            let read = Seq::new(
                t.len(),
                |i: int|
                    if t[i] == '-' || t[i] == ' ' {
                        '_'
                    } else if 'A' <= t[i] <= 'Z' {
                        ((t[i] as u32) + 32) as char
                    } else {
                        t[i]
                    },
            );
            assert(provider_errors::underscored(text::ascii_lower(t)) =~= read);
            assert(holds_code(fields, key, read));
        },
        _ => {},
    }
}

/// A status of an overload is found under each of its names, the first of them that holds
/// one, and comes before every code.
pub proof fn law_status_is_found_under_every_name(
    fields: Vec<JsonField>,
    status: u64,
    r: Option<ProviderOverloadReason>,
)
    requires
        call_ensures(error_object_reason, (&fields,), r),
        status == 429 || status == 529,
    ensures
        holds_status(fields@, "status"@, status) ==> r == Some(
            ProviderOverloadReason::HttpStatus(status as u16),
        ),
        status_is_quiet(fields@, "status"@) && holds_status(fields@, "status_code"@, status) ==> r
            == Some(ProviderOverloadReason::HttpStatus(status as u16)),
        status_is_quiet(fields@, "status"@) && status_is_quiet(fields@, "status_code"@)
            && holds_status(fields@, "statusCode"@, status) ==> r == Some(
            ProviderOverloadReason::HttpStatus(status as u16),
        ),
        status_is_quiet(fields@, "status"@) && status_is_quiet(fields@, "status_code"@)
            && status_is_quiet(fields@, "statusCode"@) && holds_status(
            fields@,
            "http_status"@,
            status,
        ) ==> r == Some(ProviderOverloadReason::HttpStatus(status as u16)),
{
    lemma_status(fields@, "status"@, status);
    lemma_status(fields@, "status_code"@, status);
    lemma_status(fields@, "statusCode"@, status);
    lemma_status(fields@, "http_status"@, status);
}

/// Where no status speaks of an overload, a code of one is found under each of its names,
/// the first of them that holds one; where no code does either, there is no overload.
pub proof fn law_code_is_found_under_every_name(
    fields: Vec<JsonField>,
    code: Seq<char>,
    r: Option<ProviderOverloadReason>,
)
    requires
        call_ensures(error_object_reason, (&fields,), r),
        status_is_quiet(fields@, "status"@),
        status_is_quiet(fields@, "status_code"@),
        status_is_quiet(fields@, "statusCode"@),
        status_is_quiet(fields@, "http_status"@),
        names_overload(code),
    ensures
        ({
            let found = r matches Some(ProviderOverloadReason::ErrorCode(held)) && held@ == code;
            &&& holds_code(fields@, "code"@, code) ==> found
            &&& code_is_quiet(fields@, "code"@) && holds_code(fields@, "error_code"@, code) ==> found
            &&& code_is_quiet(fields@, "code"@) && code_is_quiet(fields@, "error_code"@)
                && holds_code(fields@, "errorCode"@, code) ==> found
            &&& code_is_quiet(fields@, "code"@) && code_is_quiet(fields@, "error_code"@)
                && code_is_quiet(fields@, "errorCode"@) && holds_code(fields@, "type"@, code)
                ==> found
        }),
        code_is_quiet(fields@, "code"@) && code_is_quiet(fields@, "error_code"@) && code_is_quiet(
            fields@,
            "errorCode"@,
        ) && code_is_quiet(fields@, "type"@) ==> r is None,
{
    lemma_status(fields@, "status"@, 429);
    lemma_status(fields@, "status_code"@, 429);
    lemma_status(fields@, "statusCode"@, 429);
    lemma_status(fields@, "http_status"@, 429);
    lemma_code(fields@, "code"@, code);
    lemma_code(fields@, "error_code"@, code);
    lemma_code(fields@, "errorCode"@, code);
    lemma_code(fields@, "type"@, code);
}

/// An object speaks for itself first, and then by the error objects in it, the first of them
/// that speaks of an overload.
pub proof fn law_error_objects_are_searched_in_order(
    value: JsonValue,
    fields: Vec<JsonField>,
    name: Seq<char>,
    inner: Vec<JsonField>,
    own: Option<ProviderOverloadReason>,
    nested: Option<ProviderOverloadReason>,
    r: Option<ProviderOverloadReason>,
)
    requires
        call_ensures(structured_error_objects, (&value,), r),
        call_ensures(error_object_reason, (&fields,), own),
        call_ensures(error_object_reason, (&inner,), nested),
        value == JsonValue::Object(fields),
        json::field_of(fields@, name) == Some(JsonValue::Object(inner)),
    ensures
        own is Some ==> r is Some && r->0@ == own->0@,
        own is None && nested is Some && name == "error"@ ==> r is Some && r->0@ == nested->0@,
        own is None && nested is Some && name == "provider_error"@ && !(json::field_of(
            fields@,
            "error"@,
        ) matches Some(JsonValue::Object(_))) ==> r is Some && r->0@ == nested->0@,
        own is None && nested is Some && (name == "response"@ || name == "cause"@) ==> r is Some,
        own is None && nested is Some && name == "response"@ && !(json::field_of(fields@, "error"@)
            matches Some(JsonValue::Object(_))) && !(json::field_of(fields@, "provider_error"@)
            matches Some(JsonValue::Object(_))) ==> r->0@ == nested->0@,
        own is None && nested is Some && name == "cause"@ && !(json::field_of(fields@, "error"@)
            matches Some(JsonValue::Object(_))) && !(json::field_of(fields@, "provider_error"@)
            matches Some(JsonValue::Object(_))) && !(json::field_of(fields@, "response"@)
            matches Some(JsonValue::Object(_))) ==> r->0@ == nested->0@,
{
    assert(value.field("error"@) == json::field_of(fields@, "error"@));
    assert(value.field("provider_error"@) == json::field_of(fields@, "provider_error"@));
    assert(value.field("response"@) == json::field_of(fields@, "response"@));
    assert(value.field("cause"@) == json::field_of(fields@, "cause"@));
    if nested is Some {
        assert(provider_errors::object_reason(inner@) is Some);
    }
    if name == "error"@ {
        assert(provider_errors::nested_reason(value, "error"@) == provider_errors::object_reason(
            inner@,
        ));
    }
}

proof fn lemma_first_envelope(
    values: Seq<JsonValue>,
    j: int,
    reason: provider_errors::ReasonView,
)
    requires
        0 <= j < values.len(),
        values[j] is Text,
        provider_errors::envelope_reason(values[j]->Text_0@) == Some(reason),
        forall|k: int|
            0 <= k < j ==> ((#[trigger] values[k]) is Text ==> provider_errors::envelope_reason(
                values[k]->Text_0@,
            ) is None),
    ensures
        provider_errors::first_envelope(values) == Some(reason),
    decreases j,
{
    if j > 0 {
        let rest = values.drop_first();
        assert(values[0] is Text ==> provider_errors::envelope_reason(values[0]->Text_0@) is None);
        assert forall|k: int| 0 <= k < j - 1 && (#[trigger] rest[k]) is Text implies
            provider_errors::envelope_reason(rest[k]->Text_0@) is None by {
            assert(rest[k] == values[k + 1]);
        }
        lemma_first_envelope(rest, j - 1, reason);
    }
}

proof fn lemma_no_envelope(values: Seq<JsonValue>)
    requires
        forall|k: int| 0 <= k < values.len() ==> (#[trigger] values[k]) !is Text,
    ensures
        provider_errors::first_envelope(values) is None,
    decreases values.len(),
{
    if values.len() > 0 {
        let rest = values.drop_first();
        assert(values[0] !is Text);
        assert forall|k: int| 0 <= k < rest.len() implies (#[trigger] rest[k]) !is Text by {
            assert(rest[k] == values[k + 1]);
        }
        lemma_no_envelope(rest);
    }
}

/// Of an error's texts, the first one in its list that is an envelope of an overload says
/// why; without a list, or with none in it, the result itself does.
pub proof fn law_error_texts_are_searched_in_order(
    value: JsonValue,
    values: Vec<JsonValue>,
    j: int,
    listed: &str,
    listed_reason: Option<ProviderOverloadReason>,
    result: &str,
    result_reason: Option<ProviderOverloadReason>,
    r: Option<ProviderOverloadReason>,
)
    requires
        call_ensures(result_error_texts, (&value,), r),
        call_ensures(detect_api_error_overload_envelope, (listed,), listed_reason),
        call_ensures(detect_api_error_overload_envelope, (result,), result_reason),
        value is Object,
    ensures
        json::field_of(value->Object_0@, "errors"@) == Some(JsonValue::Array(values)) && 0 <= j
            < values@.len() && values@[j] is Text && values@[j]->Text_0@ == listed@
            && listed_reason is Some && (forall|k: int|
            0 <= k < j ==> (#[trigger] values@[k]) !is Text) ==> r is Some && r->0@
            == listed_reason->0@,
        (json::field_of(value->Object_0@, "errors"@) is None || (json::field_of(
            value->Object_0@,
            "errors"@,
        ) == Some(JsonValue::Array(values)) && (forall|k: int|
            0 <= k < values@.len() ==> (#[trigger] values@[k]) !is Text))) && (json::field_of(
            value->Object_0@,
            "result"@,
        ) matches Some(JsonValue::Text(s)) && s@ == result@) ==> (r is Some <==> result_reason is Some)
            && (r is Some ==> r->0@ == result_reason->0@),
        json::field_of(value->Object_0@, "errors"@) is None && json::field_of(
            value->Object_0@,
            "result"@,
        ) is None ==> r is None,
{
    assert(value.field("errors"@) == json::field_of(value->Object_0@, "errors"@));
    assert(value.field("result"@) == json::field_of(value->Object_0@, "result"@));
    if json::field_of(value->Object_0@, "errors"@) == Some(JsonValue::Array(values)) && 0 <= j
        < values@.len() && values@[j] is Text && values@[j]->Text_0@ == listed@
        && listed_reason is Some && (forall|k: int|
        0 <= k < j ==> (#[trigger] values@[k]) !is Text) {
        lemma_first_envelope(values@, j, listed_reason->0@);
    }
    if forall|k: int| 0 <= k < values@.len() ==> (#[trigger] values@[k]) !is Text {
        lemma_no_envelope(values@);
    }
}

/// Only the result of a turn that is marked as an error speaks of an overload. Its error
/// objects come first; where they say nothing, its error texts decide.
pub proof fn law_only_an_error_result_speaks(
    value: JsonValue,
    objects: Option<ProviderOverloadReason>,
    texts: Option<ProviderOverloadReason>,
    r: Option<ProviderOverloadReason>,
)
    requires
        call_ensures(detect_structured_provider_overload, (&value,), r),
        call_ensures(structured_error_objects, (&value,), objects),
        call_ensures(result_error_texts, (&value,), texts),
    ensures
        value !is Object ==> r is None,
        value matches JsonValue::Object(fields) ==> {
            let is_result = json::field_of(fields@, "type"@) matches Some(JsonValue::Text(kind))
                && kind@ == "result"@;
            let is_error = json::field_of(fields@, "is_error"@) == Some(JsonValue::Bool(true));
            &&& !is_result || !is_error ==> r is None
            &&& is_result && is_error ==> (r is Some <==> objects is Some || texts is Some)
            &&& is_result && is_error && objects is Some ==> r->0@ == objects->0@
            &&& is_result && is_error && objects is None && texts is Some ==> r->0@ == texts->0@
        },
{
    if value is Object {
        assert(value.field("type"@) == json::field_of(value->Object_0@, "type"@));
        assert(value.field("is_error"@) == json::field_of(value->Object_0@, "is_error"@));
    }
}

/// An error result whose text is an envelope with the status 429 or 529 as its first number,
/// and whose error objects say nothing, is an overload with just that status.
pub proof fn law_rate_limited_turn_is_recognised(
    value: JsonValue,
    fields: Vec<JsonField>,
    body: Seq<char>,
    i: int,
    status: nat,
    r: Option<ProviderOverloadReason>,
)
    requires
        call_ensures(detect_structured_provider_overload, (&value,), r),
        call_ensures(structured_error_objects, (&value,), None),
        value == JsonValue::Object(fields),
        json::field_of(fields@, "type"@) matches Some(JsonValue::Text(kind)) && kind@ == "result"@,
        json::field_of(fields@, "is_error"@) == Some(JsonValue::Bool(true)),
        json::field_of(fields@, "errors"@) is None,
        json::field_of(fields@, "result"@) matches Some(JsonValue::Text(s)) && is_envelope_of(
            s@,
            body,
        ),
        0 <= i < lower_words(text::trimmed(body)).len(),
        text::parsed_unsigned(lower_words(text::trimmed(body))[i], u64::MAX as nat) == Some(status),
        forall|k: int|
            0 <= k < i ==> text::parsed_unsigned(
                #[trigger] lower_words(text::trimmed(body))[k],
                u64::MAX as nat,
            ) is None,
        status == 429 || status == 529,
    ensures
        r == Some(ProviderOverloadReason::HttpStatus(status as u16)),
{
    assert(value.field("type"@) == json::field_of(fields@, "type"@));
    assert(value.field("is_error"@) == json::field_of(fields@, "is_error"@));
    assert(value.field("errors"@) == json::field_of(fields@, "errors"@));
    assert(value.field("result"@) == json::field_of(fields@, "result"@));
    let s = json::field_of(fields@, "result"@)->0->Text_0;
    lemma_envelope(s@, body);
    lemma_first_number(lower_words(text::trimmed(body)), i);
    assert(provider_errors::envelope_reason(s@) == Some(
        provider_errors::ReasonView::HttpStatus(status as u16),
    ));
}

/// A status is a number, or the text of one with white space around it, and nothing else.
pub proof fn law_status_is_a_number_or_its_text(value: JsonValue, r: Option<u64>)
    requires
        call_ensures(structured_status_code, (&value,), r),
    ensures
        value matches JsonValue::Number(number) ==> r == number.unsigned,
        value matches JsonValue::Text(s) ==> match text::parsed_unsigned(
            text::trimmed(s@),
            u64::MAX as nat,
        ) {
            Some(n) => r is Some && r->0 == n,
            None => r is None,
        },
        value !is Number && value !is Text ==> r is None,
{
}

/// In public an overload is named by its status where that is 429 or 529, by its kind where
/// its code tells one, and by its capacity otherwise.
pub proof fn law_public_reason_names_the_overload(
    reason: ProviderOverloadReason,
    r: &'static str,
)
    requires
        call_ensures(ProviderOverloadReason::public_reason, (reason,), r),
    ensures
        reason == ProviderOverloadReason::HttpStatus(429) ==> r@
            == "provider_http_429_capacity_response"@,
        reason == ProviderOverloadReason::HttpStatus(529) ==> r@
            == "provider_http_529_capacity_response"@,
        reason matches ProviderOverloadReason::HttpStatus(status) ==> (status != 429 && status
            != 529 ==> r@ == "provider_capacity_response"@),
        reason matches ProviderOverloadReason::ErrorCode(code) ==> {
            &&& code@ == "rate_limit"@ || code@ == "rate_limited"@ || code@ == "rate_limit_error"@
                || code@ == "too_many_requests"@ ==> r@ == "provider_rate_limit_response"@
            &&& !names_overload(code@) ==> r@ == "provider_capacity_response"@
        },
        reason matches ProviderOverloadReason::ErrorCode(code) ==> (code@ == "overloaded"@ || code@
            == "overloaded_error"@ || code@ == "provider_overloaded"@ ==> r@
            == "provider_overload_response"@),
{
    reveal_strlit("rate_limit");
    reveal_strlit("rate_limited");
    reveal_strlit("rate_limit_error");
    reveal_strlit("too_many_requests");
    reveal_strlit("overloaded");
    reveal_strlit("overloaded_error");
    reveal_strlit("provider_overloaded");
    assert("rate_limit"@[0] == 'r');
    assert("rate_limited"@[0] == 'r');
    assert("rate_limit_error"@[0] == 'r');
    assert("too_many_requests"@[0] == 't');
    assert("overloaded"@[0] == 'o');
    assert("overloaded_error"@[0] == 'o');
    assert("provider_overloaded"@[0] == 'p');
}

} // verus!
