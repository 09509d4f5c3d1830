//! What the keys and nonces of cards keep apart.
//!
//! A key or nonce is a digest, so that two of them differ cannot be proved. What is
//! proved is that the hash reads different input for what is to be kept apart.

use vstd::prelude::*;
use vstd::utf8::{encode_scalar, encode_utf8};

use crate::task_cards::context;
use crate::task_cards::event;
use crate::task_cards::identity;
use crate::text;

verus! {

/// No character of `s` is the zero character.
pub open spec fn nul_free(s: Seq<char>) -> bool {
    forall|i: int| 0 <= i < s.len() ==> #[trigger] s[i] != '\0'
}

spec fn nonzero(b: Seq<u8>) -> bool {
    forall|i: int| 0 <= i < b.len() ==> #[trigger] b[i] != 0
}

proof fn lemma_scalar_bytes_nonzero(c: u32)
    requires
        c != 0,
    ensures
        nonzero(encode_scalar(c)),
{
    assert((c & 0x7F) as u8 != 0 || c > 0x7F) by (bit_vector)
        requires
            c != 0,
    ;
    let x = (c & 0x3F) as u8;
    assert(0x80u8 | x != 0) by (bit_vector);
    let x = ((c >> 6) & 0x3F) as u8;
    assert(0x80u8 | x != 0) by (bit_vector);
    let x = ((c >> 12) & 0x3F) as u8;
    assert(0x80u8 | x != 0) by (bit_vector);
    let x = ((c >> 6) & 0x1F) as u8;
    assert(0xC0u8 | x != 0) by (bit_vector);
    let x = ((c >> 12) & 0x0F) as u8;
    assert(0xE0u8 | x != 0) by (bit_vector);
    let x = ((c >> 18) & 0x7) as u8;
    assert(0xF0u8 | x != 0) by (bit_vector);
}

proof fn lemma_char_bytes_nonzero(c: char)
    requires
        c != '\0',
    ensures
        nonzero(encode_scalar(c as u32)),
{
    lemma_scalar_bytes_nonzero(c as u32);
}

proof fn lemma_text_bytes_nonzero(s: Seq<char>)
    requires
        nul_free(s),
    ensures
        nonzero(encode_utf8(s)),
    decreases s.len(),
{
    if s.len() > 0 {
        let rest = s.drop_first();
        assert forall|i: int| 0 <= i < rest.len() implies #[trigger] rest[i] != '\0' by {
            assert(rest[i] == s[i + 1]);
        }
        lemma_text_bytes_nonzero(rest);
        assert(s[0] != '\0');
        lemma_char_bytes_nonzero(s[0]);
        let head = encode_scalar(s[0] as u32);
        let tail = encode_utf8(rest);
        assert forall|i: int| 0 <= i < (head + tail).len() implies #[trigger] (head + tail)[i]
            != 0 by {
            if i < head.len() {
                assert((head + tail)[i] == head[i]);
            } else {
                assert((head + tail)[i] == tail[i - head.len()]);
            }
        }
    }
}

/// No part holds the zero character.
pub open spec fn parts_nul_free(parts: Seq<Seq<char>>) -> bool {
    forall|i: int| 0 <= i < parts.len() ==> nul_free(#[trigger] parts[i])
}

proof fn lemma_terminated_ends_with_zero(parts: Seq<Seq<char>>)
    requires
        parts.len() > 0,
    ensures
        identity::terminated(parts).len() > 0,
        identity::terminated(parts).last() == 0,
{
}

proof fn lemma_last_part_len(a: Seq<Seq<char>>, b: Seq<Seq<char>>)
    requires
        a.len() > 0,
        b.len() > 0,
        parts_nul_free(a),
        parts_nul_free(b),
        identity::terminated(a) == identity::terminated(b),
    ensures
        encode_utf8(a.last()).len() >= encode_utf8(b.last()).len(),
{
    let x = identity::terminated(a);
    let pa = identity::terminated(a.drop_last());
    let ea = encode_utf8(a.last());
    let pb = identity::terminated(b.drop_last());
    let eb = encode_utf8(b.last());
    assert(x == pa + ea + seq![0u8]);
    assert(x == pb + eb + seq![0u8]);
    assert(x.len() == pa.len() + ea.len() + 1);
    assert(x.len() == pb.len() + eb.len() + 1);
    if ea.len() < eb.len() {
        assert(pa.len() > 0);
        assert(a.drop_last().len() > 0);
        lemma_terminated_ends_with_zero(a.drop_last());
        let at = pa.len() - 1;
        assert(x[at] == pa[at]);
        assert(x[at] == eb[at - pb.len()]);
        assert(nul_free(b.last()));
        lemma_text_bytes_nonzero(b.last());
        assert(eb[at - pb.len()] != 0);
    }
}

/// Parts without the zero character are read back from what the hash reads:
/// different lists of them never give it the same input.
pub proof fn law_fingerprint_input_is_unambiguous(a: Seq<Seq<char>>, b: Seq<Seq<char>>)
    requires
        parts_nul_free(a),
        parts_nul_free(b),
        identity::terminated(a) == identity::terminated(b),
    ensures
        a == b,
    decreases a.len(),
{
    if a.len() == 0 {
        if b.len() > 0 {
            lemma_terminated_ends_with_zero(b);
        }
        assert(a =~= b);
    } else if b.len() == 0 {
        lemma_terminated_ends_with_zero(a);
    } else {
        lemma_last_part_len(a, b);
        lemma_last_part_len(b, a);
        let x = identity::terminated(a);
        let pa = identity::terminated(a.drop_last());
        let ea = encode_utf8(a.last());
        let pb = identity::terminated(b.drop_last());
        let eb = encode_utf8(b.last());
        assert(x == pa + ea + seq![0u8]);
        assert(x == pb + eb + seq![0u8]);
        assert(pa =~= x.take(pa.len() as int));
        assert(pb =~= x.take(pa.len() as int));
        assert(ea =~= x.subrange(pa.len() as int, x.len() - 1));
        assert(eb =~= x.subrange(pa.len() as int, x.len() - 1));
        vstd::utf8::encode_utf8_decode_utf8(a.last());
        vstd::utf8::encode_utf8_decode_utf8(b.last());
        let ra = a.drop_last();
        let rb = b.drop_last();
        assert forall|i: int| 0 <= i < ra.len() implies nul_free(#[trigger] ra[i]) by {
            assert(ra[i] == a[i]);
        }
        assert forall|i: int| 0 <= i < rb.len() implies nul_free(#[trigger] rb[i]) by {
            assert(rb[i] == b[i]);
        }
        law_fingerprint_input_is_unambiguous(ra, rb);
        assert(a =~= ra.push(a.last()));
        assert(b =~= rb.push(b.last()));
    }
}

proof fn lemma_decimal_nul_free(n: nat)
    ensures
        nul_free(text::decimal(n)),
{
    text::lemma_decimal_denotes(n);
    let d = text::decimal(n);
    assert forall|i: int| 0 <= i < d.len() implies #[trigger] d[i] != '\0' by {
        assert('0' <= d[i] <= '9');
    }
}

proof fn lemma_signed_decimal_nul_free(n: int)
    ensures
        nul_free(text::signed_decimal(n)),
{
    if n < 0 {
        lemma_decimal_nul_free((-n) as nat);
        let d = text::decimal((-n) as nat);
        let s = text::signed_decimal(n);
        assert forall|i: int| 0 <= i < s.len() implies #[trigger] s[i] != '\0' by {
            if i > 0 {
                assert(s[i] == d[i - 1]);
            }
        }
    } else {
        lemma_decimal_nul_free(n as nat);
    }
}

/// The texts of a scope hold no zero character.
pub open spec fn scope_nul_free(scope: identity::ScopeView) -> bool {
    nul_free(scope.provider) && nul_free(scope.session_key) && nul_free(scope.event_key)
}

proof fn lemma_nonce_parts_nul_free(scope: identity::ScopeView, revision: int)
    requires
        scope_nul_free(scope),
    ensures
        parts_nul_free(identity::nonce_parts(scope, revision)),
{
    reveal_strlit("task-card-nonce-v1");
    lemma_decimal_nul_free(scope.channel_id as nat);
    lemma_signed_decimal_nul_free(revision);
    let parts = identity::nonce_parts(scope, revision);
    assert forall|i: int| 0 <= i < parts.len() implies nul_free(#[trigger] parts[i]) by {
        assert(i == 0 || i == 1 || i == 2 || i == 3 || i == 4 || i == 5);
    }
}

/// A nonce is made of the channel, the provider, the session, the event and the
/// revision, and of all of them: two cards, or two revisions of one card, never give
/// the hash the same input.
pub proof fn law_nonce_input_determines_the_card(
    a: identity::ScopeView,
    revision_a: int,
    b: identity::ScopeView,
    revision_b: int,
)
    requires
        scope_nul_free(a),
        scope_nul_free(b),
        identity::terminated(identity::nonce_parts(a, revision_a)) == identity::terminated(
            identity::nonce_parts(b, revision_b),
        ),
    ensures
        a == b,
        revision_a == revision_b,
{
    let x = identity::nonce_parts(a, revision_a);
    let y = identity::nonce_parts(b, revision_b);
    lemma_nonce_parts_nul_free(a, revision_a);
    lemma_nonce_parts_nul_free(b, revision_b);
    law_fingerprint_input_is_unambiguous(x, y);
    assert(x[1] == y[1] && x[2] == y[2] && x[3] == y[3] && x[4] == y[4] && x[5] == y[5]);
    text::lemma_decimal_injective(a.channel_id as nat, b.channel_id as nat);
    text::lemma_signed_decimal_injective(revision_a, revision_b);
}

proof fn lemma_turn_key_parts_nul_free(
    user_msg_id: u64,
    started_at: Seq<char>,
    turn_start_offset: Option<u64>,
)
    requires
        nul_free(started_at),
    ensures
        parts_nul_free(identity::turn_key_parts(user_msg_id, started_at, turn_start_offset)),
{
    reveal_strlit("task-response-turn-v1");
    reveal_strlit("legacy-none");
    lemma_decimal_nul_free(user_msg_id as nat);
    if turn_start_offset is Some {
        lemma_decimal_nul_free(turn_start_offset->0 as nat);
    }
    let parts = identity::turn_key_parts(user_msg_id, started_at, turn_start_offset);
    assert forall|i: int| 0 <= i < parts.len() implies nul_free(#[trigger] parts[i]) by {
        assert(i == 0 || i == 1 || i == 2 || i == 3);
    }
}

/// The key of a response's turn is made of the user's message, the start and the
/// offset, and of all of them: two turns never give the hash the same input.
pub proof fn law_turn_key_input_determines_the_turn(
    a: (u64, Seq<char>, Option<u64>),
    b: (u64, Seq<char>, Option<u64>),
)
    requires
        nul_free(a.1),
        nul_free(b.1),
        identity::terminated(identity::turn_key_parts(a.0, a.1, a.2)) == identity::terminated(
            identity::turn_key_parts(b.0, b.1, b.2),
        ),
    ensures
        a == b,
{
    let x = identity::turn_key_parts(a.0, a.1, a.2);
    let y = identity::turn_key_parts(b.0, b.1, b.2);
    lemma_turn_key_parts_nul_free(a.0, a.1, a.2);
    lemma_turn_key_parts_nul_free(b.0, b.1, b.2);
    law_fingerprint_input_is_unambiguous(x, y);
    assert(x[1] == y[1] && x[2] == y[2] && x[3] == y[3]);
    text::lemma_decimal_injective(a.0 as nat, b.0 as nat);
    reveal_strlit("legacy-none");
    match (a.2, b.2) {
        (Some(m), Some(n)) => {
            text::lemma_decimal_injective(m as nat, n as nat);
        },
        (Some(m), None) => {
            text::lemma_decimal_denotes(m as nat);
            assert('0' <= text::decimal(m as nat)[0] <= '9');
            assert(y[3][0] == 'l');
        },
        (None, Some(n)) => {
            text::lemma_decimal_denotes(n as nat);
            assert('0' <= text::decimal(n as nat)[0] <= '9');
            assert(x[3][0] == 'l');
        },
        (None, None) => {},
    }
}

/// An event is the same whether it is observed in a prompt or in the provider's
/// stream: where both name the same task and tool use and say the same, both give
/// the same key, and so the same card.
pub proof fn law_prompt_and_stream_share_one_event(
    note: event::NoteView,
    fields: context::TaskStreamFields,
    starts: Seq<context::TaskStart>,
    classified: Seq<char>,
)
    requires
        identity::cleaned(note.task_id) == identity::cleaned(text::opt_text(fields.task_id)),
        identity::cleaned(note.tool_use_id) == context::context_tool_use(fields, starts),
        event::text_or_empty(note.status) == fields.status@,
        event::text_or_empty(note.summary) == fields.summary@,
    ensures
        event::note_event_key(note) == context::context_of(fields, starts, classified).event_key,
{
    text::lemma_one_line_is_stable(fields.status@);
    text::lemma_one_line_is_stable(fields.summary@);
}

/// The path of a subagent takes no part in the key of its event: the key is made of
/// the task, the tool use and what is said, whatever the prompt holds beside them.
pub proof fn law_readable_subagent_event_ignores_the_prompt(
    channel_id: u64,
    provider: Seq<char>,
    session_key: Seq<char>,
    semantic: event::SubagentNotificationSemantic,
    prompt: Seq<char>,
    other_prompt: Seq<char>,
)
    ensures
        event::subagent_event(channel_id, provider, session_key, Some(semantic), prompt)
            == event::subagent_event(
            channel_id,
            provider,
            session_key,
            Some(semantic),
            other_prompt,
        ),
{
}

} // verus!
