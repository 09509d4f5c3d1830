//! What the fence between a card and its response lets through, and when.

use vstd::prelude::*;

use crate::task_cards::fence;
use crate::task_cards::fence::{
    bind_response_turn_memory, check_response_turn_key, fallback_query_is_keyed,
    mark_response_delivered_memory, response_fallback_must_wait,
    response_fallback_must_wait_memory, MemoryRow, MemoryState, MemoryStore,
};
use crate::task_cards::identity;
use crate::task_cards::identity::TaskCardScope;
use crate::text;

verus! {

proof fn lemma_entry(store: MemoryStore, k: int)
    requires
        0 <= k < store.entries@.len(),
    ensures
        store.rows().len() == store.entries@.len(),
        store.rows()[k] == (store.entries@[k].scope@, store.entries@[k].row@),
{
}

/// A turn is bound to a card when it is due: the card of the scope is posted as the message
/// that is named, it is bound to no other turn, the key has the length of a fingerprint, and
/// no other event of the session is bound to the turn. The card then holds the turn, and
/// nothing else changes.
pub proof fn law_turn_is_bound_to_its_card(
    store: &mut MemoryStore,
    scope: TaskCardScope,
    key: &str,
    card: u64,
    r: Result<(), String>,
    k: int,
)
    requires
        old(store).wf(),
        call_ensures(bind_response_turn_memory, (store, &scope, key, card), r),
        0 <= k < old(store).entries@.len(),
        old(store).entries@[k].scope@ == scope@,
    ensures
        ({
            let row = old(store).entries@[k].row;
            let taken = exists|i: int|
                0 <= i < old(store).entries@.len() && i != k && (#[trigger] old(store).entries@[i]).scope.channel_id == scope.channel_id && old(store).entries@[i].scope.provider@ == scope.provider@ && old(store).entries@[i].scope.session_key@ == scope.session_key@ && text::opt_text(
                    old(store).entries@[i].row.response_turn_key,
                ) == Some(key@);
            let due = vstd::utf8::encode_utf8(key@).len() == 64 && !taken && row.state
                == MemoryState::CardPosted && row.message_id == Some(card) && (
            row.response_turn_key is None || row.response_turn_key->0@ == key@);
            &&& r is Ok <==> due
            &&& r is Ok ==> {
                &&& final(store).entries@.len() == old(store).entries@.len()
                &&& final(store).entries@[k].row.response_turn_key is Some
                &&& final(store).entries@[k].row.response_turn_key->0@ == key@
                &&& final(store).entries@[k].row.state == row.state
                &&& final(store).entries@[k].row.message_id == row.message_id
                &&& final(store).entries@[k].row.response_card_message_id
                    == row.response_card_message_id
                &&& forall|i: int|
                    0 <= i < old(store).entries@.len() && i != k ==> (#[trigger] final(store).entries@[i]).row@ == old(store).entries@[i].row@
            }
            &&& r is Err ==> *final(store) == *old(store)
            &&& r matches Err(error) ==> error@ == if vstd::utf8::encode_utf8(key@).len() != 64 {
                "task response turn key must be a 64-character fingerprint"@
            } else if taken {
                "task response turn is already bound to another event"@
            } else if row.state != MemoryState::CardPosted || row.message_id != Some(card) {
                "memory task response turn lost its confirmed card"@
            } else {
                "memory task response turn binding changed"@
            }
        }),
{
    let before = old(store).rows();
    let after = final(store).rows();
    lemma_entry(*old(store), k);
    assert(fence::is_row_of(before, scope@, k));
    fence::lemma_row_place(before, scope@, k);
    let row = old(store).entries@[k].row;
    let taken = exists|i: int|
        0 <= i < old(store).entries@.len() && i != k && (#[trigger] old(store).entries@[i]).scope.channel_id == scope.channel_id && old(store).entries@[i].scope.provider@ == scope.provider@ && old(store).entries@[i].scope.session_key@ == scope.session_key@ && text::opt_text(
            old(store).entries@[i].row.response_turn_key,
        ) == Some(key@);
    assert(taken == fence::bound_elsewhere(before, scope@, key@)) by {
        if taken {
            let i = choose|i: int|
                0 <= i < old(store).entries@.len() && i != k && (#[trigger] old(store).entries@[i]).scope.channel_id == scope.channel_id && old(store).entries@[i].scope.provider@ == scope.provider@ && old(store).entries@[i].scope.session_key@ == scope.session_key@ && text::opt_text(
                    old(store).entries@[i].row.response_turn_key,
                ) == Some(key@);
            lemma_entry(*old(store), i);
            assert(before[i].0 != scope@) by {
                if i < k {
                    assert(before[i].0 != before[k].0);
                } else {
                    assert(before[k].0 != before[i].0);
                }
            }
            assert(fence::binds_elsewhere(before, scope@, key@, i));
        }
        if fence::bound_elsewhere(before, scope@, key@) {
            let i = choose|i: int| #[trigger] fence::binds_elsewhere(before, scope@, key@, i);
            lemma_entry(*old(store), i);
            assert(old(store).entries@[i].scope@ == before[i].0);
            assert(taken);
        }
    }
    if r is Ok {
        assert(after.len() == before.len());
        lemma_entry(*final(store), k);
        assert forall|i: int| 0 <= i < old(store).entries@.len() && i != k implies (#[trigger] final(store).entries@[i]).row@ == old(store).entries@[i].row@ by {
            lemma_entry(*final(store), i);
            lemma_entry(*old(store), i);
            assert(after[i] == before[i]);
        }
    }
}

/// The response of a card is recorded as delivered when it is due: the card is posted as the
/// message that is named, and no other message was recorded. Nothing else changes.
pub proof fn law_delivery_is_recorded_on_its_card(
    store: &mut MemoryStore,
    scope: TaskCardScope,
    card: u64,
    r: Result<(), String>,
    k: int,
)
    requires
        old(store).wf(),
        call_ensures(mark_response_delivered_memory, (store, &scope, card), r),
        0 <= k < old(store).entries@.len(),
        old(store).entries@[k].scope@ == scope@,
    ensures
        ({
            let row = old(store).entries@[k].row;
            &&& r is Ok <==> row.state == MemoryState::CardPosted && row.message_id == Some(card)
                && (row.response_card_message_id is None || row.response_card_message_id == Some(
                card,
            ))
            &&& r is Ok ==> {
                &&& final(store).entries@.len() == old(store).entries@.len()
                &&& final(store).entries@[k].scope@ == scope@
                &&& final(store).entries@[k].row.response_card_message_id == Some(card)
                &&& final(store).entries@[k].row.state == row.state
                &&& final(store).entries@[k].row.message_id == row.message_id
                &&& text::opt_text(final(store).entries@[k].row.response_turn_key)
                    == text::opt_text(row.response_turn_key)
                &&& forall|i: int|
                    0 <= i < old(store).entries@.len() && i != k ==> (#[trigger] final(store).entries@[i]).row@ == old(store).entries@[i].row@
            }
            &&& r is Err ==> *final(store) == *old(store)
            &&& r matches Err(error) ==> error@ == if row.state != MemoryState::CardPosted
                || row.message_id != Some(card) {
                "memory task response delivery lost its confirmed card"@
            } else {
                "memory task response delivery changed card identity"@
            }
        }),
{
    let before = old(store).rows();
    let after = final(store).rows();
    lemma_entry(*old(store), k);
    assert(fence::is_row_of(before, scope@, k));
    fence::lemma_row_place(before, scope@, k);
    if r is Ok {
        assert(after.len() == before.len());
        lemma_entry(*final(store), k);
        assert forall|i: int| 0 <= i < old(store).entries@.len() && i != k implies (#[trigger] final(store).entries@[i]).row@ == old(store).entries@[i].row@ by {
            lemma_entry(*final(store), i);
            lemma_entry(*old(store), i);
            assert(after[i] == before[i]);
        }
    }
}

/// Without a card nothing is bound and nothing is recorded.
pub proof fn law_fence_needs_a_card(
    binding: &mut MemoryStore,
    marking: &mut MemoryStore,
    scope: TaskCardScope,
    key: &str,
    card: u64,
    bound: Result<(), String>,
    marked: Result<(), String>,
)
    requires
        old(binding).wf(),
        old(marking).wf(),
        call_ensures(bind_response_turn_memory, (binding, &scope, key, card), bound),
        call_ensures(mark_response_delivered_memory, (marking, &scope, card), marked),
    ensures
        (forall|k: int|
            0 <= k < old(binding).entries@.len() ==> (#[trigger] old(binding).entries@[k]).scope@
                != scope@) ==> bound is Err && *final(binding) == *old(binding),
        (forall|k: int|
            0 <= k < old(marking).entries@.len() ==> (#[trigger] old(marking).entries@[k]).scope@
                != scope@) ==> marked is Err && *final(marking) == *old(marking) && marked->Err_0@
            == "memory task card row disappeared"@,
{
    if forall|k: int|
        0 <= k < old(binding).entries@.len() ==> (#[trigger] old(binding).entries@[k]).scope@
            != scope@ {
        assert forall|k: int| !fence::is_row_of(old(binding).rows(), scope@, k) by {
            if fence::is_row_of(old(binding).rows(), scope@, k) {
                lemma_entry(*old(binding), k);
                assert(old(binding).entries@[k].scope@ == scope@);
            }
        }
    }
    if forall|k: int|
        0 <= k < old(marking).entries@.len() ==> (#[trigger] old(marking).entries@[k]).scope@
            != scope@ {
        assert forall|k: int| !fence::is_row_of(old(marking).rows(), scope@, k) by {
            if fence::is_row_of(old(marking).rows(), scope@, k) {
                lemma_entry(*old(marking), k);
                assert(old(marking).entries@[k].scope@ == scope@);
            }
        }
    }
}

/// A fallback is let through just where the response of the card that it asks for was
/// delivered. It asks by the event, or else by the turn that the card is bound to; the
/// provider's name is compared without its case and the white space around it.
pub proof fn law_fallback_waits_for_the_delivery(
    store: MemoryStore,
    channel_id: u64,
    provider: &str,
    session_key: &str,
    event_key: Option<&str>,
    turn_key: Option<&str>,
    waits: bool,
    k: int,
)
    requires
        store.wf(),
        call_ensures(
            response_fallback_must_wait_memory,
            (&store, channel_id, provider, session_key, event_key, turn_key),
            waits,
        ),
        0 <= k < store.entries@.len(),
        store.entries@[k].scope.channel_id == channel_id,
        store.entries@[k].scope.provider@ == text::ascii_lower(text::trimmed(provider@)),
        store.entries@[k].scope.session_key@ == session_key@,
        event_key matches Some(event) ==> store.entries@[k].scope.event_key@ == event@,
        event_key is None ==> turn_key is Some && store.entries@[k].row.response_turn_key is Some
            && store.entries@[k].row.response_turn_key->0@ == turn_key->0@,
    ensures
        waits <==> store.entries@[k].row.response_card_message_id is None,
{
    let rows = store.rows();
    lemma_entry(store, k);
    assert(fence::answers_query(
        rows[k],
        channel_id,
        provider@,
        session_key@,
        identity::slice_text(event_key),
        identity::slice_text(turn_key),
    ));
    if fence::response_delivered(
        rows,
        channel_id,
        provider@,
        session_key@,
        identity::slice_text(event_key),
        identity::slice_text(turn_key),
    ) {
        let i = choose|i: int|
            0 <= i < rows.len() && fence::answers_query(
                #[trigger] rows[i],
                channel_id,
                provider@,
                session_key@,
                identity::slice_text(event_key),
                identity::slice_text(turn_key),
            ) && rows[i].1.response_card is Some;
        fence::lemma_query_is_unique(
            rows,
            channel_id,
            provider@,
            session_key@,
            identity::slice_text(event_key),
            identity::slice_text(turn_key),
            i,
            k,
        );
    }
}

/// A fallback for which there is no card waits, and so does one that asks for none.
pub proof fn law_fallback_without_a_card_waits(
    store: MemoryStore,
    channel_id: u64,
    provider: &str,
    session_key: &str,
    event_key: Option<&str>,
    turn_key: Option<&str>,
    waits: bool,
    keyed: bool,
    undelivered: Option<bool>,
    waits_stored: bool,
)
    requires
        store.wf(),
        call_ensures(
            response_fallback_must_wait_memory,
            (&store, channel_id, provider, session_key, event_key, turn_key),
            waits,
        ),
        call_ensures(fallback_query_is_keyed, (event_key, turn_key), keyed),
        call_ensures(response_fallback_must_wait, (undelivered,), waits_stored),
    ensures
        (forall|k: int|
            0 <= k < store.entries@.len() ==> (#[trigger] store.entries@[k]).scope.channel_id
                != channel_id || store.entries@[k].scope.session_key@ != session_key@) ==> waits,
        event_key is None && turn_key is None ==> waits && !keyed,
        event_key is Some || turn_key is Some ==> keyed,
        undelivered is None ==> waits_stored,
        undelivered matches Some(open) ==> waits_stored == open,
{
    let rows = store.rows();
    if !waits {
        let i = choose|i: int|
            0 <= i < rows.len() && fence::answers_query(
                #[trigger] rows[i],
                channel_id,
                provider@,
                session_key@,
                identity::slice_text(event_key),
                identity::slice_text(turn_key),
            ) && rows[i].1.response_card is Some;
        lemma_entry(store, i);
        assert(store.entries@[i].scope@ == rows[i].0);
    }
}

/// A card is kept under a scope that has none, as it is given; a second card for one scope,
/// and one whose turn another event of the session holds, is refused.
pub proof fn law_card_is_kept_once(
    store: &mut MemoryStore,
    scope: TaskCardScope,
    row: MemoryRow,
    r: bool,
)
    requires
        old(store).wf(),
        call_ensures(MemoryStore::insert, (store, scope, row), r),
    ensures
        (exists|k: int|
            0 <= k < old(store).entries@.len() && (#[trigger] old(store).entries@[k]).scope@
                == scope@) ==> !r,
        (forall|k: int|
            0 <= k < old(store).entries@.len() ==> (#[trigger] old(store).entries@[k]).scope@
                != scope@) && row.response_turn_key is None ==> r,
        r ==> {
            &&& final(store).entries@.len() == old(store).entries@.len() + 1
            &&& final(store).entries@.last().scope@ == scope@
            &&& final(store).entries@.last().row@ == row@
            &&& forall|i: int|
                0 <= i < old(store).entries@.len() ==> (#[trigger] final(store).entries@[i]).row@
                    == old(store).entries@[i].row@ && final(store).entries@[i].scope@ == old(store).entries@[i].scope@
        },
        !r ==> *final(store) == *old(store),
{
    let before = old(store).rows();
    if exists|k: int|
        0 <= k < old(store).entries@.len() && (#[trigger] old(store).entries@[k]).scope@ == scope@ {
        let k = choose|k: int|
            0 <= k < old(store).entries@.len() && (#[trigger] old(store).entries@[k]).scope@
                == scope@;
        lemma_entry(*old(store), k);
        assert(fence::is_row_of(before, scope@, k));
    }
    if forall|k: int|
        0 <= k < old(store).entries@.len() ==> (#[trigger] old(store).entries@[k]).scope@ != scope@ {
        assert forall|k: int| !fence::is_row_of(before, scope@, k) by {
            if fence::is_row_of(before, scope@, k) {
                lemma_entry(*old(store), k);
                assert(old(store).entries@[k].scope@ == scope@);
            }
        }
    }
    if r {
        let after = final(store).rows();
        assert(after.len() == before.len() + 1);
        let n = final(store).entries@.len() - 1;
        lemma_entry(*final(store), n);
        assert forall|i: int| 0 <= i < old(store).entries@.len() implies (#[trigger] final(store).entries@[i]).row@ == old(store).entries@[i].row@ && final(store).entries@[i].scope@
            == old(store).entries@[i].scope@ by {
            lemma_entry(*final(store), i);
            lemma_entry(*old(store), i);
            assert(after[i] == before[i]);
        }
    }
}

/// A key is one of sixty-four bytes, and no other. A new store holds no card.
pub proof fn law_turn_key_has_the_length_of_a_fingerprint(
    key: &str,
    r: Result<(), String>,
    empty: MemoryStore,
)
    requires
        call_ensures(check_response_turn_key, (key,), r),
        call_ensures(MemoryStore::new, (), empty),
    ensures
        r is Ok <==> vstd::utf8::encode_utf8(key@).len() == 64,
        r is Err ==> r->Err_0@ == "task response turn key must be a 64-character fingerprint"@,
        empty.entries@.len() == 0,
        empty.wf(),
{
    assert(empty.rows().len() == empty.entries@.len());
}

} // verus!
