//! The fence between a card and its response, kept in memory.
//!
//! A response waits until its card is posted, and is then bound to that card by the
//! key of its turn. Within one session of a provider a turn is bound to one event.

use vstd::prelude::*;

use crate::task_cards::identity::{normalized_provider, TaskCardScope};
use crate::task_cards::identity;
use crate::text;

verus! {

/// Whether the card has been posted.
#[derive(Debug, Clone, Copy, PartialEq, Eq, Structural)]
pub enum MemoryState {
    CardPosted,
    NotPosted,
}

/// What is kept of a card.
#[derive(Debug, PartialEq, Eq)]
pub struct MemoryRow {
    pub state: MemoryState,
    pub message_id: Option<u64>,
    pub response_turn_key: Option<String>,
    pub response_card_message_id: Option<u64>,
}

pub struct RowView {
    pub state: MemoryState,
    pub message_id: Option<u64>,
    pub turn_key: Option<Seq<char>>,
    pub response_card: Option<u64>,
}

impl View for MemoryRow {
    type V = RowView;

    open spec fn view(&self) -> RowView {
        RowView {
            state: self.state,
            message_id: self.message_id,
            turn_key: text::opt_text(self.response_turn_key),
            response_card: self.response_card_message_id,
        }
    }
}

/// A card with its scope.
#[derive(Debug, PartialEq, Eq)]
pub struct MemoryEntry {
    pub scope: TaskCardScope,
    pub row: MemoryRow,
}

/// The cards that are kept in memory.
#[derive(Debug, PartialEq, Eq)]
pub struct MemoryStore {
    pub entries: Vec<MemoryEntry>,
}

/// The cards as a sequence of scopes and rows.
pub open spec fn rows_of(entries: Seq<MemoryEntry>) -> Seq<(identity::ScopeView, RowView)> {
    entries.map_values(|e: MemoryEntry| (e.scope@, e.row@))
}

/// Two scopes lie in the same session of the same provider in the same channel.
pub open spec fn same_session(a: identity::ScopeView, b: identity::ScopeView) -> bool {
    a.channel_id == b.channel_id && a.provider == b.provider && a.session_key == b.session_key
}

/// Every scope is kept once, and within a session a turn is bound to one event.
pub open spec fn rows_wf(rows: Seq<(identity::ScopeView, RowView)>) -> bool {
    &&& forall|i: int, j: int| 0 <= i < j < rows.len() ==> #[trigger] rows[i].0 != #[trigger] rows[j].0
    &&& forall|i: int, j: int|
        0 <= i < j < rows.len() && same_session(#[trigger] rows[i].0, #[trigger] rows[j].0)
            && rows[i].1.turn_key is Some ==> rows[i].1.turn_key != rows[j].1.turn_key
}

/// The place of a scope's card.
pub open spec fn is_row_of(
    rows: Seq<(identity::ScopeView, RowView)>,
    scope: identity::ScopeView,
    i: int,
) -> bool {
    0 <= i < rows.len() && rows[i].0 == scope
}

/// A scope has a card.
pub open spec fn has_row(
    rows: Seq<(identity::ScopeView, RowView)>,
    scope: identity::ScopeView,
) -> bool {
    exists|i: int| is_row_of(rows, scope, i)
}

/// Another event of the same session is bound to the turn.
pub open spec fn bound_elsewhere(
    rows: Seq<(identity::ScopeView, RowView)>,
    scope: identity::ScopeView,
    turn_key: Seq<char>,
) -> bool {
    exists|i: int| #[trigger] binds_elsewhere(rows, scope, turn_key, i)
}

/// The card at `i` is another event of the same session, bound to the turn.
pub open spec fn binds_elsewhere(
    rows: Seq<(identity::ScopeView, RowView)>,
    scope: identity::ScopeView,
    turn_key: Seq<char>,
    i: int,
) -> bool {
    &&& 0 <= i < rows.len()
    &&& rows[i].0 != scope
    &&& same_session(rows[i].0, scope)
    &&& rows[i].1.turn_key == Some(turn_key)
}

impl MemoryStore {
    pub open spec fn rows(self) -> Seq<(identity::ScopeView, RowView)> {
        rows_of(self.entries@)
    }

    pub open spec fn wf(self) -> bool {
        rows_wf(self.rows())
    }

    /// The scopes of the cards, with all that is kept of each.
    pub open spec fn scopes(self) -> Seq<TaskCardScope> {
        self.entries@.map_values(|e: MemoryEntry| e.scope)
    }

    /// A store without cards.
    pub fn new() -> (out: Self)
        ensures
            out.wf(),
            out.rows().len() == 0,
    {
        MemoryStore { entries: Vec::new() }
    }

    fn position(&self, scope: &TaskCardScope) -> (r: Option<usize>)
        ensures
            match r {
                Some(i) => is_row_of(self.rows(), scope@, i as int),
                None => !has_row(self.rows(), scope@),
            },
    {
        let mut i: usize = 0;
        while i < self.entries.len()
            invariant
                i <= self.entries@.len(),
                forall|k: int| 0 <= k < i ==> !is_row_of(self.rows(), scope@, k),
            decreases self.entries@.len() - i,
        {
            assert(self.rows()[i as int].0 == self.entries@[i as int].scope@);
            if self.entries[i].scope.same_card(scope) {
                return Some(i);
            }
            i += 1;
        }
        None
    }

    fn turn_bound_elsewhere(&self, scope: &TaskCardScope, turn_key: &str) -> (r: bool)
        ensures
            r == bound_elsewhere(self.rows(), scope@, turn_key@),
    {
        let mut i: usize = 0;
        while i < self.entries.len()
            invariant
                i <= self.entries@.len(),
                forall|k: int|
                    0 <= k < i ==> !#[trigger] binds_elsewhere(
                        self.rows(),
                        scope@,
                        turn_key@,
                        k,
                    ),
            decreases self.entries@.len() - i,
        {
            let entry = &self.entries[i];
            assert(self.rows()[i as int] == (entry.scope@, entry.row@));
            let bound = match &entry.row.response_turn_key {
                Some(key) => text::same_text(key.as_str(), turn_key),
                None => false,
            };
            if bound && !entry.scope.same_card(scope) && entry.scope.channel_id == scope.channel_id
                && entry.scope.provider == scope.provider && entry.scope.session_key
                == scope.session_key {
                assert(binds_elsewhere(self.rows(), scope@, turn_key@, i as int));
                return true;
            }
            i += 1;
        }
        false
    }

    /// Keeps a card under a scope that has none.
    pub fn insert(&mut self, scope: TaskCardScope, row: MemoryRow) -> (r: bool)
        requires
            old(self).wf(),
        ensures
            final(self).wf(),
            r == (!has_row(old(self).rows(), scope@) && !(row@.turn_key matches Some(key)
                && bound_elsewhere(old(self).rows(), scope@, key))),
            r ==> final(self).rows() == old(self).rows().push((scope@, row@))
                && final(self).scopes() == old(self).scopes().push(scope),
            !r ==> *final(self) == *old(self),
    {
        if self.position(&scope).is_some() {
            return false;
        }
        if let Some(key) = &row.response_turn_key {
            if self.turn_bound_elsewhere(&scope, key.as_str()) {
                return false;
            }
        }
        let ghost before = self.rows();
        let ghost view = (scope@, row@);
        let ghost scopes = self.scopes().push(scope);
        self.entries.push(MemoryEntry { scope, row });
        proof {
            let after = self.rows();
            assert(after =~= before.push(view));
            assert(self.scopes() =~= scopes);
            assert forall|i: int, j: int| 0 <= i < j < after.len() implies #[trigger] after[i].0
                != #[trigger] after[j].0 by {
                if j == before.len() {
                    assert(!is_row_of(before, view.0, i));
                } else {
                    assert(before[i].0 != before[j].0);
                }
            }
            assert forall|i: int, j: int|
                0 <= i < j < after.len() && same_session(
                    #[trigger] after[i].0,
                    #[trigger] after[j].0,
                ) && after[i].1.turn_key is Some implies after[i].1.turn_key
                != after[j].1.turn_key by {
                if j == before.len() {
                    assert(before[i] == after[i]);
                    assert(!is_row_of(before, view.0, i));
                    if after[i].1.turn_key == after[j].1.turn_key {
                        assert(binds_elsewhere(before, view.0, view.1.turn_key->0, i));
                    }
                } else {
                    assert(same_session(before[i].0, before[j].0));
                }
            }
        }
        true
    }
}

// ---------------------------------------------------------------------------
// Binding
// ---------------------------------------------------------------------------
/// The text of a key has the length of a fingerprint, in bytes.
pub open spec fn is_turn_key(key: Seq<char>) -> bool {
    vstd::utf8::encode_utf8(key).len() == 64
}

/// Checks a key before it is stored.
pub fn check_response_turn_key(response_turn_key: &str) -> (r: Result<(), String>)
    ensures
        match r {
            Ok(_) => is_turn_key(response_turn_key@),
            Err(error) => !is_turn_key(response_turn_key@) && error@
                == "task response turn key must be a 64-character fingerprint"@,
        },
{
    if response_turn_key.as_bytes().len() != 64 {
        Err("task response turn key must be a 64-character fingerprint".to_owned())
    } else {
        Ok(())
    }
}

/// The card is posted as the message `card_message_id`.
pub open spec fn card_confirmed(row: RowView, card_message_id: u64) -> bool {
    row.state is CardPosted && row.message_id == Some(card_message_id)
}

/// Why a turn cannot be bound to the card of a scope; nothing where it can.
pub open spec fn bind_refusal(
    rows: Seq<(identity::ScopeView, RowView)>,
    scope: identity::ScopeView,
    turn_key: Seq<char>,
    card_message_id: u64,
) -> Option<Seq<char>> {
    let at = choose|i: int| is_row_of(rows, scope, i);
    if !is_turn_key(turn_key) {
        Some("task response turn key must be a 64-character fingerprint"@)
    } else if bound_elsewhere(rows, scope, turn_key) {
        Some("task response turn is already bound to another event"@)
    } else if !has_row(rows, scope) {
        Some("memory task card row disappeared"@)
    } else if !card_confirmed(rows[at].1, card_message_id) {
        Some("memory task response turn lost its confirmed card"@)
    } else if rows[at].1.turn_key is Some && rows[at].1.turn_key != Some(turn_key) {
        Some("memory task response turn binding changed"@)
    } else {
        None
    }
}

/// The rows with one of them changed, at the place of a scope.
pub open spec fn with_row(
    rows: Seq<(identity::ScopeView, RowView)>,
    scope: identity::ScopeView,
    row: RowView,
) -> Seq<(identity::ScopeView, RowView)> {
    let at = choose|i: int| is_row_of(rows, scope, i);
    rows.update(at, (scope, row))
}

/// The card of a scope.
pub open spec fn row_at(
    rows: Seq<(identity::ScopeView, RowView)>,
    scope: identity::ScopeView,
) -> RowView {
    rows[choose|i: int| is_row_of(rows, scope, i)].1
}

pub proof fn lemma_row_place(
    rows: Seq<(identity::ScopeView, RowView)>,
    scope: identity::ScopeView,
    i: int,
)
    requires
        rows_wf(rows),
        is_row_of(rows, scope, i),
    ensures
        has_row(rows, scope),
        (choose|k: int| is_row_of(rows, scope, k)) == i,
{
    let at = choose|k: int| is_row_of(rows, scope, k);
    assert(is_row_of(rows, scope, at));
    if at < i {
        assert(rows[at].0 != rows[i].0);
    }
    if i < at {
        assert(rows[i].0 != rows[at].0);
    }
}

/// Binds the turn `response_turn_key` to the card of `scope`, which has to be the
/// posted message `card_message_id`.
pub fn bind_response_turn_memory(
    store: &mut MemoryStore,
    scope: &TaskCardScope,
    response_turn_key: &str,
    card_message_id: u64,
) -> (r: Result<(), String>)
    requires
        old(store).wf(),
    ensures
        final(store).wf(),
        final(store).scopes() == old(store).scopes(),
        match r {
            Ok(_) => {
                &&& bind_refusal(
                    old(store).rows(),
                    scope@,
                    response_turn_key@,
                    card_message_id,
                ) is None
                &&& final(store).rows() == with_row(
                    old(store).rows(),
                    scope@,
                    RowView {
                        turn_key: Some(response_turn_key@),
                        ..row_at(old(store).rows(), scope@)
                    },
                )
            },
            Err(error) => {
                &&& bind_refusal(
                    old(store).rows(),
                    scope@,
                    response_turn_key@,
                    card_message_id,
                ) == Some(error@)
                &&& *final(store) == *old(store)
            },
        },
{
    match check_response_turn_key(response_turn_key) {
        Ok(_) => {},
        Err(error) => return Err(error),
    }
    if store.turn_bound_elsewhere(scope, response_turn_key) {
        return Err("task response turn is already bound to another event".to_owned());
    }
    let at: usize = match store.position(scope) {
        Some(at) => at,
        None => {
            return Err("memory task card row disappeared".to_owned());
        },
    };
    let ghost before = store.rows();
    let ghost scopes = store.scopes();
    proof {
        lemma_row_place(before, scope@, at as int);
        assert(before[at as int] == (store.entries@[at as int].scope@, store.entries@[at as int].row@));
    }
    let confirmed = match store.entries[at].row.message_id {
        Some(id) => id == card_message_id,
        None => false,
    };
    if store.entries[at].row.state != MemoryState::CardPosted || !confirmed {
        return Err("memory task response turn lost its confirmed card".to_owned());
    }
    let changed = match &store.entries[at].row.response_turn_key {
        Some(key) => !text::same_text(key.as_str(), response_turn_key),
        None => false,
    };
    if changed {
        return Err("memory task response turn binding changed".to_owned());
    }
    store.entries[at].row.response_turn_key = Some(response_turn_key.to_owned());
    proof {
        let after = store.rows();
        assert(store.scopes() =~= scopes);
        let row = RowView { turn_key: Some(response_turn_key@), ..before[at as int].1 };
        assert(after =~= before.update(at as int, (scope@, row)));
        assert forall|i: int, j: int| 0 <= i < j < after.len() implies #[trigger] after[i].0
            != #[trigger] after[j].0 by {
            assert(before[i].0 != before[j].0);
        }
        assert forall|i: int, j: int|
            0 <= i < j < after.len() && same_session(#[trigger] after[i].0, #[trigger] after[j].0)
                && after[i].1.turn_key is Some implies after[i].1.turn_key
            != after[j].1.turn_key by {
            assert(before[i].0 != before[j].0);
            assert(same_session(before[i].0, before[j].0));
            if i == at && after[i].1.turn_key == after[j].1.turn_key {
                assert(binds_elsewhere(before, scope@, response_turn_key@, j));
            }
            if j == at && after[i].1.turn_key == after[j].1.turn_key {
                assert(binds_elsewhere(before, scope@, response_turn_key@, i));
            }
        }
    }
    Ok(())
}

// ---------------------------------------------------------------------------
// Waiting
// ---------------------------------------------------------------------------
/// The card that a response asks for: by its event where it names one, else by its
/// turn.
pub open spec fn answers_query(
    entry: (identity::ScopeView, RowView),
    channel_id: u64,
    provider: Seq<char>,
    session_key: Seq<char>,
    event_key: Option<Seq<char>>,
    turn_key: Option<Seq<char>>,
) -> bool {
    &&& entry.0.channel_id == channel_id
    &&& entry.0.provider == identity::provider_name(provider)
    &&& entry.0.session_key == session_key
    &&& match event_key {
        Some(key) => entry.0.event_key == key,
        None => turn_key is Some && entry.1.turn_key == turn_key,
    }
}

/// A card answers the query, and its response has been delivered.
pub open spec fn response_delivered(
    rows: Seq<(identity::ScopeView, RowView)>,
    channel_id: u64,
    provider: Seq<char>,
    session_key: Seq<char>,
    event_key: Option<Seq<char>>,
    turn_key: Option<Seq<char>>,
) -> bool {
    exists|i: int|
        0 <= i < rows.len() && answers_query(
            #[trigger] rows[i],
            channel_id,
            provider,
            session_key,
            event_key,
            turn_key,
        ) && rows[i].1.response_card is Some
}

fn matches_turn(held: &Option<String>, wanted: Option<&str>) -> (r: bool)
    ensures
        r == (wanted is Some && text::opt_text(*held) == identity::slice_text(wanted)),
{
    match (held, wanted) {
        (Some(held), Some(wanted)) => text::same_text(held.as_str(), wanted),
        _ => false,
    }
}

/// At most one card answers a query.
pub proof fn lemma_query_is_unique(
    rows: Seq<(identity::ScopeView, RowView)>,
    channel_id: u64,
    provider: Seq<char>,
    session_key: Seq<char>,
    event_key: Option<Seq<char>>,
    turn_key: Option<Seq<char>>,
    i: int,
    j: int,
)
    requires
        rows_wf(rows),
        0 <= i < rows.len(),
        0 <= j < rows.len(),
        answers_query(rows[i], channel_id, provider, session_key, event_key, turn_key),
        answers_query(rows[j], channel_id, provider, session_key, event_key, turn_key),
    ensures
        i == j,
{
    if i < j {
        assert(rows[i].0 != rows[j].0);
        assert(same_session(rows[i].0, rows[j].0));
    } else if j < i {
        assert(rows[j].0 != rows[i].0);
        assert(same_session(rows[j].0, rows[i].0));
    }
}

/// Whether a response that is delivered another way has to wait: until the response
/// of the card that it asks for has been delivered.
pub fn response_fallback_must_wait_memory(
    store: &MemoryStore,
    channel_id: u64,
    provider: &str,
    session_key: &str,
    event_key: Option<&str>,
    response_turn_key: Option<&str>,
) -> (r: bool)
    requires
        store.wf(),
    ensures
        r == !response_delivered(
            store.rows(),
            channel_id,
            provider@,
            session_key@,
            identity::slice_text(event_key),
            identity::slice_text(response_turn_key),
        ),
{
    let provider_text = normalized_provider(provider);
    let ghost rows = store.rows();
    let ghost event = identity::slice_text(event_key);
    let ghost turn = identity::slice_text(response_turn_key);
    let mut i: usize = 0;
    while i < store.entries.len()
        invariant
            store.wf(),
            rows == store.rows(),
            i <= store.entries@.len(),
            provider_text@ == identity::provider_name(provider@),
            event == identity::slice_text(event_key),
            turn == identity::slice_text(response_turn_key),
            forall|k: int|
                0 <= k < i ==> !answers_query(
                    #[trigger] rows[k],
                    channel_id,
                    provider@,
                    session_key@,
                    event,
                    turn,
                ),
        decreases store.entries@.len() - i,
    {
        let entry = &store.entries[i];
        assert(rows[i as int] == (entry.scope@, entry.row@));
        let exact_scope = entry.scope.channel_id == channel_id && text::same_text(
            entry.scope.provider.as_str(),
            provider_text.as_str(),
        ) && text::same_text(entry.scope.session_key.as_str(), session_key);
        let wanted = match event_key {
            Some(key) => exact_scope && text::same_text(entry.scope.event_key.as_str(), key),
            None => exact_scope && matches_turn(&entry.row.response_turn_key, response_turn_key),
        };
        if wanted {
            proof {
                assert(answers_query(
                    rows[i as int],
                    channel_id,
                    provider@,
                    session_key@,
                    event,
                    turn,
                ));
                assert forall|k: int|
                    0 <= k < rows.len() && answers_query(
                        #[trigger] rows[k],
                        channel_id,
                        provider@,
                        session_key@,
                        event,
                        turn,
                    ) implies k == i by {
                    lemma_query_is_unique(
                        rows,
                        channel_id,
                        provider@,
                        session_key@,
                        event,
                        turn,
                        k,
                        i as int,
                    );
                }
            }
            return entry.row.response_card_message_id.is_none();
        }
        i += 1;
    }
    true
}

// ---------------------------------------------------------------------------
// Delivering
// ---------------------------------------------------------------------------
/// Whether a query can tell that a response was delivered: it asks for a card, by its
/// event or by the turn that is bound to it.
pub fn fallback_query_is_keyed(event_key: Option<&str>, response_turn_key: Option<&str>) -> (r:
    bool)
    ensures
        r == (event_key is Some || response_turn_key is Some),
{
    event_key.is_some() || response_turn_key.is_some()
}

/// Whether a response that is delivered another way has to wait, where `undelivered`
/// says of the stored card that was asked for, if there is one, that its response was
/// not delivered.
pub fn response_fallback_must_wait(undelivered: Option<bool>) -> (r: bool)
    ensures
        r == (undelivered != Some(false)),
{
    match undelivered {
        Some(undelivered) => undelivered,
        None => true,
    }
}

/// Why the response of a scope's card cannot be recorded as delivered; nothing where
/// it can.
pub open spec fn deliver_refusal(
    rows: Seq<(identity::ScopeView, RowView)>,
    scope: identity::ScopeView,
    card_message_id: u64,
) -> Option<Seq<char>> {
    if !has_row(rows, scope) {
        Some("memory task card row disappeared"@)
    } else if !card_confirmed(row_at(rows, scope), card_message_id) {
        Some("memory task response delivery lost its confirmed card"@)
    } else if row_at(rows, scope).response_card is Some && row_at(rows, scope).response_card
        != Some(card_message_id) {
        Some("memory task response delivery changed card identity"@)
    } else {
        None
    }
}

/// Records that the response of the card `card_message_id` has been delivered.
pub fn mark_response_delivered_memory(
    store: &mut MemoryStore,
    scope: &TaskCardScope,
    card_message_id: u64,
) -> (r: Result<(), String>)
    requires
        old(store).wf(),
    ensures
        final(store).wf(),
        final(store).scopes() == old(store).scopes(),
        match r {
            Ok(_) => {
                &&& deliver_refusal(old(store).rows(), scope@, card_message_id) is None
                &&& final(store).rows() == with_row(
                    old(store).rows(),
                    scope@,
                    RowView {
                        response_card: Some(card_message_id),
                        ..row_at(old(store).rows(), scope@)
                    },
                )
            },
            Err(error) => {
                &&& deliver_refusal(old(store).rows(), scope@, card_message_id) == Some(error@)
                &&& *final(store) == *old(store)
            },
        },
{
    let at: usize = match store.position(scope) {
        Some(at) => at,
        None => {
            return Err("memory task card row disappeared".to_owned());
        },
    };
    let ghost before = store.rows();
    let ghost scopes = store.scopes();
    proof {
        lemma_row_place(before, scope@, at as int);
        assert(before[at as int] == (store.entries@[at as int].scope@, store.entries@[at as int].row@));
    }
    let confirmed = match store.entries[at].row.message_id {
        Some(id) => id == card_message_id,
        None => false,
    };
    if store.entries[at].row.state != MemoryState::CardPosted || !confirmed {
        return Err("memory task response delivery lost its confirmed card".to_owned());
    }
    let changed = match store.entries[at].row.response_card_message_id {
        Some(id) => id != card_message_id,
        None => false,
    };
    if changed {
        return Err("memory task response delivery changed card identity".to_owned());
    }
    store.entries[at].row.response_card_message_id = Some(card_message_id);
    proof {
        let after = store.rows();
        assert(store.scopes() =~= scopes);
        let row = RowView { response_card: Some(card_message_id), ..before[at as int].1 };
        assert(after =~= before.update(at as int, (scope@, row)));
        assert forall|i: int, j: int| 0 <= i < j < after.len() implies #[trigger] after[i].0
            != #[trigger] after[j].0 by {
            assert(before[i].0 != before[j].0);
        }
        assert forall|i: int, j: int|
            0 <= i < j < after.len() && same_session(#[trigger] after[i].0, #[trigger] after[j].0)
                && after[i].1.turn_key is Some implies after[i].1.turn_key
            != after[j].1.turn_key by {
            assert(same_session(before[i].0, before[j].0));
        }
    }
    Ok(())
}

// ---------------------------------------------------------------------------
// Laws
// ---------------------------------------------------------------------------
/// Once a response has been recorded as delivered, a fallback that asks by the event
/// need not wait.
pub proof fn law_delivered_response_releases_the_fallback(
    rows: Seq<(identity::ScopeView, RowView)>,
    scope: identity::ScopeView,
    provider: Seq<char>,
    card_message_id: u64,
    turn_key: Option<Seq<char>>,
)
    requires
        rows_wf(rows),
        deliver_refusal(rows, scope, card_message_id) is None,
        identity::provider_name(provider) == scope.provider,
    ensures
        response_delivered(
            with_row(
                rows,
                scope,
                RowView { response_card: Some(card_message_id), ..row_at(rows, scope) },
            ),
            scope.channel_id,
            provider,
            scope.session_key,
            Some(scope.event_key),
            turn_key,
        ),
{
    let at = choose|i: int| is_row_of(rows, scope, i);
    assert(is_row_of(rows, scope, at));
    let after = with_row(
        rows,
        scope,
        RowView { response_card: Some(card_message_id), ..row_at(rows, scope) },
    );
    assert(after[at].0 == scope);
    assert(answers_query(
        after[at],
        scope.channel_id,
        provider,
        scope.session_key,
        Some(scope.event_key),
        turn_key,
    ));
}

/// Binding a turn that is bound already, to the same card, changes nothing.
pub proof fn law_binding_again_changes_nothing(
    rows: Seq<(identity::ScopeView, RowView)>,
    scope: identity::ScopeView,
    turn_key: Seq<char>,
    card_message_id: u64,
)
    requires
        rows_wf(rows),
        bind_refusal(rows, scope, turn_key, card_message_id) is None,
        row_at(rows, scope).turn_key == Some(turn_key),
    ensures
        with_row(rows, scope, RowView { turn_key: Some(turn_key), ..row_at(rows, scope) }) == rows,
{
    let at = choose|i: int| is_row_of(rows, scope, i);
    assert(is_row_of(rows, scope, at));
    assert(rows.update(at, rows[at]) =~= rows);
}

/// Marking the response of a card as delivered again, on what marking it left, is not
/// refused and changes nothing.
pub proof fn law_marking_again_changes_nothing(
    rows: Seq<(identity::ScopeView, RowView)>,
    scope: identity::ScopeView,
    card_message_id: u64,
)
    requires
        rows_wf(rows),
        deliver_refusal(rows, scope, card_message_id) is None,
    ensures
        ({
            let marked = with_row(
                rows,
                scope,
                RowView { response_card: Some(card_message_id), ..row_at(rows, scope) },
            );
            &&& deliver_refusal(marked, scope, card_message_id) is None
            &&& with_row(
                marked,
                scope,
                RowView { response_card: Some(card_message_id), ..row_at(marked, scope) },
            ) == marked
        }),
{
    let at = choose|i: int| is_row_of(rows, scope, i);
    assert(is_row_of(rows, scope, at));
    let row = RowView { response_card: Some(card_message_id), ..rows[at].1 };
    let marked = rows.update(at, (scope, row));
    assert(rows_wf(marked)) by {
        assert forall|i: int, j: int| 0 <= i < j < marked.len() implies #[trigger] marked[i].0
            != #[trigger] marked[j].0 by {
            assert(rows[i].0 != rows[j].0);
        }
        assert forall|i: int, j: int|
            0 <= i < j < marked.len() && same_session(
                #[trigger] marked[i].0,
                #[trigger] marked[j].0,
            ) && marked[i].1.turn_key is Some implies marked[i].1.turn_key
            != marked[j].1.turn_key by {
            assert(same_session(rows[i].0, rows[j].0));
        }
    }
    lemma_row_place(marked, scope, at);
    assert(marked.update(at, (scope, row)) =~= marked);
}

} // verus!
