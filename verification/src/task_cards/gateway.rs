//! The bots that can post a card, and how their failures are classified.

use vstd::prelude::*;

use crate::text;

verus! {

/// A bot that can post cards. `client` is the place of its Discord client in the
/// caller's list.
#[derive(Debug, PartialEq, Eq)]
pub struct CardBot {
    pub key: String,
    pub client: usize,
}

impl CardBot {
    pub fn new(key: &str, client: usize) -> (out: Self)
        ensures
            out.key@ == key@,
            out.client == client,
    {
        CardBot { key: key.to_owned(), client }
    }
}

/// The bots, each key once, in order of preference.
#[derive(Debug, PartialEq, Eq)]
pub struct CardDeliveryClients {
    pub bots: Vec<CardBot>,
}

/// A bot of the list has the key.
pub open spec fn has_key(bots: Seq<CardBot>, key: Seq<char>) -> bool {
    exists|i: int| 0 <= i < bots.len() && #[trigger] bots[i].key@ == key
}

/// The bots of a list, without those whose key a bot before them has.
pub open spec fn first_of_each_key(bots: Seq<CardBot>) -> Seq<CardBot>
    decreases bots.len(),
{
    if bots.len() == 0 {
        bots
    } else {
        let kept = first_of_each_key(bots.drop_last());
        if has_key(kept, bots.last().key@) {
            kept
        } else {
            kept.push(bots.last())
        }
    }
}

fn position(bots: &Vec<CardBot>, key: &str) -> (r: Option<usize>)
    ensures
        match r {
            Some(i) => i < bots@.len() && bots@[i as int].key@ == key@ && forall|k: int|
                0 <= k < i ==> #[trigger] bots@[k].key@ != key@,
            None => !has_key(bots@, key@),
        },
{
    let mut i: usize = 0;
    while i < bots.len()
        invariant
            i <= bots@.len(),
            forall|k: int| 0 <= k < i ==> #[trigger] bots@[k].key@ != key@,
        decreases bots@.len() - i,
    {
        if text::same_text(bots[i].key.as_str(), key) {
            return Some(i);
        }
        i += 1;
    }
    None
}

/// Keys differ from bot to bot.
pub open spec fn keys_distinct(bots: Seq<CardBot>) -> bool {
    forall|i: int, j: int|
        0 <= i < j < bots.len() ==> #[trigger] bots[i].key@ != #[trigger] bots[j].key@
}

impl CardDeliveryClients {
    /// Of bots with the same key the first is kept.
    pub fn new(bots: Vec<CardBot>) -> (out: Self)
        ensures
            out.bots@ == first_of_each_key(bots@),
            keys_distinct(out.bots@),
    {
        let mut unique: Vec<CardBot> = Vec::new();
        let ghost all = bots@;
        let mut i: usize = 0;
        assert(all.take(0) =~= Seq::empty());
        while i < bots.len()
            invariant
                all == bots@,
                i <= bots@.len(),
                unique@ == first_of_each_key(all.take(i as int)),
                keys_distinct(unique@),
            decreases bots@.len() - i,
        {
            proof {
                let next = all.take(i + 1);
                assert(next.drop_last() =~= all.take(i as int));
                assert(next.last() == all[i as int]);
            }
            match position(&unique, bots[i].key.as_str()) {
                Some(_) => {},
                None => {
                    let ghost before = unique@;
                    let bot = CardBot { key: bots[i].key.clone(), client: bots[i].client };
                    assert(bot == all[i as int]);
                    unique.push(bot);
                    assert forall|a: int, b: int| 0 <= a < b < unique@.len() implies #[trigger] unique@[a].key@
                        != #[trigger] unique@[b].key@ by {
                        if b == before.len() {
                            assert(!has_key(before, bots@[i as int].key@));
                        }
                    }
                },
            }
            i += 1;
        }
        assert(all.take(i as int) =~= all);
        CardDeliveryClients { bots: unique }
    }

    /// The bot that a new card is posted with.
    pub fn preferred(&self) -> (r: Option<&CardBot>)
        ensures
            match r {
                Some(bot) => self.bots@.len() > 0 && *bot == self.bots@[0],
                None => self.bots@.len() == 0,
            },
    {
        if self.bots.len() > 0 {
            Some(&self.bots[0])
        } else {
            None
        }
    }

    /// The bot with the key `key`.
    pub fn by_key(&self, key: &str) -> (r: Option<&CardBot>)
        ensures
            match r {
                Some(bot) => bot.key@ == key@ && exists|i: int|
                    0 <= i < self.bots@.len() && #[trigger] self.bots@[i] == *bot && forall|k: int|
                        0 <= k < i ==> #[trigger] self.bots@[k].key@ != key@,
                None => !has_key(self.bots@, key@),
            },
    {
        match position(&self.bots, key) {
            Some(i) => Some(&self.bots[i]),
            None => None,
        }
    }
}

/// Why a card could not be posted or edited.
#[derive(Debug, PartialEq, Eq)]
pub enum TaskCardTransportError {
    Transient(String),
    ConfirmedMissing(String),
    Permanent(String),
}

impl TaskCardTransportError {
    /// What the error says.
    pub open spec fn text(self) -> Seq<char> {
        match self {
            TaskCardTransportError::Transient(error) => error@,
            TaskCardTransportError::ConfirmedMissing(error) => error@,
            TaskCardTransportError::Permanent(error) => error@,
        }
    }

    pub fn message(&self) -> (r: &str)
        ensures
            r@ == self.text(),
    {
        match self {
            TaskCardTransportError::Transient(error) => error.as_str(),
            TaskCardTransportError::ConfirmedMissing(error) => error.as_str(),
            TaskCardTransportError::Permanent(error) => error.as_str(),
        }
    }
}

/// How posting a message failed.
#[derive(Debug, PartialEq, Eq)]
pub enum ClassifiedOutboundPostError {
    Transient(String),
    Permanent(String),
}

/// How editing a message failed.
#[derive(Debug, PartialEq, Eq)]
pub enum ClassifiedOutboundEditError {
    ConfirmedMissing(String),
    Other(String),
}

/// What a failed post means for a card.
pub fn map_card_post_error(error: ClassifiedOutboundPostError) -> (r: TaskCardTransportError)
    ensures
        r == match error {
            ClassifiedOutboundPostError::Transient(error) => TaskCardTransportError::Transient(
                error,
            ),
            ClassifiedOutboundPostError::Permanent(error) => TaskCardTransportError::Permanent(
                error,
            ),
        },
{
    match error {
        ClassifiedOutboundPostError::Transient(error) => TaskCardTransportError::Transient(error),
        ClassifiedOutboundPostError::Permanent(error) => TaskCardTransportError::Permanent(error),
    }
}

/// What a failed edit means for a card: only a message that is certainly gone may be
/// replaced.
pub fn map_card_edit_error(error: ClassifiedOutboundEditError) -> (r: TaskCardTransportError)
    ensures
        r == match error {
            ClassifiedOutboundEditError::ConfirmedMissing(error) => {
                TaskCardTransportError::ConfirmedMissing(error)
            },
            ClassifiedOutboundEditError::Other(error) => TaskCardTransportError::Transient(error),
        },
{
    match error {
        ClassifiedOutboundEditError::ConfirmedMissing(error) => {
            TaskCardTransportError::ConfirmedMissing(error)
        },
        ClassifiedOutboundEditError::Other(error) => TaskCardTransportError::Transient(error),
    }
}

} // verus!
