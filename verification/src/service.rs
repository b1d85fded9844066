use vstd::prelude::*;

use crate::link::{MessageLink, MessageLinkDirection};

verus! {

/// Failures of the link service. `Conflict` reports a violated uniqueness
/// constraint on create — a logic error upstream, never swallowed.
/// `Unavailable` reports a storage I/O failure; the in-process store below
/// never raises it, but callers that drive a durable store feed it back
/// through the relay protocol's events.
#[derive(Clone, Copy, Debug, PartialEq, Eq, Structural)]
pub enum MessageLinkServiceError {
    Conflict,
    Unavailable,
}

/// The link that a lookup anchored at `(chat_id, message_id)` on the given
/// side resolves to: the first stored link whose anchor matches. Under the
/// store's invariant at most one stored link can match, so "first" is "the".
pub open spec fn lookup(
    links: Seq<MessageLink>,
    chat_id: i64,
    message_id: i64,
    direction: MessageLinkDirection,
) -> Option<MessageLink>
    decreases links.len(),
{
    if links.len() == 0 {
        None
    } else if links[0].matches(chat_id, message_id, direction) {
        Some(links[0])
    } else {
        lookup(links.drop_first(), chat_id, message_id, direction)
    }
}

/// A new link may be inserted exactly when it collides with no stored link:
/// both of its anchors are still unused.
pub open spec fn can_insert(links: Seq<MessageLink>, link: MessageLink) -> bool {
    forall|k: int| 0 <= k < links.len() ==> !links[k].collides_with(link)
}

/// Append-only table of message links with the two uniqueness constraints:
/// one admin copy maps to exactly one subscriber-side origin, and one
/// subscriber message produces at most one admin copy. No update or delete is
/// exposed; link history is a permanent audit trail by design.
pub struct MessageLinkService {
    links: Vec<MessageLink>,
}

impl View for MessageLinkService {
    type V = Seq<MessageLink>;

    closed spec fn view(&self) -> Seq<MessageLink> {
        self.links@
    }
}

impl MessageLinkService {
    /// Both uniqueness constraints, stated pairwise: no two stored links share
    /// an admin-side anchor or a subscriber-side anchor.
    pub open spec fn inv(self) -> bool {
        forall|i: int, j: int|
            0 <= i < j < self@.len() ==> !self@[i].collides_with(self@[j])
    }

    pub fn new() -> (r: MessageLinkService)
        ensures
            r.inv(),
            r@ == Seq::<MessageLink>::empty(),
    {
        MessageLinkService { links: Vec::new() }
    }

    /// Insert a new link. Fails with `Conflict` — and leaves the store
    /// untouched — exactly when either uniqueness constraint would be
    /// violated; succeeds, appending the link, otherwise. Concurrent creates
    /// for the same anchor are serialized by this constraint check: the loser
    /// observes `Conflict` rather than corrupting state.
    pub fn create(&mut self, link: MessageLink) -> (r: Result<(), MessageLinkServiceError>)
        requires
            old(self).inv(),
        ensures
            final(self).inv(),
            match r {
                Ok(()) => can_insert(old(self)@, link) && final(self)@ == old(self)@.push(link),
                Err(e) => {
                    &&& e == MessageLinkServiceError::Conflict
                    &&& !can_insert(old(self)@, link)
                    &&& final(self)@ == old(self)@
                },
            },
    {
        let mut i: usize = 0;
        while i < self.links.len()
            invariant
                i <= self.links.len(),
                *self == *old(self),
                old(self).inv(),
                forall|k: int| 0 <= k < i ==> !self.links@[k].collides_with(link),
            decreases self.links.len() - i,
        {
            if self.links[i].collides(&link) {
                return Err(MessageLinkServiceError::Conflict);
            }
            i += 1;
        }
        self.links.push(link);
        proof {
            assert forall|a: int, b: int|
                0 <= a < b < self@.len() implies !self@[a].collides_with(self@[b]) by {
                if b < self@.len() - 1 {
                    assert(!old(self)@[a].collides_with(old(self)@[b]));
                } else {
                    assert(!old(self)@[a].collides_with(link));
                }
            }
        }
        Ok(())
    }

    /// Look up the link whose anchor on the given side is
    /// `(chat_id, message_id)`. Absence is a normal result, reported as
    /// `Ok(None)` — the expected case for a reply to an unrelated message —
    /// never as an error.
    pub fn find(
        &self,
        chat_id: i64,
        message_id: i64,
        direction: MessageLinkDirection,
    ) -> (r: Result<Option<MessageLink>, MessageLinkServiceError>)
        ensures
            r == Ok::<Option<MessageLink>, MessageLinkServiceError>(
                lookup(self@, chat_id, message_id, direction),
            ),
    {
        let mut i: usize = 0;
        proof {
            assert(self@.skip(0) =~= self@);
        }
        while i < self.links.len()
            invariant
                i <= self.links.len(),
                lookup(self@, chat_id, message_id, direction)
                    == lookup(self@.skip(i as int), chat_id, message_id, direction),
            decreases self.links.len() - i,
        {
            proof {
                assert(self@.skip(i as int)[0] == self@[i as int]);
            }
            if self.links[i].is_anchored_at(chat_id, message_id, direction) {
                return Ok(Some(self.links[i]));
            }
            proof {
                assert(self@.skip(i as int).drop_first() =~= self@.skip(i as int + 1));
            }
            i += 1;
        }
        proof {
            assert(self@.skip(self@.len() as int) =~= Seq::<MessageLink>::empty());
        }
        Ok(None)
    }

    /// How many links the store holds.
    pub fn len(&self) -> (r: usize)
        ensures
            r == self@.len(),
    {
        self.links.len()
    }
}

/// What a lookup's result means: a resolved link is a stored link matching
/// the queried anchor, and an empty result means no stored link matches.
pub proof fn lemma_lookup_characterization(
    links: Seq<MessageLink>,
    chat_id: i64,
    message_id: i64,
    direction: MessageLinkDirection,
)
    ensures
        match lookup(links, chat_id, message_id, direction) {
            Some(l) => links.contains(l) && l.matches(chat_id, message_id, direction),
            None => forall|k: int|
                0 <= k < links.len() ==> !links[k].matches(chat_id, message_id, direction),
        },
    decreases links.len(),
{
    if links.len() == 0 {
    } else if links[0].matches(chat_id, message_id, direction) {
        assert(links.contains(links[0]));
    } else {
        let rest = links.drop_first();
        lemma_lookup_characterization(rest, chat_id, message_id, direction);
        match lookup(rest, chat_id, message_id, direction) {
            Some(l) => {
                let k = choose|k: int| 0 <= k < rest.len() && rest[k] == l;
                assert(links[k + 1] == l);
                assert(links.contains(l));
            },
            None => {
                assert forall|k: int|
                    0 <= k < links.len() implies !links[k].matches(
                    chat_id,
                    message_id,
                    direction,
                ) by {
                    if k > 0 {
                        assert(links[k] == rest[k - 1]);
                    }
                }
            },
        }
    }
}

/// Every stored link of a well-formed store is resolvable from both of its
/// anchors: a lookup on its admin-side anchor in the `Admin` direction, and
/// one on its subscriber-side anchor in the `Subscriber` direction, each
/// resolve to exactly that link.
pub proof fn lemma_find_resolves_stored_link(s: MessageLinkService, l: MessageLink)
    requires
        s.inv(),
        s@.contains(l),
    ensures
        lookup(s@, l.admin_chat_id, l.admin_message_id, MessageLinkDirection::Admin) == Some(l),
        lookup(
            s@,
            l.subscriber_chat_id,
            l.subscriber_message_id,
            MessageLinkDirection::Subscriber,
        ) == Some(l),
{
    lemma_lookup_unique_match(s, l, l.admin_chat_id, l.admin_message_id, MessageLinkDirection::Admin);
    lemma_lookup_unique_match(
        s,
        l,
        l.subscriber_chat_id,
        l.subscriber_message_id,
        MessageLinkDirection::Subscriber,
    );
}

/// In a well-formed store, a lookup on an anchor that some stored link
/// carries resolves to that very link: the uniqueness constraints leave no
/// other candidate.
pub proof fn lemma_lookup_unique_match(
    s: MessageLinkService,
    l: MessageLink,
    chat_id: i64,
    message_id: i64,
    direction: MessageLinkDirection,
)
    requires
        s.inv(),
        s@.contains(l),
        l.matches(chat_id, message_id, direction),
    ensures
        lookup(s@, chat_id, message_id, direction) == Some(l),
{
    lemma_lookup_characterization(s@, chat_id, message_id, direction);
    match lookup(s@, chat_id, message_id, direction) {
        Some(m) => {
            let i = choose|i: int| 0 <= i < s@.len() && s@[i] == l;
            let j = choose|j: int| 0 <= j < s@.len() && s@[j] == m;
            if i < j {
                assert(!s@[i].collides_with(s@[j]));
                assert(false);
            } else if j < i {
                assert(!s@[j].collides_with(s@[i]));
                assert(false);
            }
        },
        None => {
            let i = choose|i: int| 0 <= i < s@.len() && s@[i] == l;
            assert(s@[i] == l);
            assert(!s@[i].matches(chat_id, message_id, direction));
            assert(false);
        },
    }
}

/// A lookup on an anchor that no stored link carries resolves to nothing;
/// `find` reports that as `Ok(None)`, never as an error.
pub proof fn lemma_find_absent_anchor(
    s: MessageLinkService,
    chat_id: i64,
    message_id: i64,
    direction: MessageLinkDirection,
)
    requires
        forall|k: int| 0 <= k < s@.len() ==> !s@[k].matches(chat_id, message_id, direction),
    ensures
        lookup(s@, chat_id, message_id, direction) is None,
{
    lemma_lookup_characterization(s@, chat_id, message_id, direction);
    match lookup(s@, chat_id, message_id, direction) {
        Some(m) => {
            let j = choose|j: int| 0 <= j < s@.len() && s@[j] == m;
            assert(false);
        },
        None => {},
    }
}

/// Creates for one anchor serialize: once a first link has been inserted, a
/// second link sharing its admin-side anchor can no longer be inserted — of
/// two such creates, exactly one succeeds and the other observes `Conflict`.
pub proof fn lemma_create_serializes(
    links: Seq<MessageLink>,
    first: MessageLink,
    second: MessageLink,
)
    requires
        can_insert(links, first),
        first.admin_chat_id == second.admin_chat_id,
        first.admin_message_id == second.admin_message_id,
    ensures
        !can_insert(links.push(first), second),
{
    assert(links.push(first)[links.len() as int] == first);
    assert(first.collides_with(second));
}

} // verus!

