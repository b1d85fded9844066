use vstd::prelude::*;

use crate::link::{MessageLink, MessageLinkDirection};
use crate::service::{can_insert, lookup, MessageLinkService, MessageLinkServiceError};

verus! {

/// A `(chat_id, message_id)` pair used as a lookup key into the link store.
#[derive(Clone, Copy, Debug, PartialEq, Eq, Structural)]
pub struct Anchor {
    pub chat_id: i64,
    pub message_id: i64,
}

/// One copy request to the message platform: copy `message_id` out of
/// `from_chat_id` into `to_chat_id`, anchored as a reply to the partner's
/// existing message `reply_to_message_id`.
#[derive(Clone, Copy, Debug, PartialEq, Eq, Structural)]
pub struct CopyRequest {
    pub from_chat_id: i64,
    pub to_chat_id: i64,
    pub message_id: i64,
    pub reply_to_message_id: i64,
}

/// How one inbound message event ended.
#[derive(Clone, Copy, Debug, PartialEq, Eq, Structural)]
pub enum RelayOutcome {
    /// The message carries no reply-to reference: an original message, not a
    /// threaded reply awaiting relay.
    NotAReply,
    /// The replied-to message is not a relay artifact; terminate silently.
    NoLink,
    /// The link store could not answer the lookup.
    LookupFailed,
    /// The platform rejected the copy; terminal for this event, and no link
    /// is persisted.
    CopyFailed,
    /// Persisting the new link failed after a confirmed copy: a reportable
    /// inconsistency, not retried, to avoid duplicate copies.
    PersistFailed(MessageLinkServiceError),
    /// The reply was copied to the partner chat and its link persisted.
    Relayed,
}

/// The phases of the per-event relay protocol. Each non-terminal phase asks
/// its driver for one piece of outside work (see [`RelayPhase::command`]) and
/// advances on the answering event (see [`relay_step`]).
#[derive(Clone, Copy, Debug, PartialEq, Eq, Structural)]
pub enum RelayPhase {
    /// Awaiting the link-store lookup on the reply-to anchor of the inbound
    /// message `message_id`.
    LinkLookup { message_id: i64, anchor: Anchor },
    /// A link was found; awaiting the platform's answer to the copy request.
    Copying { message_id: i64, link: MessageLink },
    /// The copy was confirmed; awaiting persistence of the new link leg.
    Persisting { link: MessageLink },
    /// Terminal; no further outside work is requested.
    Done(RelayOutcome),
}

/// One answer from the outside collaborators, consumed by [`relay_step`].
#[derive(Clone, Copy, Debug, PartialEq, Eq, Structural)]
pub enum RelayEvent {
    /// The link store answered the lookup.
    LinkResolved(Option<MessageLink>),
    /// The link store could not be reached.
    LookupUnavailable,
    /// The platform confirmed the copy and reports the new copy's message id.
    CopyConfirmed { new_message_id: i64 },
    /// The platform rejected the copy (permission, rate limit, deleted
    /// message).
    CopyRejected,
    /// The link store accepted the new link.
    LinkPersisted,
    /// The link store refused the new link.
    PersistRejected(MessageLinkServiceError),
}

/// The one piece of outside work a phase asks its driver for.
#[derive(Clone, Copy, Debug, PartialEq, Eq, Structural)]
pub enum RelayCommand {
    /// Ask the link store for the link anchored at the given key.
    Find(Anchor, MessageLinkDirection),
    /// Ask the platform to copy a message.
    Copy(CopyRequest),
    /// Ask the link store to persist the new link.
    Create(MessageLink),
}

/// Whether `event` is the kind of answer the phase's command can produce.
pub open spec fn phase_accepts(phase: RelayPhase, event: RelayEvent) -> bool {
    match phase {
        RelayPhase::LinkLookup { .. } => event matches RelayEvent::LinkResolved(_)
            || event matches RelayEvent::LookupUnavailable,
        RelayPhase::Copying { .. } => event matches RelayEvent::CopyConfirmed { .. }
            || event matches RelayEvent::CopyRejected,
        RelayPhase::Persisting { .. } => event matches RelayEvent::LinkPersisted
            || event matches RelayEvent::PersistRejected(_),
        RelayPhase::Done(_) => false,
    }
}

/// The new link leg persisted after a confirmed copy: it binds the original
/// subscriber identity and chat to the newly created copy's message id on the
/// subscriber side, and the admin chat to the admin's reply `message_id` on
/// the admin side — each leg of the conversation produces its own independent
/// link row.
pub open spec fn spec_new_leg(link: MessageLink, message_id: i64, new_message_id: i64) -> MessageLink {
    MessageLink {
        subscriber_user_id: link.subscriber_user_id,
        subscriber_chat_id: link.subscriber_chat_id,
        subscriber_message_id: new_message_id,
        admin_chat_id: link.admin_chat_id,
        admin_message_id: message_id,
    }
}

/// The copy request a resolved link dictates for an admin reply
/// `message_id`: copy the reply out of the admin chat into the subscriber
/// chat, anchored as a reply to the subscriber's original message.
pub open spec fn spec_copy_request(link: MessageLink, message_id: i64) -> CopyRequest {
    CopyRequest {
        from_chat_id: link.admin_chat_id,
        to_chat_id: link.subscriber_chat_id,
        message_id,
        reply_to_message_id: link.subscriber_message_id,
    }
}

/// How a phase advances on an event that answers its command.
pub open spec fn spec_step(phase: RelayPhase, event: RelayEvent) -> RelayPhase {
    match (phase, event) {
        (RelayPhase::LinkLookup { .. }, RelayEvent::LinkResolved(None)) =>
            RelayPhase::Done(RelayOutcome::NoLink),
        (RelayPhase::LinkLookup { message_id, .. }, RelayEvent::LinkResolved(Some(link))) =>
            RelayPhase::Copying { message_id, link },
        (RelayPhase::LinkLookup { .. }, RelayEvent::LookupUnavailable) =>
            RelayPhase::Done(RelayOutcome::LookupFailed),
        (RelayPhase::Copying { message_id, link }, RelayEvent::CopyConfirmed { new_message_id }) =>
            RelayPhase::Persisting { link: spec_new_leg(link, message_id, new_message_id) },
        (RelayPhase::Copying { .. }, RelayEvent::CopyRejected) =>
            RelayPhase::Done(RelayOutcome::CopyFailed),
        (RelayPhase::Persisting { .. }, RelayEvent::LinkPersisted) =>
            RelayPhase::Done(RelayOutcome::Relayed),
        (RelayPhase::Persisting { .. }, RelayEvent::PersistRejected(e)) =>
            RelayPhase::Done(RelayOutcome::PersistFailed(e)),
        _ => phase,
    }
}

impl RelayPhase {
    /// Open an event: a no-op terminal phase for a message without a reply-to
    /// reference, a lookup phase otherwise. `direction` names the side the
    /// event arrived on, which decides how the reply anchor is matched.
    pub fn start(message_id: i64, reply_to: Option<Anchor>) -> (r: RelayPhase)
        ensures
            r == match reply_to {
                None => RelayPhase::Done(RelayOutcome::NotAReply),
                Some(anchor) => RelayPhase::LinkLookup { message_id, anchor },
            },
    {
        match reply_to {
            None => RelayPhase::Done(RelayOutcome::NotAReply),
            Some(anchor) => RelayPhase::LinkLookup { message_id, anchor },
        }
    }

    /// The outside work this phase waits on, with the direction the lookup
    /// must use; `None` exactly for terminal phases — a finished event asks
    /// for no platform call and no store write.
    pub fn command(&self, direction: MessageLinkDirection) -> (r: Option<RelayCommand>)
        ensures
            r == self.spec_command(direction),
    {
        match *self {
            RelayPhase::LinkLookup { anchor, .. } => Some(RelayCommand::Find(anchor, direction)),
            RelayPhase::Copying { message_id, link } => Some(
                RelayCommand::Copy(
                    CopyRequest {
                        from_chat_id: link.admin_chat_id,
                        to_chat_id: link.subscriber_chat_id,
                        message_id,
                        reply_to_message_id: link.subscriber_message_id,
                    },
                ),
            ),
            RelayPhase::Persisting { link } => Some(RelayCommand::Create(link)),
            RelayPhase::Done(_) => None,
        }
    }

    /// Specification of [`RelayPhase::command`].
    pub open spec fn spec_command(self, direction: MessageLinkDirection) -> Option<RelayCommand> {
        match self {
            RelayPhase::LinkLookup { anchor, .. } => Some(RelayCommand::Find(anchor, direction)),
            RelayPhase::Copying { message_id, link } => Some(
                RelayCommand::Copy(spec_copy_request(link, message_id)),
            ),
            RelayPhase::Persisting { link } => Some(RelayCommand::Create(link)),
            RelayPhase::Done(_) => None,
        }
    }

    /// Whether `event` is the kind of answer this phase's command can
    /// produce: the guard a driver tests before advancing the protocol.
    pub fn accepts(&self, event: &RelayEvent) -> (r: bool)
        ensures
            r == phase_accepts(*self, *event),
    {
        match *self {
            RelayPhase::LinkLookup { .. } => match *event {
                RelayEvent::LinkResolved(_) | RelayEvent::LookupUnavailable => true,
                _ => false,
            },
            RelayPhase::Copying { .. } => match *event {
                RelayEvent::CopyConfirmed { .. } | RelayEvent::CopyRejected => true,
                _ => false,
            },
            RelayPhase::Persisting { .. } => match *event {
                RelayEvent::LinkPersisted | RelayEvent::PersistRejected(_) => true,
                _ => false,
            },
            RelayPhase::Done(_) => false,
        }
    }

    /// The outcome of a terminal phase.
    pub fn outcome(&self) -> (r: Option<RelayOutcome>)
        ensures
            r == match *self {
                RelayPhase::Done(o) => Some(o),
                _ => None::<RelayOutcome>,
            },
    {
        match *self {
            RelayPhase::Done(o) => Some(o),
            _ => None,
        }
    }
}

/// Advance the relay protocol by one answered command.
pub fn relay_step(phase: RelayPhase, event: RelayEvent) -> (r: RelayPhase)
    requires
        phase_accepts(phase, event),
    ensures
        r == spec_step(phase, event),
{
    match (phase, event) {
        (RelayPhase::LinkLookup { .. }, RelayEvent::LinkResolved(None)) =>
            RelayPhase::Done(RelayOutcome::NoLink),
        (RelayPhase::LinkLookup { message_id, .. }, RelayEvent::LinkResolved(Some(link))) =>
            RelayPhase::Copying { message_id, link },
        (RelayPhase::LinkLookup { .. }, RelayEvent::LookupUnavailable) =>
            RelayPhase::Done(RelayOutcome::LookupFailed),
        (RelayPhase::Copying { message_id, link }, RelayEvent::CopyConfirmed { new_message_id }) =>
            RelayPhase::Persisting {
                link: MessageLink {
                    subscriber_user_id: link.subscriber_user_id,
                    subscriber_chat_id: link.subscriber_chat_id,
                    subscriber_message_id: new_message_id,
                    admin_chat_id: link.admin_chat_id,
                    admin_message_id: message_id,
                },
            },
        (RelayPhase::Copying { .. }, RelayEvent::CopyRejected) =>
            RelayPhase::Done(RelayOutcome::CopyFailed),
        (RelayPhase::Persisting { .. }, RelayEvent::LinkPersisted) =>
            RelayPhase::Done(RelayOutcome::Relayed),
        (RelayPhase::Persisting { .. }, RelayEvent::PersistRejected(e)) =>
            RelayPhase::Done(RelayOutcome::PersistFailed(e)),
        _ => phase,
    }
}

/// A reply whose replied-to message has no corresponding link finishes
/// silently, and the finished phase asks for no platform call and no store
/// write.
pub proof fn lemma_no_link_no_actions(
    message_id: i64,
    anchor: Anchor,
    direction: MessageLinkDirection,
)
    ensures
        spec_step(
            RelayPhase::LinkLookup { message_id, anchor },
            RelayEvent::LinkResolved(None),
        ) == RelayPhase::Done(RelayOutcome::NoLink),
        RelayPhase::Done(RelayOutcome::NoLink).spec_command(direction) is None,
{
}

/// A store write is only ever requested after a confirmed copy: the only
/// step that enters the persisting phase consumes a copy confirmation, and
/// the link it persists is the new leg that confirmation dictates.
pub proof fn lemma_persist_requires_confirmed_copy(phase: RelayPhase, event: RelayEvent)
    requires
        phase_accepts(phase, event),
    ensures
        (spec_step(phase, event) is Persisting) ==> {
            &&& phase is Copying
            &&& event is CopyConfirmed
            &&& spec_step(phase, event)->Persisting_link == spec_new_leg(
                phase->Copying_link,
                phase->Copying_message_id,
                event->CopyConfirmed_new_message_id,
            )
        },
{
}

/// A rejected copy is terminal, and the finished phase asks for no store
/// write: no orphan half-link is ever persisted.
pub proof fn lemma_copy_failure_writes_nothing(
    message_id: i64,
    link: MessageLink,
    direction: MessageLinkDirection,
)
    ensures
        spec_step(
            RelayPhase::Copying { message_id, link },
            RelayEvent::CopyRejected,
        ) == RelayPhase::Done(RelayOutcome::CopyFailed),
        RelayPhase::Done(RelayOutcome::CopyFailed).spec_command(direction) is None,
{
}

/// What the platform answered the one copy request an event can make; to the
/// relay the answer is an event, examined only when a link resolves.
#[derive(Clone, Copy, Debug, PartialEq, Eq, Structural)]
pub enum CopyOutcome {
    /// The platform created the copy and reports its message id.
    Confirmed { new_message_id: i64 },
    /// The platform refused the copy.
    Rejected,
}

/// Handle one admin-side message event against an in-process link store:
/// resolve the reply-to anchor on the admin side, and — only when a link is
/// found and the platform confirms the copy — persist the new leg. The store
/// is written exactly in that case; every other path leaves it untouched.
pub fn handle(
    service: &mut MessageLinkService,
    message_id: i64,
    reply_to: Option<Anchor>,
    copy: CopyOutcome,
) -> (r: RelayOutcome)
    requires
        old(service).inv(),
    ensures
        final(service).inv(),
        match reply_to {
            None => r == RelayOutcome::NotAReply && final(service)@ == old(service)@,
            Some(anchor) => {
                let found = lookup(
                    old(service)@,
                    anchor.chat_id,
                    anchor.message_id,
                    MessageLinkDirection::Admin,
                );
                match found {
                    None => r == RelayOutcome::NoLink && final(service)@ == old(service)@,
                    Some(link) => match copy {
                        CopyOutcome::Rejected => r == RelayOutcome::CopyFailed
                            && final(service)@ == old(service)@,
                        CopyOutcome::Confirmed { new_message_id } => {
                            let leg = spec_new_leg(link, message_id, new_message_id);
                            if can_insert(old(service)@, leg) {
                                r == RelayOutcome::Relayed
                                    && final(service)@ == old(service)@.push(leg)
                            } else {
                                r == RelayOutcome::PersistFailed(
                                    MessageLinkServiceError::Conflict,
                                ) && final(service)@ == old(service)@
                            }
                        },
                    },
                }
            },
        },
{
    let anchor = match reply_to {
        None => {
            return RelayOutcome::NotAReply;
        },
        Some(anchor) => anchor,
    };
    let found = match service.find(anchor.chat_id, anchor.message_id, MessageLinkDirection::Admin) {
        Ok(found) => found,
        Err(_) => {
            return RelayOutcome::LookupFailed;
        },
    };
    let link = match found {
        None => {
            return RelayOutcome::NoLink;
        },
        Some(link) => link,
    };
    let new_message_id = match copy {
        CopyOutcome::Rejected => {
            return RelayOutcome::CopyFailed;
        },
        CopyOutcome::Confirmed { new_message_id } => new_message_id,
    };
    let leg = MessageLink::new(
        link.subscriber_user_id(),
        link.subscriber_chat_id(),
        new_message_id,
        link.admin_chat_id(),
        message_id,
    );
    match service.create(leg) {
        Ok(()) => RelayOutcome::Relayed,
        Err(e) => RelayOutcome::PersistFailed(e),
    }
}

} // verus!
