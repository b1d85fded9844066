use vstd::prelude::*;

verus! {

/// One directed copy relationship between a subscriber-side message and its
/// admin-side copy. A link is immutable once created; a single stored link
/// serves lookups from both sides.
#[derive(Clone, Copy, Debug, PartialEq, Eq, Structural)]
pub struct MessageLink {
    pub subscriber_user_id: i64,
    pub subscriber_chat_id: i64,
    pub subscriber_message_id: i64,
    pub admin_chat_id: i64,
    pub admin_message_id: i64,
}

/// Query discriminator selecting which side of a link to match against during
/// lookup: `Admin` anchors on `(admin_chat_id, admin_message_id)`,
/// `Subscriber` on `(subscriber_chat_id, subscriber_message_id)`.
#[derive(Clone, Copy, Debug, PartialEq, Eq, Structural)]
pub enum MessageLinkDirection {
    Admin,
    Subscriber,
}

impl MessageLink {
    /// Whether this link's anchor on the given side is `(chat_id, message_id)`.
    pub open spec fn matches(self, chat_id: i64, message_id: i64, direction: MessageLinkDirection) -> bool {
        match direction {
            MessageLinkDirection::Admin =>
                self.admin_chat_id == chat_id && self.admin_message_id == message_id,
            MessageLinkDirection::Subscriber =>
                self.subscriber_chat_id == chat_id && self.subscriber_message_id == message_id,
        }
    }

    /// Two links collide when they share an anchor on either side; the store
    /// never holds two colliding links.
    pub open spec fn collides_with(self, other: MessageLink) -> bool {
        (self.admin_chat_id == other.admin_chat_id
            && self.admin_message_id == other.admin_message_id)
        || (self.subscriber_chat_id == other.subscriber_chat_id
            && self.subscriber_message_id == other.subscriber_message_id)
    }

    /// Executable form of [`MessageLink::matches`].
    pub fn is_anchored_at(
        &self,
        chat_id: i64,
        message_id: i64,
        direction: MessageLinkDirection,
    ) -> (r: bool)
        ensures
            r == self.matches(chat_id, message_id, direction),
    {
        match direction {
            MessageLinkDirection::Admin =>
                self.admin_chat_id == chat_id && self.admin_message_id == message_id,
            MessageLinkDirection::Subscriber =>
                self.subscriber_chat_id == chat_id && self.subscriber_message_id == message_id,
        }
    }

    /// Executable form of [`MessageLink::collides_with`].
    pub fn collides(&self, other: &MessageLink) -> (r: bool)
        ensures
            r == self.collides_with(*other),
    {
        (self.admin_chat_id == other.admin_chat_id
            && self.admin_message_id == other.admin_message_id)
        || (self.subscriber_chat_id == other.subscriber_chat_id
            && self.subscriber_message_id == other.subscriber_message_id)
    }

    pub fn new(
        subscriber_user_id: i64,
        subscriber_chat_id: i64,
        subscriber_message_id: i64,
        admin_chat_id: i64,
        admin_message_id: i64,
    ) -> (r: MessageLink)
        ensures
            r == (MessageLink {
                subscriber_user_id,
                subscriber_chat_id,
                subscriber_message_id,
                admin_chat_id,
                admin_message_id,
            }),
    {
        MessageLink {
            subscriber_user_id,
            subscriber_chat_id,
            subscriber_message_id,
            admin_chat_id,
            admin_message_id,
        }
    }

    pub fn subscriber_user_id(&self) -> (r: i64)
        ensures
            r == self.subscriber_user_id,
    {
        self.subscriber_user_id
    }

    pub fn subscriber_chat_id(&self) -> (r: i64)
        ensures
            r == self.subscriber_chat_id,
    {
        self.subscriber_chat_id
    }

    pub fn subscriber_message_id(&self) -> (r: i64)
        ensures
            r == self.subscriber_message_id,
    {
        self.subscriber_message_id
    }

    pub fn admin_chat_id(&self) -> (r: i64)
        ensures
            r == self.admin_chat_id,
    {
        self.admin_chat_id
    }

    pub fn admin_message_id(&self) -> (r: i64)
        ensures
            r == self.admin_message_id,
    {
        self.admin_message_id
    }
}

} // verus!
