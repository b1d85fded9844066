use message_relay::{MessageLink, MessageLinkDirection, MessageLinkService, MessageLinkServiceError};

fn link(user: i64, s_chat: i64, s_msg: i64, a_chat: i64, a_msg: i64) -> MessageLink {
    MessageLink::new(user, s_chat, s_msg, a_chat, a_msg)
}

#[test]
fn create_then_find_resolves_both_anchors() {
    let mut service = MessageLinkService::new();
    let l = link(1, 100, 7, 200, 42);
    assert_eq!(service.create(l), Ok(()));
    assert_eq!(
        service.find(200, 42, MessageLinkDirection::Admin),
        Ok(Some(l))
    );
    assert_eq!(
        service.find(100, 7, MessageLinkDirection::Subscriber),
        Ok(Some(l))
    );
}

#[test]
fn find_never_inserted_is_none_not_error() {
    let mut service = MessageLinkService::new();
    assert_eq!(service.find(200, 42, MessageLinkDirection::Admin), Ok(None));
    assert_eq!(
        service.find(200, 42, MessageLinkDirection::Subscriber),
        Ok(None)
    );
    assert_eq!(service.create(link(1, 100, 7, 200, 42)), Ok(()));
    assert_eq!(service.find(200, 43, MessageLinkDirection::Admin), Ok(None));
    assert_eq!(service.find(201, 42, MessageLinkDirection::Admin), Ok(None));
    assert_eq!(
        service.find(100, 8, MessageLinkDirection::Subscriber),
        Ok(None)
    );
}

#[test]
fn direction_discriminates_anchor_side() {
    let mut service = MessageLinkService::new();
    let l = link(1, 100, 7, 200, 42);
    assert_eq!(service.create(l), Ok(()));
    // The admin anchor does not answer subscriber-side lookups, nor the
    // subscriber anchor admin-side lookups.
    assert_eq!(
        service.find(200, 42, MessageLinkDirection::Subscriber),
        Ok(None)
    );
    assert_eq!(service.find(100, 7, MessageLinkDirection::Admin), Ok(None));
}

#[test]
fn duplicate_admin_anchor_conflicts() {
    let mut service = MessageLinkService::new();
    assert_eq!(service.create(link(1, 100, 7, 200, 42)), Ok(()));
    // Same admin anchor, different subscriber side: the second create of a
    // racing pair loses with Conflict and writes nothing.
    assert_eq!(
        service.create(link(2, 101, 9, 200, 42)),
        Err(MessageLinkServiceError::Conflict)
    );
    assert_eq!(service.len(), 1);
    assert_eq!(
        service.find(200, 42, MessageLinkDirection::Admin),
        Ok(Some(link(1, 100, 7, 200, 42)))
    );
}

#[test]
fn duplicate_subscriber_anchor_conflicts() {
    let mut service = MessageLinkService::new();
    assert_eq!(service.create(link(1, 100, 7, 200, 42)), Ok(()));
    assert_eq!(
        service.create(link(1, 100, 7, 201, 50)),
        Err(MessageLinkServiceError::Conflict)
    );
    assert_eq!(service.len(), 1);
}

#[test]
fn distinct_anchors_coexist() {
    let mut service = MessageLinkService::new();
    assert_eq!(service.create(link(1, 100, 7, 200, 42)), Ok(()));
    assert_eq!(service.create(link(2, 101, 3, 200, 43)), Ok(()));
    assert_eq!(service.create(link(1, 100, 8, 200, 44)), Ok(()));
    assert_eq!(service.len(), 3);
    assert_eq!(
        service.find(200, 43, MessageLinkDirection::Admin),
        Ok(Some(link(2, 101, 3, 200, 43)))
    );
    assert_eq!(
        service.find(100, 8, MessageLinkDirection::Subscriber),
        Ok(Some(link(1, 100, 8, 200, 44)))
    );
}

#[test]
fn link_accessors_return_fields() {
    let l = link(5, 10, 20, 30, 40);
    assert_eq!(l.subscriber_user_id(), 5);
    assert_eq!(l.subscriber_chat_id(), 10);
    assert_eq!(l.subscriber_message_id(), 20);
    assert_eq!(l.admin_chat_id(), 30);
    assert_eq!(l.admin_message_id(), 40);
    assert!(l.is_anchored_at(30, 40, MessageLinkDirection::Admin));
    assert!(l.is_anchored_at(10, 20, MessageLinkDirection::Subscriber));
    assert!(!l.is_anchored_at(30, 41, MessageLinkDirection::Admin));
    assert!(l.collides(&link(9, 99, 99, 30, 40)));
    assert!(l.collides(&link(9, 10, 20, 99, 99)));
    assert!(!l.collides(&link(5, 10, 21, 30, 41)));
}
