use message_relay::{
    chain_may_run, handle, is_allowed, Anchor, Arguments, Command, CopyOutcome,
    MessageLinkService, RelayOutcome, UserBlockFilter, UserServiceError,
};

#[test]
fn unknown_user_is_allowed() {
    let filter = UserBlockFilter::new();
    assert_eq!(is_allowed(&filter, 100), Ok(true));
    assert!(!filter.is_blocked(100));
}

#[test]
fn blocked_user_is_denied() {
    let mut filter = UserBlockFilter::new();
    filter.block(100);
    assert!(filter.is_blocked(100));
    assert_eq!(is_allowed(&filter, 100), Ok(false));
    // Other chats stay unaffected.
    assert_eq!(is_allowed(&filter, 101), Ok(true));
}

#[test]
fn blocking_twice_still_denies() {
    let mut filter = UserBlockFilter::new();
    filter.block(100);
    filter.block(100);
    assert_eq!(is_allowed(&filter, 100), Ok(false));
}

#[test]
fn gate_denies_on_blocked_and_on_failure() {
    // The chain runs only on a successful not-blocked answer; an unavailable
    // lookup fails closed.
    assert!(chain_may_run(Ok(false)));
    assert!(!chain_may_run(Ok(true)));
    assert!(!chain_may_run(Err(UserServiceError::Unavailable)));
}

#[test]
fn blocked_chat_relays_nothing() {
    let mut filter = UserBlockFilter::new();
    filter.block(100);
    let mut service = MessageLinkService::new();

    // Chat 100 is denied, so its events never reach the relay and no link
    // is created.
    assert_eq!(is_allowed(&filter, 100), Ok(false));
    let allowed = chain_may_run(Ok(filter.is_blocked(100)));
    assert!(!allowed);
    if allowed {
        handle(
            &mut service,
            7,
            Some(Anchor {
                chat_id: 100,
                message_id: 3,
            }),
            CopyOutcome::Confirmed { new_message_id: 9 },
        );
    }
    assert_eq!(service.len(), 0);

    // An allowed chat's event does reach the relay.
    assert_eq!(is_allowed(&filter, 101), Ok(true));
    let allowed = chain_may_run(Ok(filter.is_blocked(101)));
    assert!(allowed);
    if allowed {
        let outcome = handle(
            &mut service,
            7,
            Some(Anchor {
                chat_id: 101,
                message_id: 3,
            }),
            CopyOutcome::Confirmed { new_message_id: 9 },
        );
        assert_eq!(outcome, RelayOutcome::NoLink);
    }
    assert_eq!(service.len(), 0);
}

#[test]
fn arguments_carry_command_and_config() {
    let args = Arguments::new(Command::Migrate, String::from("relay.conf"));
    assert_eq!(args.command, Command::Migrate);
    assert_eq!(args.config, "relay.conf");
    let args = Arguments::new(Command::Start, String::from("relay.conf"));
    assert_eq!(args.command, Command::Start);
}
