//! Core of a two-way message relay between an anonymous subscriber side and a
//! shared admin side of a messaging channel: the persisted bidirectional
//! mapping between an original message and its forwarded copy, the lookup
//! protocol that resolves a reply into its linking partner, and the
//! chat-scoped access-control policy that gates who may act as subscriber.

mod access;
mod app;
mod link;
mod relay;
mod service;

pub use crate::access::{chain_may_run, is_allowed, UserBlockFilter, UserServiceError};
pub use crate::app::{Arguments, Command};
pub use crate::link::{MessageLink, MessageLinkDirection};
pub use crate::relay::{
    handle, lemma_copy_failure_writes_nothing, lemma_no_link_no_actions,
    lemma_persist_requires_confirmed_copy, phase_accepts, relay_step, spec_copy_request,
    spec_new_leg, spec_step, Anchor, CopyOutcome, CopyRequest, RelayCommand, RelayEvent,
    RelayOutcome, RelayPhase,
};
pub use crate::service::{
    can_insert, lemma_create_serializes, lemma_find_absent_anchor, lemma_find_resolves_stored_link,
    lemma_lookup_characterization, lemma_lookup_unique_match, lookup, MessageLinkService,
    MessageLinkServiceError,
};
